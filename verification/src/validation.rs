//! Validation of requests against the active hardfork.

use vstd::prelude::*;
use vstd::std_specs::convert::{FromSpec, IntoSpec};
use vstd::string::StringExecFns;

use crate::block_spec::{BlockSpec, PreEip1898BlockSpec};
use crate::decimal::append_decimal_u64;
use crate::error::{reported, ProviderError};
use crate::hardfork::SpecId;
use crate::primitives::{AccessListItem, Address, Bytes, B256};
use crate::rules::{
    call_request_violation, fee_order_message, initcode_size_message, initcode_size_violation,
    post_merge_block_tag_violation, transaction_and_call_request_violation,
    transaction_spec_violation, unsupported_access_list_message, unsupported_eip1559_message,
    RequestFields, MAX_INITCODE_SIZE,
};
use crate::transaction::{CallRequest, EthTransactionRequest, SignedTransaction};
use crate::u256::U256;

verus! {

/// The conversion of a value into its own type, `From::from` of the standard
/// library, which is documented to return its argument unchanged. With this,
/// canonical data that is handed to a validation function as such is known to
/// reach the rules as it is.
pub assume_specification<T>[ <T as From<T>>::from ](t: T) -> (same: T)
    ensures
        same == t,
;

/// The fields of a request that the rules read, borrowed from the request.
/// Each of the three shapes of a request converts into it.
#[derive(Clone, Copy, Debug)]
pub struct SpecValidationData<'data> {
    pub gas_price: Option<&'data U256>,
    pub max_fee_per_gas: Option<&'data U256>,
    pub max_priority_fee_per_gas: Option<&'data U256>,
    pub access_list: Option<&'data Vec<AccessListItem>>,
    pub blobs: Option<&'data Vec<Bytes>>,
    pub blob_hashes: Option<&'data Vec<B256>>,
}

/// The number that an optional fee holds.
pub open spec fn fee_value(fee: Option<&U256>) -> Option<nat> {
    match fee {
        Some(fee) => Some(fee@),
        None => None,
    }
}

/// The entries of an optional list.
pub open spec fn list_entries<Entry>(list: Option<&Vec<Entry>>) -> Option<Seq<Entry>> {
    match list {
        Some(list) => Some(list@),
        None => None,
    }
}

impl<'data> View for SpecValidationData<'data> {
    type V = RequestFields;

    open spec fn view(&self) -> RequestFields {
        RequestFields {
            gas_price: fee_value(self.gas_price),
            max_fee_per_gas: fee_value(self.max_fee_per_gas),
            max_priority_fee_per_gas: fee_value(self.max_priority_fee_per_gas),
            access_list: list_entries(self.access_list),
            blobs: list_entries(self.blobs),
            blob_hashes: list_entries(self.blob_hashes),
        }
    }
}

/// A reference to what an optional field holds.
pub open spec fn borrowed<Field>(field: &Option<Field>) -> Option<&Field> {
    match field {
        Some(value) => Some(value),
        None => None,
    }
}

impl<'data> From<&'data EthTransactionRequest> for SpecValidationData<'data> {
    /// The six fields of the request, borrowed.
    fn from(value: &'data EthTransactionRequest) -> (data: Self) {
        Self {
            gas_price: value.gas_price.as_ref(),
            max_fee_per_gas: value.max_fee_per_gas.as_ref(),
            max_priority_fee_per_gas: value.max_priority_fee_per_gas.as_ref(),
            access_list: value.access_list.as_ref(),
            blobs: value.blobs.as_ref(),
            blob_hashes: value.blob_hashes.as_ref(),
        }
    }
}

impl<'data> vstd::std_specs::convert::FromSpecImpl<&'data EthTransactionRequest> for SpecValidationData<'data> {
    open spec fn obeys_from_spec() -> bool {
        true
    }

    open spec fn from_spec(value: &'data EthTransactionRequest) -> Self {
        SpecValidationData {
            gas_price: borrowed(&value.gas_price),
            max_fee_per_gas: borrowed(&value.max_fee_per_gas),
            max_priority_fee_per_gas: borrowed(&value.max_priority_fee_per_gas),
            access_list: borrowed(&value.access_list),
            blobs: borrowed(&value.blobs),
            blob_hashes: borrowed(&value.blob_hashes),
        }
    }
}

impl<'data> From<&'data CallRequest> for SpecValidationData<'data> {
    /// The six fields of the request, borrowed.
    fn from(value: &'data CallRequest) -> (data: Self) {
        Self {
            gas_price: value.gas_price.as_ref(),
            max_fee_per_gas: value.max_fee_per_gas.as_ref(),
            max_priority_fee_per_gas: value.max_priority_fee_per_gas.as_ref(),
            access_list: value.access_list.as_ref(),
            blobs: value.blobs.as_ref(),
            blob_hashes: value.blob_hashes.as_ref(),
        }
    }
}

impl<'data> vstd::std_specs::convert::FromSpecImpl<&'data CallRequest> for SpecValidationData<'data> {
    open spec fn obeys_from_spec() -> bool {
        true
    }

    open spec fn from_spec(value: &'data CallRequest) -> Self {
        SpecValidationData {
            gas_price: borrowed(&value.gas_price),
            max_fee_per_gas: borrowed(&value.max_fee_per_gas),
            max_priority_fee_per_gas: borrowed(&value.max_priority_fee_per_gas),
            access_list: borrowed(&value.access_list),
            blobs: borrowed(&value.blobs),
            blob_hashes: borrowed(&value.blob_hashes),
        }
    }
}

impl<'data> From<&'data SignedTransaction> for SpecValidationData<'data> {
    /// The fields that the kind of the transaction has; the others are absent.
    /// A legacy transaction has a gas price and nothing else; an access-list
    /// transaction a gas price and an access list; a fee-market transaction
    /// both fees and an access list; a blob transaction both fees, an access
    /// list and blob hashes.
    fn from(value: &'data SignedTransaction) -> (data: Self) {
        match value {
            SignedTransaction::PreEip155Legacy(tx) => Self {
                gas_price: Some(&tx.gas_price),
                max_fee_per_gas: None,
                max_priority_fee_per_gas: None,
                access_list: None,
                blobs: None,
                blob_hashes: None,
            },
            SignedTransaction::PostEip155Legacy(tx) => Self {
                gas_price: Some(&tx.gas_price),
                max_fee_per_gas: None,
                max_priority_fee_per_gas: None,
                access_list: None,
                blobs: None,
                blob_hashes: None,
            },
            SignedTransaction::Eip2930(tx) => Self {
                gas_price: Some(&tx.gas_price),
                max_fee_per_gas: None,
                max_priority_fee_per_gas: None,
                access_list: Some(&tx.access_list.0),
                blobs: None,
                blob_hashes: None,
            },
            SignedTransaction::Eip1559(tx) => Self {
                gas_price: None,
                max_fee_per_gas: Some(&tx.max_fee_per_gas),
                max_priority_fee_per_gas: Some(&tx.max_priority_fee_per_gas),
                access_list: Some(&tx.access_list.0),
                blobs: None,
                blob_hashes: None,
            },
            SignedTransaction::Eip4844(tx) => Self {
                gas_price: None,
                max_fee_per_gas: Some(&tx.max_fee_per_gas),
                max_priority_fee_per_gas: Some(&tx.max_priority_fee_per_gas),
                access_list: Some(&tx.access_list.0),
                blobs: None,
                blob_hashes: Some(&tx.blob_hashes),
            },
        }
    }
}

impl<'data> vstd::std_specs::convert::FromSpecImpl<&'data SignedTransaction> for SpecValidationData<'data> {
    open spec fn obeys_from_spec() -> bool {
        true
    }

    open spec fn from_spec(value: &'data SignedTransaction) -> Self {
        match value {
            SignedTransaction::PreEip155Legacy(tx) => SpecValidationData {
                gas_price: Some(&tx.gas_price),
                max_fee_per_gas: None,
                max_priority_fee_per_gas: None,
                access_list: None,
                blobs: None,
                blob_hashes: None,
            },
            SignedTransaction::PostEip155Legacy(tx) => SpecValidationData {
                gas_price: Some(&tx.gas_price),
                max_fee_per_gas: None,
                max_priority_fee_per_gas: None,
                access_list: None,
                blobs: None,
                blob_hashes: None,
            },
            SignedTransaction::Eip2930(tx) => SpecValidationData {
                gas_price: Some(&tx.gas_price),
                max_fee_per_gas: None,
                max_priority_fee_per_gas: None,
                access_list: Some(&tx.access_list.0),
                blobs: None,
                blob_hashes: None,
            },
            SignedTransaction::Eip1559(tx) => SpecValidationData {
                gas_price: None,
                max_fee_per_gas: Some(&tx.max_fee_per_gas),
                max_priority_fee_per_gas: Some(&tx.max_priority_fee_per_gas),
                access_list: Some(&tx.access_list.0),
                blobs: None,
                blob_hashes: None,
            },
            SignedTransaction::Eip4844(tx) => SpecValidationData {
                gas_price: None,
                max_fee_per_gas: Some(&tx.max_fee_per_gas),
                max_priority_fee_per_gas: Some(&tx.max_priority_fee_per_gas),
                access_list: Some(&tx.access_list.0),
                blobs: None,
                blob_hashes: Some(&tx.blob_hashes),
            },
        }
    }
}

/// Whether a transaction request holds the fields that the signed
/// transaction has, with the same values, and no others.
pub open spec fn holds_fields_of(request: EthTransactionRequest, signed: SignedTransaction) -> bool {
    match signed {
        SignedTransaction::PreEip155Legacy(tx) => {
            &&& request.gas_price == Some(tx.gas_price)
            &&& request.max_fee_per_gas is None
            &&& request.max_priority_fee_per_gas is None
            &&& request.access_list is None
            &&& request.blobs is None
            &&& request.blob_hashes is None
        },
        SignedTransaction::PostEip155Legacy(tx) => {
            &&& request.gas_price == Some(tx.gas_price)
            &&& request.max_fee_per_gas is None
            &&& request.max_priority_fee_per_gas is None
            &&& request.access_list is None
            &&& request.blobs is None
            &&& request.blob_hashes is None
        },
        SignedTransaction::Eip2930(tx) => {
            &&& request.gas_price == Some(tx.gas_price)
            &&& request.max_fee_per_gas is None
            &&& request.max_priority_fee_per_gas is None
            &&& request.access_list == Some(tx.access_list.0)
            &&& request.blobs is None
            &&& request.blob_hashes is None
        },
        SignedTransaction::Eip1559(tx) => {
            &&& request.gas_price is None
            &&& request.max_fee_per_gas == Some(tx.max_fee_per_gas)
            &&& request.max_priority_fee_per_gas == Some(tx.max_priority_fee_per_gas)
            &&& request.access_list == Some(tx.access_list.0)
            &&& request.blobs is None
            &&& request.blob_hashes is None
        },
        SignedTransaction::Eip4844(tx) => {
            &&& request.gas_price is None
            &&& request.max_fee_per_gas == Some(tx.max_fee_per_gas)
            &&& request.max_priority_fee_per_gas == Some(tx.max_priority_fee_per_gas)
            &&& request.access_list == Some(tx.access_list.0)
            &&& request.blobs is None
            &&& request.blob_hashes == Some(tx.blob_hashes)
        },
    }
}

/// A transaction request and a call request whose six fields are equal, one
/// by one, are the same to the rules: their canonical fields are equal, and
/// so is what validation reports for them at any hardfork.
pub proof fn lemma_request_shapes_agree(
    spec_id: SpecId,
    request: EthTransactionRequest,
    call_request: CallRequest,
)
    requires
        request.gas_price == call_request.gas_price,
        request.max_fee_per_gas == call_request.max_fee_per_gas,
        request.max_priority_fee_per_gas == call_request.max_priority_fee_per_gas,
        request.access_list == call_request.access_list,
        request.blobs == call_request.blobs,
        request.blob_hashes == call_request.blob_hashes,
    ensures
        SpecValidationData::from_spec(&request)@ == SpecValidationData::from_spec(&call_request)@,
        transaction_spec_violation(spec_id, SpecValidationData::from_spec(&request)@)
            == transaction_spec_violation(spec_id, SpecValidationData::from_spec(&call_request)@),
        transaction_and_call_request_violation(spec_id, SpecValidationData::from_spec(&request)@)
            == transaction_and_call_request_violation(
            spec_id,
            SpecValidationData::from_spec(&call_request)@,
        ),
{
}

/// A signed transaction, of any of the five kinds, is the same to the rules
/// as a transaction request that holds its fields: their canonical fields are
/// equal, and so is what validation reports for them at any hardfork.
pub proof fn lemma_signed_transaction_agrees(
    spec_id: SpecId,
    signed: SignedTransaction,
    request: EthTransactionRequest,
)
    requires
        holds_fields_of(request, signed),
    ensures
        SpecValidationData::from_spec(&signed)@ == SpecValidationData::from_spec(&request)@,
        transaction_spec_violation(spec_id, SpecValidationData::from_spec(&signed)@)
            == transaction_spec_violation(spec_id, SpecValidationData::from_spec(&request)@),
        transaction_and_call_request_violation(spec_id, SpecValidationData::from_spec(&signed)@)
            == transaction_and_call_request_violation(
            spec_id,
            SpecValidationData::from_spec(&request)@,
        ),
{
}

/// Checks a request against the rules of the hardfork `spec_id`, and reports
/// the first rule that it breaks.
pub fn validate_transaction_spec(spec_id: SpecId, data: SpecValidationData<'_>) -> (result: Result<
    (),
    ProviderError,
>)
    ensures
        reported(result) == transaction_spec_violation(spec_id, data@),
{
    let SpecValidationData {
        gas_price,
        max_fee_per_gas,
        max_priority_fee_per_gas,
        access_list,
        blobs,
        blob_hashes,
    } = data;

    if spec_id < SpecId::BERLIN && access_list.is_some() {
        return Err(
            ProviderError::UnsupportedAccessListParameter {
                current_hardfork: spec_id,
                minimum_hardfork: SpecId::BERLIN,
            },
        );
    }
    if spec_id < SpecId::LONDON && (max_fee_per_gas.is_some()
        || max_priority_fee_per_gas.is_some()) {
        return Err(
            ProviderError::UnsupportedEIP1559Parameters {
                current_hardfork: spec_id,
                minimum_hardfork: SpecId::LONDON,
            },
        );
    }
    if spec_id < SpecId::CANCUN && (blobs.is_some() || blob_hashes.is_some()) {
        return Err(
            ProviderError::UnsupportedEIP4844Parameters {
                current_hardfork: spec_id,
                minimum_hardfork: SpecId::CANCUN,
            },
        );
    }
    if gas_price.is_some() {
        if max_fee_per_gas.is_some() {
            return Err(
                ProviderError::InvalidTransactionInput(
                    String::from_str("Cannot send both gasPrice and maxFeePerGas params"),
                ),
            );
        }
        if max_priority_fee_per_gas.is_some() {
            return Err(
                ProviderError::InvalidTransactionInput(
                    String::from_str("Cannot send both gasPrice and maxPriorityFeePerGas"),
                ),
            );
        }
        if blobs.is_some() {
            return Err(
                ProviderError::InvalidTransactionInput(
                    String::from_str("Cannot send both gasPrice and blobs"),
                ),
            );
        }
        if blob_hashes.is_some() {
            return Err(
                ProviderError::InvalidTransactionInput(
                    String::from_str("Cannot send both gasPrice and blobHashes"),
                ),
            );
        }
    }
    if let Some(max_fee_per_gas) = max_fee_per_gas {
        if let Some(max_priority_fee_per_gas) = max_priority_fee_per_gas {
            if max_priority_fee_per_gas > max_fee_per_gas {
                return Err(
                    ProviderError::InvalidTransactionInput(
                        fee_order_text(max_priority_fee_per_gas, max_fee_per_gas),
                    ),
                );
            }
        }
    }
    Ok(())
}

/// The detail of the violation for a priority fee above the maximum fee.
fn fee_order_text(max_priority_fee_per_gas: &U256, max_fee_per_gas: &U256) -> (text: String)
    ensures
        text@ == fee_order_message(max_priority_fee_per_gas@, max_fee_per_gas@),
{
    let mut text = String::from_str("maxPriorityFeePerGas (");
    max_priority_fee_per_gas.append_decimal(&mut text);
    text.append(") is bigger than maxFeePerGas (");
    max_fee_per_gas.append_decimal(&mut text);
    text.append(")");
    assert(text@ =~= fee_order_message(max_priority_fee_per_gas@, max_fee_per_gas@));
    text
}

/// What a client is told when it sends an access list to a hardfork that has
/// none.
fn unsupported_access_list_text(minimum_hardfork: SpecId) -> (text: String)
    ensures
        text@ == unsupported_access_list_message(minimum_hardfork),
{
    let mut text = String::from_str(
        "Access list received but is not supported by the current hardfork. \n\nYou can use them by running Hardhat Network with 'hardfork' ",
    );
    text.append(minimum_hardfork.name());
    text.append(" or later.");
    text
}

/// What a client is told when it sends fee-market fields to a hardfork that
/// has none.
fn unsupported_eip1559_text(minimum_hardfork: SpecId) -> (text: String)
    ensures
        text@ == unsupported_eip1559_message(minimum_hardfork),
{
    let mut text = String::from_str(
        "EIP-1559 style fee params (maxFeePerGas or maxPriorityFeePerGas) received but they are not supported by the current hardfork.\n\nYou can use them by running Hardhat Network with 'hardfork' ",
    );
    text.append(minimum_hardfork.name());
    text.append(" or later.");
    text
}

/// Validates a call request and the block that it refers to. A block tag that
/// the hardfork does not know is reported first; unsupported fee-market fields
/// and an unsupported access list are reported as advice on the hardfork to
/// run.
pub fn validate_call_request(
    spec_id: SpecId,
    call_request: &CallRequest,
    block_spec: &BlockSpec,
) -> (result: Result<(), ProviderError>)
    ensures
        reported(result) == call_request_violation(
            spec_id,
            SpecValidationData::from_spec(call_request)@,
            *block_spec,
        ),
{
    match validate_post_merge_block_tags(spec_id, block_spec) {
        Ok(()) => {},
        Err(error) => {
            return Err(error);
        },
    }
    match validate_transaction_and_call_request(spec_id, SpecValidationData::from(call_request)) {
        Ok(()) => Ok(()),
        Err(ProviderError::UnsupportedEIP1559Parameters { minimum_hardfork, .. }) => Err(
            ProviderError::InvalidArgument(unsupported_eip1559_text(minimum_hardfork)),
        ),
        Err(error) => Err(error),
    }
}

/// Validates the fields of a transaction or call request, whatever shape it
/// came in. An unsupported access list is reported as advice on the hardfork
/// to run; every other violation as the rules give it.
pub fn validate_transaction_and_call_request<'a, Source: Into<SpecValidationData<'a>>>(
    spec_id: SpecId,
    validation_data: Source,
) -> (result: Result<(), ProviderError>)
    ensures
        exists|data: SpecValidationData<'a>|
            {
                &&& #[trigger] call_ensures(Source::into, (validation_data,), data)
                &&& reported(result) == transaction_and_call_request_violation(spec_id, data@)
            },
        Source::obeys_into_spec() ==> reported(result) == transaction_and_call_request_violation(
            spec_id,
            validation_data.into_spec()@,
        ),
{
    match validate_transaction_spec(spec_id, validation_data.into()) {
        Ok(()) => Ok(()),
        Err(ProviderError::UnsupportedAccessListParameter { minimum_hardfork, .. }) => Err(
            ProviderError::InvalidArgument(unsupported_access_list_text(minimum_hardfork)),
        ),
        Err(error) => Err(error),
    }
}

/// What a client is told when its init code of `length` bytes is too long.
fn initcode_size_text(length: usize) -> (text: String)
    ensures
        text@ == initcode_size_message(length as nat),
{
    let mut text = String::from_str(
        "\nTrying to send a deployment transaction whose init code length is ",
    );
    append_decimal_u64(&mut text, length as u64);
    text.append(". The max length allowed by EIP-3860 is ");
    append_decimal_u64(&mut text, MAX_INITCODE_SIZE as u64);
    text.append(
        ".\n\nEnable the 'allowUnlimitedContractSize' option to allow init codes of any length.",
    );
    assert(text@ =~= initcode_size_message(length as nat));
    text
}

/// Checks the size of the init code of a contract creation (EIP-3860). A
/// request with a destination is no contract creation and passes, and so does
/// every request before the upgrade that set the limit, or with the limit
/// switched off.
pub fn validate_eip3860_max_initcode_size(
    spec_id: SpecId,
    allow_unlimited_contract_code_size: bool,
    to: &Option<Address>,
    data: &Bytes,
) -> (result: Result<(), ProviderError>)
    ensures
        reported(result) == initcode_size_violation(
            spec_id,
            allow_unlimited_contract_code_size,
            *to,
            data@.len(),
        ),
{
    if spec_id < SpecId::SHANGHAI || to.is_some() || allow_unlimited_contract_code_size {
        return Ok(());
    }
    if data.len() > MAX_INITCODE_SIZE {
        return Err(ProviderError::InvalidArgument(initcode_size_text(data.len())));
    }
    Ok(())
}

/// A block reference in either of its two wire shapes.
#[derive(Clone, Copy, Debug)]
pub enum ValidationBlockSpec<'a> {
    PreEip1898(&'a PreEip1898BlockSpec),
    PostEip1898(&'a BlockSpec),
}

impl<'a> ValidationBlockSpec<'a> {
    /// The block that the reference names, in the newer shape.
    pub open spec fn normalized(self) -> BlockSpec {
        match self {
            ValidationBlockSpec::PreEip1898(block_spec) => block_spec.normalized(),
            ValidationBlockSpec::PostEip1898(block_spec) => *block_spec,
        }
    }
}

impl<'a> From<&'a PreEip1898BlockSpec> for ValidationBlockSpec<'a> {
    fn from(value: &'a PreEip1898BlockSpec) -> (block_spec: Self) {
        Self::PreEip1898(value)
    }
}

impl<'a> vstd::std_specs::convert::FromSpecImpl<&'a PreEip1898BlockSpec> for ValidationBlockSpec<'a> {
    open spec fn obeys_from_spec() -> bool {
        true
    }

    open spec fn from_spec(value: &'a PreEip1898BlockSpec) -> Self {
        ValidationBlockSpec::PreEip1898(value)
    }
}

impl<'a> From<&'a BlockSpec> for ValidationBlockSpec<'a> {
    fn from(value: &'a BlockSpec) -> (block_spec: Self) {
        Self::PostEip1898(value)
    }
}

impl<'a> vstd::std_specs::convert::FromSpecImpl<&'a BlockSpec> for ValidationBlockSpec<'a> {
    open spec fn obeys_from_spec() -> bool {
        true
    }

    open spec fn from_spec(value: &'a BlockSpec) -> Self {
        ValidationBlockSpec::PostEip1898(value)
    }
}

impl<'a> From<ValidationBlockSpec<'a>> for BlockSpec {
    /// The block that the reference names, in the newer shape: a number stays
    /// a number and a tag the same tag.
    fn from(value: ValidationBlockSpec<'a>) -> (block_spec: Self) {
        match value {
            ValidationBlockSpec::PreEip1898(PreEip1898BlockSpec::Number(block_number)) => {
                BlockSpec::Number(*block_number)
            },
            ValidationBlockSpec::PreEip1898(PreEip1898BlockSpec::Tag(block_tag)) => {
                BlockSpec::Tag(*block_tag)
            },
            ValidationBlockSpec::PostEip1898(block_spec) => *block_spec,
        }
    }
}

impl<'a> vstd::std_specs::convert::FromSpecImpl<ValidationBlockSpec<'a>> for BlockSpec {
    open spec fn obeys_from_spec() -> bool {
        true
    }

    open spec fn from_spec(value: ValidationBlockSpec<'a>) -> Self {
        value.normalized()
    }
}

/// The two wire shapes of a block reference are the same to validation: a
/// reference in the older shape is reported as the same number or tag in the
/// newer shape is.
pub proof fn lemma_wire_shapes_agree(
    hardfork: SpecId,
    older: PreEip1898BlockSpec,
    newer: BlockSpec,
)
    requires
        newer == older.normalized(),
    ensures
        ValidationBlockSpec::from_spec(&older).normalized() == ValidationBlockSpec::from_spec(
            &newer,
        ).normalized(),
        post_merge_block_tag_violation(hardfork, ValidationBlockSpec::from_spec(&older).normalized())
            == post_merge_block_tag_violation(
            hardfork,
            ValidationBlockSpec::from_spec(&newer).normalized(),
        ),
{
}

/// Checks that the block reference is valid at the hardfork: before the merge
/// the tags `safe` and `finalized` are turned down, in either wire shape.
pub fn validate_post_merge_block_tags<'a, Reference: Into<ValidationBlockSpec<'a>>>(
    hardfork: SpecId,
    block_spec: Reference,
) -> (result: Result<(), ProviderError>)
    ensures
        exists|reference: ValidationBlockSpec<'a>|
            {
                &&& #[trigger] call_ensures(Reference::into, (block_spec,), reference)
                &&& reported(result) == post_merge_block_tag_violation(
                    hardfork,
                    reference.normalized(),
                )
            },
        Reference::obeys_into_spec() ==> reported(result) == post_merge_block_tag_violation(
            hardfork,
            block_spec.into_spec().normalized(),
        ),
{
    let block_spec: ValidationBlockSpec<'a> = block_spec.into();
    if hardfork < SpecId::MERGE {
        match BlockSpec::from(block_spec) {
            BlockSpec::Tag(block_tag) => {
                if block_tag.is_post_merge_only() {
                    return Err(ProviderError::InvalidBlockTag { block_tag, spec: hardfork });
                }
            },
            _ => {},
        }
    }
    Ok(())
}

} // verus!
