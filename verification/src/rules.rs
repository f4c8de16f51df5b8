//! The rules that a request has to meet, as mathematical functions.
//!
//! Every validation function of this crate reports exactly what the
//! functions of this module give for its arguments.

use vstd::prelude::*;

use crate::block_spec::BlockSpec;
use crate::decimal::decimal;
use crate::error::Violation;
use crate::hardfork::SpecId;
use crate::primitives::{AccessListItem, Address, Bytes, B256};

verus! {

/// The fields of a request that the rules read. A fee is the number that its
/// field holds; a list is the sequence of its entries.
pub struct RequestFields {
    pub gas_price: Option<nat>,
    pub max_fee_per_gas: Option<nat>,
    pub max_priority_fee_per_gas: Option<nat>,
    pub access_list: Option<Seq<AccessListItem>>,
    pub blobs: Option<Seq<Bytes>>,
    pub blob_hashes: Option<Seq<B256>>,
}

impl RequestFields {
    /// Whether the request has a fee-market field.
    pub open spec fn has_fee_market_field(self) -> bool {
        self.max_fee_per_gas is Some || self.max_priority_fee_per_gas is Some
    }

    /// Whether the request has a blob field.
    pub open spec fn has_blob_field(self) -> bool {
        self.blobs is Some || self.blob_hashes is Some
    }
}

/// The upgrade that introduced access lists.
pub open spec fn access_list_upgrade() -> SpecId {
    SpecId::BERLIN
}

/// The upgrade that introduced the fee market.
pub open spec fn fee_market_upgrade() -> SpecId {
    SpecId::LONDON
}

/// The upgrade that introduced blob transactions.
pub open spec fn blob_upgrade() -> SpecId {
    SpecId::CANCUN
}

/// The upgrade from which the tags `safe` and `finalized` have a meaning.
pub open spec fn merge_upgrade() -> SpecId {
    SpecId::MERGE
}

/// The upgrade that limited the size of init code.
pub open spec fn initcode_limit_upgrade() -> SpecId {
    SpecId::SHANGHAI
}

/// The detail of the violation for a priority fee above the maximum fee.
pub open spec fn fee_order_message(max_priority_fee_per_gas: nat, max_fee_per_gas: nat) -> Seq<
    char,
> {
    "maxPriorityFeePerGas ("@ + decimal(max_priority_fee_per_gas)
        + ") is bigger than maxFeePerGas ("@ + decimal(max_fee_per_gas) + ")"@
}

/// The violation, if any, of the fields that exclude each other whatever the
/// hardfork: a gas price beside a fee-market or blob field, and a priority fee
/// above the maximum fee.
pub open spec fn structural_violation(fields: RequestFields) -> Option<Violation> {
    if fields.gas_price is Some && fields.max_fee_per_gas is Some {
        Some(
            Violation::InvalidTransactionInput(
                "Cannot send both gasPrice and maxFeePerGas params"@,
            ),
        )
    } else if fields.gas_price is Some && fields.max_priority_fee_per_gas is Some {
        Some(
            Violation::InvalidTransactionInput(
                "Cannot send both gasPrice and maxPriorityFeePerGas"@,
            ),
        )
    } else if fields.gas_price is Some && fields.blobs is Some {
        Some(Violation::InvalidTransactionInput("Cannot send both gasPrice and blobs"@))
    } else if fields.gas_price is Some && fields.blob_hashes is Some {
        Some(Violation::InvalidTransactionInput("Cannot send both gasPrice and blobHashes"@))
    } else if fields.max_fee_per_gas is Some && fields.max_priority_fee_per_gas is Some
        && fields.max_priority_fee_per_gas->0 > fields.max_fee_per_gas->0 {
        Some(
            Violation::InvalidTransactionInput(
                fee_order_message(
                    fields.max_priority_fee_per_gas->0,
                    fields.max_fee_per_gas->0,
                ),
            ),
        )
    } else {
        None
    }
}

/// The details for the four fields that a gas price excludes differ from each
/// other, so that the detail tells which field it was.
pub proof fn lemma_exclusion_details_differ()
    ensures
        "Cannot send both gasPrice and maxFeePerGas params"@
            != "Cannot send both gasPrice and maxPriorityFeePerGas"@,
        "Cannot send both gasPrice and maxFeePerGas params"@
            != "Cannot send both gasPrice and blobs"@,
        "Cannot send both gasPrice and maxFeePerGas params"@
            != "Cannot send both gasPrice and blobHashes"@,
        "Cannot send both gasPrice and maxPriorityFeePerGas"@
            != "Cannot send both gasPrice and blobs"@,
        "Cannot send both gasPrice and maxPriorityFeePerGas"@
            != "Cannot send both gasPrice and blobHashes"@,
        "Cannot send both gasPrice and blobs"@ != "Cannot send both gasPrice and blobHashes"@,
{
    reveal_strlit("Cannot send both gasPrice and maxFeePerGas params");
    reveal_strlit("Cannot send both gasPrice and maxPriorityFeePerGas");
    reveal_strlit("Cannot send both gasPrice and blobs");
    reveal_strlit("Cannot send both gasPrice and blobHashes");
    assert("Cannot send both gasPrice and maxFeePerGas params"@.len() == 49);
    assert("Cannot send both gasPrice and maxPriorityFeePerGas"@.len() == 50);
    assert("Cannot send both gasPrice and blobs"@.len() == 35);
    assert("Cannot send both gasPrice and blobHashes"@.len() == 40);
}

/// The violation, if any, of a field that the hardfork does not have yet. The
/// access list is looked at first, then the fee market, then the blobs.
pub open spec fn feature_violation(spec_id: SpecId, fields: RequestFields) -> Option<Violation> {
    if spec_id.precedes(access_list_upgrade()) && fields.access_list is Some {
        Some(
            Violation::UnsupportedAccessListParameter {
                current_hardfork: spec_id,
                minimum_hardfork: access_list_upgrade(),
            },
        )
    } else if spec_id.precedes(fee_market_upgrade()) && fields.has_fee_market_field() {
        Some(
            Violation::UnsupportedEIP1559Parameters {
                current_hardfork: spec_id,
                minimum_hardfork: fee_market_upgrade(),
            },
        )
    } else if spec_id.precedes(blob_upgrade()) && fields.has_blob_field() {
        Some(
            Violation::UnsupportedEIP4844Parameters {
                current_hardfork: spec_id,
                minimum_hardfork: blob_upgrade(),
            },
        )
    } else {
        None
    }
}

/// The violation that a request commits at a hardfork, if it commits one: that
/// of a missing feature before that of fields that exclude each other.
pub open spec fn transaction_spec_violation(spec_id: SpecId, fields: RequestFields) -> Option<
    Violation,
> {
    match feature_violation(spec_id, fields) {
        Some(violation) => Some(violation),
        None => structural_violation(fields),
    }
}

impl RequestFields {
    /// The request without its access list.
    pub open spec fn without_access_list(self) -> RequestFields {
        RequestFields { access_list: None, ..self }
    }
}

/// An access list is turned down before the upgrade that introduced it, and
/// changes nothing after: before the upgrade a request that has an access
/// list is reported for it, whatever else it holds; from the upgrade on it is
/// judged as the same request without the access list, so that a request
/// which is valid without its access list is valid with it.
pub proof fn lemma_access_list_gate(spec_id: SpecId, fields: RequestFields)
    requires
        fields.access_list is Some,
    ensures
        spec_id.precedes(access_list_upgrade()) ==> transaction_spec_violation(spec_id, fields)
            == Some(
            Violation::UnsupportedAccessListParameter {
                current_hardfork: spec_id,
                minimum_hardfork: access_list_upgrade(),
            },
        ),
        !spec_id.precedes(access_list_upgrade()) ==> transaction_spec_violation(spec_id, fields)
            == transaction_spec_violation(spec_id, fields.without_access_list()),
        !spec_id.precedes(access_list_upgrade()) && transaction_spec_violation(
            spec_id,
            fields.without_access_list(),
        ) is None ==> transaction_spec_violation(spec_id, fields) is None,
{
}

/// Fee-market fields are turned down before the upgrade that introduced them:
/// a request that has one of them, and is not already reported for its access
/// list, is reported for it. From the upgrade on the request passes, unless
/// it is reported for a blob field or for fields that exclude each other.
pub proof fn lemma_fee_market_gate(spec_id: SpecId, fields: RequestFields)
    requires
        fields.has_fee_market_field(),
        !(spec_id.precedes(access_list_upgrade()) && fields.access_list is Some),
    ensures
        spec_id.precedes(fee_market_upgrade()) ==> transaction_spec_violation(spec_id, fields)
            == Some(
            Violation::UnsupportedEIP1559Parameters {
                current_hardfork: spec_id,
                minimum_hardfork: fee_market_upgrade(),
            },
        ),
        !spec_id.precedes(fee_market_upgrade()) && !(spec_id.precedes(blob_upgrade())
            && fields.has_blob_field()) && structural_violation(fields) is None
            ==> transaction_spec_violation(spec_id, fields) is None,
{
}

/// Blob fields are turned down before the upgrade that introduced them: a
/// request that has one of them, and is not already reported for its access
/// list or its fee-market fields, is reported for it. From the upgrade on the
/// request passes, unless its fields exclude each other.
pub proof fn lemma_blob_gate(spec_id: SpecId, fields: RequestFields)
    requires
        fields.has_blob_field(),
        !(spec_id.precedes(access_list_upgrade()) && fields.access_list is Some),
        !(spec_id.precedes(fee_market_upgrade()) && fields.has_fee_market_field()),
    ensures
        spec_id.precedes(blob_upgrade()) ==> transaction_spec_violation(spec_id, fields) == Some(
            Violation::UnsupportedEIP4844Parameters {
                current_hardfork: spec_id,
                minimum_hardfork: blob_upgrade(),
            },
        ),
        !spec_id.precedes(blob_upgrade()) && structural_violation(fields) is None
            ==> transaction_spec_violation(spec_id, fields) is None,
{
}

/// From the blob upgrade on, no request is reported for a feature that the
/// hardfork lacks.
pub proof fn lemma_every_feature_from_blob_upgrade(spec_id: SpecId, fields: RequestFields)
    requires
        !spec_id.precedes(blob_upgrade()),
    ensures
        feature_violation(spec_id, fields) is None,
{
}

/// A gas price excludes the fee-market and the blob fields: a request that
/// has a gas price and one of them, at a hardfork that has every feature of
/// the request, is reported for invalid input. The detail names the gas price
/// and the first of the other fields in the order maximum fee, priority fee,
/// blobs, blob hashes.
pub proof fn lemma_gas_price_excludes(spec_id: SpecId, fields: RequestFields)
    requires
        fields.gas_price is Some,
        fields.has_fee_market_field() || fields.has_blob_field(),
        feature_violation(spec_id, fields) is None,
    ensures
        transaction_spec_violation(spec_id, fields) matches Some(
            Violation::InvalidTransactionInput(detail),
        ) && detail == (if fields.max_fee_per_gas is Some {
            "Cannot send both gasPrice and maxFeePerGas params"@
        } else if fields.max_priority_fee_per_gas is Some {
            "Cannot send both gasPrice and maxPriorityFeePerGas"@
        } else if fields.blobs is Some {
            "Cannot send both gasPrice and blobs"@
        } else {
            "Cannot send both gasPrice and blobHashes"@
        }),
{
}

/// A priority fee may not exceed the maximum fee: a request that has both
/// fees, the priority fee the greater, at a hardfork that has every feature
/// of the request, is reported for invalid input. Without a gas price the
/// detail states both fees.
pub proof fn lemma_priority_fee_bounded(spec_id: SpecId, fields: RequestFields)
    requires
        fields.max_fee_per_gas is Some,
        fields.max_priority_fee_per_gas is Some,
        fields.max_priority_fee_per_gas->0 > fields.max_fee_per_gas->0,
        feature_violation(spec_id, fields) is None,
    ensures
        transaction_spec_violation(spec_id, fields) matches Some(
            Violation::InvalidTransactionInput(_),
        ),
        fields.gas_price is None ==> transaction_spec_violation(spec_id, fields) == Some(
            Violation::InvalidTransactionInput(
                fee_order_message(
                    fields.max_priority_fee_per_gas->0,
                    fields.max_fee_per_gas->0,
                ),
            ),
        ),
{
}

/// A request passes exactly if it breaks none of the rules: it has no field
/// that the hardfork lacks, no gas price beside a fee-market or blob field,
/// and no priority fee above the maximum fee.
pub proof fn lemma_valid_request(spec_id: SpecId, fields: RequestFields)
    ensures
        transaction_spec_violation(spec_id, fields) is None <==> {
            &&& !(spec_id.precedes(access_list_upgrade()) && fields.access_list is Some)
            &&& !(spec_id.precedes(fee_market_upgrade()) && fields.has_fee_market_field())
            &&& !(spec_id.precedes(blob_upgrade()) && fields.has_blob_field())
            &&& !(fields.gas_price is Some && (fields.has_fee_market_field()
                || fields.has_blob_field()))
            &&& !(fields.max_fee_per_gas is Some && fields.max_priority_fee_per_gas is Some
                && fields.max_priority_fee_per_gas->0 > fields.max_fee_per_gas->0)
        },
{
}

/// The rules read nothing of a request but the presence of its fields and
/// the two fees: requests that agree in these are reported alike.
pub proof fn lemma_rules_read_presence_and_fees(spec_id: SpecId, a: RequestFields, b: RequestFields)
    requires
        a.gas_price is Some <==> b.gas_price is Some,
        a.max_fee_per_gas == b.max_fee_per_gas,
        a.max_priority_fee_per_gas == b.max_priority_fee_per_gas,
        a.access_list is Some <==> b.access_list is Some,
        a.blobs is Some <==> b.blobs is Some,
        a.blob_hashes is Some <==> b.blob_hashes is Some,
    ensures
        transaction_spec_violation(spec_id, a) == transaction_spec_violation(spec_id, b),
{
}

/// What a client is told when it sends an access list to a hardfork that has
/// none.
pub open spec fn unsupported_access_list_message(minimum_hardfork: SpecId) -> Seq<char> {
    "Access list received but is not supported by the current hardfork. \n\nYou can use them by running Hardhat Network with 'hardfork' "@
        + minimum_hardfork.spec_name() + " or later."@
}

/// What a client is told when it sends fee-market fields to a hardfork that
/// has none.
pub open spec fn unsupported_eip1559_message(minimum_hardfork: SpecId) -> Seq<char> {
    "EIP-1559 style fee params (maxFeePerGas or maxPriorityFeePerGas) received but they are not supported by the current hardfork.\n\nYou can use them by running Hardhat Network with 'hardfork' "@
        + minimum_hardfork.spec_name() + " or later."@
}

/// The violation with an unsupported access list turned into advice; every
/// other violation as it is.
pub open spec fn with_access_list_advice(violation: Violation) -> Violation {
    match violation {
        Violation::UnsupportedAccessListParameter { minimum_hardfork, .. } => {
            Violation::InvalidArgument(unsupported_access_list_message(minimum_hardfork))
        },
        _ => violation,
    }
}

/// The violation with unsupported fee-market fields turned into advice; every
/// other violation as it is.
pub open spec fn with_eip1559_advice(violation: Violation) -> Violation {
    match violation {
        Violation::UnsupportedEIP1559Parameters { minimum_hardfork, .. } => {
            Violation::InvalidArgument(unsupported_eip1559_message(minimum_hardfork))
        },
        _ => violation,
    }
}

/// What the validation of a transaction or call request reports: the
/// violation of the rules, an unsupported access list as advice.
pub open spec fn transaction_and_call_request_violation(
    spec_id: SpecId,
    fields: RequestFields,
) -> Option<Violation> {
    match transaction_spec_violation(spec_id, fields) {
        Some(violation) => Some(with_access_list_advice(violation)),
        None => None,
    }
}

/// The violation, if any, of a block reference at a hardfork: before the
/// merge the tags `safe` and `finalized` are not valid.
pub open spec fn post_merge_block_tag_violation(hardfork: SpecId, block_spec: BlockSpec) -> Option<
    Violation,
> {
    match block_spec {
        BlockSpec::Tag(block_tag) => if hardfork.precedes(merge_upgrade())
            && block_tag.is_post_merge_only() {
            Some(Violation::InvalidBlockTag { block_tag, spec: hardfork })
        } else {
            None
        },
        _ => None,
    }
}

/// What the validation of a call request reports: the violation of the block
/// reference first, else that of the fields, unsupported fee-market fields and
/// an unsupported access list as advice.
pub open spec fn call_request_violation(
    spec_id: SpecId,
    fields: RequestFields,
    block_spec: BlockSpec,
) -> Option<Violation> {
    match post_merge_block_tag_violation(spec_id, block_spec) {
        Some(violation) => Some(violation),
        None => match transaction_and_call_request_violation(spec_id, fields) {
            Some(violation) => Some(with_eip1559_advice(violation)),
            None => None,
        },
    }
}

/// The largest size of contract code, in bytes.
pub const MAX_CODE_SIZE: usize = 0x6000;

/// The largest size of the init code of a contract creation (EIP-3860): twice
/// the largest code size.
pub const MAX_INITCODE_SIZE: usize = 2 * MAX_CODE_SIZE;

/// What a client is told when the init code of its contract creation is
/// `length` bytes long and that is too long.
pub open spec fn initcode_size_message(length: nat) -> Seq<char> {
    "\nTrying to send a deployment transaction whose init code length is "@ + decimal(length)
        + ". The max length allowed by EIP-3860 is "@ + decimal(MAX_INITCODE_SIZE as nat)
        + ".\n\nEnable the 'allowUnlimitedContractSize' option to allow init codes of any length."@
}

/// The violation, if any, of the limit on init code: from the upgrade that
/// set the limit on, a contract creation may not carry more than
/// [`MAX_INITCODE_SIZE`] bytes, unless the limit is switched off.
pub open spec fn initcode_size_violation(
    spec_id: SpecId,
    allow_unlimited_contract_code_size: bool,
    to: Option<Address>,
    length: nat,
) -> Option<Violation> {
    if !spec_id.precedes(initcode_limit_upgrade()) && to is None
        && !allow_unlimited_contract_code_size && length > MAX_INITCODE_SIZE {
        Some(Violation::InvalidArgument(initcode_size_message(length)))
    } else {
        None
    }
}

} // verus!
