//! The three shapes in which a transaction reaches validation.

use vstd::prelude::*;

use crate::primitives::{AccessList, AccessListItem, Address, Bytes, B256};
use crate::u256::U256;

verus! {

/// A transaction as a client asks for it. Any of the optional fields may be
/// absent.
#[derive(Clone, Debug, PartialEq, Eq)]
pub struct EthTransactionRequest {
    /// The sender.
    pub from: Address,
    /// The receiver; absent for a contract creation.
    pub to: Option<Address>,
    pub gas: Option<u64>,
    pub gas_price: Option<U256>,
    pub max_fee_per_gas: Option<U256>,
    pub max_priority_fee_per_gas: Option<U256>,
    pub value: Option<U256>,
    pub data: Option<Bytes>,
    pub nonce: Option<u64>,
    pub chain_id: Option<u64>,
    pub access_list: Option<Vec<AccessListItem>>,
    pub transaction_type: Option<u64>,
    pub blobs: Option<Vec<Bytes>>,
    pub blob_hashes: Option<Vec<B256>>,
}

impl Default for EthTransactionRequest {
    /// A request from the zero address in which every optional field is absent.
    fn default() -> (request: EthTransactionRequest)
        ensures
            request.from.is_zero(),
            request.to is None,
            request.gas is None,
            request.gas_price is None,
            request.max_fee_per_gas is None,
            request.max_priority_fee_per_gas is None,
            request.value is None,
            request.data is None,
            request.nonce is None,
            request.chain_id is None,
            request.access_list is None,
            request.transaction_type is None,
            request.blobs is None,
            request.blob_hashes is None,
    {
        EthTransactionRequest {
            from: Address::zero(),
            to: None,
            gas: None,
            gas_price: None,
            max_fee_per_gas: None,
            max_priority_fee_per_gas: None,
            value: None,
            data: None,
            nonce: None,
            chain_id: None,
            access_list: None,
            transaction_type: None,
            blobs: None,
            blob_hashes: None,
        }
    }
}

/// A request to simulate a call. It has the fee, access-list and blob fields
/// of a transaction request, and neither nonce nor signature.
#[derive(Clone, Debug, PartialEq, Eq)]
pub struct CallRequest {
    pub from: Option<Address>,
    pub to: Option<Address>,
    pub gas: Option<u64>,
    pub gas_price: Option<U256>,
    pub max_fee_per_gas: Option<U256>,
    pub max_priority_fee_per_gas: Option<U256>,
    pub value: Option<U256>,
    pub data: Option<Bytes>,
    pub access_list: Option<Vec<AccessListItem>>,
    pub transaction_type: Option<u64>,
    pub blobs: Option<Vec<Bytes>>,
    pub blob_hashes: Option<Vec<B256>>,
}

impl Default for CallRequest {
    /// A request in which every field is absent.
    fn default() -> (request: CallRequest)
        ensures
            request.from is None,
            request.to is None,
            request.gas is None,
            request.gas_price is None,
            request.max_fee_per_gas is None,
            request.max_priority_fee_per_gas is None,
            request.value is None,
            request.data is None,
            request.access_list is None,
            request.transaction_type is None,
            request.blobs is None,
            request.blob_hashes is None,
    {
        CallRequest {
            from: None,
            to: None,
            gas: None,
            gas_price: None,
            max_fee_per_gas: None,
            max_priority_fee_per_gas: None,
            value: None,
            data: None,
            access_list: None,
            transaction_type: None,
            blobs: None,
            blob_hashes: None,
        }
    }
}

/// Whether a transaction calls an account or creates a contract.
#[derive(Clone, Copy, Debug, PartialEq, Eq, Hash)]
pub enum TransactionKind {
    Call(Address),
    Create,
}

/// The signature of a legacy transaction.
#[derive(Clone, Copy, Debug, PartialEq, Eq, Hash)]
pub struct Signature {
    pub r: U256,
    pub s: U256,
    pub v: u64,
}

/// A signed transaction from before EIP-155.
#[derive(Clone, Debug, PartialEq, Eq)]
pub struct LegacySignedTransaction {
    pub nonce: u64,
    pub gas_price: U256,
    pub gas_limit: u64,
    pub kind: TransactionKind,
    pub value: U256,
    pub input: Bytes,
    pub signature: Signature,
}

/// A signed legacy transaction whose signature holds the chain id (EIP-155).
#[derive(Clone, Debug, PartialEq, Eq)]
pub struct Eip155SignedTransaction {
    pub nonce: u64,
    pub gas_price: U256,
    pub gas_limit: u64,
    pub kind: TransactionKind,
    pub value: U256,
    pub input: Bytes,
    pub signature: Signature,
}

/// A signed transaction with an access list (EIP-2930).
#[derive(Clone, Debug, PartialEq, Eq)]
pub struct Eip2930SignedTransaction {
    pub chain_id: u64,
    pub nonce: u64,
    pub gas_price: U256,
    pub gas_limit: u64,
    pub kind: TransactionKind,
    pub value: U256,
    pub input: Bytes,
    pub access_list: AccessList,
    pub odd_y_parity: bool,
    pub r: U256,
    pub s: U256,
}

/// A signed fee-market transaction (EIP-1559).
#[derive(Clone, Debug, PartialEq, Eq)]
pub struct Eip1559SignedTransaction {
    pub chain_id: u64,
    pub nonce: u64,
    pub max_priority_fee_per_gas: U256,
    pub max_fee_per_gas: U256,
    pub gas_limit: u64,
    pub kind: TransactionKind,
    pub value: U256,
    pub input: Bytes,
    pub access_list: AccessList,
    pub odd_y_parity: bool,
    pub r: U256,
    pub s: U256,
}

/// A signed blob transaction (EIP-4844).
#[derive(Clone, Debug, PartialEq, Eq)]
pub struct Eip4844SignedTransaction {
    pub chain_id: u64,
    pub nonce: u64,
    pub max_priority_fee_per_gas: U256,
    pub max_fee_per_gas: U256,
    pub max_fee_per_blob_gas: U256,
    pub gas_limit: u64,
    pub to: Address,
    pub value: U256,
    pub input: Bytes,
    pub access_list: AccessList,
    pub blob_hashes: Vec<B256>,
    pub odd_y_parity: bool,
    pub r: U256,
    pub s: U256,
}

/// A transaction that has been signed: one of the five kinds that the
/// protocol knows.
#[derive(Clone, Debug, PartialEq, Eq)]
pub enum SignedTransaction {
    PreEip155Legacy(LegacySignedTransaction),
    PostEip155Legacy(Eip155SignedTransaction),
    Eip2930(Eip2930SignedTransaction),
    Eip1559(Eip1559SignedTransaction),
    Eip4844(Eip4844SignedTransaction),
}

} // verus!
