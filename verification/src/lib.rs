//! Hardfork-aware validation of Ethereum transaction and call requests.
//!
//! A field of a request is legal only from the hardfork that introduced it
//! onward, and some fields exclude each other whatever the hardfork. The
//! functions of this crate decide, for a hardfork and a request, whether the
//! request may be admitted, and say in their contracts exactly which
//! violation is reported for which input.
//!
//! - [`rules`] holds the rules themselves, as spec functions from a hardfork
//!   and the fields of a request to the violation, and the theorems about
//!   them.
//! - [`validation`] holds the functions that apply the rules: the conversion
//!   of the three shapes of a request into the fields that the rules read,
//!   the check of these fields, the guards for block tags and for the size of
//!   init code, and the advice that a client is given with some violations.
//! - [`evm`] holds the handlers that pass an `evm_*` request on to the chain
//!   state, which is any implementation of [`ChainState`].
//! - [`hardfork`], [`u256`], [`primitives`], [`block_spec`], [`transaction`],
//!   [`methods`] and [`error`] hold the values that requests and answers are
//!   made of, and [`decimal`] the numerals that the messages state.

pub mod block_spec;
pub mod data;
pub mod decimal;
pub mod error;
pub mod evm;
pub mod hardfork;
pub mod methods;
pub mod primitives;
pub mod rules;
pub mod transaction;
pub mod u256;
pub mod validation;

pub use block_spec::{BlockSpec, BlockTag, Eip1898BlockSpec, PreEip1898BlockSpec};
pub use data::ChainState;
pub use error::ProviderError;
pub use evm::{
    handle_increase_time_request, handle_mine_request, handle_set_automine_request,
    handle_set_block_gas_limit_request, handle_set_next_block_timestamp_request, mine_response,
};
pub use hardfork::SpecId;
pub use methods::U64OrUsize;
pub use primitives::{AccessList, AccessListItem, Address, Bytes, B256};
pub use rules::{MAX_CODE_SIZE, MAX_INITCODE_SIZE};
pub use transaction::{
    CallRequest, Eip1559SignedTransaction, Eip155SignedTransaction, Eip2930SignedTransaction,
    Eip4844SignedTransaction, EthTransactionRequest, LegacySignedTransaction, Signature,
    SignedTransaction, TransactionKind,
};
pub use u256::U256;
pub use validation::{
    validate_call_request, validate_eip3860_max_initcode_size, validate_post_merge_block_tags,
    validate_transaction_and_call_request, validate_transaction_spec, SpecValidationData,
    ValidationBlockSpec,
};
