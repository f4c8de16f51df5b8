//! The violations that validation reports.

use vstd::prelude::*;

use crate::block_spec::BlockTag;
use crate::hardfork::SpecId;

verus! {

/// Why a request was turned down.
#[derive(Clone, Debug, PartialEq, Eq)]
pub enum ProviderError {
    /// An argument is not acceptable; the message says how to put it right.
    InvalidArgument(String),
    /// The block tag has no meaning at the hardfork.
    InvalidBlockTag { block_tag: BlockTag, spec: SpecId },
    /// Fields of the transaction contradict each other; the message names them.
    InvalidTransactionInput(String),
    /// The operation is not available yet; the message names it.
    Unimplemented(String),
    /// An access list was sent to a hardfork that has none.
    UnsupportedAccessListParameter { current_hardfork: SpecId, minimum_hardfork: SpecId },
    /// Fee-market fields were sent to a hardfork that has none.
    UnsupportedEIP1559Parameters { current_hardfork: SpecId, minimum_hardfork: SpecId },
    /// Blob fields were sent to a hardfork that has none.
    UnsupportedEIP4844Parameters { current_hardfork: SpecId, minimum_hardfork: SpecId },
}

/// A [`ProviderError`] as a mathematical value: its messages are sequences of
/// characters.
pub enum Violation {
    InvalidArgument(Seq<char>),
    InvalidBlockTag { block_tag: BlockTag, spec: SpecId },
    InvalidTransactionInput(Seq<char>),
    Unimplemented(Seq<char>),
    UnsupportedAccessListParameter { current_hardfork: SpecId, minimum_hardfork: SpecId },
    UnsupportedEIP1559Parameters { current_hardfork: SpecId, minimum_hardfork: SpecId },
    UnsupportedEIP4844Parameters { current_hardfork: SpecId, minimum_hardfork: SpecId },
}

impl View for ProviderError {
    type V = Violation;

    open spec fn view(&self) -> Violation {
        match *self {
            ProviderError::InvalidArgument(message) => Violation::InvalidArgument(message@),
            ProviderError::InvalidBlockTag { block_tag, spec } => Violation::InvalidBlockTag {
                block_tag,
                spec,
            },
            ProviderError::InvalidTransactionInput(message) => Violation::InvalidTransactionInput(
                message@,
            ),
            ProviderError::Unimplemented(message) => Violation::Unimplemented(message@),
            ProviderError::UnsupportedAccessListParameter { current_hardfork, minimum_hardfork } =>
                Violation::UnsupportedAccessListParameter { current_hardfork, minimum_hardfork },
            ProviderError::UnsupportedEIP1559Parameters { current_hardfork, minimum_hardfork } =>
                Violation::UnsupportedEIP1559Parameters { current_hardfork, minimum_hardfork },
            ProviderError::UnsupportedEIP4844Parameters { current_hardfork, minimum_hardfork } =>
                Violation::UnsupportedEIP4844Parameters { current_hardfork, minimum_hardfork },
        }
    }
}

/// What a validation reported: nothing, or the violation of the error.
pub open spec fn reported<Answer>(result: Result<Answer, ProviderError>) -> Option<Violation> {
    match result {
        Ok(_) => None,
        Err(error) => Some(error@),
    }
}

} // verus!
