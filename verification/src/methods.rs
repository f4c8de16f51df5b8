//! Arguments of requests that come in more than one encoding.

use vstd::prelude::*;

verus! {

/// A number that a client may send in either of two widths.
#[derive(Clone, Copy, Debug, PartialEq, Eq, Structural, Hash)]
pub enum U64OrUsize {
    Usize(usize),
    U64(u64),
}

impl U64OrUsize {
    /// The number, whichever width it came in.
    pub open spec fn spec_value(self) -> u64 {
        match self {
            U64OrUsize::Usize(number) => number as u64,
            U64OrUsize::U64(number) => number,
        }
    }

    #[verifier::when_used_as_spec(spec_value)]
    pub fn value(self) -> (number: u64)
        ensures
            number == self.spec_value(),
    {
        match self {
            U64OrUsize::Usize(number) => number as u64,
            U64OrUsize::U64(number) => number,
        }
    }
}

} // verus!
