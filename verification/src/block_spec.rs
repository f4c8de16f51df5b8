//! References to a block, as requests carry them.

use vstd::prelude::*;

use crate::primitives::B256;

verus! {

/// A symbolic reference to a block.
#[derive(Clone, Copy, Debug, PartialEq, Eq, Structural, Hash)]
pub enum BlockTag {
    Earliest,
    Latest,
    Pending,
    Safe,
    Finalized,
}

impl BlockTag {
    /// Whether the tag has a meaning only from the merge onward.
    pub open spec fn spec_is_post_merge_only(self) -> bool {
        self == BlockTag::Safe || self == BlockTag::Finalized
    }

    #[verifier::when_used_as_spec(spec_is_post_merge_only)]
    pub fn is_post_merge_only(self) -> (b: bool)
        ensures
            b == self.spec_is_post_merge_only(),
    {
        match self {
            BlockTag::Safe | BlockTag::Finalized => true,
            BlockTag::Earliest | BlockTag::Latest | BlockTag::Pending => false,
        }
    }
}

/// A block reference in the older wire shape: a number or a tag.
#[derive(Clone, Copy, Debug, PartialEq, Eq, Structural, Hash)]
pub enum PreEip1898BlockSpec {
    Number(u64),
    Tag(BlockTag),
}

/// A block reference by hash or by number, as EIP-1898 added it.
#[derive(Clone, Copy, Debug, PartialEq, Eq, Hash)]
pub enum Eip1898BlockSpec {
    Hash { block_hash: B256, require_canonical: Option<bool> },
    Number { block_number: u64 },
}

/// A block reference in the newer wire shape, which holds every reference
/// that the older one can express.
#[derive(Clone, Copy, Debug, PartialEq, Eq, Hash)]
pub enum BlockSpec {
    Number(u64),
    Tag(BlockTag),
    Eip1898(Eip1898BlockSpec),
}

impl BlockSpec {
    /// The tag of the reference, if it is one.
    pub open spec fn tag(self) -> Option<BlockTag> {
        match self {
            BlockSpec::Tag(tag) => Some(tag),
            _ => None,
        }
    }
}

impl PreEip1898BlockSpec {
    /// The same reference in the newer wire shape.
    pub open spec fn spec_normalized(self) -> BlockSpec {
        match self {
            PreEip1898BlockSpec::Number(block_number) => BlockSpec::Number(block_number),
            PreEip1898BlockSpec::Tag(block_tag) => BlockSpec::Tag(block_tag),
        }
    }

    #[verifier::when_used_as_spec(spec_normalized)]
    pub fn normalized(self) -> (block_spec: BlockSpec)
        ensures
            block_spec == self.spec_normalized(),
    {
        match self {
            PreEip1898BlockSpec::Number(block_number) => BlockSpec::Number(block_number),
            PreEip1898BlockSpec::Tag(block_tag) => BlockSpec::Tag(block_tag),
        }
    }
}

} // verus!
