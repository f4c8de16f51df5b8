//! Protocol upgrades and their order.

use std::cmp::Ordering;

use vstd::prelude::*;

verus! {

/// A protocol upgrade of the Ethereum main network.
///
/// The upgrades are totally ordered by [`SpecId::number`]; a feature is
/// available at a hardfork when the hardfork does not precede the upgrade that
/// introduced the feature.
#[allow(non_camel_case_types)]
#[derive(Clone, Copy, Debug, PartialEq, Eq, Structural, Hash)]
pub enum SpecId {
    FRONTIER,
    FRONTIER_THAWING,
    HOMESTEAD,
    DAO_FORK,
    TANGERINE,
    SPURIOUS_DRAGON,
    BYZANTIUM,
    CONSTANTINOPLE,
    PETERSBURG,
    ISTANBUL,
    MUIR_GLACIER,
    BERLIN,
    LONDON,
    ARROW_GLACIER,
    GRAY_GLACIER,
    MERGE,
    SHANGHAI,
    CANCUN,
    LATEST,
}

impl SpecId {
    /// The position of the upgrade in the protocol's history. `LATEST` stands
    /// after every named upgrade.
    pub open spec fn spec_number(self) -> u8 {
        match self {
            SpecId::FRONTIER => 0,
            SpecId::FRONTIER_THAWING => 1,
            SpecId::HOMESTEAD => 2,
            SpecId::DAO_FORK => 3,
            SpecId::TANGERINE => 4,
            SpecId::SPURIOUS_DRAGON => 5,
            SpecId::BYZANTIUM => 6,
            SpecId::CONSTANTINOPLE => 7,
            SpecId::PETERSBURG => 8,
            SpecId::ISTANBUL => 9,
            SpecId::MUIR_GLACIER => 10,
            SpecId::BERLIN => 11,
            SpecId::LONDON => 12,
            SpecId::ARROW_GLACIER => 13,
            SpecId::GRAY_GLACIER => 14,
            SpecId::MERGE => 15,
            SpecId::SHANGHAI => 16,
            SpecId::CANCUN => 17,
            SpecId::LATEST => 255,
        }
    }

    /// Whether `self` comes strictly before `other`.
    pub open spec fn spec_precedes(self, other: SpecId) -> bool {
        self.spec_number() < other.spec_number()
    }

    #[verifier::when_used_as_spec(spec_number)]
    pub fn number(self) -> (n: u8)
        ensures
            n == self.spec_number(),
    {
        match self {
            SpecId::FRONTIER => 0,
            SpecId::FRONTIER_THAWING => 1,
            SpecId::HOMESTEAD => 2,
            SpecId::DAO_FORK => 3,
            SpecId::TANGERINE => 4,
            SpecId::SPURIOUS_DRAGON => 5,
            SpecId::BYZANTIUM => 6,
            SpecId::CONSTANTINOPLE => 7,
            SpecId::PETERSBURG => 8,
            SpecId::ISTANBUL => 9,
            SpecId::MUIR_GLACIER => 10,
            SpecId::BERLIN => 11,
            SpecId::LONDON => 12,
            SpecId::ARROW_GLACIER => 13,
            SpecId::GRAY_GLACIER => 14,
            SpecId::MERGE => 15,
            SpecId::SHANGHAI => 16,
            SpecId::CANCUN => 17,
            SpecId::LATEST => 255,
        }
    }

    #[verifier::when_used_as_spec(spec_precedes)]
    pub fn precedes(self, other: SpecId) -> (b: bool)
        ensures
            b == self.spec_precedes(other),
    {
        self.number() < other.number()
    }
    /// The name under which diagnostics state the upgrade.
    pub open spec fn spec_name(self) -> Seq<char> {
        match self {
            SpecId::FRONTIER => "FRONTIER"@,
            SpecId::FRONTIER_THAWING => "FRONTIER_THAWING"@,
            SpecId::HOMESTEAD => "HOMESTEAD"@,
            SpecId::DAO_FORK => "DAO_FORK"@,
            SpecId::TANGERINE => "TANGERINE"@,
            SpecId::SPURIOUS_DRAGON => "SPURIOUS_DRAGON"@,
            SpecId::BYZANTIUM => "BYZANTIUM"@,
            SpecId::CONSTANTINOPLE => "CONSTANTINOPLE"@,
            SpecId::PETERSBURG => "PETERSBURG"@,
            SpecId::ISTANBUL => "ISTANBUL"@,
            SpecId::MUIR_GLACIER => "MUIR_GLACIER"@,
            SpecId::BERLIN => "BERLIN"@,
            SpecId::LONDON => "LONDON"@,
            SpecId::ARROW_GLACIER => "ARROW_GLACIER"@,
            SpecId::GRAY_GLACIER => "GRAY_GLACIER"@,
            SpecId::MERGE => "MERGE"@,
            SpecId::SHANGHAI => "SHANGHAI"@,
            SpecId::CANCUN => "CANCUN"@,
            SpecId::LATEST => "LATEST"@,
        }
    }

    pub fn name(self) -> (s: &'static str)
        ensures
            s@ == self.spec_name(),
    {
        match self {
            SpecId::FRONTIER => "FRONTIER",
            SpecId::FRONTIER_THAWING => "FRONTIER_THAWING",
            SpecId::HOMESTEAD => "HOMESTEAD",
            SpecId::DAO_FORK => "DAO_FORK",
            SpecId::TANGERINE => "TANGERINE",
            SpecId::SPURIOUS_DRAGON => "SPURIOUS_DRAGON",
            SpecId::BYZANTIUM => "BYZANTIUM",
            SpecId::CONSTANTINOPLE => "CONSTANTINOPLE",
            SpecId::PETERSBURG => "PETERSBURG",
            SpecId::ISTANBUL => "ISTANBUL",
            SpecId::MUIR_GLACIER => "MUIR_GLACIER",
            SpecId::BERLIN => "BERLIN",
            SpecId::LONDON => "LONDON",
            SpecId::ARROW_GLACIER => "ARROW_GLACIER",
            SpecId::GRAY_GLACIER => "GRAY_GLACIER",
            SpecId::MERGE => "MERGE",
            SpecId::SHANGHAI => "SHANGHAI",
            SpecId::CANCUN => "CANCUN",
            SpecId::LATEST => "LATEST",
        }
    }

    /// The upgrade at position `n`, if there is one.
    pub fn from_number(n: u8) -> (id: Option<SpecId>)
        ensures
            match id {
                Some(id) => id.number() == n,
                None => forall|id: SpecId| id.number() != n,
            },
    {
        match n {
            0 => Some(SpecId::FRONTIER),
            1 => Some(SpecId::FRONTIER_THAWING),
            2 => Some(SpecId::HOMESTEAD),
            3 => Some(SpecId::DAO_FORK),
            4 => Some(SpecId::TANGERINE),
            5 => Some(SpecId::SPURIOUS_DRAGON),
            6 => Some(SpecId::BYZANTIUM),
            7 => Some(SpecId::CONSTANTINOPLE),
            8 => Some(SpecId::PETERSBURG),
            9 => Some(SpecId::ISTANBUL),
            10 => Some(SpecId::MUIR_GLACIER),
            11 => Some(SpecId::BERLIN),
            12 => Some(SpecId::LONDON),
            13 => Some(SpecId::ARROW_GLACIER),
            14 => Some(SpecId::GRAY_GLACIER),
            15 => Some(SpecId::MERGE),
            16 => Some(SpecId::SHANGHAI),
            17 => Some(SpecId::CANCUN),
            255 => Some(SpecId::LATEST),
            _ => None,
        }
    }
}

impl PartialOrd for SpecId {
    /// The upgrades are ordered as their positions are.
    fn partial_cmp(&self, other: &SpecId) -> (order: Option<Ordering>) {
        let a: u8 = self.number();
        let b: u8 = other.number();
        if a < b {
            Some(Ordering::Less)
        } else if a == b {
            Some(Ordering::Equal)
        } else {
            Some(Ordering::Greater)
        }
    }
}

impl vstd::std_specs::cmp::PartialOrdSpecImpl for SpecId {
    open spec fn obeys_partial_cmp_spec() -> bool {
        true
    }

    open spec fn partial_cmp_spec(&self, other: &SpecId) -> Option<Ordering> {
        if self.spec_number() < other.spec_number() {
            Some(Ordering::Less)
        } else if self.spec_number() == other.spec_number() {
            Some(Ordering::Equal)
        } else {
            Some(Ordering::Greater)
        }
    }
}

/// Two upgrades at the same position are the same upgrade.
pub proof fn lemma_number_injective(a: SpecId, b: SpecId)
    ensures
        a.number() == b.number() <==> a == b,
{
}

/// The order of the upgrades is total and strict: of two different upgrades
/// exactly one precedes the other, and the order is transitive.
pub proof fn lemma_precedes_total_order(a: SpecId, b: SpecId, c: SpecId)
    ensures
        !a.precedes(a),
        a != b ==> (a.precedes(b) <==> !b.precedes(a)),
        a.precedes(b) && b.precedes(c) ==> a.precedes(c),
{
}

} // verus!
