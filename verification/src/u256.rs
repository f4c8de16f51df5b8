//! Unsigned 256-bit integers.

use std::cmp::Ordering;

use vstd::prelude::*;
use vstd::std_specs::convert::FromSpec;
use vstd::string::StringExecFns;

use crate::decimal::{decimal, digit_str};

verus! {

/// 2^64, the base of the limbs.
pub open spec fn limb_base() -> nat {
    0x1_0000_0000_0000_0000
}

/// An unsigned integer of 256 bits, held as four limbs of 64 bits, the least
/// significant first.
#[derive(Clone, Copy, Debug, Eq, Hash)]
pub struct U256 {
    pub limbs: [u64; 4],
}

/// The number that four limbs stand for, the least significant first.
pub open spec fn limbs_value(limbs: Seq<u64>) -> nat
    recommends
        limbs.len() == 4,
{
    (limbs[0] as nat) + limb_base() * ((limbs[1] as nat) + limb_base() * ((limbs[2] as nat)
        + limb_base() * (limbs[3] as nat)))
}

impl View for U256 {
    type V = nat;

    /// The number that the limbs stand for.
    open spec fn view(&self) -> nat {
        limbs_value(self.limbs@)
    }
}

/// Different limbs stand for different numbers.
pub proof fn lemma_limbs_value_injective(a: Seq<u64>, b: Seq<u64>)
    requires
        a.len() == 4,
        b.len() == 4,
        limbs_value(a) == limbs_value(b),
    ensures
        a == b,
{
    assert(a[0] == b[0] && a[1] == b[1] && a[2] == b[2] && a[3] == b[3]);
    assert(a =~= b);
}

impl PartialEq for U256 {
    /// Two integers are equal when they are the same number.
    fn eq(&self, other: &U256) -> (equal: bool) {
        let equal = self.limbs[0] == other.limbs[0] && self.limbs[1] == other.limbs[1]
            && self.limbs[2] == other.limbs[2] && self.limbs[3] == other.limbs[3];
        proof {
            if self@ == other@ {
                lemma_limbs_value_injective(self.limbs@, other.limbs@);
            }
        }
        equal
    }
}

impl vstd::std_specs::cmp::PartialEqSpecImpl for U256 {
    open spec fn obeys_eq_spec() -> bool {
        true
    }

    open spec fn eq_spec(&self, other: &U256) -> bool {
        self@ == other@
    }
}

impl PartialOrd for U256 {
    /// The integers are ordered as the numbers are: the most significant limb
    /// in which two of them differ decides.
    fn partial_cmp(&self, other: &U256) -> (order: Option<Ordering>) {
        if self.limbs[3] != other.limbs[3] {
            if self.limbs[3] < other.limbs[3] {
                Some(Ordering::Less)
            } else {
                Some(Ordering::Greater)
            }
        } else if self.limbs[2] != other.limbs[2] {
            if self.limbs[2] < other.limbs[2] {
                Some(Ordering::Less)
            } else {
                Some(Ordering::Greater)
            }
        } else if self.limbs[1] != other.limbs[1] {
            if self.limbs[1] < other.limbs[1] {
                Some(Ordering::Less)
            } else {
                Some(Ordering::Greater)
            }
        } else if self.limbs[0] != other.limbs[0] {
            if self.limbs[0] < other.limbs[0] {
                Some(Ordering::Less)
            } else {
                Some(Ordering::Greater)
            }
        } else {
            Some(Ordering::Equal)
        }
    }
}

impl vstd::std_specs::cmp::PartialOrdSpecImpl for U256 {
    open spec fn obeys_partial_cmp_spec() -> bool {
        true
    }

    open spec fn partial_cmp_spec(&self, other: &U256) -> Option<Ordering> {
        if self@ < other@ {
            Some(Ordering::Less)
        } else if self@ == other@ {
            Some(Ordering::Equal)
        } else {
            Some(Ordering::Greater)
        }
    }
}

impl From<u64> for U256 {
    /// The integer `n`.
    fn from(n: u64) -> (v: U256) {
        U256 { limbs: [n, 0, 0, 0] }
    }
}

impl vstd::std_specs::convert::FromSpecImpl<u64> for U256 {
    open spec fn obeys_from_spec() -> bool {
        true
    }

    open spec fn from_spec(n: u64) -> U256 {
        U256 { limbs: [n, 0, 0, 0] }
    }
}

/// The integer made from `n` is `n`.
pub proof fn lemma_from_u64_value(n: u64)
    ensures
        U256::from_spec(n)@ == n,
{
}

/// Every value is below 2^256.
pub proof fn lemma_value_bound(v: U256)
    ensures
        v@ < limb_base() * limb_base() * limb_base() * limb_base(),
{
    assert(v@ < 0x1_0000_0000_0000_0000 * 0x1_0000_0000_0000_0000 * 0x1_0000_0000_0000_0000
        * 0x1_0000_0000_0000_0000) by (nonlinear_arith)
        requires
            v@ == (v.limbs[0] as nat) + 0x1_0000_0000_0000_0000 * ((v.limbs[1] as nat)
                + 0x1_0000_0000_0000_0000 * ((v.limbs[2] as nat) + 0x1_0000_0000_0000_0000 * (
            v.limbs[3] as nat))),
            v.limbs[0] < 0x1_0000_0000_0000_0000,
            v.limbs[1] < 0x1_0000_0000_0000_0000,
            v.limbs[2] < 0x1_0000_0000_0000_0000,
            v.limbs[3] < 0x1_0000_0000_0000_0000,
    ;
}

impl U256 {
    /// The integer zero.
    pub fn zero() -> (v: U256)
        ensures
            v@ == 0,
    {
        U256 { limbs: [0, 0, 0, 0] }
    }

    /// The integer with the given limbs, least significant first.
    pub fn from_limbs(limbs: [u64; 4]) -> (v: U256)
        ensures
            v.limbs == limbs,
    {
        U256 { limbs }
    }

    /// The limbs, least significant first.
    pub fn as_limbs(&self) -> (limbs: [u64; 4])
        ensures
            limbs == self.limbs,
    {
        self.limbs
    }

    /// Whether `self` is zero.
    pub fn is_zero(&self) -> (b: bool)
        ensures
            b == (self@ == 0),
    {
        self.limbs[0] == 0 && self.limbs[1] == 0 && self.limbs[2] == 0 && self.limbs[3] == 0
    }

    /// Divides by ten: the quotient and the remainder.
    pub fn div_rem_10(&self) -> (qr: (U256, u8))
        ensures
            qr.0@ == self@ / 10,
            qr.1 == self@ % 10,
    {
        let q3: u64 = self.limbs[3] / 10;
        let r3: u64 = self.limbs[3] % 10;
        let (q2, r2) = div_step(r3, self.limbs[2]);
        let (q1, r1) = div_step(r2, self.limbs[1]);
        let (q0, r0) = div_step(r1, self.limbs[0]);
        let q = U256 { limbs: [q0, q1, q2, q3] };
        assert(self@ == 10 * q@ + r0);
        (q, r0 as u8)
    }

    /// Appends the decimal numeral of `self` to `out`.
    pub fn append_decimal(&self, out: &mut String)
        ensures
            final(out)@ == old(out)@ + decimal(self@),
        decreases self@,
    {
        let (q, r) = self.div_rem_10();
        if !q.is_zero() {
            q.append_decimal(out);
        }
        out.append(digit_str(r));
        assert(out@ =~= old(out)@ + decimal(self@));
    }

    /// The decimal numeral of `self` as a string.
    pub fn to_decimal(&self) -> (s: String)
        ensures
            s@ == decimal(self@),
    {
        let mut s = String::new();
        self.append_decimal(&mut s);
        assert(s@ =~= decimal(self@));
        s
    }
}

/// One step of the long division by ten: divides `carry * 2^64 + limb`.
fn div_step(carry: u64, limb: u64) -> (qr: (u64, u64))
    requires
        carry < 10,
    ensures
        carry * limb_base() + limb == 10 * (qr.0 as nat) + qr.1,
        qr.1 < 10,
{
    let cur: u128 = (carry as u128) * 0x1_0000_0000_0000_0000u128 + (limb as u128);
    ((cur / 10) as u64, (cur % 10) as u64)
}

} // verus!
