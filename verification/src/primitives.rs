//! The byte-level values that requests carry.

use vstd::prelude::*;

verus! {

/// An account address of 20 bytes.
#[derive(Clone, Copy, Debug, PartialEq, Eq, Hash)]
pub struct Address(pub [u8; 20]);

impl Address {
    /// Whether every byte of the address is zero.
    pub open spec fn is_zero(self) -> bool {
        forall|i: int| 0 <= i < 20 ==> self.0[i] == 0
    }

    /// The address whose bytes are all zero.
    pub fn zero() -> (a: Address)
        ensures
            a.is_zero(),
    {
        Address([0u8; 20])
    }
}

/// A hash of 32 bytes.
#[derive(Clone, Copy, Debug, PartialEq, Eq, Hash)]
pub struct B256(pub [u8; 32]);

impl B256 {
    /// Whether every byte of the hash is zero.
    pub open spec fn is_zero(self) -> bool {
        forall|i: int| 0 <= i < 32 ==> self.0[i] == 0
    }

    /// The hash whose bytes are all zero.
    pub fn zero() -> (h: B256)
        ensures
            h.is_zero(),
    {
        B256([0u8; 32])
    }
}

/// A byte string of any length.
#[derive(Clone, Debug, PartialEq, Eq, Hash)]
pub struct Bytes(pub Vec<u8>);

impl View for Bytes {
    type V = Seq<u8>;

    open spec fn view(&self) -> Seq<u8> {
        self.0@
    }
}

impl Bytes {
    /// The empty byte string.
    pub fn new() -> (b: Bytes)
        ensures
            b@ == Seq::<u8>::empty(),
    {
        Bytes(Vec::new())
    }

    /// The number of bytes.
    pub fn len(&self) -> (n: usize)
        ensures
            n == self@.len(),
    {
        self.0.len()
    }
}

/// An entry of an access list: an address and the storage slots under it that
/// a transaction declares it will touch.
#[derive(Clone, Debug, PartialEq, Eq, Hash)]
pub struct AccessListItem {
    pub address: Address,
    pub storage_keys: Vec<B256>,
}

/// The access list of a signed transaction, in the order in which it was
/// signed.
#[derive(Clone, Debug, PartialEq, Eq, Hash)]
pub struct AccessList(pub Vec<AccessListItem>);

} // verus!
