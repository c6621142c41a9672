use vstd::prelude::*;

verus! {

/// A 32-byte account address, held as four 64-bit words (most significant first).
#[derive(Clone, Copy, Debug, PartialEq, Eq, Structural)]
pub struct Address {
    pub w0: u64,
    pub w1: u64,
    pub w2: u64,
    pub w3: u64,
}

impl Address {
    /// The all-zero address.
    pub open spec fn spec_zero() -> Address {
        Address { w0: 0, w1: 0, w2: 0, w3: 0 }
    }

    /// Builds the all-zero address.
    pub fn zero() -> (a: Address)
        ensures
            a == Address::spec_zero(),
    {
        Address { w0: 0, w1: 0, w2: 0, w3: 0 }
    }

    /// Whether every byte of the address is zero.
    pub fn is_zero(&self) -> (r: bool)
        ensures
            r == (*self == Address::spec_zero()),
    {
        self.w0 == 0 && self.w1 == 0 && self.w2 == 0 && self.w3 == 0
    }
}

/// Keys under which a contract's storage can index its records.
pub trait StorageKey: Copy + Sized {
    /// Executable key equality, which agrees with equality of values.
    fn same_key(&self, other: &Self) -> (r: bool)
        ensures
            r == (*self == *other),
    ;
}

impl StorageKey for Address {
    fn same_key(&self, other: &Self) -> (r: bool) {
        *self == *other
    }
}

impl StorageKey for u128 {
    fn same_key(&self, other: &Self) -> (r: bool) {
        *self == *other
    }
}

impl StorageKey for u64 {
    fn same_key(&self, other: &Self) -> (r: bool) {
        *self == *other
    }
}

/// An ordered pair of addresses, such as an owner and a spender.
#[derive(Clone, Copy, Debug, PartialEq, Eq, Structural)]
pub struct AddressPair {
    pub first: Address,
    pub second: Address,
}

impl StorageKey for AddressPair {
    fn same_key(&self, other: &Self) -> (r: bool) {
        *self == *other
    }
}

} // verus!
