//! The domain values the caches are keyed by and hold: field-element-like
//! identifiers, kept as plain 64-bit limbs so that contracts can speak of
//! their numeric value.

use vstd::prelude::*;

verus! {

/// A 256-bit unsigned value in four 64-bit limbs, least significant first.
/// Contract addresses, storage keys, class hashes, compiled class hashes,
/// nonces and stored cell values are all carried as such values; the core
/// never computes on them except to step a nonce.
#[derive(Clone, Copy, PartialEq, Eq, Hash, Debug)]
pub struct Felt {
    pub l0: u64,
    pub l1: u64,
    pub l2: u64,
    pub l3: u64,
}

/// An address of a deployed contract.
pub type ContractAddress = Felt;

/// An address-scoped storage slot.
pub type StorageKey = Felt;

/// The identifier of a contract class.
pub type ClassHash = Felt;

/// The identifier of the compiled form of a contract class.
pub type CompiledClassHash = Felt;

/// A per-address call counter.
pub type Nonce = Felt;

impl Felt {
    /// The number this value denotes.
    pub open spec fn value(self) -> nat {
        self.l0 as nat + self.l1 as nat * 0x1_0000_0000_0000_0000
            + self.l2 as nat * 0x1_0000_0000_0000_0000_0000_0000_0000_0000
            + self.l3 as nat
            * 0x1_0000_0000_0000_0000_0000_0000_0000_0000_0000_0000_0000_0000
    }

    /// Builds the value denoting `n`.
    pub fn from_u64(n: u64) -> (r: Felt)
        ensures
            r.value() == n,
            r.l0 == n && r.l1 == 0 && r.l2 == 0 && r.l3 == 0,
    {
        Felt { l0: n, l1: 0, l2: 0, l3: 0 }
    }

    /// Reads the value back as a 64-bit counter; `None` exactly when it does
    /// not fit.
    pub fn to_u64(&self) -> (r: Option<u64>)
        ensures
            r is Some <==> self.value() < 0x1_0000_0000_0000_0000,
            r matches Some(n) ==> n == self.value(),
    {
        if self.l1 == 0 && self.l2 == 0 && self.l3 == 0 {
            Some(self.l0)
        } else {
            None
        }
    }
}

} // verus!
