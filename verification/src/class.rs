//! Contract classes as the cache holds them: the definition itself, and the
//! definition paired with the height at which it was recorded.

use vstd::prelude::*;

verus! {

/// The definition of a contract class: the compiled artifact the execution
/// engine runs. The core never looks inside it; it is carried as bytes.
#[derive(Clone, PartialEq, Eq, Debug)]
pub struct ContractClass {
    pub bytes: Vec<u8>,
}

/// A class definition together with the height at which it entered the
/// cache. An entry is visible to a reader at height `h` only when
/// `cached_on_height < h`.
#[derive(Clone, Debug)]
pub struct CachedContractClass {
    pub definition: ContractClass,
    pub cached_on_height: u64,
}

} // verus!
