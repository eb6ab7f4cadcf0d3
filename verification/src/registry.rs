//! The registry owning the five caches, one per resource kind. A registry is
//! created once by whoever owns the session and handed to every adapter, so
//! sharing scope and lifetime are the caller's choice.

use vstd::prelude::*;
use cached::SizedCache;

verus! {

use crate::cache_model::wf_order;
use crate::class::CachedContractClass;
use crate::felt::Felt;
use crate::lru::{
    storage_cache_entries, storage_cache_cap, storage_cache_new, felt_cache_entries,
    felt_cache_cap, felt_cache_new, class_cache_entries, class_cache_cap, class_cache_new,
};

/// How many entries each cache holds by default.
pub const DEFAULT_CACHE_SIZE: usize = 128;

/// Five independent bounded caches, one per resource kind. Entries are made
/// and overwritten by write calls and leave only by eviction.
pub struct CacheRegistry {
    pub class_cache: SizedCache<Felt, CachedContractClass>,
    pub storage_cache: SizedCache<(Felt, Felt), Felt>,
    pub class_hash_cache: SizedCache<Felt, Felt>,
    pub nonce_cache: SizedCache<Felt, Felt>,
    pub compiled_class_hash_cache: SizedCache<Felt, Felt>,
}

impl CacheRegistry {
    /// The class cache: class hash to definition and recording height.
    pub open spec fn classes(self) -> Seq<(Felt, CachedContractClass)> {
        class_cache_entries(self.class_cache)
    }

    /// The storage cache: address and slot to cell value.
    pub open spec fn storage(self) -> Seq<((Felt, Felt), Felt)> {
        storage_cache_entries(self.storage_cache)
    }

    /// The class-hash cache: address to class hash.
    pub open spec fn class_hashes(self) -> Seq<(Felt, Felt)> {
        felt_cache_entries(self.class_hash_cache)
    }

    /// The nonce cache: address to nonce.
    pub open spec fn nonces(self) -> Seq<(Felt, Felt)> {
        felt_cache_entries(self.nonce_cache)
    }

    /// The compiled-class-hash cache: class hash to compiled class hash.
    pub open spec fn compiled_class_hashes(self) -> Seq<(Felt, Felt)> {
        felt_cache_entries(self.compiled_class_hash_cache)
    }

    /// The bound every cache of the registry was created with.
    pub open spec fn capacity(self) -> nat {
        storage_cache_cap(self.storage_cache)
    }

    /// All five caches share one bound, hold at most that many entries, and
    /// carry distinct keys.
    pub open spec fn wf(self) -> bool {
        &&& class_cache_cap(self.class_cache) == self.capacity()
        &&& felt_cache_cap(self.class_hash_cache) == self.capacity()
        &&& felt_cache_cap(self.nonce_cache) == self.capacity()
        &&& felt_cache_cap(self.compiled_class_hash_cache) == self.capacity()
        &&& wf_order(self.classes(), self.capacity())
        &&& wf_order(self.storage(), self.capacity())
        &&& wf_order(self.class_hashes(), self.capacity())
        &&& wf_order(self.nonces(), self.capacity())
        &&& wf_order(self.compiled_class_hashes(), self.capacity())
    }

    /// Five empty caches, each bounded at `capacity` entries.
    pub fn with_capacity(capacity: usize) -> (r: CacheRegistry)
        requires
            capacity >= 1,
        ensures
            r.wf(),
            r.capacity() == capacity,
            r.classes() == Seq::<(Felt, CachedContractClass)>::empty(),
            r.storage() == Seq::<((Felt, Felt), Felt)>::empty(),
            r.class_hashes() == Seq::<(Felt, Felt)>::empty(),
            r.nonces() == Seq::<(Felt, Felt)>::empty(),
            r.compiled_class_hashes() == Seq::<(Felt, Felt)>::empty(),
    {
        CacheRegistry {
            class_cache: class_cache_new(capacity),
            storage_cache: storage_cache_new(capacity),
            class_hash_cache: felt_cache_new(capacity),
            nonce_cache: felt_cache_new(capacity),
            compiled_class_hash_cache: felt_cache_new(capacity),
        }
    }

    /// Five empty caches at the default bound.
    pub fn new() -> (r: CacheRegistry)
        ensures
            r.wf(),
            r.capacity() == DEFAULT_CACHE_SIZE,
            r.classes() == Seq::<(Felt, CachedContractClass)>::empty(),
            r.storage() == Seq::<((Felt, Felt), Felt)>::empty(),
            r.class_hashes() == Seq::<(Felt, Felt)>::empty(),
            r.nonces() == Seq::<(Felt, Felt)>::empty(),
            r.compiled_class_hashes() == Seq::<(Felt, Felt)>::empty(),
    {
        Self::with_capacity(DEFAULT_CACHE_SIZE)
    }
}

} // verus!
