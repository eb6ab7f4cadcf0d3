//! The bounded least-recently-used store of the `cached` crate, as the five
//! caches use it, bound to the model of `cache_model` by trusted contracts.
//!
//! Three instantiations are declared: storage cells, keyed by an address and
//! a slot; plain felt-to-felt caches (class hashes, nonces and compiled class
//! hashes by address or hash); and the class cache, whose entries carry the
//! recording height. Keys compare and hash structurally, field by field, so
//! a lookup finds exactly the entries the model does.

use vstd::prelude::*;
use cached::Cached;
use cached::SizedCache;

verus! {

use crate::cache_model::{lookup, touch, put};
use crate::class::CachedContractClass;
use crate::felt::Felt;

#[verifier::external_type_specification]
#[verifier::external_body]
#[verifier::reject_recursive_types(K)]
#[verifier::reject_recursive_types(V)]
pub struct ExSizedCache<K, V>(SizedCache<K, V>);

/// The entries of a storage-cell cache, most recently used first.
pub uninterp spec fn storage_cache_entries(c: SizedCache<(Felt, Felt), Felt>) -> Seq<
    ((Felt, Felt), Felt),
>;

/// The bound a storage-cell cache was created with.
pub uninterp spec fn storage_cache_cap(c: SizedCache<(Felt, Felt), Felt>) -> nat;

/// The entries of a felt-to-felt cache, most recently used first.
pub uninterp spec fn felt_cache_entries(c: SizedCache<Felt, Felt>) -> Seq<(Felt, Felt)>;

/// The bound a felt-to-felt cache was created with.
pub uninterp spec fn felt_cache_cap(c: SizedCache<Felt, Felt>) -> nat;

/// The entries of a class cache, most recently used first.
pub uninterp spec fn class_cache_entries(c: SizedCache<Felt, CachedContractClass>) -> Seq<
    (Felt, CachedContractClass),
>;

/// The bound a class cache was created with.
pub uninterp spec fn class_cache_cap(c: SizedCache<Felt, CachedContractClass>) -> nat;

/// Relies on cached::SizedCache::with_size: an empty cache that will hold at
/// most `cap` entries. with_size panics on a bound of zero, which the
/// contract excludes.
#[verifier::external_body]
pub(crate) fn storage_cache_new(cap: usize) -> (c: SizedCache<(Felt, Felt), Felt>)
    requires
        cap >= 1,
    ensures
        storage_cache_entries(c) == Seq::<((Felt, Felt), Felt)>::empty(),
        storage_cache_cap(c) == cap,
{
    SizedCache::with_size(cap)
}

/// Relies on cached::SizedCache::cache_get: a hit hands back the cached
/// value and moves its entry to most recently used; a miss changes nothing.
#[verifier::external_body]
pub(crate) fn storage_cache_get(c: &mut SizedCache<(Felt, Felt), Felt>, k: &(Felt, Felt)) -> (r:
    Option<Felt>)
    ensures
        r == lookup(storage_cache_entries(*old(c)), *k),
        storage_cache_entries(*final(c)) == touch(storage_cache_entries(*old(c)), *k),
        storage_cache_cap(*final(c)) == storage_cache_cap(*old(c)),
{
    c.cache_get(k).copied()
}

/// Relies on cached::SizedCache::cache_set: a present key is overwritten in
/// place; a fresh key enters at the front, evicting the least recently used
/// entry of a full cache.
#[verifier::external_body]
pub(crate) fn storage_cache_set(c: &mut SizedCache<(Felt, Felt), Felt>, k: (Felt, Felt), v: Felt)
    ensures
        storage_cache_entries(*final(c)) == put(
            storage_cache_entries(*old(c)),
            k,
            v,
            storage_cache_cap(*old(c)),
        ),
        storage_cache_cap(*final(c)) == storage_cache_cap(*old(c)),
{
    let _ = c.cache_set(k, v);
}

/// Relies on cached::SizedCache::with_size: an empty cache that will hold at
/// most `cap` entries. with_size panics on a bound of zero, which the
/// contract excludes.
#[verifier::external_body]
pub(crate) fn felt_cache_new(cap: usize) -> (c: SizedCache<Felt, Felt>)
    requires
        cap >= 1,
    ensures
        felt_cache_entries(c) == Seq::<(Felt, Felt)>::empty(),
        felt_cache_cap(c) == cap,
{
    SizedCache::with_size(cap)
}

/// Relies on cached::SizedCache::cache_get: a hit hands back the cached
/// value and moves its entry to most recently used; a miss changes nothing.
#[verifier::external_body]
pub(crate) fn felt_cache_get(c: &mut SizedCache<Felt, Felt>, k: &Felt) -> (r: Option<Felt>)
    ensures
        r == lookup(felt_cache_entries(*old(c)), *k),
        felt_cache_entries(*final(c)) == touch(felt_cache_entries(*old(c)), *k),
        felt_cache_cap(*final(c)) == felt_cache_cap(*old(c)),
{
    c.cache_get(k).copied()
}

/// Relies on cached::SizedCache::cache_set: a present key is overwritten in
/// place; a fresh key enters at the front, evicting the least recently used
/// entry of a full cache.
#[verifier::external_body]
pub(crate) fn felt_cache_set(c: &mut SizedCache<Felt, Felt>, k: Felt, v: Felt)
    ensures
        felt_cache_entries(*final(c)) == put(
            felt_cache_entries(*old(c)),
            k,
            v,
            felt_cache_cap(*old(c)),
        ),
        felt_cache_cap(*final(c)) == felt_cache_cap(*old(c)),
{
    let _ = c.cache_set(k, v);
}

/// Relies on cached::SizedCache::with_size: an empty cache that will hold at
/// most `cap` entries. with_size panics on a bound of zero, which the
/// contract excludes.
#[verifier::external_body]
pub(crate) fn class_cache_new(cap: usize) -> (c: SizedCache<Felt, CachedContractClass>)
    requires
        cap >= 1,
    ensures
        class_cache_entries(c) == Seq::<(Felt, CachedContractClass)>::empty(),
        class_cache_cap(c) == cap,
{
    SizedCache::with_size(cap)
}

/// Relies on cached::SizedCache::cache_get: a hit hands back a copy of the
/// cached entry and moves it to most recently used; a miss changes nothing.
#[verifier::external_body]
pub(crate) fn class_cache_get(c: &mut SizedCache<Felt, CachedContractClass>, k: &Felt) -> (r:
    Option<CachedContractClass>)
    ensures
        r == lookup(class_cache_entries(*old(c)), *k),
        class_cache_entries(*final(c)) == touch(class_cache_entries(*old(c)), *k),
        class_cache_cap(*final(c)) == class_cache_cap(*old(c)),
{
    c.cache_get(k).cloned()
}

/// Relies on cached::SizedCache::cache_set: a present key is overwritten in
/// place; a fresh key enters at the front, evicting the least recently used
/// entry of a full cache.
#[verifier::external_body]
pub(crate) fn class_cache_set(c: &mut SizedCache<Felt, CachedContractClass>, k: Felt, v: CachedContractClass)
    ensures
        class_cache_entries(*final(c)) == put(
            class_cache_entries(*old(c)),
            k,
            v,
            class_cache_cap(*old(c)),
        ),
        class_cache_cap(*final(c)) == class_cache_cap(*old(c)),
{
    let _ = c.cache_set(k, v);
}

} // verus!
