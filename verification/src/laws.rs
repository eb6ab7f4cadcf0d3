//! The promises that hold across calls, stated over the cache model that the
//! adapter's contracts are written in and proved once and for all.

use vstd::prelude::*;

verus! {

use crate::cache_model::{
    has_key, index_of, lookup, touch, put, wf_order, lemma_index_of, lemma_key_at, lemma_touch,
    lemma_put, lemma_put_keeps_others,
};
use crate::class::{CachedContractClass, ContractClass};
use crate::felt::Felt;

/// Law: nothing is cached under any key of a freshly created cache, so on a
/// fresh registry every reader call takes its miss path and fails with the
/// error kind its contract names.
pub proof fn lemma_fresh_cache_misses<K, V>(k: K)
    ensures
        lookup(Seq::<(K, V)>::empty(), k) == None::<V>,
{
}

/// Law: after a write of `v` to slot `(address, slot)`, a read of that slot
/// finds exactly `v`; and as long as the write evicted nothing, every other
/// slot still reads what it did before, so distinct pairs round-trip side by
/// side until eviction.
pub proof fn lemma_storage_round_trip(
    s: Seq<((Felt, Felt), Felt)>,
    cap: nat,
    address: Felt,
    slot: Felt,
    v: Felt,
)
    requires
        wf_order(s, cap),
    ensures
        wf_order(put(s, (address, slot), v, cap), cap),
        lookup(put(s, (address, slot), v, cap), (address, slot)) == Some(v),
        has_key(s, (address, slot)) || s.len() < cap ==> forall|other: (Felt, Felt)|
            other != (address, slot) ==> #[trigger] lookup(put(s, (address, slot), v, cap), other)
                == lookup(s, other),
{
    lemma_put(s, (address, slot), v, cap);
    if has_key(s, (address, slot)) || s.len() < cap {
        assert forall|other: (Felt, Felt)| other != (address, slot) implies #[trigger] lookup(
            put(s, (address, slot), v, cap),
            other,
        ) == lookup(s, other) by {
            lemma_put_keeps_others(s, (address, slot), v, cap, other);
        }
    }
}

/// Law: a freshly declared class is recorded at height zero, so a reader at
/// view height zero still finds it undeclared, while a reader at any view
/// height of one or more sees exactly the declared definition.
pub proof fn lemma_class_visibility(
    s: Seq<(Felt, CachedContractClass)>,
    cap: nat,
    class_hash: Felt,
    def: ContractClass,
)
    requires
        wf_order(s, cap),
    ensures
        wf_order(
            put(
                s,
                class_hash,
                (CachedContractClass { definition: def, cached_on_height: 0 }),
                cap,
            ),
            cap,
        ),
        lookup(
            put(
                s,
                class_hash,
                (CachedContractClass { definition: def, cached_on_height: 0 }),
                cap,
            ),
            class_hash,
        ) == Some((CachedContractClass { definition: def, cached_on_height: 0 })),
{
    lemma_put(s, class_hash, (CachedContractClass { definition: def, cached_on_height: 0 }), cap);
}

/// The nonce order after `count` sequential increments of `address`, each
/// one a recency-refreshing read followed by a write of the successor, as
/// `MemState::increment_nonce` performs when it succeeds.
pub open spec fn nonces_after_increments(
    s: Seq<(Felt, Felt)>,
    address: Felt,
    cap: nat,
    count: nat,
) -> Seq<(Felt, Felt)>
    decreases count,
{
    if count == 0 {
        s
    } else {
        let prev = nonces_after_increments(s, address, cap, (count - 1) as nat);
        match lookup(prev, address) {
            Some(n) => put(
                touch(prev, address),
                address,
                (Felt { l0: (n.value() + 1) as u64, l1: 0, l2: 0, l3: 0 }),
                cap,
            ),
            None => touch(prev, address),
        }
    }
}

/// Law: starting from a cached nonce of `n`, `count` sequential increments
/// leave `n + count` cached, as long as the counter stays within 64 bits.
pub proof fn lemma_sequential_increments(
    s: Seq<(Felt, Felt)>,
    address: Felt,
    cap: nat,
    n: u64,
    count: nat,
)
    requires
        wf_order(s, cap),
        lookup(s, address) == Some((Felt { l0: n, l1: 0, l2: 0, l3: 0 })),
        n + count <= u64::MAX,
    ensures
        wf_order(nonces_after_increments(s, address, cap, count), cap),
        lookup(nonces_after_increments(s, address, cap, count), address) == Some(
            (Felt { l0: (n + count) as u64, l1: 0, l2: 0, l3: 0 }),
        ),
    decreases count,
{
    if count > 0 {
        lemma_sequential_increments(s, address, cap, n, (count - 1) as nat);
        let prev = nonces_after_increments(s, address, cap, (count - 1) as nat);
        let cur = Felt { l0: (n + count - 1) as u64, l1: 0, l2: 0, l3: 0 };
        let next = Felt { l0: (n + count) as u64, l1: 0, l2: 0, l3: 0 };
        assert(lookup(prev, address) == Some(cur));
        assert(cur.value() == n + count - 1);
        assert((cur.value() + 1) as u64 == next.l0);
        lemma_touch(prev, address);
        lemma_put(touch(prev, address), address, next, cap);
        assert(nonces_after_increments(s, address, cap, count) == put(
            touch(prev, address),
            address,
            next,
            cap,
        ));
    }
}

/// Law: writing a fresh key into a full cache drops exactly the least
/// recently used entry: the new key and every older key but the last keep
/// their values, and the last key becomes unreadable.
pub proof fn lemma_eviction_drops_least_recent<K, V>(s: Seq<(K, V)>, k: K, v: V, cap: nat)
    requires
        wf_order(s, cap),
        !has_key(s, k),
        s.len() == cap,
    ensures
        lookup(put(s, k, v, cap), k) == Some(v),
        lookup(put(s, k, v, cap), s.last().0) == None::<V>,
        forall|j: int|
            0 <= j < s.len() - 1 ==> #[trigger] lookup(put(s, k, v, cap), s[j].0) == Some(s[j].1),
{
    let p = put(s, k, v, cap);
    lemma_put(s, k, v, cap);
    assert forall|m: int| 0 <= m < p.len() implies p[m] == (if m == 0 {
        (k, v)
    } else {
        s[m - 1]
    }) by {
        if m > 0 {
            assert(p[m] == s.drop_last()[m - 1]);
            assert(s.drop_last()[m - 1] == s.subrange(0, s.len() - 1)[m - 1]);
        }
    }
    if has_key(p, s.last().0) {
        let m = index_of(p, s.last().0);
        lemma_index_of(p, s.last().0);
        if m == 0 {
            assert(s[s.len() - 1].0 == k);
        } else {
            assert(s[m - 1].0 == s[s.len() - 1].0);
            assert(m - 1 < s.len() - 1);
        }
    }
    assert forall|j: int| 0 <= j < s.len() - 1 implies #[trigger] lookup(p, s[j].0) == Some(
        s[j].1,
    ) by {
        assert(p[j + 1] == s[j]);
        lemma_key_at(p, s[j].0, j + 1);
    }
}

} // verus!
