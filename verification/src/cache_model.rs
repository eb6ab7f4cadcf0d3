//! The mathematical model of a bounded least-recently-used cache: a sequence
//! of key/value pairs ordered from most to least recently used, together with
//! the transitions that a lookup and a write perform on it.

use vstd::prelude::*;

verus! {

/// Whether some entry of `s` carries the key `k`.
pub open spec fn has_key<K, V>(s: Seq<(K, V)>, k: K) -> bool {
    exists|i: int| 0 <= i < s.len() && (#[trigger] s[i]).0 == k
}

/// The position of the entry carrying `k`; meaningful under `unique_keys`.
pub open spec fn index_of<K, V>(s: Seq<(K, V)>, k: K) -> int {
    choose|i: int| 0 <= i < s.len() && (#[trigger] s[i]).0 == k
}

/// The value cached under `k`, if any.
pub open spec fn lookup<K, V>(s: Seq<(K, V)>, k: K) -> Option<V> {
    if has_key(s, k) {
        Some(s[index_of(s, k)].1)
    } else {
        None
    }
}

/// No two entries carry the same key.
pub open spec fn unique_keys<K, V>(s: Seq<(K, V)>) -> bool {
    forall|i: int, j: int|
        #![trigger s[i], s[j]]
        0 <= i < j < s.len() ==> s[i].0 != s[j].0
}

/// The order after a lookup of `k`: on a hit the entry becomes the most
/// recently used; a miss changes nothing.
pub open spec fn touch<K, V>(s: Seq<(K, V)>, k: K) -> Seq<(K, V)> {
    if has_key(s, k) {
        let i = index_of(s, k);
        seq![s[i]] + s.remove(i)
    } else {
        s
    }
}

/// The order after writing `k -> v` into a cache bounded by `cap` entries:
/// an entry already present is overwritten in place, keeping its position;
/// a new entry enters at the front, pushing out the least recently used
/// entry if the cache is full.
pub open spec fn put<K, V>(s: Seq<(K, V)>, k: K, v: V, cap: nat) -> Seq<(K, V)> {
    if has_key(s, k) {
        s.update(index_of(s, k), (k, v))
    } else if s.len() < cap {
        seq![(k, v)] + s
    } else {
        seq![(k, v)] + s.drop_last()
    }
}

/// A cache order is well formed when its keys are distinct and it fits its
/// bound.
pub open spec fn wf_order<K, V>(s: Seq<(K, V)>, cap: nat) -> bool {
    &&& unique_keys(s)
    &&& s.len() <= cap
    &&& cap >= 1
}

/// Where a key sits, it sits within bounds and under its own name.
pub proof fn lemma_index_of<K, V>(s: Seq<(K, V)>, k: K)
    requires
        has_key(s, k),
    ensures
        0 <= index_of(s, k) < s.len(),
        s[index_of(s, k)].0 == k,
{
}

/// Under distinct keys, the entry found for `k` is the one at `i` whenever
/// `s[i]` carries `k`.
pub proof fn lemma_key_at<K, V>(s: Seq<(K, V)>, k: K, i: int)
    requires
        unique_keys(s),
        0 <= i < s.len(),
        s[i].0 == k,
    ensures
        index_of(s, k) == i,
        lookup(s, k) == Some(s[i].1),
{
    assert(has_key(s, k));
    lemma_index_of(s, k);
}

/// A lookup hit reorders the entries without changing length, key
/// distinctness, or any cached value.
pub proof fn lemma_touch<K, V>(s: Seq<(K, V)>, k: K)
    requires
        unique_keys(s),
    ensures
        touch(s, k).len() == s.len(),
        unique_keys(touch(s, k)),
        forall|k2: K| #[trigger] lookup(touch(s, k), k2) == lookup(s, k2),
{
    if has_key(s, k) {
        let i = index_of(s, k);
        lemma_index_of(s, k);
        let t = touch(s, k);
        s.remove_ensures(i);
        assert forall|m: int| 0 <= m < t.len() implies t[m] == (if m == 0 {
            s[i]
        } else if m <= i {
            s[m - 1]
        } else {
            s[m]
        }) by {
            if m > 0 {
                assert(t[m] == s.remove(i)[m - 1]);
            }
        }
        assert forall|m1: int, m2: int|
            0 <= m1 < m2 < t.len() implies #[trigger] t[m1].0 != #[trigger] t[m2].0 by {
            let a1 = if m1 == 0 { i } else if m1 <= i { m1 - 1 } else { m1 as int };
            let a2 = if m2 == 0 { i } else if m2 <= i { m2 - 1 } else { m2 as int };
            assert(t[m1] == s[a1] && t[m2] == s[a2] && a1 != a2);
            assert(s[a1].0 != s[a2].0);
        }
        assert forall|k2: K| #[trigger] lookup(t, k2) == lookup(s, k2) by {
            if has_key(s, k2) {
                let j = index_of(s, k2);
                lemma_index_of(s, k2);
                let m = if j == i { 0int } else if j < i { j + 1 } else { j };
                assert(t[m] == s[j]);
                lemma_key_at(t, k2, m);
                lemma_key_at(s, k2, j);
            } else {
                if has_key(t, k2) {
                    let m = index_of(t, k2);
                    lemma_index_of(t, k2);
                    let a = if m == 0 { i } else if m <= i { m - 1 } else { m as int };
                    assert(t[m] == s[a]);
                    assert(has_key(s, k2));
                }
            }
        }
    }
}

/// Writing `k -> v` caches `v` under `k`, keeps keys distinct, and keeps the
/// cache within its bound.
pub proof fn lemma_put<K, V>(s: Seq<(K, V)>, k: K, v: V, cap: nat)
    requires
        wf_order(s, cap),
    ensures
        wf_order(put(s, k, v, cap), cap),
        lookup(put(s, k, v, cap), k) == Some(v),
        has_key(s, k) ==> put(s, k, v, cap).len() == s.len(),
        !has_key(s, k) && s.len() < cap ==> put(s, k, v, cap).len() == s.len() + 1,
        !has_key(s, k) && s.len() == cap ==> put(s, k, v, cap).len() == s.len(),
{
    let p = put(s, k, v, cap);
    if has_key(s, k) {
        let i = index_of(s, k);
        lemma_index_of(s, k);
        assert forall|m1: int, m2: int|
            0 <= m1 < m2 < p.len() implies #[trigger] p[m1].0 != #[trigger] p[m2].0 by {
            assert(p[m1].0 == s[m1].0 && p[m2].0 == s[m2].0);
        }
        lemma_key_at(p, k, i);
    } else {
        let tail = if s.len() < cap { s } else { s.drop_last() };
        assert(p == seq![(k, v)] + tail);
        assert forall|m: int| 0 <= m < p.len() implies p[m] == (if m == 0 {
            (k, v)
        } else {
            s[m - 1]
        }) by {
            if m > 0 {
                assert(p[m] == tail[m - 1]);
                if s.len() >= cap {
                    assert(tail[m - 1] == s.subrange(0, s.len() - 1)[m - 1]);
                }
            }
        }
        assert forall|m1: int, m2: int|
            0 <= m1 < m2 < p.len() implies #[trigger] p[m1].0 != #[trigger] p[m2].0 by {
            if m1 == 0 {
                assert(p[m2] == s[m2 - 1]);
                assert(!(s[m2 - 1].0 == k));
            } else {
                assert(p[m1] == s[m1 - 1] && p[m2] == s[m2 - 1]);
                assert(s[m1 - 1].0 != s[m2 - 1].0);
            }
        }
        lemma_key_at(p, k, 0);
    }
}

/// After a write of `k -> v` that evicted nothing, every other key still
/// caches what it did before.
pub proof fn lemma_put_keeps_others<K, V>(s: Seq<(K, V)>, k: K, v: V, cap: nat, k2: K)
    requires
        wf_order(s, cap),
        k2 != k,
        has_key(s, k) || s.len() < cap,
    ensures
        lookup(put(s, k, v, cap), k2) == lookup(s, k2),
{
    let p = put(s, k, v, cap);
    lemma_put(s, k, v, cap);
    if has_key(s, k) {
        let i = index_of(s, k);
        lemma_index_of(s, k);
        if has_key(s, k2) {
            let j = index_of(s, k2);
            lemma_index_of(s, k2);
            assert(j != i);
            assert(p[j] == s[j]);
            lemma_key_at(p, k2, j);
            lemma_key_at(s, k2, j);
        } else {
            if has_key(p, k2) {
                let m = index_of(p, k2);
                lemma_index_of(p, k2);
                assert(m != i ==> p[m] == s[m]);
                assert(has_key(s, k2));
            }
        }
    } else {
        if has_key(s, k2) {
            let j = index_of(s, k2);
            lemma_index_of(s, k2);
            assert(p[j + 1] == s[j]);
            lemma_key_at(p, k2, j + 1);
            lemma_key_at(s, k2, j);
        } else {
            if has_key(p, k2) {
                let m = index_of(p, k2);
                lemma_index_of(p, k2);
                assert(m > 0 && p[m] == s[m - 1]);
                assert(has_key(s, k2));
            }
        }
    }
}

} // verus!
