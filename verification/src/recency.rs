//! The mathematical model of a bounded store that evicts its least recently
//! used entry: a sequence of key-value pairs, most recently used first.

use vstd::prelude::*;

verus! {

/// Whether some entry of `s` has key `k`.
pub open spec fn has_key<K, V>(s: Seq<(K, V)>, k: K) -> bool {
    exists|i: int| 0 <= i < s.len() && (#[trigger] s[i]).0 == k
}

/// An index at which `s` holds key `k`, where there is one.
pub open spec fn position<K, V>(s: Seq<(K, V)>, k: K) -> int {
    choose|i: int| 0 <= i < s.len() && (#[trigger] s[i]).0 == k
}

/// The value stored under `k`, if any.
pub open spec fn lookup<K, V>(s: Seq<(K, V)>, k: K) -> Option<V> {
    if has_key(s, k) {
        Some(s[position(s, k)].1)
    } else {
        None
    }
}

/// The store after a read of `k`: an entry that is present moves to the front.
pub open spec fn touched<K, V>(s: Seq<(K, V)>, k: K) -> Seq<(K, V)> {
    if has_key(s, k) {
        seq![s[position(s, k)]] + s.remove(position(s, k))
    } else {
        s
    }
}

/// The store after `v` is written under `k`: the new entry stands at the
/// front; it replaces an entry with the same key, and otherwise pushes out the
/// last entry of a store that already holds `capacity` entries.
pub open spec fn inserted<K, V>(s: Seq<(K, V)>, capacity: nat, k: K, v: V) -> Seq<(K, V)> {
    if has_key(s, k) {
        seq![(k, v)] + s.remove(position(s, k))
    } else if s.len() == capacity {
        seq![(k, v)] + s.drop_last()
    } else {
        seq![(k, v)] + s
    }
}

/// The store after the entry under `k`, if any, is taken out.
pub open spec fn removed<K, V>(s: Seq<(K, V)>, k: K) -> Seq<(K, V)> {
    if has_key(s, k) {
        s.remove(position(s, k))
    } else {
        s
    }
}

/// No two entries share a key.
pub open spec fn distinct_keys<K, V>(s: Seq<(K, V)>) -> bool {
    forall|i: int, j: int| 0 <= i < j < s.len() ==> (#[trigger] s[i]).0 != (#[trigger] s[j]).0
}

/// What holds of every store of the given capacity.
pub open spec fn well_formed<K, V>(s: Seq<(K, V)>, capacity: nat) -> bool {
    &&& capacity >= 1
    &&& s.len() <= capacity
    &&& distinct_keys(s)
}

/// Where a key stands is determined once keys are distinct.
pub proof fn lemma_position<K, V>(s: Seq<(K, V)>, k: K, i: int)
    requires
        distinct_keys(s),
        0 <= i < s.len(),
        s[i].0 == k,
    ensures
        has_key(s, k),
        position(s, k) == i,
        lookup(s, k) == Some(s[i].1),
{
    let p = position(s, k);
    assert(0 <= p < s.len() && s[p].0 == k);
    if p < i {
        assert(s[p].0 != s[i].0);
    } else if i < p {
        assert(s[i].0 != s[p].0);
    }
}

/// A write keeps a store well formed.
pub proof fn lemma_inserted_well_formed<K, V>(s: Seq<(K, V)>, capacity: nat, k: K, v: V)
    requires
        well_formed(s, capacity),
    ensures
        well_formed(inserted(s, capacity, k, v), capacity),
{
    let t = inserted(s, capacity, k, v);
    if has_key(s, k) {
        let p = position(s, k);
        assert(0 <= p < s.len() && s[p].0 == k);
        assert forall|i: int, j: int| 0 <= i < j < t.len() implies (#[trigger] t[i]).0 != (
        #[trigger] t[j]).0 by {
            let jj = if j - 1 < p { j - 1 } else { j };
            assert(t[j] == s[jj]);
            if i == 0 {
                if jj < p {
                    assert(s[jj].0 != s[p].0);
                } else {
                    assert(s[p].0 != s[jj].0);
                }
            } else {
                let ii = if i - 1 < p { i - 1 } else { i };
                assert(t[i] == s[ii]);
                assert(s[ii].0 != s[jj].0);
            }
        }
    } else {
        assert forall|i: int, j: int| 0 <= i < j < t.len() implies (#[trigger] t[i]).0 != (
        #[trigger] t[j]).0 by {
            assert(t[j] == s[j - 1]);
            if i == 0 {
                assert(s[j - 1].0 != k);
            } else {
                assert(t[i] == s[i - 1]);
                assert(s[i - 1].0 != s[j - 1].0);
            }
        }
    }
}

/// A read keeps a store well formed.
pub proof fn lemma_touched_well_formed<K, V>(s: Seq<(K, V)>, capacity: nat, k: K)
    requires
        well_formed(s, capacity),
    ensures
        well_formed(touched(s, k), capacity),
{
    if has_key(s, k) {
        let p = position(s, k);
        assert(0 <= p < s.len() && s[p].0 == k);
        assert(touched(s, k) =~= inserted(s, capacity, k, s[p].1));
        lemma_inserted_well_formed(s, capacity, k, s[p].1);
    }
}

/// Taking an entry out keeps a store well formed.
pub proof fn lemma_removed_well_formed<K, V>(s: Seq<(K, V)>, capacity: nat, k: K)
    requires
        well_formed(s, capacity),
    ensures
        well_formed(removed(s, k), capacity),
{
    let t = removed(s, k);
    if has_key(s, k) {
        let p = position(s, k);
        assert(0 <= p < s.len() && s[p].0 == k);
        assert forall|i: int, j: int| 0 <= i < j < t.len() implies (#[trigger] t[i]).0 != (
        #[trigger] t[j]).0 by {
            let ii = if i < p { i } else { i + 1 };
            let jj = if j < p { j } else { j + 1 };
            assert(t[i] == s[ii]);
            assert(t[j] == s[jj]);
            assert(s[ii].0 != s[jj].0);
        }
    }
}

/// The key that a write of `k` pushes out of `s`, if it pushes one out: the
/// last key of a full store that does not hold `k` yet.
pub open spec fn evicted_key<K, V>(s: Seq<(K, V)>, capacity: nat, k: K) -> Option<K> {
    if !has_key(s, k) && s.len() == capacity && s.len() > 0 {
        Some(s.last().0)
    } else {
        None
    }
}

/// What was written under a key is what a lookup of that key finds.
pub proof fn lemma_lookup_inserted<K, V>(s: Seq<(K, V)>, capacity: nat, k: K, v: V)
    requires
        well_formed(s, capacity),
    ensures
        lookup(inserted(s, capacity, k, v), k) == Some(v),
        inserted(s, capacity, k, v)[0] == (k, v),
{
    let t = inserted(s, capacity, k, v);
    lemma_inserted_well_formed(s, capacity, k, v);
    assert(t[0] == (k, v));
    lemma_position(t, k, 0);
}

/// A write under one key leaves every other key as it was, but for the key
/// that the write pushes out, which is gone.
pub proof fn lemma_lookup_inserted_other<K, V>(
    s: Seq<(K, V)>,
    capacity: nat,
    k: K,
    v: V,
    other: K,
)
    requires
        well_formed(s, capacity),
        other != k,
    ensures
        lookup(inserted(s, capacity, k, v), other) == (if evicted_key(s, capacity, k) == Some(
            other,
        ) {
            None
        } else {
            lookup(s, other)
        }),
{
    let t = inserted(s, capacity, k, v);
    lemma_inserted_well_formed(s, capacity, k, v);
    if has_key(t, other) {
        let q = position(t, other);
        assert(0 <= q < t.len() && t[q].0 == other);
        assert(q != 0);
        if has_key(s, k) {
            let p = position(s, k);
            let qq = if q - 1 < p { q - 1 } else { q };
            assert(t[q] == s[qq]);
            lemma_position(s, other, qq);
        } else {
            assert(t[q] == s[q - 1]);
            lemma_position(s, other, q - 1);
            if s.len() == capacity {
                assert(q - 1 < s.len() - 1);
                assert(s[q - 1].0 != s[s.len() - 1].0);
            }
        }
    } else if has_key(s, other) {
        let q = position(s, other);
        assert(0 <= q < s.len() && s[q].0 == other);
        if has_key(s, k) {
            let p = position(s, k);
            assert(0 <= p < s.len() && s[p].0 == k);
            assert(q != p);
            let qq = if q < p { q + 1 } else { q };
            assert(t[qq] == s[q]);
            assert(false);
        } else if s.len() == capacity {
            if q < s.len() - 1 {
                assert(t[q + 1] == s[q]);
                assert(false);
            }
        } else {
            assert(t[q + 1] == s[q]);
            assert(false);
        }
    }
}

/// A read changes no value: every key is found as before.
pub proof fn lemma_lookup_touched<K, V>(s: Seq<(K, V)>, capacity: nat, k: K, other: K)
    requires
        well_formed(s, capacity),
    ensures
        lookup(touched(s, k), other) == lookup(s, other),
{
    if has_key(s, k) {
        let p = position(s, k);
        assert(0 <= p < s.len() && s[p].0 == k);
        assert(touched(s, k) =~= inserted(s, capacity, k, s[p].1));
        if other == k {
            lemma_lookup_inserted(s, capacity, k, s[p].1);
        } else {
            lemma_lookup_inserted_other(s, capacity, k, s[p].1, other);
        }
    }
}

/// A read of a key that is present makes it the most recently used: it
/// stands at the front and, in a store of two or more, no longer at the end.
pub proof fn lemma_touched_is_front<K, V>(s: Seq<(K, V)>, capacity: nat, k: K)
    requires
        well_formed(s, capacity),
        has_key(s, k),
    ensures
        touched(s, k).len() == s.len(),
        touched(s, k)[0].0 == k,
        s.len() >= 2 ==> touched(s, k).last().0 != k,
{
    let t = touched(s, k);
    let p = position(s, k);
    assert(0 <= p < s.len() && s[p].0 == k);
    lemma_touched_well_formed(s, capacity, k);
    if s.len() >= 2 {
        assert(t[0].0 != t[t.len() - 1].0);
    }
}

/// A read refreshes recency: in a store that holds two entries or more, the
/// write that follows a read of a key does not push that key out.
pub proof fn lemma_touched_survives<K, V>(s: Seq<(K, V)>, capacity: nat, k: K, next: K, v: V)
    requires
        well_formed(s, capacity),
        has_key(s, k),
        s.len() >= 2,
        next != k,
    ensures
        lookup(inserted(touched(s, k), capacity, next, v), k) == lookup(s, k),
{
    let t = touched(s, k);
    lemma_touched_well_formed(s, capacity, k);
    lemma_touched_is_front(s, capacity, k);
    lemma_lookup_touched(s, capacity, k, k);
    lemma_lookup_inserted_other(t, capacity, next, v, k);
}

/// Once an entry is taken out its key is gone, and every other key is found
/// as before.
pub proof fn lemma_lookup_removed<K, V>(s: Seq<(K, V)>, capacity: nat, k: K, other: K)
    requires
        well_formed(s, capacity),
    ensures
        lookup(removed(s, k), other) == (if other == k {
            None
        } else {
            lookup(s, other)
        }),
{
    let t = removed(s, k);
    lemma_removed_well_formed(s, capacity, k);
    if has_key(s, k) {
        let p = position(s, k);
        assert(0 <= p < s.len() && s[p].0 == k);
        if has_key(t, other) {
            let q = position(t, other);
            assert(0 <= q < t.len() && t[q].0 == other);
            let qq = if q < p { q } else { q + 1 };
            assert(t[q] == s[qq]);
            lemma_position(s, other, qq);
            if other == k {
                assert(qq == p);
            }
        } else if has_key(s, other) && other != k {
            let q = position(s, other);
            assert(0 <= q < s.len() && s[q].0 == other);
            let qq = if q < p { q } else { q - 1 };
            assert(t[qq] == s[q]);
            assert(false);
        }
    }
}

/// A key that is found after a write was written or was there before; a
/// read brings in no key and a removal brings in none: what was never
/// written is never found.
pub proof fn lemma_absent_stays_absent<K, V>(s: Seq<(K, V)>, capacity: nat, k: K, v: V, other: K)
    requires
        well_formed(s, capacity),
        !has_key(s, other),
    ensures
        other != k ==> !has_key(inserted(s, capacity, k, v), other),
        !has_key(touched(s, k), other),
        !has_key(removed(s, k), other),
{
    if other != k {
        lemma_lookup_inserted_other(s, capacity, k, v, other);
    }
    lemma_lookup_touched(s, capacity, k, other);
    lemma_lookup_removed(s, capacity, k, other);
}

/// Exactly-once reveal: what is written under a key is found there, and once
/// it is taken out nothing is found there any more, however often one looks.
pub proof fn lemma_exactly_once<K, V>(s: Seq<(K, V)>, capacity: nat, k: K, v: V)
    requires
        well_formed(s, capacity),
    ensures
        lookup(inserted(s, capacity, k, v), k) == Some(v),
        lookup(removed(inserted(s, capacity, k, v), k), k) == None::<V>,
        removed(removed(inserted(s, capacity, k, v), k), k) == removed(
            inserted(s, capacity, k, v),
            k,
        ),
{
    let committed = inserted(s, capacity, k, v);
    lemma_lookup_inserted(s, capacity, k, v);
    lemma_inserted_well_formed(s, capacity, k, v);
    lemma_lookup_removed(committed, capacity, k, k);
}

/// Eviction takes the least recently used entry and no other: a write of a
/// new key to a full store leaves out the last key, keeps every other entry,
/// and adds the new one.
pub proof fn lemma_eviction<K, V>(s: Seq<(K, V)>, capacity: nat, k: K, v: V)
    requires
        well_formed(s, capacity),
        s.len() == capacity,
        !has_key(s, k),
    ensures
        inserted(s, capacity, k, v).len() == capacity,
        lookup(inserted(s, capacity, k, v), s.last().0) == None::<V>,
        forall|other: K|
            other != k && other != s.last().0 ==> #[trigger] lookup(
                inserted(s, capacity, k, v),
                other,
            ) == lookup(s, other),
        lookup(inserted(s, capacity, k, v), k) == Some(v),
{
    let t = inserted(s, capacity, k, v);
    assert(s[s.len() - 1].0 != k);
    lemma_lookup_inserted_other(s, capacity, k, v, s.last().0);
    lemma_lookup_inserted(s, capacity, k, v);
    assert forall|other: K| other != k && other != s.last().0 implies #[trigger] lookup(
        t,
        other,
    ) == lookup(s, other) by {
        lemma_lookup_inserted_other(s, capacity, k, v, other);
    }
}

/// The store after the entries of `writes` are written one after the other,
/// the first of them first.
pub open spec fn filled<K, V>(s: Seq<(K, V)>, capacity: nat, writes: Seq<(K, V)>) -> Seq<(K, V)>
    decreases writes.len(),
{
    if writes.len() == 0 {
        s
    } else {
        inserted(
            filled(s, capacity, writes.drop_last()),
            capacity,
            writes.last().0,
            writes.last().1,
        )
    }
}

/// Writes of distinct keys to an empty store pile up in reverse order, and
/// beyond the capacity only the latest are kept.
pub proof fn lemma_filled<K, V>(capacity: nat, writes: Seq<(K, V)>)
    requires
        capacity >= 1,
        distinct_keys(writes),
    ensures
        well_formed(filled(Seq::<(K, V)>::empty(), capacity, writes), capacity),
        filled(Seq::<(K, V)>::empty(), capacity, writes).len() == (if writes.len() <= capacity {
            writes.len()
        } else {
            capacity
        }),
        forall|i: int|
            0 <= i < filled(Seq::<(K, V)>::empty(), capacity, writes).len() ==> #[trigger] filled(
                Seq::<(K, V)>::empty(),
                capacity,
                writes,
            )[i] == writes[writes.len() - 1 - i],
    decreases writes.len(),
{
    let empty = Seq::<(K, V)>::empty();
    if writes.len() > 0 {
        let before = writes.drop_last();
        let s = filled(empty, capacity, before);
        lemma_filled(capacity, before);
        lemma_inserted_well_formed(s, capacity, writes.last().0, writes.last().1);
        let k = writes.last().0;
        if has_key(s, k) {
            let p = position(s, k);
            assert(0 <= p < s.len() && s[p].0 == k);
            assert(s[p] == before[before.len() - 1 - p]);
            assert(writes[before.len() - 1 - p].0 != writes[writes.len() - 1].0);
        }
        let t = filled(empty, capacity, writes);
        assert forall|i: int| 0 <= i < t.len() implies #[trigger] t[i] == writes[writes.len() - 1
            - i] by {
            if i > 0 {
                assert(t[i] == s[i - 1]);
                assert(s[i - 1] == before[before.len() - 1 - (i - 1)]);
            }
        }
    }
}

/// Least-recently-used eviction: after one more than `capacity` distinct keys
/// are written to an empty store, the first of them is gone and each of the
/// others is found with its value.
pub proof fn lemma_one_too_many<K, V>(capacity: nat, writes: Seq<(K, V)>)
    requires
        capacity >= 1,
        distinct_keys(writes),
        writes.len() == capacity + 1,
    ensures
        lookup(filled(Seq::<(K, V)>::empty(), capacity, writes), writes[0].0) == None::<V>,
        forall|j: int|
            1 <= j < writes.len() ==> lookup(
                filled(Seq::<(K, V)>::empty(), capacity, writes),
                (#[trigger] writes[j]).0,
            ) == Some(writes[j].1),
{
    let t = filled(Seq::<(K, V)>::empty(), capacity, writes);
    lemma_filled(capacity, writes);
    if has_key(t, writes[0].0) {
        let p = position(t, writes[0].0);
        assert(0 <= p < t.len() && t[p].0 == writes[0].0);
        assert(t[p] == writes[writes.len() - 1 - p]);
        assert(writes[0].0 != writes[writes.len() - 1 - p].0);
    }
    assert forall|j: int| 1 <= j < writes.len() implies lookup(t, (#[trigger] writes[j]).0)
        == Some(writes[j].1) by {
        let i = writes.len() - 1 - j;
        assert(t[i] == writes[writes.len() - 1 - i]);
        lemma_position(t, writes[j].0, i);
    }
}

} // verus!
