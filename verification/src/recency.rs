//! The mathematical model of a bounded least-recently-used store: a sequence of
//! key/value pairs, most recently used first, in which no key occurs twice.

use vstd::prelude::*;

verus! {

/// Whether some entry of `s` has key `k`.
pub open spec fn has_key<K, V>(s: Seq<(K, V)>, k: K) -> bool {
    exists|i: int| 0 <= i < s.len() && (#[trigger] s[i]).0 == k
}

/// The position of an entry with key `k`; meaningful when `has_key(s, k)`.
pub open spec fn slot<K, V>(s: Seq<(K, V)>, k: K) -> int {
    choose|i: int| 0 <= i < s.len() && (#[trigger] s[i]).0 == k
}

/// The value stored under `k`, if any.
pub open spec fn value_of<K, V>(s: Seq<(K, V)>, k: K) -> Option<V> {
    if has_key(s, k) {
        Some(s[slot(s, k)].1)
    } else {
        None
    }
}

/// No key occurs twice.
pub open spec fn distinct_keys<K, V>(s: Seq<(K, V)>) -> bool {
    forall|i: int, j: int|
        0 <= i < s.len() && 0 <= j < s.len() && (#[trigger] s[i]).0 == (#[trigger] s[j]).0 ==> i
            == j
}

/// A store that respects its limit and holds each key once.
pub open spec fn bounded<K, V>(s: Seq<(K, V)>, limit: nat) -> bool {
    &&& limit > 0
    &&& s.len() <= limit
    &&& distinct_keys(s)
}

/// The store without the entry of `k`; unchanged when `k` is absent.
pub open spec fn after_removal<K, V>(s: Seq<(K, V)>, k: K) -> Seq<(K, V)> {
    if has_key(s, k) {
        s.remove(slot(s, k))
    } else {
        s
    }
}

/// The store after a read of `k`: a present entry moves to the front, an
/// absent key changes nothing.
pub open spec fn after_read<K, V>(s: Seq<(K, V)>, k: K) -> Seq<(K, V)> {
    if has_key(s, k) {
        seq![s[slot(s, k)]] + s.remove(slot(s, k))
    } else {
        s
    }
}

/// The store after `k` was written with `v` under the limit `limit`: the new
/// entry stands in front; an earlier entry of `k` is replaced; otherwise, when
/// the store is full, the last (least recently used) entry leaves.
pub open spec fn after_write<K, V>(s: Seq<(K, V)>, limit: nat, k: K, v: V) -> Seq<(K, V)> {
    if has_key(s, k) {
        seq![(k, v)] + s.remove(slot(s, k))
    } else if s.len() == limit {
        seq![(k, v)] + s.drop_last()
    } else {
        seq![(k, v)] + s
    }
}

/// With distinct keys the position of a key is the one place that holds it.
pub proof fn lemma_slot_unique<K, V>(s: Seq<(K, V)>, i: int)
    requires
        distinct_keys(s),
        0 <= i < s.len(),
    ensures
        has_key(s, s[i].0),
        slot(s, s[i].0) == i,
        value_of(s, s[i].0) == Some(s[i].1),
{
    let k = s[i].0;
    assert(s[i].0 == k);
}

/// Removing one entry keeps the keys distinct and removes its key.
pub proof fn lemma_remove_keeps_distinct<K, V>(s: Seq<(K, V)>, i: int)
    requires
        distinct_keys(s),
        0 <= i < s.len(),
    ensures
        distinct_keys(s.remove(i)),
        !has_key(s.remove(i), s[i].0),
        forall|k: K| k != s[i].0 ==> has_key(s.remove(i), k) == has_key(s, k),
        forall|k: K| k != s[i].0 ==> value_of(s.remove(i), k) == value_of(s, k),
{
    let r = s.remove(i);
    assert forall|a: int| 0 <= a < r.len() implies #[trigger] r[a] == s[if a < i {
        a
    } else {
        a + 1
    }] by {}
    assert forall|a: int, b: int|
        0 <= a < r.len() && 0 <= b < r.len() && (#[trigger] r[a]).0 == (#[trigger] r[b]).0 implies a
        == b by {
        let a2 = if a < i { a } else { a + 1 };
        let b2 = if b < i { b } else { b + 1 };
        assert(s[a2].0 == s[b2].0);
    }
    if has_key(r, s[i].0) {
        let a = slot(r, s[i].0);
        let a2 = if a < i { a } else { a + 1 };
        assert(s[a2].0 == s[i].0);
        assert(false);
    }
    assert forall|k: K| k != s[i].0 implies has_key(r, k) == has_key(s, k) && value_of(r, k)
        == value_of(s, k) by {
        if has_key(s, k) {
            let a = slot(s, k);
            let a1 = if a < i { a } else { a - 1 };
            assert(r[a1] == s[a]);
            assert(r[a1].0 == k);
            assert(has_key(r, k));
            lemma_slot_unique(r, a1);
        }
        if has_key(r, k) {
            let a = slot(r, k);
            let a2 = if a < i { a } else { a + 1 };
            assert(s[a2].0 == k);
            assert(has_key(s, k));
            lemma_slot_unique(s, a2);
            lemma_slot_unique(r, a);
        }
    }
}

/// A new front entry whose key the rest lacks keeps the keys distinct.
pub proof fn lemma_front_keeps_distinct<K, V>(s: Seq<(K, V)>, k: K, v: V)
    requires
        distinct_keys(s),
        !has_key(s, k),
    ensures
        distinct_keys(seq![(k, v)] + s),
        value_of(seq![(k, v)] + s, k) == Some(v),
        forall|q: K| q != k ==> has_key(seq![(k, v)] + s, q) == has_key(s, q),
        forall|q: K| q != k ==> value_of(seq![(k, v)] + s, q) == value_of(s, q),
{
    let r = seq![(k, v)] + s;
    assert(r[0] == (k, v));
    assert forall|a: int| 1 <= a < r.len() implies #[trigger] r[a] == s[a - 1] by {}
    assert forall|a: int, b: int|
        0 <= a < r.len() && 0 <= b < r.len() && (#[trigger] r[a]).0 == (#[trigger] r[b]).0 implies a
        == b by {
        if a >= 1 {
            assert(r[a] == s[a - 1]);
        }
        if b >= 1 {
            assert(r[b] == s[b - 1]);
        }
    }
    lemma_slot_unique(r, 0);
    assert forall|q: K| q != k implies has_key(r, q) == has_key(s, q) && value_of(r, q)
        == value_of(s, q) by {
        if has_key(s, q) {
            let a = slot(s, q);
            assert(r[a + 1] == s[a]);
            assert(r[a + 1].0 == q);
            lemma_slot_unique(r, a + 1);
        }
        if has_key(r, q) {
            let a = slot(r, q);
            assert(r[a] == s[a - 1]);
            assert(s[a - 1].0 == q);
            lemma_slot_unique(s, a - 1);
            lemma_slot_unique(r, a);
        }
    }
}

/// Dropping the last entry keeps the keys distinct and touches no other key.
pub proof fn lemma_drop_last_keeps_distinct<K, V>(s: Seq<(K, V)>)
    requires
        distinct_keys(s),
        s.len() > 0,
    ensures
        distinct_keys(s.drop_last()),
        !has_key(s.drop_last(), s.last().0),
        forall|k: K| k != s.last().0 ==> has_key(s.drop_last(), k) == has_key(s, k),
        forall|k: K| k != s.last().0 ==> value_of(s.drop_last(), k) == value_of(s, k),
{
    assert(s.drop_last() =~= s.remove(s.len() - 1));
    lemma_remove_keeps_distinct(s, s.len() - 1);
}

/// What a write leaves behind: a bounded store in which `k` holds `v`, every
/// other key but at most the evicted one is as before.
pub proof fn lemma_write<K, V>(s: Seq<(K, V)>, limit: nat, k: K, v: V)
    requires
        bounded(s, limit),
    ensures
        bounded(after_write(s, limit, k, v), limit),
        value_of(after_write(s, limit, k, v), k) == Some(v),
        forall|q: K|
            q != k && !(evicts(s, limit, k) && q == s.last().0) ==> value_of(
                after_write(s, limit, k, v),
                q,
            ) == value_of(s, q),
        evicts(s, limit, k) ==> value_of(after_write(s, limit, k, v), s.last().0).is_none(),
{
    if has_key(s, k) {
        let i = slot(s, k);
        lemma_remove_keeps_distinct(s, i);
        lemma_front_keeps_distinct(s.remove(i), k, v);
    } else if s.len() == limit {
        lemma_drop_last_keeps_distinct(s);
        assert(s.last().0 != k) by {
            assert(s[s.len() - 1].0 == s.last().0);
        }
        lemma_front_keeps_distinct(s.drop_last(), k, v);
    } else {
        lemma_front_keeps_distinct(s, k, v);
    }
}

/// Whether writing the new key `k` pushes the least recently used entry out.
pub open spec fn evicts<K, V>(s: Seq<(K, V)>, limit: nat, k: K) -> bool {
    !has_key(s, k) && s.len() == limit
}

/// A read keeps the store bounded and changes no key's value.
pub proof fn lemma_read<K, V>(s: Seq<(K, V)>, limit: nat, k: K)
    requires
        bounded(s, limit),
    ensures
        bounded(after_read(s, k), limit),
        forall|q: K| value_of(after_read(s, k), q) == value_of(s, q),
{
    if has_key(s, k) {
        let i = slot(s, k);
        lemma_slot_unique(s, i);
        lemma_remove_keeps_distinct(s, i);
        lemma_front_keeps_distinct(s.remove(i), k, s[i].1);
        assert(s[i] == (k, s[i].1));
    }
}

/// Forgetting a key keeps the store bounded, removes that key and no other.
pub proof fn lemma_removal<K, V>(s: Seq<(K, V)>, limit: nat, k: K)
    requires
        bounded(s, limit),
    ensures
        bounded(after_removal(s, k), limit),
        value_of(after_removal(s, k), k).is_none(),
        forall|q: K| q != k ==> value_of(after_removal(s, k), q) == value_of(s, q),
{
    if has_key(s, k) {
        lemma_remove_keeps_distinct(s, slot(s, k));
    }
}

} // verus!
