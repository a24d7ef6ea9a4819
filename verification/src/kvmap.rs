//! A mathematical view of association lists.
//!
//! Several components keep their state in a vector of keyed records (replica
//! id to address, broker name to group, transaction id to pending check).
//! Contracts are stated over the `Map` abstraction of such a vector; the
//! lemmas here connect the vector operations to the map operations.

use vstd::prelude::*;

verus! {

/// No key occurs twice in the association list.
pub open spec fn kv_unique<K, V>(s: Seq<(K, V)>) -> bool {
    forall|i: int, j: int| 0 <= i < j < s.len() ==> s[i].0 != s[j].0
}

/// Some entry of the association list carries the key `k`.
pub open spec fn kv_has<K, V>(s: Seq<(K, V)>, k: K) -> bool {
    exists|i: int| 0 <= i < s.len() && s[i].0 == k
}

/// The map that an association list denotes (later entries win).
pub open spec fn kv_map<K, V>(s: Seq<(K, V)>) -> Map<K, V>
    decreases s.len(),
{
    if s.len() == 0 {
        Map::empty()
    } else {
        kv_map(s.drop_last()).insert(s.last().0, s.last().1)
    }
}

pub proof fn lemma_kv_unique_drop_last<K, V>(s: Seq<(K, V)>)
    requires
        kv_unique(s),
        s.len() > 0,
    ensures
        kv_unique(s.drop_last()),
{
    assert forall|i: int, j: int|
        0 <= i < j < s.drop_last().len() implies s.drop_last()[i].0 != s.drop_last()[j].0 by {
        assert(s.drop_last()[i] == s[i]);
        assert(s.drop_last()[j] == s[j]);
    }
}

/// A key is in the denoted map exactly when some entry carries it.
pub proof fn lemma_kv_contains<K, V>(s: Seq<(K, V)>, k: K)
    ensures
        kv_map(s).contains_key(k) <==> kv_has(s, k),
    decreases s.len(),
{
    if s.len() == 0 {
    } else {
        lemma_kv_contains(s.drop_last(), k);
        if s.last().0 == k {
            assert(s[s.len() - 1].0 == k);
            assert(kv_has(s, k));
        } else {
            if kv_has(s, k) {
                let i = choose|i: int| 0 <= i < s.len() && s[i].0 == k;
                assert(s.drop_last()[i] == s[i]);
                assert(kv_has(s.drop_last(), k));
            }
            if kv_has(s.drop_last(), k) {
                let i = choose|i: int| 0 <= i < s.drop_last().len() && s.drop_last()[i].0 == k;
                assert(s.drop_last()[i] == s[i]);
                assert(kv_has(s, k));
            }
        }
    }
}

/// Under unique keys, the denoted map sends each entry's key to its value.
pub proof fn lemma_kv_get<K, V>(s: Seq<(K, V)>, i: int)
    requires
        kv_unique(s),
        0 <= i < s.len(),
    ensures
        kv_map(s).contains_key(s[i].0),
        kv_map(s)[s[i].0] == s[i].1,
    decreases s.len(),
{
    if i == s.len() - 1 {
    } else {
        lemma_kv_unique_drop_last(s);
        lemma_kv_get(s.drop_last(), i);
        assert(s.drop_last()[i] == s[i]);
        assert(s[i].0 != s.last().0);
    }
}

/// Removing the entry at `i` removes exactly its key from the denoted map.
pub proof fn lemma_kv_remove<K, V>(s: Seq<(K, V)>, i: int)
    requires
        kv_unique(s),
        0 <= i < s.len(),
    ensures
        kv_unique(s.remove(i)),
        kv_map(s.remove(i)) == kv_map(s).remove(s[i].0),
    decreases s.len(),
{
    assert forall|p: int, q: int|
        0 <= p < q < s.remove(i).len() implies s.remove(i)[p].0 != s.remove(i)[q].0 by {
        assert(s.remove(i)[p] == (if p < i { s[p] } else { s[p + 1] }));
        assert(s.remove(i)[q] == (if q < i { s[q] } else { s[q + 1] }));
    }
    lemma_kv_unique_drop_last(s);
    if i == s.len() - 1 {
        assert(s.remove(i) =~= s.drop_last());
        lemma_kv_contains(s.drop_last(), s[i].0);
        assert forall|p: int| 0 <= p < s.drop_last().len() implies s.drop_last()[p].0 != s[i].0 by {
            assert(s.drop_last()[p] == s[p]);
        }
        assert(!kv_has(s.drop_last(), s[i].0));
        assert(kv_map(s.remove(i)) =~= kv_map(s).remove(s[i].0));
    } else {
        lemma_kv_remove(s.drop_last(), i);
        assert(s.remove(i).len() == s.len() - 1);
        assert(s.remove(i).drop_last() =~= s.drop_last().remove(i));
        assert(s.remove(i).last() == s.last());
        assert(kv_map(s.remove(i)) == kv_map(s.drop_last().remove(i)).insert(s.last().0, s.last().1));
        assert(s.drop_last()[i] == s[i]);
        assert(s[i].0 != s.last().0);
        assert(kv_map(s.remove(i)) =~= kv_map(s).remove(s[i].0));
    }
}

/// Inserting an entry with a fresh key at any position inserts it into the
/// denoted map.
pub proof fn lemma_kv_insert_at<K, V>(s: Seq<(K, V)>, i: int, k: K, v: V)
    requires
        kv_unique(s),
        !kv_has(s, k),
        0 <= i <= s.len(),
    ensures
        kv_unique(s.insert(i, (k, v))),
        kv_map(s.insert(i, (k, v))) == kv_map(s).insert(k, v),
    decreases s.len(),
{
    let t = s.insert(i, (k, v));
    assert forall|p: int, q: int| 0 <= p < q < t.len() implies t[p].0 != t[q].0 by {
        assert(t[p] == (if p < i { s[p] } else if p == i { (k, v) } else { s[p - 1] }));
        assert(t[q] == (if q < i { s[q] } else if q == i { (k, v) } else { s[q - 1] }));
        if p < i && q > i {
            assert(s[p].0 != k);
            assert(s[q - 1].0 != k);
        } else if p == i {
            assert(s[q - 1].0 != k);
        } else if q == i {
            assert(s[p].0 != k);
        }
    }
    if i == s.len() {
        assert(t.drop_last() =~= s);
        assert(t.last() == (k, v));
        lemma_kv_contains(s, k);
    } else {
        lemma_kv_unique_drop_last(s);
        assert forall|p: int| 0 <= p < s.drop_last().len() implies s.drop_last()[p] == s[p] by {}
        assert(!kv_has(s.drop_last(), k)) by {
            if kv_has(s.drop_last(), k) {
                let w = choose|w: int| 0 <= w < s.drop_last().len() && s.drop_last()[w].0 == k;
                assert(s[w].0 == k);
            }
        }
        lemma_kv_insert_at(s.drop_last(), i, k, v);
        assert(t.drop_last() =~= s.drop_last().insert(i, (k, v)));
        assert(t.last() == s.last());
        assert(kv_map(t) == kv_map(s.drop_last().insert(i, (k, v))).insert(s.last().0, s.last().1));
        assert(s.last().0 != k);
        assert(kv_map(t) =~= kv_map(s).insert(k, v));
    }
}

} // verus!
