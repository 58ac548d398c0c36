//! Association lists: a sequence of distinct keys beside a sequence of
//! values, read as a finite map.

use vstd::prelude::*;

verus! {

/// The map that sends `keys[i]` to `vals[i]`.
pub open spec fn assoc<K, V>(keys: Seq<K>, vals: Seq<V>) -> Map<K, V> {
    Map::new(|k: K| keys.contains(k), |k: K| vals[keys.index_of(k)])
}

/// Whether `keys` and `vals` form an association list.
pub open spec fn paired<K, V>(keys: Seq<K>, vals: Seq<V>) -> bool {
    keys.len() == vals.len() && keys.no_duplicates()
}

/// Each position of an association list is one entry of its map.
pub proof fn lemma_assoc_at<K, V>(keys: Seq<K>, vals: Seq<V>, i: int)
    requires
        paired(keys, vals),
        0 <= i < keys.len(),
    ensures
        assoc(keys, vals).contains_key(keys[i]),
        assoc(keys, vals)[keys[i]] == vals[i],
        keys.index_of(keys[i]) == i,
{
}

/// A key outside the list is outside the map, and a key of the map stands
/// at its position in the list.
pub proof fn lemma_assoc_key<K, V>(keys: Seq<K>, vals: Seq<V>, k: K)
    requires
        paired(keys, vals),
    ensures
        assoc(keys, vals).contains_key(k) <==> keys.contains(k),
        keys.contains(k) ==> 0 <= keys.index_of(k) < keys.len() && keys[keys.index_of(k)] == k,
{
}

/// The map of an association list has one entry for each position.
pub proof fn lemma_assoc_len<K, V>(keys: Seq<K>, vals: Seq<V>)
    requires
        paired(keys, vals),
    ensures
        assoc(keys, vals).dom().finite(),
        assoc(keys, vals).dom().len() == keys.len(),
{
    vstd::seq_lib::seq_to_set_is_finite(keys);
    keys.unique_seq_to_set();
}

/// The empty list is the empty map.
pub proof fn lemma_assoc_empty<K, V>()
    ensures
        paired(Seq::<K>::empty(), Seq::<V>::empty()),
        assoc(Seq::<K>::empty(), Seq::<V>::empty()) == Map::<K, V>::empty(),
{
}

/// Appending a new key inserts it into the map.
pub proof fn lemma_assoc_push<K, V>(keys: Seq<K>, vals: Seq<V>, k: K, v: V)
    requires
        paired(keys, vals),
        !keys.contains(k),
    ensures
        paired(keys.push(k), vals.push(v)),
        assoc(keys.push(k), vals.push(v)) == assoc(keys, vals).insert(k, v),
{
    let keys2 = keys.push(k);
    let vals2 = vals.push(v);
    assert forall|x: K| assoc(keys2, vals2).contains_key(x) <==> assoc(keys, vals).insert(
        k,
        v,
    ).contains_key(x) by {
        if keys.contains(x) {
            assert(keys2[keys.index_of(x)] == x);
        }
        if x == k {
            assert(keys2[keys.len() as int] == k);
        }
    }
    assert forall|x: K| #[trigger] assoc(keys2, vals2).contains_key(x) implies assoc(keys2, vals2)[x]
        == assoc(keys, vals).insert(k, v)[x] by {
        if x == k {
            lemma_assoc_at(keys2, vals2, keys.len() as int);
        } else {
            lemma_assoc_at(keys, vals, keys2.index_of(x));
        }
    }
}

/// Replacing the value at a position replaces the value of its key.
pub proof fn lemma_assoc_update<K, V>(keys: Seq<K>, vals: Seq<V>, i: int, v: V)
    requires
        paired(keys, vals),
        0 <= i < keys.len(),
    ensures
        paired(keys, vals.update(i, v)),
        assoc(keys, vals.update(i, v)) == assoc(keys, vals).insert(keys[i], v),
{
    lemma_assoc_at(keys, vals, i);
    assert forall|x: K| #[trigger] assoc(keys, vals.update(i, v)).contains_key(x) implies assoc(
        keys,
        vals.update(i, v),
    )[x] == assoc(keys, vals).insert(keys[i], v)[x] by {
        lemma_assoc_at(keys, vals, keys.index_of(x));
    }
}

/// Removing a position removes its key from the map.
pub proof fn lemma_assoc_remove<K, V>(keys: Seq<K>, vals: Seq<V>, i: int)
    requires
        paired(keys, vals),
        0 <= i < keys.len(),
    ensures
        paired(keys.remove(i), vals.remove(i)),
        assoc(keys.remove(i), vals.remove(i)) == assoc(keys, vals).remove(keys[i]),
{
    let keys2 = keys.remove(i);
    let vals2 = vals.remove(i);
    assert forall|x: K| assoc(keys2, vals2).contains_key(x) <==> assoc(keys, vals).remove(
        keys[i],
    ).contains_key(x) by {
        if keys.contains(x) && x != keys[i] {
            let j = keys.index_of(x);
            if j < i {
                assert(keys2[j] == x);
            } else {
                assert(keys2[j - 1] == x);
            }
        }
    }
    assert forall|x: K| #[trigger] assoc(keys2, vals2).contains_key(x) implies assoc(keys2, vals2)[x]
        == assoc(keys, vals).remove(keys[i])[x] by {
        let j = keys2.index_of(x);
        lemma_assoc_at(keys2, vals2, j);
        if j < i {
            lemma_assoc_at(keys, vals, j);
        } else {
            lemma_assoc_at(keys, vals, j + 1);
        }
    }
}

} // verus!
