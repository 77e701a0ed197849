//! The mathematical map that a list of keyed entries stands for.

use vstd::prelude::*;

verus! {

/// No key occurs twice.
pub open spec fn distinct<K>(keys: Seq<K>) -> bool {
    forall|i: int, j: int| 0 <= i < j < keys.len() ==> keys[i] != keys[j]
}

/// Some position at which `k` occurs in `keys`.
pub open spec fn position<K>(keys: Seq<K>, k: K) -> int {
    choose|i: int| 0 <= i < keys.len() && keys[i] == k
}

/// The map that sends each key to the value at the key's position.
pub open spec fn assoc_map<K, V>(keys: Seq<K>, vals: Seq<V>) -> Map<K, V> {
    Map::new(|k: K| keys.contains(k), |k: K| vals[position(keys, k)])
}

/// With distinct keys, the map sends the key at position `i` to the value at position `i`.
pub proof fn lemma_assoc_at<K, V>(keys: Seq<K>, vals: Seq<V>, i: int)
    requires
        distinct(keys),
        0 <= i < keys.len(),
    ensures
        assoc_map(keys, vals).dom().contains(keys[i]),
        assoc_map(keys, vals)[keys[i]] == vals[i],
        position(keys, keys[i]) == i,
{
    assert(keys.contains(keys[i]));
    let p = position(keys, keys[i]);
    assert(0 <= p < keys.len() && keys[p] == keys[i]);
    if p < i {
        assert(keys[p] != keys[i]);
    } else if i < p {
        assert(keys[i] != keys[p]);
    }
}

/// A key that occurs nowhere is outside the map.
pub proof fn lemma_assoc_absent<K, V>(keys: Seq<K>, vals: Seq<V>, k: K)
    requires
        forall|i: int| 0 <= i < keys.len() ==> keys[i] != k,
    ensures
        !assoc_map(keys, vals).dom().contains(k),
{
    if keys.contains(k) {
        let i = choose|i: int| 0 <= i < keys.len() && keys[i] == k;
        assert(keys[i] != k);
    }
}

/// Appending an entry under a new key inserts it into the map.
pub proof fn lemma_assoc_push<K, V>(keys: Seq<K>, vals: Seq<V>, k: K, v: V)
    requires
        distinct(keys),
        keys.len() == vals.len(),
        forall|i: int| 0 <= i < keys.len() ==> keys[i] != k,
    ensures
        distinct(keys.push(k)),
        assoc_map(keys.push(k), vals.push(v)) == assoc_map(keys, vals).insert(k, v),
{
    let keys2 = keys.push(k);
    let vals2 = vals.push(v);
    assert(distinct(keys2));
    assert forall|x: K| assoc_map(keys2, vals2).dom().contains(x) <==> assoc_map(keys, vals).insert(
        k,
        v,
    ).dom().contains(x) by {
        if keys2.contains(x) {
            let i = choose|i: int| 0 <= i < keys2.len() && keys2[i] == x;
            if i < keys.len() {
                assert(keys[i] == x);
            }
        }
        if keys.contains(x) {
            let i = choose|i: int| 0 <= i < keys.len() && keys[i] == x;
            assert(keys2[i] == x);
        }
        if x == k {
            assert(keys2[keys.len() as int] == k);
        }
    }
    assert forall|x: K| assoc_map(keys2, vals2).dom().contains(x) implies assoc_map(keys2, vals2)[x]
        == assoc_map(keys, vals).insert(k, v)[x] by {
        let i = position(keys2, x);
        assert(0 <= i < keys2.len() && keys2[i] == x);
        lemma_assoc_at(keys2, vals2, i);
        if i < keys.len() {
            assert(keys[i] == x);
            lemma_assoc_at(keys, vals, i);
        }
    }
    assert(assoc_map(keys2, vals2) =~= assoc_map(keys, vals).insert(k, v));
}

/// Replacing the value at position `i` replaces the value under the key at position `i`.
pub proof fn lemma_assoc_update<K, V>(keys: Seq<K>, vals: Seq<V>, i: int, v: V)
    requires
        distinct(keys),
        keys.len() == vals.len(),
        0 <= i < keys.len(),
    ensures
        assoc_map(keys, vals.update(i, v)) == assoc_map(keys, vals).insert(keys[i], v),
{
    let vals2 = vals.update(i, v);
    lemma_assoc_at(keys, vals, i);
    assert forall|x: K| assoc_map(keys, vals2).dom().contains(x) implies assoc_map(keys, vals2)[x]
        == assoc_map(keys, vals).insert(keys[i], v)[x] by {
        let p = position(keys, x);
        assert(0 <= p < keys.len() && keys[p] == x);
        lemma_assoc_at(keys, vals, p);
        lemma_assoc_at(keys, vals2, p);
    }
    assert(assoc_map(keys, vals2) =~= assoc_map(keys, vals).insert(keys[i], v));
}

} // verus!
