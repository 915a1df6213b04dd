//! Lists of key and value pairs in which no key occurs twice, read as maps.
//!
//! The maps of this library are small and keyed by text, so they are kept
//! as vectors. This file holds what their proofs share.

use vstd::prelude::*;

verus! {

/// Whether `i` is a place in `pairs` that holds the key `key`.
pub open spec fn holds_key<K, V>(pairs: Seq<(K, V)>, i: int, key: K) -> bool {
    0 <= i < pairs.len() && pairs[i].0 == key
}

/// Whether no key occurs at two places of `pairs`.
pub open spec fn keys_distinct<K, V>(pairs: Seq<(K, V)>) -> bool {
    forall|i: int, j: int|
        0 <= i < pairs.len() && 0 <= j < pairs.len() && i != j ==> pairs[i].0 != pairs[j].0
}

/// Whether no place of `pairs` holds `key`.
pub open spec fn key_absent<K, V>(pairs: Seq<(K, V)>, key: K) -> bool {
    forall|i: int| 0 <= i < pairs.len() ==> pairs[i].0 != key
}

/// The map that `pairs` stands for: each key that occurs, to the value
/// beside it.
pub open spec fn pairs_map<K, V>(pairs: Seq<(K, V)>) -> Map<K, V> {
    Map::new(
        |key: K| exists|i: int| holds_key(pairs, i, key),
        |key: K| pairs[choose|i: int| holds_key(pairs, i, key)].1,
    )
}

/// Among distinct keys, the pair at a place is what its key maps to.
pub proof fn lemma_pair_is_mapped<K, V>(pairs: Seq<(K, V)>, i: int)
    requires
        keys_distinct(pairs),
        0 <= i < pairs.len(),
    ensures
        pairs_map(pairs).dom().contains(pairs[i].0),
        pairs_map(pairs)[pairs[i].0] == pairs[i].1,
{
    let key = pairs[i].0;
    assert(holds_key(pairs, i, key));
    let chosen = choose|j: int| holds_key(pairs, j, key);
    assert(holds_key(pairs, chosen, key));
    assert(chosen == i);
}

/// A key is mapped exactly if some place holds it.
pub proof fn lemma_absent_is_unmapped<K, V>(pairs: Seq<(K, V)>, key: K)
    ensures
        key_absent(pairs, key) <==> !pairs_map(pairs).dom().contains(key),
{
    if key_absent(pairs, key) {
        assert forall|i: int| !holds_key(pairs, i, key) by {}
    } else {
        let i = choose|i: int| 0 <= i < pairs.len() && pairs[i].0 == key;
        assert(holds_key(pairs, i, key));
    }
}

/// Appending a pair under a fresh key adds that one pair to the map.
pub proof fn lemma_push_inserts<K, V>(pairs: Seq<(K, V)>, pair: (K, V))
    requires
        keys_distinct(pairs),
        key_absent(pairs, pair.0),
    ensures
        keys_distinct(pairs.push(pair)),
        pairs_map(pairs.push(pair)) == pairs_map(pairs).insert(pair.0, pair.1),
{
    let after = pairs.push(pair);
    let last = pairs.len() as int;
    assert(keys_distinct(after));
    let before = pairs_map(pairs);
    let grown = before.insert(pair.0, pair.1);
    assert forall|key: K| pairs_map(after).dom().contains(key) <==> grown.dom().contains(key) by {
        if pairs_map(after).dom().contains(key) {
            let i = choose|i: int| holds_key(after, i, key);
            if i < last {
                assert(holds_key(pairs, i, key));
            }
        }
        if grown.dom().contains(key) {
            if key == pair.0 {
                assert(holds_key(after, last, key));
            } else {
                let i = choose|i: int| holds_key(pairs, i, key);
                assert(holds_key(after, i, key));
            }
        }
    }
    assert forall|key: K| grown.dom().contains(key) implies pairs_map(after)[key] == grown[key] by {
        if key == pair.0 {
            lemma_pair_is_mapped(after, last);
        } else {
            let i = choose|i: int| holds_key(pairs, i, key);
            lemma_pair_is_mapped(pairs, i);
            lemma_pair_is_mapped(after, i);
        }
    }
    assert(pairs_map(after) =~= grown);
}

/// Giving the pair at a place a new value, under its old key, changes that
/// one pair of the map.
pub proof fn lemma_update_inserts<K, V>(pairs: Seq<(K, V)>, k: int, pair: (K, V))
    requires
        keys_distinct(pairs),
        0 <= k < pairs.len(),
        pairs[k].0 == pair.0,
    ensures
        keys_distinct(pairs.update(k, pair)),
        pairs_map(pairs.update(k, pair)) == pairs_map(pairs).insert(pair.0, pair.1),
{
    let after = pairs.update(k, pair);
    assert forall|i: int, j: int|
        0 <= i < after.len() && 0 <= j < after.len() && i != j implies after[i].0 != after[j].0 by {
        assert(after[i].0 == pairs[i].0);
        assert(after[j].0 == pairs[j].0);
    }
    let before = pairs_map(pairs);
    let changed = before.insert(pair.0, pair.1);
    assert forall|key: K| pairs_map(after).dom().contains(key) <==> changed.dom().contains(key) by {
        if pairs_map(after).dom().contains(key) {
            let i = choose|i: int| holds_key(after, i, key);
            assert(holds_key(pairs, i, key));
        }
        if changed.dom().contains(key) {
            if key == pair.0 {
                assert(holds_key(after, k, key));
            } else {
                let i = choose|i: int| holds_key(pairs, i, key);
                assert(holds_key(after, i, key));
            }
        }
    }
    assert forall|key: K| changed.dom().contains(key) implies pairs_map(after)[key]
        == changed[key] by {
        if key == pair.0 {
            lemma_pair_is_mapped(after, k);
        } else {
            let i = choose|i: int| holds_key(pairs, i, key);
            lemma_pair_is_mapped(pairs, i);
            lemma_pair_is_mapped(after, i);
        }
    }
    assert(pairs_map(after) =~= changed);
}

/// Among distinct keys, the map has as many entries as the list has pairs.
pub proof fn lemma_map_size<K, V>(pairs: Seq<(K, V)>)
    requires
        keys_distinct(pairs),
    ensures
        pairs_map(pairs).dom().finite(),
        pairs_map(pairs).dom().len() == pairs.len(),
    decreases pairs.len(),
{
    if pairs.len() == 0 {
        assert(pairs_map(pairs).dom() =~= Set::<K>::empty()) by {
            assert forall|key: K| !pairs_map(pairs).dom().contains(key) by {
                assert forall|i: int| !holds_key(pairs, i, key) by {}
            }
        }
    } else {
        let front = pairs.drop_last();
        let pair = pairs.last();
        assert(keys_distinct(front));
        assert(key_absent(front, pair.0)) by {
            assert forall|i: int| 0 <= i < front.len() implies front[i].0 != pair.0 by {
                assert(front[i].0 == pairs[i].0);
            }
        }
        lemma_map_size(front);
        lemma_push_inserts(front, pair);
        lemma_absent_is_unmapped(front, pair.0);
        assert(front.push(pair) =~= pairs);
        assert(pairs_map(pairs).dom() =~= pairs_map(front).dom().insert(pair.0));
    }
}

} // verus!
