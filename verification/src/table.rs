//! A list of records read as a map from address to record.
//!
//! The directory keeps the records of one kind in a list in which no address
//! occurs twice. Its contracts speak of the map that such a list stands for.

use vstd::prelude::*;

verus! {

/// The map that takes the address at each position to the record there.
pub open spec fn table<K, V>(keys: Seq<K>, values: Seq<V>) -> Map<K, V> {
    Map::new(|key: K| keys.contains(key), |key: K| values[keys.index_of(key)])
}

/// Where no address occurs twice, the record at a position is the one that
/// the map gives for the address at that position.
pub proof fn lemma_table_at<K, V>(keys: Seq<K>, values: Seq<V>, i: int)
    requires
        keys.no_duplicates(),
        0 <= i < keys.len(),
    ensures
        table(keys, values).dom().contains(keys[i]),
        table(keys, values)[keys[i]] == values[i],
{
    assert(keys.contains(keys[i]));
    let j = keys.index_of(keys[i]);
    assert(0 <= j < keys.len() && keys[j] == keys[i]);
}

/// Appending a record at a new address inserts it into the map.
pub proof fn lemma_table_push<K, V>(keys: Seq<K>, values: Seq<V>, key: K, value: V)
    requires
        keys.no_duplicates(),
        keys.len() == values.len(),
        !keys.contains(key),
    ensures
        keys.push(key).no_duplicates(),
        table(keys.push(key), values.push(value)) == table(keys, values).insert(key, value),
{
    let keys2 = keys.push(key);
    let values2 = values.push(value);
    assert forall|i: int, j: int|
        0 <= i < keys2.len() && 0 <= j < keys2.len() && i != j implies keys2[i] != keys2[j] by {
        if i < keys.len() && j < keys.len() {
        } else if i < keys.len() {
            assert(keys[i] == keys2[i]);
        } else {
            assert(keys[j] == keys2[j]);
        }
    }
    let before = table(keys, values).insert(key, value);
    let after = table(keys2, values2);
    assert forall|k: K| after.dom().contains(k) <==> before.dom().contains(k) by {
        if keys2.contains(k) {
            let i = keys2.index_of(k);
            if i < keys.len() {
                assert(keys[i] == k);
            }
        }
        if keys.contains(k) {
            let i = keys.index_of(k);
            assert(keys2[i] == k);
        }
        if k == key {
            assert(keys2[keys.len() as int] == k);
        }
    }
    assert forall|k: K| after.dom().contains(k) implies after[k] == before[k] by {
        let i = keys2.index_of(k);
        if k == key {
            if i < keys.len() {
                assert(keys[i] == key);
            }
        } else {
            assert(keys[i] == k);
            let j = keys.index_of(k);
            assert(keys2[j] == k);
        }
    }
    assert(after =~= before);
}

/// Replacing the record at a position replaces it in the map.
pub proof fn lemma_table_update<K, V>(keys: Seq<K>, values: Seq<V>, i: int, value: V)
    requires
        keys.no_duplicates(),
        keys.len() == values.len(),
        0 <= i < keys.len(),
    ensures
        table(keys, values.update(i, value)) == table(keys, values).insert(keys[i], value),
{
    let before = table(keys, values).insert(keys[i], value);
    let after = table(keys, values.update(i, value));
    assert(keys.contains(keys[i]));
    assert forall|k: K| after.dom().contains(k) implies after[k] == before[k] by {
        let j = keys.index_of(k);
        assert(keys[j] == k);
    }
    assert(after =~= before);
}

/// Where no address occurs twice, the map has as many records as the list.
pub proof fn lemma_table_len<K, V>(keys: Seq<K>, values: Seq<V>)
    requires
        keys.no_duplicates(),
    ensures
        table(keys, values).dom().finite(),
        table(keys, values).dom().len() == keys.len(),
{
    assert(table(keys, values).dom() =~= keys.to_set());
    keys.unique_seq_to_set();
    vstd::seq_lib::seq_to_set_is_finite(keys);
}

} // verus!
