//! Sequences of entries that are found by a key: the map that such a
//! sequence stands for, and what pushing and replacing entries do to it.

use vstd::prelude::*;

verus! {

/// The map that the entries stand for: each entry under its key. Of two
/// entries with one key the later one counts.
pub open spec fn keyed<T, K>(entries: Seq<T>, key: spec_fn(T) -> K) -> Map<K, T>
    decreases entries.len(),
{
    if entries.len() == 0 {
        Map::empty()
    } else {
        keyed(entries.drop_last(), key).insert(key(entries.last()), entries.last())
    }
}

/// No two entries have the same key.
pub open spec fn distinct_keys<T, K>(entries: Seq<T>, key: spec_fn(T) -> K) -> bool {
    forall|i: int, j: int| 0 <= i < j < entries.len() ==> key(entries[i]) != key(entries[j])
}

/// Each entry of the map stands under its own key.
pub proof fn lemma_keyed_by_key<T, K>(entries: Seq<T>, key: spec_fn(T) -> K)
    ensures
        forall|k: K| #[trigger]
            keyed(entries, key).dom().contains(k) ==> key(keyed(entries, key)[k]) == k,
    decreases entries.len(),
{
    if entries.len() > 0 {
        lemma_keyed_by_key(entries.drop_last(), key);
        let earlier = keyed(entries.drop_last(), key);
        assert forall|k: K| #[trigger] keyed(entries, key).dom().contains(k) implies key(
            keyed(entries, key)[k],
        ) == k by {
            if k != key(entries.last()) {
                assert(earlier.dom().contains(k));
            }
        }
    }
}

/// A key that no entry has is not in the map.
pub proof fn lemma_keyed_absent<T, K>(entries: Seq<T>, key: spec_fn(T) -> K, k: K)
    requires
        forall|i: int| 0 <= i < entries.len() ==> key(entries[i]) != k,
    ensures
        !keyed(entries, key).dom().contains(k),
    decreases entries.len(),
{
    if entries.len() > 0 {
        lemma_keyed_absent(entries.drop_last(), key, k);
    }
}

/// Where the keys are distinct, each entry is in the map under its key.
pub proof fn lemma_keyed_present<T, K>(entries: Seq<T>, key: spec_fn(T) -> K, i: int)
    requires
        distinct_keys(entries, key),
        0 <= i < entries.len(),
    ensures
        keyed(entries, key).dom().contains(key(entries[i])),
        keyed(entries, key)[key(entries[i])] == entries[i],
    decreases entries.len(),
{
    if i < entries.len() - 1 {
        lemma_keyed_present(entries.drop_last(), key, i);
    }
}

/// Pushing an entry inserts it under its key.
pub proof fn lemma_keyed_push<T, K>(entries: Seq<T>, key: spec_fn(T) -> K, entry: T)
    ensures
        keyed(entries.push(entry), key) == keyed(entries, key).insert(key(entry), entry),
{
    assert(entries.push(entry).drop_last() =~= entries);
}

/// Where the keys are distinct, replacing an entry by one with the same key
/// keeps them distinct and puts the new entry in the place of the old one.
pub proof fn lemma_keyed_update<T, K>(entries: Seq<T>, key: spec_fn(T) -> K, i: int, entry: T)
    requires
        distinct_keys(entries, key),
        0 <= i < entries.len(),
        key(entry) == key(entries[i]),
    ensures
        distinct_keys(entries.update(i, entry), key),
        keyed(entries.update(i, entry), key) =~= keyed(entries, key).insert(key(entry), entry),
    decreases entries.len(),
{
    let updated = entries.update(i, entry);
    if i == entries.len() - 1 {
        assert(updated.drop_last() =~= entries.drop_last());
    } else {
        lemma_keyed_update(entries.drop_last(), key, i, entry);
        assert(updated.drop_last() =~= entries.drop_last().update(i, entry));
    }
}

} // verus!
