//! Entries in the order in which their keys first came in: what a map is
//! made of.

use vstd::prelude::*;

verus! {

/// Whether no key occurs twice among the entries.
pub open spec fn distinct_keys<K, V>(entries: Seq<(K, V)>) -> bool {
    forall|i: int, j: int|
        0 <= i < entries.len() && 0 <= j < entries.len() && i != j ==> (#[trigger] entries[i]).0 != (
        #[trigger] entries[j]).0
}

/// The first place of a key among the entries, or the number of entries
/// where the key is not among them.
pub open spec fn key_place<K, V>(entries: Seq<(K, V)>, key: K) -> int
    decreases entries.len(),
{
    if entries.len() == 0 {
        0
    } else if entries[0].0 == key {
        0
    } else {
        1 + key_place(entries.skip(1), key)
    }
}

/// Whether a key is among the entries.
pub open spec fn has_key<K, V>(entries: Seq<(K, V)>, key: K) -> bool {
    exists|i: int| 0 <= i < entries.len() && (#[trigger] entries[i]).0 == key
}

/// The entries after a key has been given a value: the entry of the key
/// keeps its place and takes the new value, and a key that is new goes to the
/// end.
pub open spec fn with_entry<K, V>(entries: Seq<(K, V)>, key: K, value: V) -> Seq<(K, V)> {
    if has_key(entries, key) {
        entries.update(key_place(entries, key), (key, value))
    } else {
        entries.push((key, value))
    }
}

/// The entries after a key has been taken out. The others keep their order.
pub open spec fn without_key<K, V>(entries: Seq<(K, V)>, key: K) -> Seq<(K, V)> {
    if has_key(entries, key) {
        entries.remove(key_place(entries, key))
    } else {
        entries
    }
}

/// The place that `key_place` gives is within the entries just where the key
/// is among them, and it is then the first place that holds the key.
pub proof fn lemma_key_place<K, V>(entries: Seq<(K, V)>, key: K)
    ensures
        0 <= key_place(entries, key) <= entries.len(),
        has_key(entries, key) <==> key_place(entries, key) < entries.len(),
        has_key(entries, key) ==> entries[key_place(entries, key)].0 == key,
        forall|i: int| 0 <= i < key_place(entries, key) ==> (#[trigger] entries[i]).0 != key,
    decreases entries.len(),
{
    if entries.len() == 0 {
    } else if entries[0].0 == key {
    } else {
        let rest = entries.skip(1);
        lemma_key_place(rest, key);
        if has_key(entries, key) {
            let i = choose|i: int| 0 <= i < entries.len() && (#[trigger] entries[i]).0 == key;
            assert(rest[i - 1] == entries[i]);
        }
        if has_key(rest, key) {
            let i = choose|i: int| 0 <= i < rest.len() && (#[trigger] rest[i]).0 == key;
            assert(entries[i + 1] == rest[i]);
        }
        assert forall|i: int| 0 <= i < key_place(entries, key) implies (#[trigger] entries[i]).0
            != key by {
            if i > 0 {
                assert(rest[i - 1] == entries[i]);
            }
        }
    }
}

} // verus!
