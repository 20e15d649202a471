//! Finding keys in a sequence of keys.
//!
//! Wallets are found in their collection by their identifier and addresses
//! in their wallet by theirs; both searches take the first match in the
//! order of the sequence. A new wallet gets the identifier after the
//! largest one of its collection.

use vstd::prelude::*;

verus! {

/// `index` is the first place at which `key` occurs in `keys`.
pub open spec fn is_first<K>(keys: Seq<K>, key: K, index: int) -> bool {
    &&& 0 <= index < keys.len()
    &&& keys[index] == key
    &&& forall|j: int| 0 <= j < index ==> keys[j] != key
}

/// The first place at which `key` occurs in `keys`, if it occurs at all.
pub open spec fn position<K>(keys: Seq<K>, key: K) -> Option<int> {
    if exists|index: int| is_first(keys, key, index) {
        Some(choose|index: int| is_first(keys, key, index))
    } else {
        None
    }
}

/// `largest` is the largest of the keys, or 0 where there is none.
pub open spec fn is_largest(keys: Seq<u64>, largest: u64) -> bool {
    &&& forall|j: int| 0 <= j < keys.len() ==> keys[j] <= largest
    &&& if keys.len() == 0 {
        largest == 0
    } else {
        exists|j: int| 0 <= j < keys.len() && keys[j] == largest
    }
}

/// The largest of the keys, or 0 where there is none.
pub open spec fn max_key(keys: Seq<u64>) -> u64 {
    choose|largest: u64| is_largest(keys, largest)
}

/// Below any occurrence of a key there is a first one.
proof fn lemma_first_exists<K>(keys: Seq<K>, key: K, upto: int)
    requires
        0 <= upto < keys.len(),
        keys[upto] == key,
    ensures
        exists|index: int| is_first(keys, key, index),
    decreases upto,
{
    if exists|j: int| 0 <= j < upto && keys[j] == key {
        let j = choose|j: int| 0 <= j < upto && keys[j] == key;
        lemma_first_exists(keys, key, j);
    } else {
        assert(is_first(keys, key, upto));
    }
}

/// What `position` returns: the first place of the key, or `None` exactly
/// when the key occurs nowhere.
pub proof fn lemma_position<K>(keys: Seq<K>, key: K)
    ensures
        match position(keys, key) {
            Some(index) => is_first(keys, key, index),
            None => !keys.contains(key),
        },
        position(keys, key) is Some <==> keys.contains(key),
{
    if keys.contains(key) {
        let witness = choose|j: int| 0 <= j < keys.len() && keys[j] == key;
        lemma_first_exists(keys, key, witness);
    }
    if let Some(index) = position(keys, key) {
        assert(keys[index] == key);
    }
}

/// A place that is the first for its key is the one `position` names.
pub proof fn lemma_position_is<K>(keys: Seq<K>, key: K, index: int)
    requires
        is_first(keys, key, index),
    ensures
        position(keys, key) == Some(index),
{
}

/// Every sequence of keys has a largest key, and only one.
pub proof fn lemma_max_key(keys: Seq<u64>)
    ensures
        is_largest(keys, max_key(keys)),
        forall|other: u64| is_largest(keys, other) ==> other == max_key(keys),
    decreases keys.len(),
{
    if keys.len() == 0 {
        assert(is_largest(keys, 0));
    } else {
        let rest = keys.drop_last();
        lemma_max_key(rest);
        let before = max_key(rest);
        let last = keys[keys.len() - 1];
        let largest = if last > before {
            last
        } else {
            before
        };
        assert forall|j: int| 0 <= j < keys.len() implies keys[j] <= largest by {
            if j < rest.len() {
                assert(rest[j] == keys[j]);
            }
        }
        if last <= before && rest.len() > 0 {
            let j = choose|j: int| 0 <= j < rest.len() && rest[j] == before;
            assert(keys[j] == largest);
        }
        assert(is_largest(keys, largest));
    }
}

} // verus!
