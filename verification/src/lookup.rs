//! Finding the first item with a given key.

use vstd::prelude::*;
use crate::text::str_eq;

verus! {

/// Something that is found by a key of characters.
pub trait Keyed {
    /// The key of this item.
    spec fn key_of(&self) -> Seq<char>;

    /// The key of this item.
    fn key(&self) -> (r: &str)
        ensures
            r@ == self.key_of(),
    ;
}

/// The keys of a list of items, in their order.
pub open spec fn keys_of<T: Keyed>(items: Seq<T>) -> Seq<Seq<char>> {
    Seq::new(items.len(), |i: int| items[i].key_of())
}

/// `i` is the place of the first of `keys` that equals `key`.
pub open spec fn is_first(keys: Seq<Seq<char>>, key: Seq<char>, i: int) -> bool {
    &&& 0 <= i < keys.len()
    &&& keys[i] == key
    &&& forall|k: int| 0 <= k < i ==> keys[k] != key
}

/// The place of the first of `keys` that equals `key`, if there is one.
pub open spec fn position(keys: Seq<Seq<char>>, key: Seq<char>) -> Option<int> {
    if exists|i: int| is_first(keys, key, i) {
        Some(choose|i: int| is_first(keys, key, i))
    } else {
        None
    }
}

/// There is one first place at most.
pub proof fn lemma_position_found(keys: Seq<Seq<char>>, key: Seq<char>, i: int)
    requires
        is_first(keys, key, i),
    ensures
        position(keys, key) == Some(i),
{
    let found = choose|k: int| is_first(keys, key, k);
    assert(is_first(keys, key, found));
    if found < i {
        assert(keys[found] != key);
    }
    if i < found {
        assert(keys[i] != key);
    }
}

/// Where no key equals `key`, there is no first place.
pub proof fn lemma_position_missing(keys: Seq<Seq<char>>, key: Seq<char>)
    requires
        forall|k: int| 0 <= k < keys.len() ==> keys[k] != key,
    ensures
        position(keys, key) is None,
{
}

/// A place that `position` gives is a first place.
pub proof fn lemma_position_is_first(keys: Seq<Seq<char>>, key: Seq<char>)
    ensures
        position(keys, key) matches Some(i) ==> is_first(keys, key, i),
        position(keys, key) is None ==> forall|k: int| 0 <= k < keys.len() ==> keys[k] != key,
{
    if position(keys, key) is None {
        assert forall|k: int| 0 <= k < keys.len() implies keys[k] != key by {
            if keys[k] == key {
                lemma_first_exists(keys, key, k);
            }
        }
    }
}

/// Where some key equals `key`, one of them is the first.
proof fn lemma_first_exists(keys: Seq<Seq<char>>, key: Seq<char>, at: int)
    requires
        0 <= at < keys.len(),
        keys[at] == key,
    ensures
        exists|i: int| is_first(keys, key, i),
    decreases at,
{
    if exists|k: int| 0 <= k < at && keys[k] == key {
        let k = choose|k: int| 0 <= k < at && keys[k] == key;
        lemma_first_exists(keys, key, k);
    } else {
        assert(is_first(keys, key, at));
    }
}

/// The place of the first item with the given key.
pub fn find_first<T: Keyed>(items: &Vec<T>, key: &str) -> (r: Option<usize>)
    ensures
        r is Some <==> position(keys_of(items@), key@) is Some,
        r matches Some(i) ==> position(keys_of(items@), key@) == Some(i as int) && i < items.len(),
{
    let mut i: usize = 0;
    while i < items.len()
        invariant
            i <= items.len(),
            forall|k: int| 0 <= k < i ==> keys_of(items@)[k] != key@,
        decreases items.len() - i,
    {
        if str_eq(items[i].key(), key) {
            proof {
                assert(keys_of(items@)[i as int] == key@);
                lemma_position_found(keys_of(items@), key@, i as int);
            }
            return Some(i);
        }
        i = i + 1;
    }
    proof {
        lemma_position_missing(keys_of(items@), key@);
    }
    None
}

} // verus!
