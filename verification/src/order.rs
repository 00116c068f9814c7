//! The order of strings, and lists kept in it.

use vstd::prelude::*;
use vstd::seq_lib::{to_multiset_build, to_multiset_insert};
use crate::lookup::{keys_of, Keyed};

verus! {

/// The order of strings: character by character, by code point; a string
/// comes before every longer string that it starts.
pub open spec fn text_le(a: Seq<char>, b: Seq<char>) -> bool
    decreases a.len(),
{
    if a.len() == 0 {
        true
    } else if b.len() == 0 {
        false
    } else if a[0] != b[0] {
        a[0] < b[0]
    } else {
        text_le(a.skip(1), b.skip(1))
    }
}

/// Of two strings, one comes before the other or they are equal.
pub proof fn lemma_text_le_total(a: Seq<char>, b: Seq<char>)
    ensures
        text_le(a, b) || text_le(b, a),
    decreases a.len(),
{
    if a.len() > 0 && b.len() > 0 && a[0] == b[0] {
        lemma_text_le_total(a.skip(1), b.skip(1));
    }
}

/// What comes before a string comes before all that the string comes before.
pub proof fn lemma_text_le_transitive(a: Seq<char>, b: Seq<char>, c: Seq<char>)
    requires
        text_le(a, b),
        text_le(b, c),
    ensures
        text_le(a, c),
    decreases a.len(),
{
    if a.len() > 0 && b.len() > 0 && c.len() > 0 && a[0] == b[0] && b[0] == c[0] {
        lemma_text_le_transitive(a.skip(1), b.skip(1), c.skip(1));
    }
}

/// Two strings that come before each other are one string.
pub proof fn lemma_text_le_antisymmetric(a: Seq<char>, b: Seq<char>)
    requires
        text_le(a, b),
        text_le(b, a),
    ensures
        a == b,
    decreases a.len(),
{
    if a.len() > 0 && b.len() > 0 {
        lemma_text_le_antisymmetric(a.skip(1), b.skip(1));
        assert(a =~= seq![a[0]] + a.skip(1));
        assert(b =~= seq![b[0]] + b.skip(1));
    } else {
        assert(a =~= b);
    }
}

/// The characters of a string.
fn chars_of(text: &str) -> (r: Vec<char>)
    ensures
        r@ == text@,
{
    let mut out: Vec<char> = Vec::new();
    for c in it: text.chars()
        invariant
            it.seq() == text@,
            out@ == text@.take(it.index()),
    {
        out.push(c);
        assert(out@ =~= text@.take(it.index() + 1));
    }
    assert(text@.take(text@.len() as int) =~= text@);
    out
}

/// Whether the first string comes before the second or equals it.
pub fn text_at_most(a: &str, b: &str) -> (r: bool)
    ensures
        r == text_le(a@, b@),
{
    let x = chars_of(a);
    let y = chars_of(b);
    let mut i: usize = 0;
    assert(a@.skip(0) =~= a@ && b@.skip(0) =~= b@);
    while i < x.len() && i < y.len()
        invariant
            i <= x.len(),
            i <= y.len(),
            x@ == a@,
            y@ == b@,
            text_le(a@, b@) == text_le(a@.skip(i as int), b@.skip(i as int)),
        decreases x.len() - i,
    {
        assert(a@.skip(i as int)[0] == x[i as int]);
        assert(b@.skip(i as int)[0] == y[i as int]);
        if x[i] != y[i] {
            return x[i] < y[i];
        }
        assert(a@.skip(i as int).skip(1) =~= a@.skip(i as int + 1));
        assert(b@.skip(i as int).skip(1) =~= b@.skip(i as int + 1));
        i = i + 1;
    }
    i == x.len()
}

/// A list of strings in ascending order.
pub open spec fn is_sorted(keys: Seq<Seq<char>>) -> bool {
    forall|i: int, j: int| 0 <= i < j < keys.len() ==> text_le(keys[i], keys[j])
}

/// Where a string goes into a list: behind the last string that comes before
/// it or equals it, and so behind every string equal to it.
pub open spec fn insert_position(keys: Seq<Seq<char>>, key: Seq<char>) -> int
    decreases keys.len(),
{
    if keys.len() == 0 {
        0
    } else if text_le(keys.last(), key) {
        keys.len() as int
    } else {
        insert_position(keys.drop_last(), key)
    }
}

/// The place where a string goes in lies in the list; no string behind it
/// comes before the string or equals it, and the string in front of it does.
pub proof fn lemma_insert_position(keys: Seq<Seq<char>>, key: Seq<char>)
    ensures
        0 <= insert_position(keys, key) <= keys.len(),
        forall|j: int|
            insert_position(keys, key) <= j < keys.len() ==> !text_le(#[trigger] keys[j], key),
        insert_position(keys, key) > 0 ==> text_le(keys[insert_position(keys, key) - 1], key),
    decreases keys.len(),
{
    if keys.len() > 0 && !text_le(keys.last(), key) {
        lemma_insert_position(keys.drop_last(), key);
        let p = insert_position(keys, key);
        assert forall|j: int| p <= j < keys.len() implies !text_le(#[trigger] keys[j], key) by {
            if j < keys.len() - 1 {
                assert(keys.drop_last()[j] == keys[j]);
            }
        }
        if p > 0 {
            assert(keys.drop_last()[p - 1] == keys[p - 1]);
        }
    }
}

/// A list in ascending order stays in ascending order when a string goes in
/// at its place.
pub proof fn lemma_insert_keeps_sorted(keys: Seq<Seq<char>>, key: Seq<char>)
    requires
        is_sorted(keys),
    ensures
        is_sorted(keys.insert(insert_position(keys, key), key)),
{
    let p = insert_position(keys, key);
    let after = keys.insert(p, key);
    lemma_insert_position(keys, key);
    assert forall|i: int, j: int| 0 <= i < j < after.len() implies text_le(after[i], after[j]) by {
        if j == p {
            assert(after[i] == keys[i]);
            if i < p - 1 {
                lemma_text_le_transitive(keys[i], keys[p - 1], key);
            }
        } else if i == p {
            assert(after[j] == keys[j - 1]);
            assert(!text_le(keys[j - 1], key));
            lemma_text_le_total(keys[j - 1], key);
        } else {
            let a = if i < p {
                i
            } else {
                i - 1
            };
            let b = if j < p {
                j
            } else {
                j - 1
            };
            assert(after[i] == keys[a] && after[j] == keys[b]);
        }
    }
}

/// A list of strings in ascending order: each string of the list, as often
/// as the list has it.
pub open spec fn sorted_texts(list: Seq<Seq<char>>) -> Seq<Seq<char>>
    decreases list.len(),
{
    if list.len() == 0 {
        Seq::empty()
    } else {
        let head = sorted_texts(list.drop_last());
        head.insert(insert_position(head, list.last()), list.last())
    }
}

/// The sorted list is in ascending order and holds what the list holds.
pub proof fn lemma_sorted_texts(list: Seq<Seq<char>>)
    ensures
        is_sorted(sorted_texts(list)),
        sorted_texts(list).len() == list.len(),
        sorted_texts(list).to_multiset() == list.to_multiset(),
    decreases list.len(),
{
    if list.len() > 0 {
        let head = sorted_texts(list.drop_last());
        lemma_sorted_texts(list.drop_last());
        lemma_insert_position(head, list.last());
        lemma_insert_keeps_sorted(head, list.last());
        to_multiset_insert(head, insert_position(head, list.last()), list.last());
        to_multiset_build(list.drop_last(), list.last());
        assert(list.drop_last().push(list.last()) =~= list);
    } else {
        assert(sorted_texts(list) =~= list);
    }
}

impl Keyed for String {
    open spec fn key_of(&self) -> Seq<char> {
        self@
    }

    fn key(&self) -> (r: &str) {
        self.as_str()
    }
}

/// Puts an item into a list at the place where its key goes in.
pub fn insert_sorted<T: Keyed>(items: &mut Vec<T>, item: T)
    ensures
        final(items)@ == old(items)@.insert(
            insert_position(keys_of(old(items)@), item.key_of()),
            item,
        ),
{
    let ghost keys = keys_of(items@);
    let ghost key = item.key_of();
    let mut pos: usize = items.len();
    assert(keys.take(pos as int) =~= keys);
    while pos > 0 && !text_at_most(items[pos - 1].key(), item.key())
        invariant
            pos <= items.len(),
            items@ == old(items)@,
            keys == keys_of(items@),
            key == item.key_of(),
            insert_position(keys, key) == insert_position(keys.take(pos as int), key),
        decreases pos,
    {
        assert(keys.take(pos as int).last() == keys[pos - 1]);
        assert(keys.take(pos as int).drop_last() =~= keys.take(pos - 1));
        pos = pos - 1;
    }
    proof {
        if pos > 0 {
            assert(keys.take(pos as int).last() == keys[pos - 1]);
        }
    }
    items.insert(pos, item);
}

} // verus!
