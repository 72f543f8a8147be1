//! A map from texts to items of one type, kept in the order of the texts.

use std::cmp::Ordering;
use vstd::prelude::*;
use crate::types::stringb::bytes_order;
use crate::types::stringb::compare_text;
use crate::types::stringb::lemma_text_order_equal;
use crate::types::stringb::place;
use crate::types::stringb::text_order;

verus! {

/// Whether the entries stand in the order of their texts, each text before
/// the next. No text then occurs twice.
pub open spec fn sorted_keys<T>(entries: Seq<(Seq<char>, T)>) -> bool {
    forall|i: int, j: int|
        0 <= i < j < entries.len() ==> text_order(
            (#[trigger] entries[i]).0,
            (#[trigger] entries[j]).0,
        ) == Ordering::Less
}

/// The number of entries at the front whose texts come before a text: in
/// sorted entries, the place where the text is or would be.
pub open spec fn lower_place<T>(entries: Seq<(Seq<char>, T)>, key: Seq<char>) -> int
    decreases entries.len(),
{
    if entries.len() == 0 {
        0
    } else if text_order(entries[0].0, key) == Ordering::Less {
        1 + lower_place(entries.skip(1), key)
    } else {
        0
    }
}

/// Whether sorted entries hold a text.
pub open spec fn holds_text<T>(entries: Seq<(Seq<char>, T)>, key: Seq<char>) -> bool {
    lower_place(entries, key) < entries.len() && entries[lower_place(entries, key)].0 == key
}

/// Sorted entries after a text has been given an item: the entry of the text
/// takes the new item, and a text that is new goes to its place in the order.
pub open spec fn sorted_with<T>(entries: Seq<(Seq<char>, T)>, key: Seq<char>, value: T) -> Seq<
    (Seq<char>, T),
> {
    if holds_text(entries, key) {
        entries.update(lower_place(entries, key), (key, value))
    } else {
        entries.insert(lower_place(entries, key), (key, value))
    }
}

/// One run of bytes comes before another just where the other comes after it.
pub proof fn lemma_bytes_order_turns(a: Seq<u8>, b: Seq<u8>)
    ensures
        bytes_order(a, b) == Ordering::Less <==> bytes_order(b, a) == Ordering::Greater,
    decreases a.len(),
{
    if a.len() > 0 && b.len() > 0 && a[0] == b[0] {
        lemma_bytes_order_turns(a.skip(1), b.skip(1));
    }
}

/// A run of bytes that comes before a second, which comes before a third or
/// is the third, comes before the third.
pub proof fn lemma_bytes_order_chains(a: Seq<u8>, b: Seq<u8>, c: Seq<u8>)
    requires
        bytes_order(a, b) == Ordering::Less,
        bytes_order(b, c) == Ordering::Less,
    ensures
        bytes_order(a, c) == Ordering::Less,
    decreases a.len(),
{
    if a.len() > 0 && b.len() > 0 && c.len() > 0 && a[0] == b[0] && b[0] == c[0] {
        lemma_bytes_order_chains(a.skip(1), b.skip(1), c.skip(1));
    }
}

/// The same two facts for texts.
pub proof fn lemma_text_order_chains(a: Seq<char>, b: Seq<char>, c: Seq<char>)
    ensures
        text_order(a, b) == Ordering::Less <==> text_order(b, a) == Ordering::Greater,
        text_order(a, b) == Ordering::Less && text_order(b, c) == Ordering::Less ==> text_order(
            a,
            c,
        ) == Ordering::Less,
{
    lemma_bytes_order_turns(vstd::utf8::encode_utf8(a), vstd::utf8::encode_utf8(b));
    if text_order(a, b) == Ordering::Less && text_order(b, c) == Ordering::Less {
        lemma_bytes_order_chains(
            vstd::utf8::encode_utf8(a),
            vstd::utf8::encode_utf8(b),
            vstd::utf8::encode_utf8(c),
        );
    }
}

/// In sorted entries the place that `lower_place` gives parts the texts that
/// come before the text from those that do not.
pub proof fn lemma_lower_place<T>(entries: Seq<(Seq<char>, T)>, key: Seq<char>)
    requires
        sorted_keys(entries),
    ensures
        0 <= lower_place(entries, key) <= entries.len(),
        forall|i: int|
            0 <= i < lower_place(entries, key) ==> text_order((#[trigger] entries[i]).0, key)
                == Ordering::Less,
        forall|i: int|
            lower_place(entries, key) <= i < entries.len() ==> text_order(
                (#[trigger] entries[i]).0,
                key,
            ) != Ordering::Less,
    decreases entries.len(),
{
    if entries.len() == 0 {
    } else if text_order(entries[0].0, key) == Ordering::Less {
        let rest = entries.skip(1);
        assert(sorted_keys(rest)) by {
            assert forall|i: int, j: int| 0 <= i < j < rest.len() implies text_order(
                (#[trigger] rest[i]).0,
                (#[trigger] rest[j]).0,
            ) == Ordering::Less by {
                assert(rest[i] == entries[i + 1]);
                assert(rest[j] == entries[j + 1]);
            }
        }
        lemma_lower_place(rest, key);
        assert forall|i: int| 0 <= i < lower_place(entries, key) implies text_order(
            (#[trigger] entries[i]).0,
            key,
        ) == Ordering::Less by {
            if i > 0 {
                assert(rest[i - 1] == entries[i]);
            }
        }
        assert forall|i: int| lower_place(entries, key) <= i < entries.len() implies text_order(
            (#[trigger] entries[i]).0,
            key,
        ) != Ordering::Less by {
            assert(rest[i - 1] == entries[i]);
        }
    } else {
        assert forall|i: int| 0 <= i < entries.len() implies text_order(
            (#[trigger] entries[i]).0,
            key,
        ) != Ordering::Less by {
            if i > 0 {
                lemma_text_order_chains(entries[0].0, entries[i].0, key);
            }
        }
    }
}

/// Giving a text an item keeps sorted entries sorted.
pub proof fn lemma_sorted_with<T>(entries: Seq<(Seq<char>, T)>, key: Seq<char>, value: T)
    requires
        sorted_keys(entries),
    ensures
        sorted_keys(sorted_with(entries, key, value)),
{
    lemma_lower_place(entries, key);
    let p = lower_place(entries, key);
    let after = sorted_with(entries, key, value);
    assert forall|i: int, j: int| 0 <= i < j < after.len() implies text_order(
        (#[trigger] after[i]).0,
        (#[trigger] after[j]).0,
    ) == Ordering::Less by {
        if holds_text(entries, key) {
            assert(after[i].0 == entries[i].0);
            assert(after[j].0 == entries[j].0);
        } else {
            if j < p {
                assert(after[i] == entries[i] && after[j] == entries[j]);
            } else if j == p {
                assert(after[i] == entries[i]);
            } else if i == p {
                assert(after[j] == entries[j - 1]);
                lemma_text_order_equal(entries[j - 1].0, key);
                lemma_text_order_chains(key, entries[j - 1].0, key);
                if j - 1 > p {
                    assert(text_order(entries[p].0, entries[j - 1].0) == Ordering::Less);
                    lemma_text_order_equal(entries[p].0, key);
                    lemma_text_order_chains(key, entries[p].0, entries[j - 1].0);
                    lemma_text_order_chains(entries[p].0, key, key);
                }
            } else if i < p {
                assert(after[i] == entries[i] && after[j] == entries[j - 1]);
            } else {
                assert(after[i] == entries[i - 1] && after[j] == entries[j - 1]);
            }
        }
    }
}

/// A map from texts to items, in the order of the texts. No text occurs
/// twice. It stands where a map of the standard library that keeps its keys
/// in order would.
#[derive(Debug)]
pub struct SortedTextMap<T> {
    entries: Vec<(String, T)>,
}

impl<T> View for SortedTextMap<T> {
    type V = Seq<(Seq<char>, T)>;

    closed spec fn view(&self) -> Seq<(Seq<char>, T)> {
        Seq::new(self.entries@.len(), |i: int| (self.entries@[i].0@, self.entries@[i].1))
    }
}

impl<T> SortedTextMap<T> {
    #[verifier::type_invariant]
    spec fn in_order(self) -> bool {
        sorted_keys(self@)
    }

    /// The empty map.
    pub fn new() -> (r: Self)
        ensures
            r@ == Seq::<(Seq<char>, T)>::empty(),
    {
        let entries: Vec<(String, T)> = Vec::new();
        proof {
            let g = SortedTextMap { entries };
            assert(g@ =~= Seq::<(Seq<char>, T)>::empty());
        }
        SortedTextMap { entries }
    }

    /// The number of entries.
    pub fn len(&self) -> (r: usize)
        ensures
            r == self@.len(),
            sorted_keys(self@),
    {
        proof {
            use_type_invariant(self);
        }
        self.entries.len()
    }

    /// Whether the map holds nothing.
    pub fn is_empty(&self) -> (r: bool)
        ensures
            r == (self@.len() == 0),
    {
        self.entries.len() == 0
    }

    /// The text of the entry at a place.
    pub fn key_at(&self, index: usize) -> (r: &String)
        requires
            index < self@.len(),
        ensures
            r@ == self@[place(index)].0,
    {
        &self.entries[index].0
    }

    /// The item of the entry at a place.
    pub fn value_at(&self, index: usize) -> (r: &T)
        requires
            index < self@.len(),
        ensures
            *r == self@[place(index)].1,
    {
        &self.entries[index].1
    }

    /// The place where a text is or would be, and whether it is there.
    fn find(&self, key: &str) -> (r: (usize, bool))
        ensures
            r.0 == lower_place(self@, key@),
            r.0 <= self@.len(),
            r.1 == holds_text(self@, key@),
    {
        proof {
            use_type_invariant(self);
        }
        let n = self.entries.len();
        let mut i: usize = 0;
        assert(self@.skip(0) =~= self@);
        while i < n
            invariant
                n == self@.len(),
                i <= n,
                lower_place(self@, key@) == i + lower_place(self@.skip(place(i)), key@),
            decreases n - i,
        {
            proof {
                assert(self@.skip(place(i))[0] == self@[place(i)]);
                assert(self@.skip(place(i)).skip(1) =~= self@.skip(place(i) + 1));
                lemma_text_order_equal(self@[place(i)].0, key@);
            }
            match compare_text(self.entries[i].0.as_str(), key) {
                Ordering::Less => {
                    i = i + 1;
                },
                Ordering::Equal => {
                    return (i, true);
                },
                Ordering::Greater => {
                    return (i, false);
                },
            }
        }
        (i, false)
    }

    /// Whether the map holds a text.
    pub fn contains_key(&self, key: &str) -> (r: bool)
        ensures
            r == holds_text(self@, key@),
    {
        self.find(key).1
    }

    /// The item of a text, if the map holds the text.
    pub fn get(&self, key: &str) -> (r: Option<&T>)
        ensures
            match r {
                Some(v) => holds_text(self@, key@) && *v == self@[lower_place(self@, key@)].1,
                None => !holds_text(self@, key@),
            },
    {
        let (i, found) = self.find(key);
        if found {
            Some(&self.entries[i].1)
        } else {
            None
        }
    }

    /// Gives a text an item. A text that the map holds takes the new item and
    /// hands back the old one. A text that is new goes to its place in the
    /// order.
    pub fn insert(&mut self, key: String, value: T) -> (r: Option<T>)
        ensures
            final(self)@ == sorted_with(old(self)@, key@, value),
            match r {
                Some(v) => holds_text(old(self)@, key@) && v == old(self)@[lower_place(
                    old(self)@,
                    key@,
                )].1,
                None => !holds_text(old(self)@, key@),
            },
    {
        proof {
            use_type_invariant(&*self);
            lemma_sorted_with(self@, key@, value);
        }
        let (i, found) = self.find(key.as_str());
        let mut taken = SortedTextMap::new();
        core::mem::swap(self, &mut taken);
        let mut entries = taken.entries;
        if found {
            entries.push((key, value));
            let last = entries.swap_remove(i);
            proof {
                let g = SortedTextMap { entries };
                assert(g@ =~= old(self)@.update(place(i), (key@, value)));
            }
            *self = SortedTextMap { entries };
            Some(last.1)
        } else {
            entries.insert(i, (key, value));
            proof {
                let g = SortedTextMap { entries };
                assert(g@ =~= old(self)@.insert(place(i), (key@, value)));
            }
            *self = SortedTextMap { entries };
            None
        }
    }

    /// The entries, given up by the map.
    pub fn into_entries(self) -> (r: Vec<(String, T)>)
        ensures
            r@.len() == self@.len(),
            forall|i: int|
                0 <= i < r@.len() ==> (#[trigger] r@[i]).0@ == self@[i].0 && r@[i].1 == self@[i].1,
            sorted_keys(self@),
    {
        proof {
            use_type_invariant(&self);
        }
        self.entries
    }
}

} // verus!
