//! A map from texts to items of one type: what a map of values converts to
//! and from.

use vstd::prelude::*;
use crate::entries::distinct_keys;
use crate::entries::has_key;
use crate::entries::key_place;
use crate::entries::lemma_key_place;
use crate::entries::with_entry;
use crate::types::stringb::text_equal;

verus! {

/// A map from texts to items. No text occurs twice, and the entries stay in
/// the order in which their texts first came in. It stands where a map of the
/// standard library keyed by text would, and can be walked in an order that
/// is the same on every run.
#[derive(Debug)]
pub struct TextMap<T> {
    entries: Vec<(String, T)>,
}

impl<T> View for TextMap<T> {
    type V = Seq<(Seq<char>, T)>;

    closed spec fn view(&self) -> Seq<(Seq<char>, T)> {
        Seq::new(self.entries@.len(), |i: int| (self.entries@[i].0@, self.entries@[i].1))
    }
}

impl<T> TextMap<T> {
    #[verifier::type_invariant]
    spec fn texts_apart(self) -> bool {
        distinct_keys(self@)
    }

    /// The empty map.
    pub fn new() -> (r: Self)
        ensures
            r@ == Seq::<(Seq<char>, T)>::empty(),
    {
        let entries: Vec<(String, T)> = Vec::new();
        proof {
            let g = TextMap { entries };
            assert(g@ =~= Seq::<(Seq<char>, T)>::empty());
        }
        TextMap { entries }
    }

    /// The number of entries.
    pub fn len(&self) -> (r: usize)
        ensures
            r == self@.len(),
            distinct_keys(self@),
    {
        proof {
            use_type_invariant(self);
        }
        self.entries.len()
    }

    /// Whether the map holds nothing.
    pub fn is_empty(&self) -> (r: bool)
        ensures
            r == (self@.len() == 0),
    {
        self.entries.len() == 0
    }

    /// The text of the entry at a place.
    pub fn key_at(&self, index: usize) -> (r: &String)
        requires
            index < self@.len(),
        ensures
            r@ == self@[index as int].0,
    {
        &self.entries[index].0
    }

    /// The item of the entry at a place.
    pub fn value_at(&self, index: usize) -> (r: &T)
        requires
            index < self@.len(),
        ensures
            *r == self@[index as int].1,
    {
        &self.entries[index].1
    }

    /// The place of a text, if the map holds it.
    fn find(&self, key: &str) -> (r: Option<usize>)
        ensures
            match r {
                Some(i) => has_key(self@, key@) && i == key_place(self@, key@) && i < self@.len(),
                None => !has_key(self@, key@),
            },
    {
        let mut i: usize = 0;
        while i < self.entries.len()
            invariant
                i <= self.entries@.len(),
                forall|j: int| 0 <= j < i ==> (#[trigger] self@[j]).0 != key@,
            decreases self.entries.len() - i,
        {
            if text_equal(self.entries[i].0.as_str(), key) {
                proof {
                    lemma_key_place(self@, key@);
                    assert(self@[i as int].0 == key@);
                }
                return Some(i);
            }
            assert(self@[i as int].0 != key@);
            i = i + 1;
        }
        None
    }

    /// Whether the map holds a text.
    pub fn contains_key(&self, key: &str) -> (r: bool)
        ensures
            r == has_key(self@, key@),
    {
        self.find(key).is_some()
    }

    /// The item of a text, if the map holds the text.
    pub fn get(&self, key: &str) -> (r: Option<&T>)
        ensures
            match r {
                Some(v) => has_key(self@, key@) && *v == self@[key_place(self@, key@)].1,
                None => !has_key(self@, key@),
            },
    {
        match self.find(key) {
            Some(i) => Some(&self.entries[i].1),
            None => None,
        }
    }

    /// Gives a text an item. A text that the map holds keeps its place, takes
    /// the new item and hands back the old one. A text that is new goes to the
    /// end.
    pub fn insert(&mut self, key: String, value: T) -> (r: Option<T>)
        ensures
            final(self)@ == with_entry(old(self)@, key@, value),
            match r {
                Some(v) => has_key(old(self)@, key@) && v == old(self)@[key_place(
                    old(self)@,
                    key@,
                )].1,
                None => !has_key(old(self)@, key@),
            },
    {
        proof {
            use_type_invariant(&*self);
        }
        let found = self.find(key.as_str());
        let mut taken = TextMap::new();
        core::mem::swap(self, &mut taken);
        let mut entries = taken.entries;
        match found {
            Some(i) => {
                entries.push((key, value));
                let last = entries.swap_remove(i);
                proof {
                    let g = TextMap { entries };
                    assert(g@ =~= old(self)@.update(i as int, (key@, value)));
                    lemma_key_place(old(self)@, key@);
                    assert(distinct_keys(g@));
                }
                *self = TextMap { entries };
                Some(last.1)
            },
            None => {
                entries.push((key, value));
                proof {
                    let g = TextMap { entries };
                    assert(g@ =~= old(self)@.push((key@, value)));
                    assert(distinct_keys(g@));
                }
                *self = TextMap { entries };
                None
            },
        }
    }

    /// The entries, given up by the map.
    pub fn into_entries(self) -> (r: Vec<(String, T)>)
        ensures
            r@.len() == self@.len(),
            forall|i: int|
                0 <= i < r@.len() ==> (#[trigger] r@[i]).0@ == self@[i].0 && r@[i].1 == self@[i].1,
            distinct_keys(self@),
    {
        proof {
            use_type_invariant(&self);
        }
        self.entries
    }
}

} // verus!
