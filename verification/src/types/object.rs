//! The map that a value holds.

use vstd::prelude::*;
use crate::entries::distinct_keys;
use crate::entries::has_key;
use crate::entries::key_place;
use crate::entries::lemma_key_place;
use crate::entries::with_entry;
use crate::entries::without_key;
use crate::types::value_key::KeyModel;
use crate::types::value_key::ValueKey;
use crate::types::value_key::ValueKeyBehavior;
use crate::value::Value;
use crate::value::ValueModel;

verus! {

/// A map from keys to values. No key occurs twice, and the entries stay in
/// the order in which their keys first came in.
#[derive(Debug)]
pub struct Object {
    entries: Vec<(ValueKey, Value)>,
}

impl View for Object {
    type V = Seq<(KeyModel, ValueModel)>;

    closed spec fn view(&self) -> Seq<(KeyModel, ValueModel)>
        decreases self,
    {
        Seq::new(
            self.entries@.len(),
            |i: int|
                if 0 <= i < self.entries@.len() {
                    (self.entries@[i].0@, self.entries@[i].1.view())
                } else {
                    (KeyModel::Number(0), ValueModel::Null)
                },
        )
    }
}

impl Object {
    #[verifier::type_invariant]
    spec fn keys_apart(self) -> bool {
        distinct_keys(self@)
    }

    /// The empty map.
    pub fn new() -> (r: Self)
        ensures
            r@ == Seq::<(KeyModel, ValueModel)>::empty(),
    {
        let r = Object { entries: Vec::new() };
        assert(r@ =~= Seq::<(KeyModel, ValueModel)>::empty());
        r
    }

    /// The number of entries.
    pub fn len(&self) -> (r: usize)
        ensures
            r == self@.len(),
            distinct_keys(self@),
    {
        proof {
            use_type_invariant(self);
        }
        self.entries.len()
    }

    /// The entries, given up by the map.
    pub fn into_entries(self) -> (r: Vec<(ValueKey, Value)>)
        ensures
            r@.len() == self@.len(),
            forall|i: int|
                0 <= i < r@.len() ==> (#[trigger] r@[i]).0@ == self@[i].0 && r@[i].1@ == self@[i].1,
            distinct_keys(self@),
    {
        proof {
            use_type_invariant(&self);
        }
        self.entries
    }

    /// Whether the map holds nothing.
    pub fn is_empty(&self) -> (r: bool)
        ensures
            r == (self@.len() == 0),
    {
        self.entries.len() == 0
    }

    /// The key of the entry at a place.
    pub fn key_at(&self, index: usize) -> (r: &ValueKey)
        requires
            index < self@.len(),
        ensures
            r@ == self@[index as int].0,
    {
        &self.entries[index].0
    }

    /// The value of the entry at a place.
    pub fn value_at(&self, index: usize) -> (r: &Value)
        requires
            index < self@.len(),
        ensures
            r@ == self@[index as int].1,
            self.holds_at(index as int, *r),
    {
        &self.entries[index].1
    }

    /// Whether a value is the one that the map holds at a place.
    pub closed spec fn holds_at(&self, index: int, value: Value) -> bool {
        0 <= index < self.entries@.len() && self.entries@[index].1 == value
    }

    /// A value that a map holds is smaller than the map: a function that
    /// descends into it comes to an end.
    pub proof fn lemma_value_at_decreases(&self, index: int, value: Value)
        requires
            self.holds_at(index, value),
        ensures
            decreases_to!(self => value),
    {
        assert(decreases_to!(self => self.entries));
        assert(decreases_to!(self.entries => self.entries@[index]));
        assert(decreases_to!(self.entries@[index] => self.entries@[index].1));
    }

    /// The place of a key, if the map holds it.
    fn find(&self, key: &ValueKey) -> (r: Option<usize>)
        ensures
            match r {
                Some(i) => has_key(self@, key@) && i == key_place(self@, key@) && i < self@.len(),
                None => !has_key(self@, key@),
            },
    {
        let mut i: usize = 0;
        while i < self.entries.len()
            invariant
                i <= self.entries@.len(),
                forall|j: int| 0 <= j < i ==> (#[trigger] self@[j]).0 != key@,
            decreases self.entries.len() - i,
        {
            if self.entries[i].0 == *key {
                proof {
                    lemma_key_place(self@, key@);
                    assert(self@[i as int].0 == key@);
                }
                return Some(i);
            }
            assert(self@[i as int].0 != key@);
            i = i + 1;
        }
        None
    }

    /// Whether the map holds a key.
    pub fn contains_key<K: ValueKeyBehavior>(&self, key: &K) -> (r: bool)
        ensures
            r == has_key(self@, key.key()),
    {
        let k = key.to_value_key();
        self.find(&k).is_some()
    }

    /// The value of a key, if the map holds the key.
    pub fn get<K: ValueKeyBehavior>(&self, key: &K) -> (r: Option<&Value>)
        ensures
            match r {
                Some(v) => has_key(self@, key.key()) && v@ == self@[key_place(self@, key.key())].1,
                None => !has_key(self@, key.key()),
            },
    {
        let k = key.to_value_key();
        match self.find(&k) {
            Some(i) => Some(&self.entries[i].1),
            None => None,
        }
    }

    /// Gives a key a value. A key that the map holds keeps its place, takes
    /// the new value and hands back the old one. A key that is new goes to the
    /// end.
    pub fn insert<K: ValueKeyBehavior>(&mut self, key: K, value: Value) -> (r: Option<Value>)
        ensures
            final(self)@ == with_entry(old(self)@, key.key(), value@),
            match r {
                Some(v) => has_key(old(self)@, key.key()) && v@ == old(self)@[key_place(
                    old(self)@,
                    key.key(),
                )].1,
                None => !has_key(old(self)@, key.key()),
            },
    {
        proof {
            use_type_invariant(&*self);
        }
        let k = key.to_value_key();
        let found = self.find(&k);
        let mut taken = Object::new();
        core::mem::swap(self, &mut taken);
        let mut entries = taken.entries;
        match found {
            Some(i) => {
                entries.push((k, value));
                let last = entries.swap_remove(i);
                proof {
                    let g = Object { entries };
                    assert(g@ =~= old(self)@.update(i as int, (key.key(), value@)));
                    lemma_key_place(old(self)@, key.key());
                    assert(distinct_keys(g@));
                }
                *self = Object { entries };
                Some(last.1)
            },
            None => {
                entries.push((k, value));
                proof {
                    let g = Object { entries };
                    assert(g@ =~= old(self)@.push((key.key(), value@)));
                    assert(distinct_keys(g@));
                }
                *self = Object { entries };
                None
            },
        }
    }

    /// Takes a key out and hands back its value, if the map holds the key.
    /// The other entries keep their order.
    pub fn remove<K: ValueKeyBehavior>(&mut self, key: &K) -> (r: Option<Value>)
        ensures
            final(self)@ == without_key(old(self)@, key.key()),
            match r {
                Some(v) => has_key(old(self)@, key.key()) && v@ == old(self)@[key_place(
                    old(self)@,
                    key.key(),
                )].1,
                None => !has_key(old(self)@, key.key()),
            },
    {
        proof {
            use_type_invariant(&*self);
        }
        let k = key.to_value_key();
        match self.find(&k) {
            Some(i) => {
                let mut taken = Object::new();
                core::mem::swap(self, &mut taken);
                let mut entries = taken.entries;
                let entry = entries.remove(i);
                proof {
                    let g = Object { entries };
                    assert(g@ =~= old(self)@.remove(i as int));
                    assert(distinct_keys(g@));
                }
                *self = Object { entries };
                Some(entry.1)
            },
            None => None,
        }
    }
}

impl Clone for Object {
    fn clone(&self) -> (r: Self)
        ensures
            r@ == self@,
        decreases self, 0nat,
    {
        proof {
            use_type_invariant(self);
        }
        let mut entries: Vec<(ValueKey, Value)> = Vec::new();
        let mut i: usize = 0;
        while i < self.entries.len()
            invariant
                i <= self.entries.len(),
                entries@.len() == i,
                forall|j: int|
                    0 <= j < i ==> (#[trigger] entries@[j]).0@ == self.entries@[j].0@
                        && entries@[j].1@ == self.entries@[j].1@,
            decreases self.entries.len() - i,
        {
            proof {
                assert(decreases_to!(self => self.entries));
                assert(decreases_to!(self.entries => self.entries@[i as int]));
                assert(decreases_to!(self.entries@[i as int] => self.entries@[i as int].1));
            }
            let k = self.entries[i].0.clone();
            let v = self.entries[i].1.clone();
            entries.push((k, v));
            i = i + 1;
        }
        proof {
            let g = Object { entries };
            assert(g@ =~= self@);
        }
        Object { entries }
    }
}

impl Default for Object {
    fn default() -> (r: Self)
        ensures
            r@ == Seq::<(KeyModel, ValueModel)>::empty(),
    {
        Object::new()
    }
}

} // verus!
