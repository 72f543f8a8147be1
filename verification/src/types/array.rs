//! The list that a value holds.

use vstd::prelude::*;
use crate::value::Value;
use crate::value::ValueModel;

verus! {

/// A list of values, in the order in which they were put in. A value may
/// occur more than once.
#[derive(Debug)]
pub struct Array {
    pub values: Vec<Value>,
}

impl View for Array {
    type V = Seq<ValueModel>;

    open spec fn view(&self) -> Seq<ValueModel>
        decreases self,
    {
        Seq::new(
            self.values@.len(),
            |i: int|
                if 0 <= i < self.values@.len() {
                    self.values@[i].view()
                } else {
                    ValueModel::Null
                },
        )
    }
}

impl Array {
    /// The empty list.
    pub fn new() -> (r: Self)
        ensures
            r@ == Seq::<ValueModel>::empty(),
    {
        let r = Array { values: Vec::new() };
        assert(r@ =~= Seq::<ValueModel>::empty());
        r
    }

    /// Puts a value at the end.
    pub fn push(&mut self, value: Value)
        ensures
            final(self)@ == old(self)@.push(value@),
    {
        self.values.push(value);
        assert(self@ =~= old(self)@.push(value@));
    }

    /// The number of values.
    pub fn len(&self) -> (r: usize)
        ensures
            r == self@.len(),
    {
        self.values.len()
    }

    /// Whether the list holds nothing.
    pub fn is_empty(&self) -> (r: bool)
        ensures
            r == (self@.len() == 0),
    {
        self.values.len() == 0
    }

    /// The value at a place, if the list reaches that far.
    pub fn get(&self, index: usize) -> (r: Option<&Value>)
        ensures
            index < self@.len() ==> r is Some && r->0@ == self@[index as int],
            index >= self@.len() ==> r is None,
    {
        if index < self.values.len() {
            Some(&self.values[index])
        } else {
            None
        }
    }

    /// The value at a place within the list.
    pub fn value_at(&self, index: usize) -> (r: &Value)
        requires
            index < self@.len(),
        ensures
            r@ == self@[index as int],
            self.holds_at(index as int, *r),
    {
        &self.values[index]
    }

    /// Whether a value is the one that the list holds at a place.
    pub open spec fn holds_at(&self, index: int, value: Value) -> bool {
        0 <= index < self.values@.len() && self.values@[index] == value
    }

    /// A value that a list holds is smaller than the list: a function that
    /// descends into it comes to an end.
    pub proof fn lemma_value_at_decreases(&self, index: int, value: Value)
        requires
            self.holds_at(index, value),
        ensures
            decreases_to!(self => value),
    {
        assert(decreases_to!(self => self.values));
        assert(decreases_to!(self.values => self.values@[index]));
    }

    /// The values, given up by the list.
    pub fn into_values(self) -> (r: Vec<Value>)
        ensures
            r@.len() == self@.len(),
            forall|i: int| 0 <= i < r@.len() ==> (#[trigger] r@[i])@ == self@[i],
    {
        self.values
    }

    /// The list of the given values.
    pub fn from_values(values: Vec<Value>) -> (r: Self)
        ensures
            r@.len() == values@.len(),
            forall|i: int| 0 <= i < values@.len() ==> r@[i] == (#[trigger] values@[i])@,
    {
        Array { values }
    }
}

impl Default for Array {
    fn default() -> (r: Self)
        ensures
            r@ == Seq::<ValueModel>::empty(),
    {
        Array::new()
    }
}

} // verus!
