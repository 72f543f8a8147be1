//! Copies of values, and their equality.
//!
//! Two values are equal where they are of one kind and hold equal things: two
//! lists, equal values place by place; two maps, equal keys and equal values
//! entry by entry, in the order of the entries. A number that holds a NaN
//! equals nothing, so a value that holds one does not equal itself.

use vstd::prelude::*;
use vstd::std_specs::cmp::PartialEqSpecImpl;
use crate::types::array::Array;
use crate::types::number_order::number_eq;
use crate::types::object::Object;
use crate::types::value_key::KeyModel;
use crate::value::Value;
use crate::value::ValueModel;

verus! {

/// Whether two values are equal.
pub open spec fn value_eq(a: ValueModel, b: ValueModel) -> bool
    decreases a,
{
    match (a, b) {
        (ValueModel::String(x), ValueModel::String(y)) => x == y,
        (ValueModel::Number(x), ValueModel::Number(y)) => number_eq(x, y),
        (ValueModel::Boolean(x), ValueModel::Boolean(y)) => x == y,
        (ValueModel::Array(x), ValueModel::Array(y)) => {
            &&& x.len() == y.len()
            &&& forall|i: int| 0 <= i < x.len() ==> value_eq(#[trigger] x[i], y[i])
        },
        (ValueModel::Object(x), ValueModel::Object(y)) => {
            &&& x.len() == y.len()
            &&& forall|i: int|
                0 <= i < x.len() ==> (#[trigger] x[i]).0 == y[i].0 && value_eq(x[i].1, y[i].1)
        },
        (ValueModel::Null, ValueModel::Null) => true,
        (ValueModel::Undefined, ValueModel::Undefined) => true,
        (ValueModel::DateTime(x), ValueModel::DateTime(y)) => x == y,
        _ => false,
    }
}

/// Whether two lists are equal.
pub open spec fn array_eq(a: Seq<ValueModel>, b: Seq<ValueModel>) -> bool {
    value_eq(ValueModel::Array(a), ValueModel::Array(b))
}

/// Whether two maps are equal.
pub open spec fn object_eq(a: Seq<(KeyModel, ValueModel)>, b: Seq<(KeyModel, ValueModel)>) -> bool {
    value_eq(ValueModel::Object(a), ValueModel::Object(b))
}

/// Compares two values.
pub fn values_equal(a: &Value, b: &Value) -> (r: bool)
    ensures
        r == value_eq(a@, b@),
    decreases a, 1nat,
{
    match (a, b) {
        (Value::String(x), Value::String(y)) => x == y,
        (Value::Number(x), Value::Number(y)) => x == y,
        (Value::Boolean(x), Value::Boolean(y)) => *x == *y,
        (Value::Array(x), Value::Array(y)) => {
            assert(a@ == ValueModel::Array(x@));
            assert(b@ == ValueModel::Array(y@));
            arrays_equal(x, y)
        },
        (Value::Object(x), Value::Object(y)) => {
            assert(a@ == ValueModel::Object(x@));
            assert(b@ == ValueModel::Object(y@));
            objects_equal(x, y)
        },
        (Value::Null, Value::Null) => true,
        (Value::Undefined, Value::Undefined) => true,
        (Value::DateTime(x), Value::DateTime(y)) => *x == *y,
        _ => false,
    }
}

/// Compares two lists.
pub fn arrays_equal(x: &Array, y: &Array) -> (r: bool)
    ensures
        r == array_eq(x@, y@),
    decreases x, 0nat,
{
    assert(x@.len() == x.values@.len() && y@.len() == y.values@.len());
    if x.values.len() != y.values.len() {
        return false;
    }
    let mut i: usize = 0;
    while i < x.values.len()
        invariant
            i <= x.values.len(),
            x.values.len() == y.values.len(),
            x@.len() == x.values@.len(),
            y@.len() == y.values@.len(),
            forall|j: int| 0 <= j < i ==> value_eq(#[trigger] x@[j], y@[j]),
        decreases x.values.len() - i,
    {
        proof {
            assert(decreases_to!(x => x.values));
            assert(decreases_to!(x.values => x.values[i as int]));
        }
        assert(x@[i as int] == x.values@[i as int]@);
        assert(y@[i as int] == y.values@[i as int]@);
        if !values_equal(&x.values[i], &y.values[i]) {
            assert(!value_eq(x@[i as int], y@[i as int]));
            return false;
        }
        i = i + 1;
    }
    true
}

/// Compares two maps.
pub fn objects_equal(x: &Object, y: &Object) -> (r: bool)
    ensures
        r == object_eq(x@, y@),
    decreases x, 0nat,
{
    if x.len() != y.len() {
        return false;
    }
    let mut i: usize = 0;
    while i < x.len()
        invariant
            i <= x@.len(),
            x@.len() == y@.len(),
            forall|j: int|
                0 <= j < i ==> (#[trigger] x@[j]).0 == y@[j].0 && value_eq(x@[j].1, y@[j].1),
        decreases x@.len() - i,
    {
        if !(x.key_at(i) == y.key_at(i)) {
            assert(x@[i as int].0 != y@[i as int].0);
            return false;
        }
        let p = x.value_at(i);
        let q = y.value_at(i);
        proof {
            x.lemma_value_at_decreases(i as int, *p);
        }
        if !values_equal(p, q) {
            assert(!value_eq(x@[i as int].1, y@[i as int].1));
            return false;
        }
        i = i + 1;
    }
    true
}

impl PartialEq for Value {
    fn eq(&self, other: &Self) -> (r: bool) {
        values_equal(self, other)
    }
}

impl PartialEqSpecImpl for Value {
    open spec fn obeys_eq_spec() -> bool {
        true
    }

    open spec fn eq_spec(&self, other: &Self) -> bool {
        value_eq(self@, other@)
    }
}

impl PartialEq for Array {
    fn eq(&self, other: &Self) -> (r: bool) {
        arrays_equal(self, other)
    }
}

impl PartialEqSpecImpl for Array {
    open spec fn obeys_eq_spec() -> bool {
        true
    }

    open spec fn eq_spec(&self, other: &Self) -> bool {
        array_eq(self@, other@)
    }
}

impl PartialEq for Object {
    fn eq(&self, other: &Self) -> (r: bool) {
        objects_equal(self, other)
    }
}

impl PartialEqSpecImpl for Object {
    open spec fn obeys_eq_spec() -> bool {
        true
    }

    open spec fn eq_spec(&self, other: &Self) -> bool {
        object_eq(self@, other@)
    }
}

impl Clone for Value {
    fn clone(&self) -> (r: Self)
        ensures
            r@ == self@,
        decreases self, 1nat,
    {
        match self {
            Value::String(s) => Value::String(s.clone()),
            Value::Number(n) => Value::Number(*n),
            Value::Boolean(b) => Value::Boolean(*b),
            Value::Array(a) => {
                let c = a.clone();
                assert(self@ == ValueModel::Array(a@));
                Value::Array(c)
            },
            Value::Object(o) => {
                let c = o.clone();
                assert(self@ == ValueModel::Object(o@));
                Value::Object(c)
            },
            Value::Null => Value::Null,
            Value::Undefined => Value::Undefined,
            Value::DateTime(d) => Value::DateTime(*d),
        }
    }
}

impl Clone for Array {
    fn clone(&self) -> (r: Self)
        ensures
            r@ == self@,
        decreases self, 0nat,
    {
        let mut values: Vec<Value> = Vec::new();
        let mut i: usize = 0;
        while i < self.values.len()
            invariant
                i <= self.values.len(),
                values@.len() == i,
                forall|j: int| 0 <= j < i ==> (#[trigger] values@[j])@ == self.values@[j]@,
            decreases self.values.len() - i,
        {
            proof {
                assert(decreases_to!(self => self.values));
                assert(decreases_to!(self.values => self.values[i as int]));
            }
            let v = self.values[i].clone();
            values.push(v);
            i = i + 1;
        }
        let r = Array { values };
        assert(r@ =~= self@);
        r
    }
}

} // verus!
