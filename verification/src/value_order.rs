//! The order of values.
//!
//! Two values of one kind stand to each other as what they hold: texts by
//! their characters, numbers as numbers do, `false` before `true`, lists and
//! maps by the first place at which they differ, a shorter one that begins a
//! longer one before it. Two values of different kinds cannot be compared.

use std::cmp::Ordering;
use vstd::prelude::*;
use vstd::std_specs::cmp::PartialOrdSpecImpl;
use crate::types::array::Array;
use crate::types::datetime_order::compare_date_times;
use crate::types::datetime_order::date_time_order;
use crate::types::datetime_order::lemma_date_time_order_equal;
use crate::types::number_order::lemma_eq_is_order_equal;
use crate::types::stringb::lemma_text_order_equal;
use crate::value_eq::value_eq;
use crate::types::number_order::first_then;
use crate::types::number_order::number_order;
use crate::types::object::Object;
use crate::types::stringb::place;
use crate::types::stringb::text_order;
use crate::types::value_key::key_order;
use crate::types::value_key::KeyModel;
use crate::value::Value;
use crate::value::ValueModel;

verus! {

/// How two booleans stand to each other: `false` comes before `true`.
pub open spec fn bool_order(a: bool, b: bool) -> Ordering {
    if a == b {
        Ordering::Equal
    } else if b {
        Ordering::Less
    } else {
        Ordering::Greater
    }
}

/// How two values stand to each other, if they can be compared.
pub open spec fn value_order(a: ValueModel, b: ValueModel) -> Option<Ordering>
    decreases a, 1nat,
{
    match (a, b) {
        (ValueModel::String(x), ValueModel::String(y)) => Some(text_order(x, y)),
        (ValueModel::Number(x), ValueModel::Number(y)) => number_order(x, y),
        (ValueModel::Boolean(x), ValueModel::Boolean(y)) => Some(bool_order(x, y)),
        (ValueModel::Array(x), ValueModel::Array(y)) => array_order(x, y),
        (ValueModel::Object(x), ValueModel::Object(y)) => object_order(x, y),
        (ValueModel::Null, ValueModel::Null) => Some(Ordering::Equal),
        (ValueModel::Undefined, ValueModel::Undefined) => Some(Ordering::Equal),
        (ValueModel::DateTime(x), ValueModel::DateTime(y)) => Some(date_time_order(x, y)),
        _ => None,
    }
}

/// How two lists stand to each other, if they can be compared.
pub open spec fn array_order(x: Seq<ValueModel>, y: Seq<ValueModel>) -> Option<Ordering>
    decreases x, 0nat,
{
    if x.len() == 0 {
        if y.len() == 0 {
            Some(Ordering::Equal)
        } else {
            Some(Ordering::Less)
        }
    } else if y.len() == 0 {
        Some(Ordering::Greater)
    } else {
        first_then(value_order(x[0], y[0]), array_order(x.skip(1), y.skip(1)))
    }
}

/// How two maps stand to each other, if they can be compared: entry by
/// entry, the key of an entry before its value.
pub open spec fn object_order(
    x: Seq<(KeyModel, ValueModel)>,
    y: Seq<(KeyModel, ValueModel)>,
) -> Option<Ordering>
    decreases x, 0nat,
{
    if x.len() == 0 {
        if y.len() == 0 {
            Some(Ordering::Equal)
        } else {
            Some(Ordering::Less)
        }
    } else if y.len() == 0 {
        Some(Ordering::Greater)
    } else {
        first_then(
            Some(key_order(x[0].0, y[0].0)),
            first_then(value_order(x[0].1, y[0].1), object_order(x.skip(1), y.skip(1))),
        )
    }
}

/// Two values of different kinds cannot be compared.
pub proof fn lemma_kinds_apart(a: ValueModel, b: ValueModel)
    requires
        !same_kind(a, b),
    ensures
        value_order(a, b) is None,
{
}

/// Whether two values are of one kind.
pub open spec fn same_kind(a: ValueModel, b: ValueModel) -> bool {
    ||| a is String && b is String
    ||| a is Number && b is Number
    ||| a is Boolean && b is Boolean
    ||| a is Array && b is Array
    ||| a is Object && b is Object
    ||| a is Null && b is Null
    ||| a is Undefined && b is Undefined
    ||| a is DateTime && b is DateTime
}

/// Past a place at which two lists hold values that compare as equal, the
/// lists stand as before. At a place at which they do not, or at which one
/// of them ends, the matter is decided.
proof fn lemma_array_order_step(x: Seq<ValueModel>, y: Seq<ValueModel>, k: int)
    requires
        0 <= k <= x.len(),
        k <= y.len(),
    ensures
        k < x.len() && k < y.len() ==> array_order(x.skip(k), y.skip(k)) == first_then(
            value_order(x[k], y[k]),
            array_order(x.skip(k + 1), y.skip(k + 1)),
        ),
        k == x.len() && k < y.len() ==> array_order(x.skip(k), y.skip(k)) == Some(Ordering::Less),
        k < x.len() && k == y.len() ==> array_order(x.skip(k), y.skip(k)) == Some(
            Ordering::Greater,
        ),
        k == x.len() && k == y.len() ==> array_order(x.skip(k), y.skip(k)) == Some(
            Ordering::Equal,
        ),
{
    if k < x.len() {
        assert(x.skip(k)[0] == x[k]);
        assert(x.skip(k).skip(1) =~= x.skip(k + 1));
    }
    if k < y.len() {
        assert(y.skip(k)[0] == y[k]);
        assert(y.skip(k).skip(1) =~= y.skip(k + 1));
    }
}

/// The same for two maps.
proof fn lemma_object_order_step(
    x: Seq<(KeyModel, ValueModel)>,
    y: Seq<(KeyModel, ValueModel)>,
    k: int,
)
    requires
        0 <= k <= x.len(),
        k <= y.len(),
    ensures
        k < x.len() && k < y.len() ==> object_order(x.skip(k), y.skip(k)) == first_then(
            Some(key_order(x[k].0, y[k].0)),
            first_then(value_order(x[k].1, y[k].1), object_order(x.skip(k + 1), y.skip(k + 1))),
        ),
        k == x.len() && k < y.len() ==> object_order(x.skip(k), y.skip(k)) == Some(Ordering::Less),
        k < x.len() && k == y.len() ==> object_order(x.skip(k), y.skip(k)) == Some(
            Ordering::Greater,
        ),
        k == x.len() && k == y.len() ==> object_order(x.skip(k), y.skip(k)) == Some(
            Ordering::Equal,
        ),
{
    if k < x.len() {
        assert(x.skip(k)[0] == x[k]);
        assert(x.skip(k).skip(1) =~= x.skip(k + 1));
    }
    if k < y.len() {
        assert(y.skip(k)[0] == y[k]);
        assert(y.skip(k).skip(1) =~= y.skip(k + 1));
    }
}

/// Two lists stand as equal just where they are of one length and their
/// values stand as equal place by place.
pub proof fn lemma_array_order_equal(x: Seq<ValueModel>, y: Seq<ValueModel>)
    ensures
        array_order(x, y) == Some(Ordering::Equal) <==> x.len() == y.len() && forall|i: int|
            0 <= i < x.len() ==> value_order(#[trigger] x[i], y[i]) == Some(Ordering::Equal),
    decreases x.len(),
{
    if x.len() > 0 && y.len() > 0 {
        let (p, q) = (x.skip(1), y.skip(1));
        lemma_array_order_equal(p, q);
        if array_order(x, y) == Some(Ordering::Equal) {
            assert forall|i: int| 0 <= i < x.len() implies value_order(#[trigger] x[i], y[i])
                == Some(Ordering::Equal) by {
                if i > 0 {
                    assert(p[i - 1] == x[i] && q[i - 1] == y[i]);
                }
            }
        }
        if x.len() == y.len() && forall|i: int|
            0 <= i < x.len() ==> value_order(#[trigger] x[i], y[i]) == Some(Ordering::Equal) {
            assert forall|i: int| 0 <= i < p.len() implies value_order(#[trigger] p[i], q[i])
                == Some(Ordering::Equal) by {
                assert(p[i] == x[i + 1] && q[i] == y[i + 1]);
            }
        }
    }
}

/// Two maps stand as equal just where they are of one length and their
/// keys and values stand as equal entry by entry.
pub proof fn lemma_object_order_equal(
    x: Seq<(KeyModel, ValueModel)>,
    y: Seq<(KeyModel, ValueModel)>,
)
    ensures
        object_order(x, y) == Some(Ordering::Equal) <==> x.len() == y.len() && forall|i: int|
            0 <= i < x.len() ==> key_order((#[trigger] x[i]).0, y[i].0) == Ordering::Equal
                && value_order(x[i].1, y[i].1) == Some(Ordering::Equal),
    decreases x.len(),
{
    if x.len() > 0 && y.len() > 0 {
        let (p, q) = (x.skip(1), y.skip(1));
        lemma_object_order_equal(p, q);
        if object_order(x, y) == Some(Ordering::Equal) {
            assert forall|i: int| 0 <= i < x.len() implies key_order((#[trigger] x[i]).0, y[i].0)
                == Ordering::Equal && value_order(x[i].1, y[i].1) == Some(Ordering::Equal) by {
                if i > 0 {
                    assert(p[i - 1] == x[i] && q[i - 1] == y[i]);
                }
            }
        }
        if x.len() == y.len() && forall|i: int|
            0 <= i < x.len() ==> key_order((#[trigger] x[i]).0, y[i].0) == Ordering::Equal
                && value_order(x[i].1, y[i].1) == Some(Ordering::Equal) {
            assert forall|i: int| 0 <= i < p.len() implies key_order((#[trigger] p[i]).0, q[i].0)
                == Ordering::Equal && value_order(p[i].1, q[i].1) == Some(Ordering::Equal) by {
                assert(p[i] == x[i + 1] && q[i] == y[i + 1]);
            }
        }
    }
}

/// Two keys stand as equal just where they are the same key.
pub proof fn lemma_key_order_equal(a: KeyModel, b: KeyModel)
    ensures
        key_order(a, b) == Ordering::Equal <==> a == b,
{
    match (a, b) {
        (KeyModel::String(x), KeyModel::String(y)) => {
            lemma_text_order_equal(x, y);
        },
        _ => {},
    }
}

/// Two values are equal just where they stand to each other as equal.
pub proof fn lemma_equal_is_order_equal(a: ValueModel, b: ValueModel)
    ensures
        value_eq(a, b) <==> value_order(a, b) == Some(Ordering::Equal),
    decreases a,
{
    match (a, b) {
        (ValueModel::String(x), ValueModel::String(y)) => {
            lemma_text_order_equal(x, y);
        },
        (ValueModel::Number(x), ValueModel::Number(y)) => {
            lemma_eq_is_order_equal(x, y);
        },
        (ValueModel::Array(x), ValueModel::Array(y)) => {
            lemma_array_order_equal(x, y);
            assert forall|i: int| 0 <= i < x.len() && i < y.len() implies (value_eq(
                #[trigger] x[i],
                y[i],
            ) <==> value_order(x[i], y[i]) == Some(Ordering::Equal)) by {
                lemma_equal_is_order_equal(x[i], y[i]);
            }
        },
        (ValueModel::Object(x), ValueModel::Object(y)) => {
            lemma_object_order_equal(x, y);
            assert forall|i: int| 0 <= i < x.len() && i < y.len() implies ((#[trigger] x[i]).0
                == y[i].0 && value_eq(x[i].1, y[i].1) <==> key_order(x[i].0, y[i].0)
                == Ordering::Equal && value_order(x[i].1, y[i].1) == Some(Ordering::Equal)) by {
                lemma_key_order_equal(x[i].0, y[i].0);
                lemma_equal_is_order_equal(x[i].1, y[i].1);
            }
        },
        (ValueModel::DateTime(x), ValueModel::DateTime(y)) => {
            lemma_date_time_order_equal(x, y);
        },
        _ => {},
    }
}

/// Compares two values.
pub fn compare_values(a: &Value, b: &Value) -> (r: Option<Ordering>)
    ensures
        r == value_order(a@, b@),
    decreases a, 1nat,
{
    match (a, b) {
        (Value::String(x), Value::String(y)) => x.partial_cmp(y),
        (Value::Number(x), Value::Number(y)) => x.partial_cmp(y),
        (Value::Boolean(x), Value::Boolean(y)) => {
            if *x == *y {
                Some(Ordering::Equal)
            } else if *y {
                Some(Ordering::Less)
            } else {
                Some(Ordering::Greater)
            }
        },
        (Value::Array(x), Value::Array(y)) => {
            assert(a@ == ValueModel::Array(x@));
            assert(b@ == ValueModel::Array(y@));
            compare_arrays(x, y)
        },
        (Value::Object(x), Value::Object(y)) => {
            assert(a@ == ValueModel::Object(x@));
            assert(b@ == ValueModel::Object(y@));
            compare_objects(x, y)
        },
        (Value::Null, Value::Null) => Some(Ordering::Equal),
        (Value::Undefined, Value::Undefined) => Some(Ordering::Equal),
        (Value::DateTime(x), Value::DateTime(y)) => Some(compare_date_times(x, y)),
        _ => None,
    }
}

/// Compares two lists.
pub fn compare_arrays(x: &Array, y: &Array) -> (r: Option<Ordering>)
    ensures
        r == array_order(x@, y@),
    decreases x, 0nat,
{
    let n = x.len();
    let m = y.len();
    let mut i: usize = 0;
    assert(x@.skip(0) =~= x@);
    assert(y@.skip(0) =~= y@);
    while i < n && i < m
        invariant
            n == x@.len(),
            m == y@.len(),
            i <= n,
            i <= m,
            array_order(x@, y@) == array_order(x@.skip(place(i)), y@.skip(place(i))),
        decreases n - i,
    {
        let p = x.value_at(i);
        let q = y.value_at(i);
        proof {
            lemma_array_order_step(x@, y@, place(i));
            x.lemma_value_at_decreases(place(i), *p);
        }
        let c = compare_values(p, q);
        match c {
            Some(Ordering::Equal) => {},
            _ => {
                return c;
            },
        }
        i = i + 1;
    }
    proof {
        lemma_array_order_step(x@, y@, place(i));
    }
    if i < m {
        Some(Ordering::Less)
    } else if i < n {
        Some(Ordering::Greater)
    } else {
        Some(Ordering::Equal)
    }
}

/// Compares two maps.
pub fn compare_objects(x: &Object, y: &Object) -> (r: Option<Ordering>)
    ensures
        r == object_order(x@, y@),
    decreases x, 0nat,
{
    let n = x.len();
    let m = y.len();
    let mut i: usize = 0;
    assert(x@.skip(0) =~= x@);
    assert(y@.skip(0) =~= y@);
    while i < n && i < m
        invariant
            n == x@.len(),
            m == y@.len(),
            i <= n,
            i <= m,
            object_order(x@, y@) == object_order(x@.skip(place(i)), y@.skip(place(i))),
        decreases n - i,
    {
        proof {
            lemma_object_order_step(x@, y@, place(i));
        }
        let k = x.key_at(i).partial_cmp(y.key_at(i));
        match k {
            Some(Ordering::Equal) => {},
            _ => {
                return k;
            },
        }
        let p = x.value_at(i);
        let q = y.value_at(i);
        proof {
            x.lemma_value_at_decreases(place(i), *p);
        }
        let c = compare_values(p, q);
        match c {
            Some(Ordering::Equal) => {},
            _ => {
                return c;
            },
        }
        i = i + 1;
    }
    proof {
        lemma_object_order_step(x@, y@, place(i));
    }
    if i < m {
        Some(Ordering::Less)
    } else if i < n {
        Some(Ordering::Greater)
    } else {
        Some(Ordering::Equal)
    }
}

impl PartialOrd for Value {
    fn partial_cmp(&self, other: &Self) -> (r: Option<Ordering>) {
        compare_values(self, other)
    }
}

impl PartialOrdSpecImpl for Value {
    open spec fn obeys_partial_cmp_spec() -> bool {
        true
    }

    open spec fn partial_cmp_spec(&self, other: &Self) -> Option<Ordering> {
        value_order(self@, other@)
    }
}

impl PartialOrd for Array {
    fn partial_cmp(&self, other: &Self) -> (r: Option<Ordering>) {
        compare_arrays(self, other)
    }
}

impl PartialOrdSpecImpl for Array {
    open spec fn obeys_partial_cmp_spec() -> bool {
        true
    }

    open spec fn partial_cmp_spec(&self, other: &Self) -> Option<Ordering> {
        array_order(self@, other@)
    }
}

impl PartialOrd for Object {
    fn partial_cmp(&self, other: &Self) -> (r: Option<Ordering>) {
        compare_objects(self, other)
    }
}

impl PartialOrdSpecImpl for Object {
    open spec fn obeys_partial_cmp_spec() -> bool {
        true
    }

    open spec fn partial_cmp_spec(&self, other: &Self) -> Option<Ordering> {
        object_order(self@, other@)
    }
}

} // verus!
