//! Between native values and `Value`.
//!
//! `ToValueBehavior` turns a native value into the one `Value` that stands for
//! it, and cannot fail. `FromValueBehavior` goes the other way and gives
//! nothing where the value is of another kind than the native type: an `i32`
//! comes only from a number whose `i32` slot is filled, never from one that
//! holds a `u8`.

use vstd::prelude::*;
use crate::float::Float32;
use crate::float::Float64;
use crate::types::array::Array;
use crate::types::number::Number;
use crate::types::number::NumberBehavior;
use crate::types::stringb::StringB;
use crate::value::Value;
use crate::value::ValueModel;

verus! {

/// Marks the native types that a value holds as they are.
pub trait PrimitiveType {

}

/// What can be written as JSON.
pub trait ToJsonBehavior {
    fn to_json(&self) -> String;
}

/// What converts to a `Value`.
pub trait ToValueBehavior {
    /// The value that this converts to.
    spec fn value_of(&self) -> ValueModel;

    fn to_value(&self) -> (r: Value)
        ensures
            r@ == self.value_of(),
    ;
}

/// What a `Value` converts to.
pub trait FromValueBehavior {
    type Item;

    /// Whether the conversion of a value comes to an end: a conversion of a
    /// list or a map as a whole stops the program at an entry that does not
    /// convert, so such a value is not to be handed in.
    spec fn defined_on(value: ValueModel) -> bool;

    /// Whether the conversion of a value gives something.
    spec fn accepts(value: ValueModel) -> bool;

    /// Whether an item is what a value converts to.
    spec fn yields(value: ValueModel, item: Self::Item) -> bool;

    fn from_value(value: Value) -> (r: Option<Self::Item>)
        requires
            Self::defined_on(value@),
        ensures
            r is Some <==> Self::accepts(value@),
            r matches Some(item) ==> Self::yields(value@, item),
    ;

    /// Tests whether the conversion of a value comes to an end, so that the
    /// value may be handed to `from_value`.
    fn is_defined_on(value: &Value) -> (r: bool)
        ensures
            r == Self::defined_on(value@),
    ;

    /// Tests whether the conversion of a value gives something.
    fn is_accepted(value: &Value) -> (r: bool)
        ensures
            r == Self::accepts(value@),
    ;
}

/// Converts a value where its conversion comes to an end, and gives nothing
/// where it would not: a list or a map with an entry that does not convert
/// gives nothing as a whole.
pub fn try_from_value<T: FromValueBehavior>(value: Value) -> (r: Option<T::Item>)
    ensures
        r is Some <==> T::defined_on(value@) && T::accepts(value@),
        r matches Some(item) ==> T::yields(value@, item),
{
    if T::is_defined_on(&value) {
        T::from_value(value)
    } else {
        None
    }
}

impl PrimitiveType for i8 {

}

impl ToValueBehavior for i8 {
    open spec fn value_of(&self) -> ValueModel {
        ValueModel::Number(Number { i8: Some(*self), ..Number::empty() })
    }

    fn to_value(&self) -> (r: Value) {
        Value::Number(Number::from(*self))
    }
}

impl FromValueBehavior for i8 {
    type Item = i8;

    open spec fn defined_on(value: ValueModel) -> bool {
        true
    }

    open spec fn accepts(value: ValueModel) -> bool {
        value matches ValueModel::Number(n) && n.i8 is Some
    }

    open spec fn yields(value: ValueModel, item: i8) -> bool {
        value matches ValueModel::Number(n) && n.i8 == Some(item)
    }

    fn from_value(value: Value) -> (r: Option<i8>) {
        if let Value::Number(number) = value {
            number.get_i8()
        } else {
            None
        }
    }

    fn is_defined_on(value: &Value) -> (r: bool) {
        true
    }

    fn is_accepted(value: &Value) -> (r: bool) {
        match value {
            Value::Number(number) => number.is_i8(),
            _ => false,
        }
    }
}

impl PrimitiveType for i16 {

}

impl ToValueBehavior for i16 {
    open spec fn value_of(&self) -> ValueModel {
        ValueModel::Number(Number { i16: Some(*self), ..Number::empty() })
    }

    fn to_value(&self) -> (r: Value) {
        Value::Number(Number::from(*self))
    }
}

impl FromValueBehavior for i16 {
    type Item = i16;

    open spec fn defined_on(value: ValueModel) -> bool {
        true
    }

    open spec fn accepts(value: ValueModel) -> bool {
        value matches ValueModel::Number(n) && n.i16 is Some
    }

    open spec fn yields(value: ValueModel, item: i16) -> bool {
        value matches ValueModel::Number(n) && n.i16 == Some(item)
    }

    fn from_value(value: Value) -> (r: Option<i16>) {
        if let Value::Number(number) = value {
            number.get_i16()
        } else {
            None
        }
    }

    fn is_defined_on(value: &Value) -> (r: bool) {
        true
    }

    fn is_accepted(value: &Value) -> (r: bool) {
        match value {
            Value::Number(number) => number.is_i16(),
            _ => false,
        }
    }
}

impl PrimitiveType for i32 {

}

impl ToValueBehavior for i32 {
    open spec fn value_of(&self) -> ValueModel {
        ValueModel::Number(Number { i32: Some(*self), ..Number::empty() })
    }

    fn to_value(&self) -> (r: Value) {
        Value::Number(Number::from(*self))
    }
}

impl FromValueBehavior for i32 {
    type Item = i32;

    open spec fn defined_on(value: ValueModel) -> bool {
        true
    }

    open spec fn accepts(value: ValueModel) -> bool {
        value matches ValueModel::Number(n) && n.i32 is Some
    }

    open spec fn yields(value: ValueModel, item: i32) -> bool {
        value matches ValueModel::Number(n) && n.i32 == Some(item)
    }

    fn from_value(value: Value) -> (r: Option<i32>) {
        if let Value::Number(number) = value {
            number.get_i32()
        } else {
            None
        }
    }

    fn is_defined_on(value: &Value) -> (r: bool) {
        true
    }

    fn is_accepted(value: &Value) -> (r: bool) {
        match value {
            Value::Number(number) => number.is_i32(),
            _ => false,
        }
    }
}

impl PrimitiveType for i64 {

}

impl ToValueBehavior for i64 {
    open spec fn value_of(&self) -> ValueModel {
        ValueModel::Number(Number { i64: Some(*self), ..Number::empty() })
    }

    fn to_value(&self) -> (r: Value) {
        Value::Number(Number::from(*self))
    }
}

impl FromValueBehavior for i64 {
    type Item = i64;

    open spec fn defined_on(value: ValueModel) -> bool {
        true
    }

    open spec fn accepts(value: ValueModel) -> bool {
        value matches ValueModel::Number(n) && n.i64 is Some
    }

    open spec fn yields(value: ValueModel, item: i64) -> bool {
        value matches ValueModel::Number(n) && n.i64 == Some(item)
    }

    fn from_value(value: Value) -> (r: Option<i64>) {
        if let Value::Number(number) = value {
            number.get_i64()
        } else {
            None
        }
    }

    fn is_defined_on(value: &Value) -> (r: bool) {
        true
    }

    fn is_accepted(value: &Value) -> (r: bool) {
        match value {
            Value::Number(number) => number.is_i64(),
            _ => false,
        }
    }
}

impl PrimitiveType for i128 {

}

impl ToValueBehavior for i128 {
    open spec fn value_of(&self) -> ValueModel {
        ValueModel::Number(Number { i128: Some(*self), ..Number::empty() })
    }

    fn to_value(&self) -> (r: Value) {
        Value::Number(Number::from(*self))
    }
}

impl FromValueBehavior for i128 {
    type Item = i128;

    open spec fn defined_on(value: ValueModel) -> bool {
        true
    }

    open spec fn accepts(value: ValueModel) -> bool {
        value matches ValueModel::Number(n) && n.i128 is Some
    }

    open spec fn yields(value: ValueModel, item: i128) -> bool {
        value matches ValueModel::Number(n) && n.i128 == Some(item)
    }

    fn from_value(value: Value) -> (r: Option<i128>) {
        if let Value::Number(number) = value {
            number.get_i128()
        } else {
            None
        }
    }

    fn is_defined_on(value: &Value) -> (r: bool) {
        true
    }

    fn is_accepted(value: &Value) -> (r: bool) {
        match value {
            Value::Number(number) => number.is_i128(),
            _ => false,
        }
    }
}

impl PrimitiveType for u8 {

}

impl ToValueBehavior for u8 {
    open spec fn value_of(&self) -> ValueModel {
        ValueModel::Number(Number { u8: Some(*self), ..Number::empty() })
    }

    fn to_value(&self) -> (r: Value) {
        Value::Number(Number::from(*self))
    }
}

impl FromValueBehavior for u8 {
    type Item = u8;

    open spec fn defined_on(value: ValueModel) -> bool {
        true
    }

    open spec fn accepts(value: ValueModel) -> bool {
        value matches ValueModel::Number(n) && n.u8 is Some
    }

    open spec fn yields(value: ValueModel, item: u8) -> bool {
        value matches ValueModel::Number(n) && n.u8 == Some(item)
    }

    fn from_value(value: Value) -> (r: Option<u8>) {
        if let Value::Number(number) = value {
            number.get_u8()
        } else {
            None
        }
    }

    fn is_defined_on(value: &Value) -> (r: bool) {
        true
    }

    fn is_accepted(value: &Value) -> (r: bool) {
        match value {
            Value::Number(number) => number.is_u8(),
            _ => false,
        }
    }
}

impl PrimitiveType for u16 {

}

impl ToValueBehavior for u16 {
    open spec fn value_of(&self) -> ValueModel {
        ValueModel::Number(Number { u16: Some(*self), ..Number::empty() })
    }

    fn to_value(&self) -> (r: Value) {
        Value::Number(Number::from(*self))
    }
}

impl FromValueBehavior for u16 {
    type Item = u16;

    open spec fn defined_on(value: ValueModel) -> bool {
        true
    }

    open spec fn accepts(value: ValueModel) -> bool {
        value matches ValueModel::Number(n) && n.u16 is Some
    }

    open spec fn yields(value: ValueModel, item: u16) -> bool {
        value matches ValueModel::Number(n) && n.u16 == Some(item)
    }

    fn from_value(value: Value) -> (r: Option<u16>) {
        if let Value::Number(number) = value {
            number.get_u16()
        } else {
            None
        }
    }

    fn is_defined_on(value: &Value) -> (r: bool) {
        true
    }

    fn is_accepted(value: &Value) -> (r: bool) {
        match value {
            Value::Number(number) => number.is_u16(),
            _ => false,
        }
    }
}

impl PrimitiveType for u32 {

}

impl ToValueBehavior for u32 {
    open spec fn value_of(&self) -> ValueModel {
        ValueModel::Number(Number { u32: Some(*self), ..Number::empty() })
    }

    fn to_value(&self) -> (r: Value) {
        Value::Number(Number::from(*self))
    }
}

impl FromValueBehavior for u32 {
    type Item = u32;

    open spec fn defined_on(value: ValueModel) -> bool {
        true
    }

    open spec fn accepts(value: ValueModel) -> bool {
        value matches ValueModel::Number(n) && n.u32 is Some
    }

    open spec fn yields(value: ValueModel, item: u32) -> bool {
        value matches ValueModel::Number(n) && n.u32 == Some(item)
    }

    fn from_value(value: Value) -> (r: Option<u32>) {
        if let Value::Number(number) = value {
            number.get_u32()
        } else {
            None
        }
    }

    fn is_defined_on(value: &Value) -> (r: bool) {
        true
    }

    fn is_accepted(value: &Value) -> (r: bool) {
        match value {
            Value::Number(number) => number.is_u32(),
            _ => false,
        }
    }
}

impl PrimitiveType for u64 {

}

impl ToValueBehavior for u64 {
    open spec fn value_of(&self) -> ValueModel {
        ValueModel::Number(Number { u64: Some(*self), ..Number::empty() })
    }

    fn to_value(&self) -> (r: Value) {
        Value::Number(Number::from(*self))
    }
}

impl FromValueBehavior for u64 {
    type Item = u64;

    open spec fn defined_on(value: ValueModel) -> bool {
        true
    }

    open spec fn accepts(value: ValueModel) -> bool {
        value matches ValueModel::Number(n) && n.u64 is Some
    }

    open spec fn yields(value: ValueModel, item: u64) -> bool {
        value matches ValueModel::Number(n) && n.u64 == Some(item)
    }

    fn from_value(value: Value) -> (r: Option<u64>) {
        if let Value::Number(number) = value {
            number.get_u64()
        } else {
            None
        }
    }

    fn is_defined_on(value: &Value) -> (r: bool) {
        true
    }

    fn is_accepted(value: &Value) -> (r: bool) {
        match value {
            Value::Number(number) => number.is_u64(),
            _ => false,
        }
    }
}

impl PrimitiveType for u128 {

}

impl ToValueBehavior for u128 {
    open spec fn value_of(&self) -> ValueModel {
        ValueModel::Number(Number { u128: Some(*self), ..Number::empty() })
    }

    fn to_value(&self) -> (r: Value) {
        Value::Number(Number::from(*self))
    }
}

impl FromValueBehavior for u128 {
    type Item = u128;

    open spec fn defined_on(value: ValueModel) -> bool {
        true
    }

    open spec fn accepts(value: ValueModel) -> bool {
        value matches ValueModel::Number(n) && n.u128 is Some
    }

    open spec fn yields(value: ValueModel, item: u128) -> bool {
        value matches ValueModel::Number(n) && n.u128 == Some(item)
    }

    fn from_value(value: Value) -> (r: Option<u128>) {
        if let Value::Number(number) = value {
            number.get_u128()
        } else {
            None
        }
    }

    fn is_defined_on(value: &Value) -> (r: bool) {
        true
    }

    fn is_accepted(value: &Value) -> (r: bool) {
        match value {
            Value::Number(number) => number.is_u128(),
            _ => false,
        }
    }
}

impl PrimitiveType for Float32 {

}

impl ToValueBehavior for Float32 {
    open spec fn value_of(&self) -> ValueModel {
        ValueModel::Number(Number { float32: Some(*self), ..Number::empty() })
    }

    fn to_value(&self) -> (r: Value) {
        Value::Number(Number::from(*self))
    }
}

impl FromValueBehavior for Float32 {
    type Item = Float32;

    open spec fn defined_on(value: ValueModel) -> bool {
        true
    }

    open spec fn accepts(value: ValueModel) -> bool {
        value matches ValueModel::Number(n) && n.float32 is Some
    }

    open spec fn yields(value: ValueModel, item: Float32) -> bool {
        value matches ValueModel::Number(n) && n.float32 == Some(item)
    }

    fn from_value(value: Value) -> (r: Option<Float32>) {
        if let Value::Number(number) = value {
            number.get_f32()
        } else {
            None
        }
    }

    fn is_defined_on(value: &Value) -> (r: bool) {
        true
    }

    fn is_accepted(value: &Value) -> (r: bool) {
        match value {
            Value::Number(number) => number.is_f32(),
            _ => false,
        }
    }
}

impl PrimitiveType for Float64 {

}

impl ToValueBehavior for Float64 {
    open spec fn value_of(&self) -> ValueModel {
        ValueModel::Number(Number { float64: Some(*self), ..Number::empty() })
    }

    fn to_value(&self) -> (r: Value) {
        Value::Number(Number::from(*self))
    }
}

impl FromValueBehavior for Float64 {
    type Item = Float64;

    open spec fn defined_on(value: ValueModel) -> bool {
        true
    }

    open spec fn accepts(value: ValueModel) -> bool {
        value matches ValueModel::Number(n) && n.float64 is Some
    }

    open spec fn yields(value: ValueModel, item: Float64) -> bool {
        value matches ValueModel::Number(n) && n.float64 == Some(item)
    }

    fn from_value(value: Value) -> (r: Option<Float64>) {
        if let Value::Number(number) = value {
            number.get_f64()
        } else {
            None
        }
    }

    fn is_defined_on(value: &Value) -> (r: bool) {
        true
    }

    fn is_accepted(value: &Value) -> (r: bool) {
        match value {
            Value::Number(number) => number.is_f64(),
            _ => false,
        }
    }
}

impl PrimitiveType for bool {

}

impl ToValueBehavior for bool {
    open spec fn value_of(&self) -> ValueModel {
        ValueModel::Boolean(*self)
    }

    fn to_value(&self) -> (r: Value) {
        Value::Boolean(*self)
    }
}

impl FromValueBehavior for bool {
    type Item = bool;

    open spec fn defined_on(value: ValueModel) -> bool {
        true
    }

    open spec fn accepts(value: ValueModel) -> bool {
        value is Boolean
    }

    open spec fn yields(value: ValueModel, item: bool) -> bool {
        value == ValueModel::Boolean(item)
    }

    fn from_value(value: Value) -> (r: Option<bool>) {
        if let Value::Boolean(b) = value {
            Some(b)
        } else {
            None
        }
    }

    fn is_defined_on(value: &Value) -> (r: bool) {
        true
    }

    fn is_accepted(value: &Value) -> (r: bool) {
        match value {
            Value::Boolean(_) => true,
            _ => false,
        }
    }
}

impl PrimitiveType for String {

}

impl ToValueBehavior for String {
    open spec fn value_of(&self) -> ValueModel {
        ValueModel::String(self@)
    }

    fn to_value(&self) -> (r: Value) {
        Value::String(StringB::from(self.clone()))
    }
}

impl ToValueBehavior for &str {
    open spec fn value_of(&self) -> ValueModel {
        ValueModel::String(self@)
    }

    fn to_value(&self) -> (r: Value) {
        Value::String(StringB::from_str(*self))
    }
}

impl FromValueBehavior for String {
    type Item = String;

    open spec fn defined_on(value: ValueModel) -> bool {
        true
    }

    open spec fn accepts(value: ValueModel) -> bool {
        value is String
    }

    open spec fn yields(value: ValueModel, item: String) -> bool {
        value == ValueModel::String(item@)
    }

    fn from_value(value: Value) -> (r: Option<String>) {
        if let Value::String(text) = value {
            Some(text.as_string())
        } else {
            None
        }
    }

    fn is_defined_on(value: &Value) -> (r: bool) {
        true
    }

    fn is_accepted(value: &Value) -> (r: bool) {
        match value {
            Value::String(_) => true,
            _ => false,
        }
    }
}

impl FromValueBehavior for &str {
    type Item = String;

    open spec fn defined_on(value: ValueModel) -> bool {
        true
    }

    open spec fn accepts(value: ValueModel) -> bool {
        value is String
    }

    open spec fn yields(value: ValueModel, item: String) -> bool {
        value == ValueModel::String(item@)
    }

    fn from_value(value: Value) -> (r: Option<String>) {
        if let Value::String(text) = value {
            Some(text.as_string())
        } else {
            None
        }
    }

    fn is_defined_on(value: &Value) -> (r: bool) {
        true
    }

    fn is_accepted(value: &Value) -> (r: bool) {
        match value {
            Value::String(_) => true,
            _ => false,
        }
    }
}

impl FromValueBehavior for str {
    type Item = String;

    open spec fn defined_on(value: ValueModel) -> bool {
        true
    }

    open spec fn accepts(value: ValueModel) -> bool {
        value is String
    }

    open spec fn yields(value: ValueModel, item: String) -> bool {
        value == ValueModel::String(item@)
    }

    fn from_value(value: Value) -> (r: Option<String>) {
        if let Value::String(text) = value {
            Some(text.as_string())
        } else {
            None
        }
    }

    fn is_defined_on(value: &Value) -> (r: bool) {
        true
    }

    fn is_accepted(value: &Value) -> (r: bool) {
        match value {
            Value::String(_) => true,
            _ => false,
        }
    }
}

impl ToValueBehavior for Value {
    open spec fn value_of(&self) -> ValueModel {
        self@
    }

    fn to_value(&self) -> (r: Value) {
        self.clone()
    }
}

impl FromValueBehavior for Value {
    type Item = Value;

    open spec fn defined_on(value: ValueModel) -> bool {
        true
    }

    open spec fn accepts(value: ValueModel) -> bool {
        true
    }

    open spec fn yields(value: ValueModel, item: Value) -> bool {
        item@ == value
    }

    fn from_value(value: Value) -> (r: Option<Value>) {
        Some(value)
    }

    fn is_defined_on(value: &Value) -> (r: bool) {
        true
    }

    fn is_accepted(value: &Value) -> (r: bool) {
        true
    }
}

impl<T: FromValueBehavior> FromValueBehavior for Vec<T> {
    type Item = Vec<T::Item>;

    open spec fn defined_on(value: ValueModel) -> bool {
        value matches ValueModel::Array(values) ==> forall|i: int|
            0 <= i < values.len() ==> T::defined_on(#[trigger] values[i]) && T::accepts(values[i])
    }

    open spec fn accepts(value: ValueModel) -> bool {
        value is Array
    }

    open spec fn yields(value: ValueModel, item: Vec<T::Item>) -> bool {
        value matches ValueModel::Array(values) && item@.len() == values.len() && forall|i: int|
            0 <= i < values.len() ==> T::yields(#[trigger] values[i], item@[i])
    }

    fn from_value(value: Value) -> (r: Option<Vec<T::Item>>) {
        let ghost whole = value@;
        if let Value::Array(array) = value {
            let ghost models = array@;
            assert(whole == ValueModel::Array(models));
            assert(whole matches ValueModel::Array(values) && values == models);
            assert(forall|j: int|
                0 <= j < models.len() ==> T::defined_on(#[trigger] models[j]) && T::accepts(
                    models[j],
                ));
            let values = array.into_values();
            let mut items: Vec<T::Item> = Vec::new();
            for v in it: values
                invariant
                    it.seq().len() == models.len(),
                    forall|j: int| 0 <= j < models.len() ==> (#[trigger] it.seq()[j])@ == models[j],
                    forall|j: int|
                        0 <= j < models.len() ==> T::defined_on(#[trigger] models[j]) && T::accepts(
                            models[j],
                        ),
                    items@.len() == it.index(),
                    forall|j: int| 0 <= j < it.index() ==> T::yields(#[trigger] models[j], items@[j]),
            {
                let item = T::from_value(v);
                items.push(item.unwrap());
            }
            Some(items)
        } else {
            None
        }
    }

    fn is_defined_on(value: &Value) -> (r: bool) {
        match value {
            Value::Array(array) => {
                assert(value@ == ValueModel::Array(array@));
                let n = array.len();
                let mut i: usize = 0;
                while i < n
                    invariant
                        n == array@.len(),
                        i <= n,
                        value@ == ValueModel::Array(array@),
                        forall|j: int|
                            0 <= j < i ==> T::defined_on(#[trigger] array@[j]) && T::accepts(
                                array@[j],
                            ),
                    decreases n - i,
                {
                    let inner = array.value_at(i);
                    if !T::is_defined_on(inner) || !T::is_accepted(inner) {
                        assert(value@ matches ValueModel::Array(values) && values == array@);
                        assert(!(T::defined_on(array@[i as int]) && T::accepts(array@[i as int])));
                        return false;
                    }
                    i = i + 1;
                }
                true
            },
            _ => true,
        }
    }

    fn is_accepted(value: &Value) -> (r: bool) {
        match value {
            Value::Array(_) => true,
            _ => false,
        }
    }
}

impl<T: ToValueBehavior> ToValueBehavior for Vec<T> {
    open spec fn value_of(&self) -> ValueModel {
        ValueModel::Array(Seq::new(self@.len(), |i: int| self@[i].value_of()))
    }

    fn to_value(&self) -> (r: Value) {
        let mut array = Array::new();
        let mut i: usize = 0;
        while i < self.len()
            invariant
                i <= self@.len(),
                array@.len() == i,
                forall|j: int| 0 <= j < i ==> array@[j] == (#[trigger] self@[j]).value_of(),
            decreases self@.len() - i,
        {
            array.push(self[i].to_value());
            i = i + 1;
        }
        assert(array@ =~= Seq::new(self@.len(), |i: int| self@[i].value_of()));
        let r = Value::Array(array);
        assert(r@ == ValueModel::Array(array@));
        r
    }
}

impl<T: ToValueBehavior> ToValueBehavior for Option<T> {
    /// An absent value is written as `Null`; one that is there, as itself.
    open spec fn value_of(&self) -> ValueModel {
        match self {
            Some(inner) => inner.value_of(),
            None => ValueModel::Null,
        }
    }

    fn to_value(&self) -> (r: Value) {
        match self {
            Some(inner) => inner.to_value(),
            None => Value::Null,
        }
    }
}

impl<T: FromValueBehavior> FromValueBehavior for Option<T> {
    type Item = Option<T::Item>;

    open spec fn defined_on(value: ValueModel) -> bool {
        !(value is Null) ==> T::defined_on(value)
    }

    /// `Null` gives nothing at all. Every other value gives something: what
    /// the inner conversion made of it, be that nothing.
    open spec fn accepts(value: ValueModel) -> bool {
        !(value is Null)
    }

    open spec fn yields(value: ValueModel, item: Option<T::Item>) -> bool {
        match item {
            Some(inner) => T::accepts(value) && T::yields(value, inner),
            None => !T::accepts(value),
        }
    }

    fn from_value(value: Value) -> (r: Option<Option<T::Item>>) {
        match value {
            Value::Null => None,
            _ => Some(T::from_value(value)),
        }
    }

    fn is_defined_on(value: &Value) -> (r: bool) {
        match value {
            Value::Null => true,
            _ => T::is_defined_on(value),
        }
    }

    fn is_accepted(value: &Value) -> (r: bool) {
        match value {
            Value::Null => false,
            _ => true,
        }
    }
}

/// The native types that stand for values of one shape exactly, so that a
/// value of that shape comes back as it was from the way there and back.
pub trait ExactConversion: FromValueBehavior where
    <Self as FromValueBehavior>::Item: ToValueBehavior,
 {
    /// Whether a value is of the shape that the type stands for: of its kind,
    /// and, for a number, with the slot of the type filled and no other.
    spec fn exact(value: ValueModel) -> bool;

    /// A value of the shape converts, and what it converts to converts back
    /// to the value.
    proof fn lemma_there_and_back(value: ValueModel, item: Self::Item)
        requires
            Self::exact(value),
        ensures
            Self::defined_on(value),
            Self::accepts(value),
            Self::yields(value, item) ==> item.value_of() == value,
    ;
}

} // verus!
