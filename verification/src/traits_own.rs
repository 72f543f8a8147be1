//! Between what a value is made of and `Value`: a number, a text, a list, a
//! map and a date or time each convert to the value that holds them, and
//! come back out of it.

use vstd::prelude::*;
use crate::traits::ExactConversion;
use crate::traits::FromValueBehavior;
use crate::traits::ToValueBehavior;
use crate::types::array::Array;
use crate::types::datetime::DateTime;
use crate::types::number::Number;
use crate::types::object::Object;
use crate::types::stringb::StringB;
use crate::value::Value;
use crate::value::ValueModel;

verus! {

impl ToValueBehavior for Number {
    open spec fn value_of(&self) -> ValueModel {
        ValueModel::Number(*self)
    }

    fn to_value(&self) -> (r: Value) {
        let r = Value::Number(*self);
        assert(r@ == ValueModel::Number(*self));
        r
    }
}

impl FromValueBehavior for Number {
    type Item = Number;

    open spec fn defined_on(value: ValueModel) -> bool {
        true
    }

    open spec fn accepts(value: ValueModel) -> bool {
        value is Number
    }

    open spec fn yields(value: ValueModel, item: Number) -> bool {
        value == ValueModel::Number(item)
    }

    fn from_value(value: Value) -> (r: Option<Number>) {
        match value {
            Value::Number(inner) => Some(inner),
            _ => None,
        }
    }

    fn is_defined_on(value: &Value) -> (r: bool) {
        true
    }

    fn is_accepted(value: &Value) -> (r: bool) {
        match value {
            Value::Number(_) => true,
            _ => false,
        }
    }
}

impl ExactConversion for Number {
    open spec fn exact(value: ValueModel) -> bool {
        value is Number
    }

    proof fn lemma_there_and_back(value: ValueModel, item: Number) {
    }
}

impl ToValueBehavior for DateTime {
    open spec fn value_of(&self) -> ValueModel {
        ValueModel::DateTime(*self)
    }

    fn to_value(&self) -> (r: Value) {
        let r = Value::DateTime(*self);
        assert(r@ == ValueModel::DateTime(*self));
        r
    }
}

impl FromValueBehavior for DateTime {
    type Item = DateTime;

    open spec fn defined_on(value: ValueModel) -> bool {
        true
    }

    open spec fn accepts(value: ValueModel) -> bool {
        value is DateTime
    }

    open spec fn yields(value: ValueModel, item: DateTime) -> bool {
        value == ValueModel::DateTime(item)
    }

    fn from_value(value: Value) -> (r: Option<DateTime>) {
        match value {
            Value::DateTime(inner) => Some(inner),
            _ => None,
        }
    }

    fn is_defined_on(value: &Value) -> (r: bool) {
        true
    }

    fn is_accepted(value: &Value) -> (r: bool) {
        match value {
            Value::DateTime(_) => true,
            _ => false,
        }
    }
}

impl ExactConversion for DateTime {
    open spec fn exact(value: ValueModel) -> bool {
        value is DateTime
    }

    proof fn lemma_there_and_back(value: ValueModel, item: DateTime) {
    }
}

impl ToValueBehavior for StringB {
    open spec fn value_of(&self) -> ValueModel {
        ValueModel::String(self@)
    }

    fn to_value(&self) -> (r: Value) {
        let r = Value::String(self.clone());
        assert(r@ == ValueModel::String(self@));
        r
    }
}

impl FromValueBehavior for StringB {
    type Item = StringB;

    open spec fn defined_on(value: ValueModel) -> bool {
        true
    }

    open spec fn accepts(value: ValueModel) -> bool {
        value is String
    }

    open spec fn yields(value: ValueModel, item: StringB) -> bool {
        value == ValueModel::String(item@)
    }

    fn from_value(value: Value) -> (r: Option<StringB>) {
        match value {
            Value::String(inner) => Some(inner),
            _ => None,
        }
    }

    fn is_defined_on(value: &Value) -> (r: bool) {
        true
    }

    fn is_accepted(value: &Value) -> (r: bool) {
        match value {
            Value::String(_) => true,
            _ => false,
        }
    }
}

impl ExactConversion for StringB {
    open spec fn exact(value: ValueModel) -> bool {
        value is String
    }

    proof fn lemma_there_and_back(value: ValueModel, item: StringB) {
    }
}

impl ToValueBehavior for Array {
    open spec fn value_of(&self) -> ValueModel {
        ValueModel::Array(self@)
    }

    fn to_value(&self) -> (r: Value) {
        let r = Value::Array(self.clone());
        assert(r@ == ValueModel::Array(self@));
        r
    }
}

impl FromValueBehavior for Array {
    type Item = Array;

    open spec fn defined_on(value: ValueModel) -> bool {
        true
    }

    open spec fn accepts(value: ValueModel) -> bool {
        value is Array
    }

    open spec fn yields(value: ValueModel, item: Array) -> bool {
        value == ValueModel::Array(item@)
    }

    fn from_value(value: Value) -> (r: Option<Array>) {
        match value {
            Value::Array(inner) => Some(inner),
            _ => None,
        }
    }

    fn is_defined_on(value: &Value) -> (r: bool) {
        true
    }

    fn is_accepted(value: &Value) -> (r: bool) {
        match value {
            Value::Array(_) => true,
            _ => false,
        }
    }
}

impl ExactConversion for Array {
    open spec fn exact(value: ValueModel) -> bool {
        value is Array
    }

    proof fn lemma_there_and_back(value: ValueModel, item: Array) {
    }
}

impl ToValueBehavior for Object {
    open spec fn value_of(&self) -> ValueModel {
        ValueModel::Object(self@)
    }

    fn to_value(&self) -> (r: Value) {
        let r = Value::Object(self.clone());
        assert(r@ == ValueModel::Object(self@));
        r
    }
}

impl FromValueBehavior for Object {
    type Item = Object;

    open spec fn defined_on(value: ValueModel) -> bool {
        true
    }

    open spec fn accepts(value: ValueModel) -> bool {
        value is Object
    }

    open spec fn yields(value: ValueModel, item: Object) -> bool {
        value == ValueModel::Object(item@)
    }

    fn from_value(value: Value) -> (r: Option<Object>) {
        match value {
            Value::Object(inner) => Some(inner),
            _ => None,
        }
    }

    fn is_defined_on(value: &Value) -> (r: bool) {
        true
    }

    fn is_accepted(value: &Value) -> (r: bool) {
        match value {
            Value::Object(_) => true,
            _ => false,
        }
    }
}

impl ExactConversion for Object {
    open spec fn exact(value: ValueModel) -> bool {
        value is Object
    }

    proof fn lemma_there_and_back(value: ValueModel, item: Object) {
    }
}

} // verus!
