//! There and back: a value that is of the shape of a native type converts to
//! that type, and what comes of it converts back to the same value.

use vstd::prelude::*;
use crate::float::Float32;
use crate::float::Float64;
use crate::traits::ExactConversion;
use crate::traits::FromValueBehavior;
use crate::traits::ToValueBehavior;
use crate::types::number::NumberType;
use crate::value::Value;
use crate::value::ValueModel;

verus! {

/// For every value and every native type that stands for values of its shape
/// exactly: the value converts to the type, and the item that it converts to
/// converts back to the value.
pub proof fn lemma_round_trip<T: ExactConversion>(value: ValueModel, item: T::Item) where
    <T as FromValueBehavior>::Item: ToValueBehavior,

    requires
        T::exact(value),
        T::yields(value, item),
    ensures
        T::defined_on(value),
        T::accepts(value),
        item.value_of() == value,
{
    T::lemma_there_and_back(value, item);
}

/// `Null` converts to no optional at all, whatever the inner type, and every
/// other value converts to one: to what the inner conversion made of it, be
/// that nothing.
pub proof fn lemma_null_is_no_optional<T: FromValueBehavior>(value: ValueModel, item: Option<T::Item>)
    ensures
        <Option<T> as FromValueBehavior>::accepts(value) <==> !(value is Null),
        <Option<T> as FromValueBehavior>::yields(value, item) ==> (item is Some <==> T::accepts(
            value,
        )),
{
}

impl ExactConversion for i8 {
    open spec fn exact(value: ValueModel) -> bool {
        value matches ValueModel::Number(n) && n.only(NumberType::I8)
    }

    proof fn lemma_there_and_back(value: ValueModel, item: i8) {
    }
}

impl ExactConversion for i16 {
    open spec fn exact(value: ValueModel) -> bool {
        value matches ValueModel::Number(n) && n.only(NumberType::I16)
    }

    proof fn lemma_there_and_back(value: ValueModel, item: i16) {
    }
}

impl ExactConversion for i32 {
    open spec fn exact(value: ValueModel) -> bool {
        value matches ValueModel::Number(n) && n.only(NumberType::I32)
    }

    proof fn lemma_there_and_back(value: ValueModel, item: i32) {
    }
}

impl ExactConversion for i64 {
    open spec fn exact(value: ValueModel) -> bool {
        value matches ValueModel::Number(n) && n.only(NumberType::I64)
    }

    proof fn lemma_there_and_back(value: ValueModel, item: i64) {
    }
}

impl ExactConversion for i128 {
    open spec fn exact(value: ValueModel) -> bool {
        value matches ValueModel::Number(n) && n.only(NumberType::I128)
    }

    proof fn lemma_there_and_back(value: ValueModel, item: i128) {
    }
}

impl ExactConversion for u8 {
    open spec fn exact(value: ValueModel) -> bool {
        value matches ValueModel::Number(n) && n.only(NumberType::U8)
    }

    proof fn lemma_there_and_back(value: ValueModel, item: u8) {
    }
}

impl ExactConversion for u16 {
    open spec fn exact(value: ValueModel) -> bool {
        value matches ValueModel::Number(n) && n.only(NumberType::U16)
    }

    proof fn lemma_there_and_back(value: ValueModel, item: u16) {
    }
}

impl ExactConversion for u32 {
    open spec fn exact(value: ValueModel) -> bool {
        value matches ValueModel::Number(n) && n.only(NumberType::U32)
    }

    proof fn lemma_there_and_back(value: ValueModel, item: u32) {
    }
}

impl ExactConversion for u64 {
    open spec fn exact(value: ValueModel) -> bool {
        value matches ValueModel::Number(n) && n.only(NumberType::U64)
    }

    proof fn lemma_there_and_back(value: ValueModel, item: u64) {
    }
}

impl ExactConversion for u128 {
    open spec fn exact(value: ValueModel) -> bool {
        value matches ValueModel::Number(n) && n.only(NumberType::U128)
    }

    proof fn lemma_there_and_back(value: ValueModel, item: u128) {
    }
}

impl ExactConversion for Float32 {
    open spec fn exact(value: ValueModel) -> bool {
        value matches ValueModel::Number(n) && n.only(NumberType::F32)
    }

    proof fn lemma_there_and_back(value: ValueModel, item: Float32) {
    }
}

impl ExactConversion for Float64 {
    open spec fn exact(value: ValueModel) -> bool {
        value matches ValueModel::Number(n) && n.only(NumberType::F64)
    }

    proof fn lemma_there_and_back(value: ValueModel, item: Float64) {
    }
}

impl ExactConversion for bool {
    open spec fn exact(value: ValueModel) -> bool {
        value is Boolean
    }

    proof fn lemma_there_and_back(value: ValueModel, item: bool) {
    }
}

impl ExactConversion for String {
    open spec fn exact(value: ValueModel) -> bool {
        value is String
    }

    proof fn lemma_there_and_back(value: ValueModel, item: String) {
    }
}

impl ExactConversion for Value {
    open spec fn exact(value: ValueModel) -> bool {
        true
    }

    proof fn lemma_there_and_back(value: ValueModel, item: Value) {
    }
}

impl<T: ExactConversion> ExactConversion for Vec<T> where
    <T as FromValueBehavior>::Item: ToValueBehavior,
 {
    open spec fn exact(value: ValueModel) -> bool {
        value matches ValueModel::Array(values) && forall|i: int|
            0 <= i < values.len() ==> T::exact(#[trigger] values[i])
    }

    proof fn lemma_there_and_back(value: ValueModel, item: Vec<T::Item>) {
        let values = value->Array_0;
        assert forall|i: int| 0 <= i < values.len() implies T::defined_on(#[trigger] values[i])
            && T::accepts(values[i]) by {
            let any: T::Item = arbitrary();
            T::lemma_there_and_back(values[i], any);
        }
        if Self::yields(value, item) {
            assert forall|i: int| 0 <= i < values.len() implies item@[i].value_of()
                == #[trigger] values[i] by {
                T::lemma_there_and_back(values[i], item@[i]);
            }
            assert(item.value_of()->Array_0 =~= values);
        }
    }
}

impl<T: ExactConversion> ExactConversion for Option<T> where
    <T as FromValueBehavior>::Item: ToValueBehavior,
 {
    /// `Null` is left out: it gives nothing, whatever the inner type.
    open spec fn exact(value: ValueModel) -> bool {
        !(value is Null) && T::exact(value)
    }

    proof fn lemma_there_and_back(value: ValueModel, item: Option<T::Item>) {
        match item {
            Some(inner) => {
                T::lemma_there_and_back(value, inner);
            },
            None => {
                let any: T::Item = arbitrary();
                T::lemma_there_and_back(value, any);
            },
        }
    }
}

} // verus!
