//! Equality and order of numbers.
//!
//! Two numbers are equal where every slot of the one equals the same slot of
//! the other. They are ordered slot by slot, in the order in which the slots
//! are declared, and the first slot that differs decides. An empty slot comes
//! before a filled one. Two numbers in order and of one encoding are thus
//! ordered by value. A float slot with a NaN makes the two incomparable where
//! no earlier slot has decided.

use std::cmp::Ordering;
use vstd::prelude::*;
use vstd::std_specs::cmp::PartialEqSpecImpl;
use vstd::std_specs::cmp::PartialOrdSpecImpl;
use crate::float::Float32;
use crate::float::Float64;
use crate::float_order::float32_eq;
use crate::float_order::float32_order;
use crate::float_order::float64_eq;
use crate::float_order::float64_order;
use crate::float_order::order_of;
use crate::types::number::widen_signed;
use crate::types::number::widen_unsigned;
use crate::types::number::Number;
use crate::types::number::NumberType;

verus! {

/// How two integer slots stand to each other.
pub open spec fn slot_order(a: Option<int>, b: Option<int>) -> Ordering {
    match (a, b) {
        (None, None) => Ordering::Equal,
        (None, Some(_)) => Ordering::Less,
        (Some(_), None) => Ordering::Greater,
        (Some(x), Some(y)) => order_of(x, y),
    }
}

/// How two binary32 slots stand to each other, if they can be compared.
pub open spec fn float32_slot_order(a: Option<Float32>, b: Option<Float32>) -> Option<Ordering> {
    match (a, b) {
        (None, None) => Some(Ordering::Equal),
        (None, Some(_)) => Some(Ordering::Less),
        (Some(_), None) => Some(Ordering::Greater),
        (Some(x), Some(y)) => float32_order(x, y),
    }
}

/// How two binary64 slots stand to each other, if they can be compared.
pub open spec fn float64_slot_order(a: Option<Float64>, b: Option<Float64>) -> Option<Ordering> {
    match (a, b) {
        (None, None) => Some(Ordering::Equal),
        (None, Some(_)) => Some(Ordering::Less),
        (Some(_), None) => Some(Ordering::Greater),
        (Some(x), Some(y)) => float64_order(x, y),
    }
}

/// Whether two binary32 slots are equal.
pub open spec fn float32_slot_eq(a: Option<Float32>, b: Option<Float32>) -> bool {
    match (a, b) {
        (None, None) => true,
        (Some(x), Some(y)) => float32_eq(x, y),
        _ => false,
    }
}

/// Whether two binary64 slots are equal.
pub open spec fn float64_slot_eq(a: Option<Float64>, b: Option<Float64>) -> bool {
    match (a, b) {
        (None, None) => true,
        (Some(x), Some(y)) => float64_eq(x, y),
        _ => false,
    }
}

/// The first of two outcomes unless it is `Equal`, then the second.
pub open spec fn first_then(first: Option<Ordering>, second: Option<Ordering>) -> Option<Ordering> {
    match first {
        Some(Ordering::Equal) => second,
        _ => first,
    }
}

/// Whether two numbers are equal.
pub open spec fn number_eq(a: Number, b: Number) -> bool {
    &&& a.u8 == b.u8
    &&& a.u16 == b.u16
    &&& a.u32 == b.u32
    &&& a.u64 == b.u64
    &&& a.u128 == b.u128
    &&& a.i8 == b.i8
    &&& a.i16 == b.i16
    &&& a.i32 == b.i32
    &&& a.i64 == b.i64
    &&& a.i128 == b.i128
    &&& float32_slot_eq(a.float32, b.float32)
    &&& float64_slot_eq(a.float64, b.float64)
}

/// How two numbers stand to each other, if they can be compared.
pub open spec fn number_order(a: Number, b: Number) -> Option<Ordering> {
    first_then(
        Some(slot_order(a.integer_slot(NumberType::U8), b.integer_slot(NumberType::U8))),
        first_then(
        Some(slot_order(a.integer_slot(NumberType::U16), b.integer_slot(NumberType::U16))),
        first_then(
        Some(slot_order(a.integer_slot(NumberType::U32), b.integer_slot(NumberType::U32))),
        first_then(
        Some(slot_order(a.integer_slot(NumberType::U64), b.integer_slot(NumberType::U64))),
        first_then(
        Some(slot_order(a.integer_slot(NumberType::U128), b.integer_slot(NumberType::U128))),
        first_then(
        Some(slot_order(a.integer_slot(NumberType::I8), b.integer_slot(NumberType::I8))),
        first_then(
        Some(slot_order(a.integer_slot(NumberType::I16), b.integer_slot(NumberType::I16))),
        first_then(
        Some(slot_order(a.integer_slot(NumberType::I32), b.integer_slot(NumberType::I32))),
        first_then(
        Some(slot_order(a.integer_slot(NumberType::I64), b.integer_slot(NumberType::I64))),
        first_then(
        Some(slot_order(a.integer_slot(NumberType::I128), b.integer_slot(NumberType::I128))),
        first_then(float32_slot_order(a.float32, b.float32), float64_slot_order(a.float64, b.float64)),
    ),
    ),
    ),
    ),
    ),
    ),
    ),
    ),
    ),
    )
}

fn unsigned_slot_order(a: Option<u128>, b: Option<u128>) -> (r: Ordering)
    ensures
        r == slot_order(widen_unsigned(a), widen_unsigned(b)),
{
    match (a, b) {
        (None, None) => Ordering::Equal,
        (None, Some(_)) => Ordering::Less,
        (Some(_), None) => Ordering::Greater,
        (Some(x), Some(y)) => {
            if x < y {
                Ordering::Less
            } else if x == y {
                Ordering::Equal
            } else {
                Ordering::Greater
            }
        },
    }
}

fn signed_slot_order(a: Option<i128>, b: Option<i128>) -> (r: Ordering)
    ensures
        r == slot_order(widen_signed(a), widen_signed(b)),
{
    match (a, b) {
        (None, None) => Ordering::Equal,
        (None, Some(_)) => Ordering::Less,
        (Some(_), None) => Ordering::Greater,
        (Some(x), Some(y)) => {
            if x < y {
                Ordering::Less
            } else if x == y {
                Ordering::Equal
            } else {
                Ordering::Greater
            }
        },
    }
}

fn float32_slots_eq(a: Option<Float32>, b: Option<Float32>) -> (r: bool)
    ensures
        r == float32_slot_eq(a, b),
{
    match (a, b) {
        (None, None) => true,
        (Some(x), Some(y)) => x == y,
        _ => false,
    }
}

fn float64_slots_eq(a: Option<Float64>, b: Option<Float64>) -> (r: bool)
    ensures
        r == float64_slot_eq(a, b),
{
    match (a, b) {
        (None, None) => true,
        (Some(x), Some(y)) => x == y,
        _ => false,
    }
}

fn float32_slots_order(a: Option<Float32>, b: Option<Float32>) -> (r: Option<Ordering>)
    ensures
        r == float32_slot_order(a, b),
{
    match (a, b) {
        (None, None) => Some(Ordering::Equal),
        (None, Some(_)) => Some(Ordering::Less),
        (Some(_), None) => Some(Ordering::Greater),
        (Some(x), Some(y)) => x.partial_cmp(&y),
    }
}

fn float64_slots_order(a: Option<Float64>, b: Option<Float64>) -> (r: Option<Ordering>)
    ensures
        r == float64_slot_order(a, b),
{
    match (a, b) {
        (None, None) => Some(Ordering::Equal),
        (None, Some(_)) => Some(Ordering::Less),
        (Some(_), None) => Some(Ordering::Greater),
        (Some(x), Some(y)) => x.partial_cmp(&y),
    }
}

impl PartialEq for Number {
    fn eq(&self, other: &Self) -> (r: bool) {
        self.u8 == other.u8
            && self.u16 == other.u16
            && self.u32 == other.u32
            && self.u64 == other.u64
            && self.u128 == other.u128
            && self.i8 == other.i8
            && self.i16 == other.i16
            && self.i32 == other.i32
            && self.i64 == other.i64
            && self.i128 == other.i128
            && float32_slots_eq(self.float32, other.float32)
            && float64_slots_eq(self.float64, other.float64)
    }
}

impl PartialEqSpecImpl for Number {
    open spec fn obeys_eq_spec() -> bool {
        true
    }

    open spec fn eq_spec(&self, other: &Self) -> bool {
        number_eq(*self, *other)
    }
}

impl PartialOrd for Number {
    fn partial_cmp(&self, other: &Self) -> (r: Option<Ordering>) {
        let c = unsigned_slot_order(
            self.unsigned_slot(NumberType::U8),
            other.unsigned_slot(NumberType::U8),
        );
        match c {
            Ordering::Equal => {},
            _ => {
                return Some(c);
            },
        }
        let c = unsigned_slot_order(
            self.unsigned_slot(NumberType::U16),
            other.unsigned_slot(NumberType::U16),
        );
        match c {
            Ordering::Equal => {},
            _ => {
                return Some(c);
            },
        }
        let c = unsigned_slot_order(
            self.unsigned_slot(NumberType::U32),
            other.unsigned_slot(NumberType::U32),
        );
        match c {
            Ordering::Equal => {},
            _ => {
                return Some(c);
            },
        }
        let c = unsigned_slot_order(
            self.unsigned_slot(NumberType::U64),
            other.unsigned_slot(NumberType::U64),
        );
        match c {
            Ordering::Equal => {},
            _ => {
                return Some(c);
            },
        }
        let c = unsigned_slot_order(
            self.unsigned_slot(NumberType::U128),
            other.unsigned_slot(NumberType::U128),
        );
        match c {
            Ordering::Equal => {},
            _ => {
                return Some(c);
            },
        }
        let c = signed_slot_order(
            self.signed_slot(NumberType::I8),
            other.signed_slot(NumberType::I8),
        );
        match c {
            Ordering::Equal => {},
            _ => {
                return Some(c);
            },
        }
        let c = signed_slot_order(
            self.signed_slot(NumberType::I16),
            other.signed_slot(NumberType::I16),
        );
        match c {
            Ordering::Equal => {},
            _ => {
                return Some(c);
            },
        }
        let c = signed_slot_order(
            self.signed_slot(NumberType::I32),
            other.signed_slot(NumberType::I32),
        );
        match c {
            Ordering::Equal => {},
            _ => {
                return Some(c);
            },
        }
        let c = signed_slot_order(
            self.signed_slot(NumberType::I64),
            other.signed_slot(NumberType::I64),
        );
        match c {
            Ordering::Equal => {},
            _ => {
                return Some(c);
            },
        }
        let c = signed_slot_order(
            self.signed_slot(NumberType::I128),
            other.signed_slot(NumberType::I128),
        );
        match c {
            Ordering::Equal => {},
            _ => {
                return Some(c);
            },
        }
        let c = float32_slots_order(self.float32, other.float32);
        match c {
            Some(Ordering::Equal) => {},
            _ => {
                return c;
            },
        }
        float64_slots_order(self.float64, other.float64)
    }
}

impl PartialOrdSpecImpl for Number {
    open spec fn obeys_partial_cmp_spec() -> bool {
        true
    }

    open spec fn partial_cmp_spec(&self, other: &Self) -> Option<Ordering> {
        number_order(*self, *other)
    }
}

/// Two numbers in order and of one integer encoding stand to each other as
/// their values do.
pub proof fn lemma_order_by_value(a: Number, b: Number, kind: NumberType)
    requires
        a.only(kind),
        b.only(kind),
        a.integer_slot(kind) is Some,
    ensures
        number_order(a, b) == Some(order_of(a.integer_slot(kind)->0, b.integer_slot(kind)->0)),
{
}

/// Two numbers that each hold a binary64 number and nothing else stand to
/// each other as the two floats do; likewise for binary32.
pub proof fn lemma_order_of_floats(a: Number, b: Number)
    ensures
        a.only(NumberType::F64) && b.only(NumberType::F64) ==> number_order(a, b)
            == float64_order(a.float64->0, b.float64->0),
        a.only(NumberType::F32) && b.only(NumberType::F32) ==> number_order(a, b)
            == float32_order(a.float32->0, b.float32->0),
{
}

/// Two numbers are equal just where they compare as equal.
pub proof fn lemma_eq_is_order_equal(a: Number, b: Number)
    ensures
        number_eq(a, b) <==> number_order(a, b) == Some(Ordering::Equal),
{
}

} // verus!
