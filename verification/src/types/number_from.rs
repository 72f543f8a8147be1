//! Numbers from native values: each goes to the slot of its own encoding.

use vstd::prelude::*;
use vstd::std_specs::convert::FromSpecImpl;
use crate::float::Float32;
use crate::float::Float64;
use crate::types::number::Number;

verus! {

impl From<u8> for Number {
    fn from(value: u8) -> (r: Self) {
        Number {
            u8: Some(value),
            ..Number::default()
        }
    }
}

impl FromSpecImpl<u8> for Number {
    open spec fn obeys_from_spec() -> bool {
        true
    }

    open spec fn from_spec(value: u8) -> Self {
        Number { u8: Some(value), ..Number::empty() }
    }
}

impl From<u16> for Number {
    fn from(value: u16) -> (r: Self) {
        Number {
            u16: Some(value),
            ..Number::default()
        }
    }
}

impl FromSpecImpl<u16> for Number {
    open spec fn obeys_from_spec() -> bool {
        true
    }

    open spec fn from_spec(value: u16) -> Self {
        Number { u16: Some(value), ..Number::empty() }
    }
}

impl From<u32> for Number {
    fn from(value: u32) -> (r: Self) {
        Number {
            u32: Some(value),
            ..Number::default()
        }
    }
}

impl FromSpecImpl<u32> for Number {
    open spec fn obeys_from_spec() -> bool {
        true
    }

    open spec fn from_spec(value: u32) -> Self {
        Number { u32: Some(value), ..Number::empty() }
    }
}

impl From<u64> for Number {
    fn from(value: u64) -> (r: Self) {
        Number {
            u64: Some(value),
            ..Number::default()
        }
    }
}

impl FromSpecImpl<u64> for Number {
    open spec fn obeys_from_spec() -> bool {
        true
    }

    open spec fn from_spec(value: u64) -> Self {
        Number { u64: Some(value), ..Number::empty() }
    }
}

impl From<u128> for Number {
    fn from(value: u128) -> (r: Self) {
        Number {
            u128: Some(value),
            ..Number::default()
        }
    }
}

impl FromSpecImpl<u128> for Number {
    open spec fn obeys_from_spec() -> bool {
        true
    }

    open spec fn from_spec(value: u128) -> Self {
        Number { u128: Some(value), ..Number::empty() }
    }
}

impl From<i8> for Number {
    fn from(value: i8) -> (r: Self) {
        Number {
            i8: Some(value),
            ..Number::default()
        }
    }
}

impl FromSpecImpl<i8> for Number {
    open spec fn obeys_from_spec() -> bool {
        true
    }

    open spec fn from_spec(value: i8) -> Self {
        Number { i8: Some(value), ..Number::empty() }
    }
}

impl From<i16> for Number {
    fn from(value: i16) -> (r: Self) {
        Number {
            i16: Some(value),
            ..Number::default()
        }
    }
}

impl FromSpecImpl<i16> for Number {
    open spec fn obeys_from_spec() -> bool {
        true
    }

    open spec fn from_spec(value: i16) -> Self {
        Number { i16: Some(value), ..Number::empty() }
    }
}

impl From<i32> for Number {
    fn from(value: i32) -> (r: Self) {
        Number {
            i32: Some(value),
            ..Number::default()
        }
    }
}

impl FromSpecImpl<i32> for Number {
    open spec fn obeys_from_spec() -> bool {
        true
    }

    open spec fn from_spec(value: i32) -> Self {
        Number { i32: Some(value), ..Number::empty() }
    }
}

impl From<i64> for Number {
    fn from(value: i64) -> (r: Self) {
        Number {
            i64: Some(value),
            ..Number::default()
        }
    }
}

impl FromSpecImpl<i64> for Number {
    open spec fn obeys_from_spec() -> bool {
        true
    }

    open spec fn from_spec(value: i64) -> Self {
        Number { i64: Some(value), ..Number::empty() }
    }
}

impl From<i128> for Number {
    fn from(value: i128) -> (r: Self) {
        Number {
            i128: Some(value),
            ..Number::default()
        }
    }
}

impl FromSpecImpl<i128> for Number {
    open spec fn obeys_from_spec() -> bool {
        true
    }

    open spec fn from_spec(value: i128) -> Self {
        Number { i128: Some(value), ..Number::empty() }
    }
}

impl From<Float32> for Number {
    fn from(value: Float32) -> (r: Self) {
        Number {
            float32: Some(value),
            ..Number::default()
        }
    }
}

impl FromSpecImpl<Float32> for Number {
    open spec fn obeys_from_spec() -> bool {
        true
    }

    open spec fn from_spec(value: Float32) -> Self {
        Number { float32: Some(value), ..Number::empty() }
    }
}

impl From<Float64> for Number {
    fn from(value: Float64) -> (r: Self) {
        Number {
            float64: Some(value),
            ..Number::default()
        }
    }
}

impl FromSpecImpl<Float64> for Number {
    open spec fn obeys_from_spec() -> bool {
        true
    }

    open spec fn from_spec(value: Float64) -> Self {
        Number { float64: Some(value), ..Number::empty() }
    }
}

impl Number {
    /// Where a `usize` goes: to the narrowest unsigned slot that holds it.
    pub open spec fn of_usize(value: usize) -> Number {
        if value <= u8::MAX {
            Number { u8: Some(value as u8), ..Number::empty() }
        } else if value <= u16::MAX {
            Number { u16: Some(value as u16), ..Number::empty() }
        } else if value <= u32::MAX {
            Number { u32: Some(value as u32), ..Number::empty() }
        } else {
            Number { u64: Some(value as u64), ..Number::empty() }
        }
    }

    /// Where an `isize` goes: to the narrowest signed slot that holds it.
    pub open spec fn of_isize(value: isize) -> Number {
        if i8::MIN <= value <= i8::MAX {
            Number { i8: Some(value as i8), ..Number::empty() }
        } else if i16::MIN <= value <= i16::MAX {
            Number { i16: Some(value as i16), ..Number::empty() }
        } else if i32::MIN <= value <= i32::MAX {
            Number { i32: Some(value as i32), ..Number::empty() }
        } else {
            Number { i64: Some(value as i64), ..Number::empty() }
        }
    }
}

/// A number made from a `usize` or an `isize` holds one slot and nothing
/// else, and converts back to the integer that it was made from.
pub proof fn lemma_sizes_keep_their_value(unsigned: usize, signed: isize)
    ensures
        Number::of_usize(unsigned).filled() == 1,
        Number::of_usize(unsigned).integer() == Some(unsigned as int),
        Number::of_isize(signed).filled() == 1,
        Number::of_isize(signed).integer() == Some(signed as int),
{
}

impl From<usize> for Number {
    fn from(value: usize) -> (r: Self) {
        if value <= 0xff {
            Number::from(value as u8)
        } else if value <= 0xffff {
            Number::from(value as u16)
        } else if value <= 0xffff_ffff {
            Number::from(value as u32)
        } else {
            Number::from(value as u64)
        }
    }
}

impl FromSpecImpl<usize> for Number {
    open spec fn obeys_from_spec() -> bool {
        true
    }

    open spec fn from_spec(value: usize) -> Self {
        Number::of_usize(value)
    }
}

impl From<isize> for Number {
    fn from(value: isize) -> (r: Self) {
        if -0x80 <= value && value <= 0x7f {
            Number::from(value as i8)
        } else if -0x8000 <= value && value <= 0x7fff {
            Number::from(value as i16)
        } else if -0x8000_0000 <= value && value <= 0x7fff_ffff {
            Number::from(value as i32)
        } else {
            Number::from(value as i64)
        }
    }
}

impl FromSpecImpl<isize> for Number {
    open spec fn obeys_from_spec() -> bool {
        true
    }

    open spec fn from_spec(value: isize) -> Self {
        Number::of_isize(value)
    }
}

} // verus!
