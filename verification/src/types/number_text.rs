//! Numbers from text and as text, and as binary64 numbers.

use vstd::prelude::*;
use vstd::string::StringExecFns;
use crate::decimal::lemma_written_reads_back;
use crate::decimal::parse_signed;
use crate::decimal::parse_unsigned;
use crate::decimal::signed_decimal;
use crate::decimal::signed_in_range;
use crate::decimal::signed_to_string;
use crate::decimal::unsigned_in_range;
use crate::decimal::unsigned_to_string;
use crate::error::Error;
use crate::float::Float32;
use crate::float::Float64;
use crate::rendering::Rendering;
use crate::rendering::RenderingView;
use crate::types::number::Number;
use crate::types::number::NumberBehavior;
use crate::types::number::NumberType;

verus! {

impl Number {
    /// What a text is read as. The encodings are tried in a fixed order and
    /// the first that accepts the text wins: `i32`, binary64, `i8`, `i16`,
    /// `i64`, `i128`, `u8`, `u16`, `u32`, `u64`, `u128`, binary32. So `200` is
    /// an `i32`, though it would fit a `u8`. The two floats are what the
    /// caller's reader of floats made of the same text.
    pub open spec fn of_text(
        text: Seq<char>,
        float64: Option<Float64>,
        float32: Option<Float32>,
    ) -> Result<Number, Error> {
        if let Some(v) = signed_in_range(text, i32::MIN as int, i32::MAX as int) {
            Ok(Number { i32: Some(v as i32), ..Number::empty() })
        } else if let Some(f) = float64 {
            Ok(Number { float64: Some(f), ..Number::empty() })
        } else if let Some(v) = signed_in_range(text, i8::MIN as int, i8::MAX as int) {
            Ok(Number { i8: Some(v as i8), ..Number::empty() })
        } else if let Some(v) = signed_in_range(text, i16::MIN as int, i16::MAX as int) {
            Ok(Number { i16: Some(v as i16), ..Number::empty() })
        } else if let Some(v) = signed_in_range(text, i64::MIN as int, i64::MAX as int) {
            Ok(Number { i64: Some(v as i64), ..Number::empty() })
        } else if let Some(v) = signed_in_range(text, i128::MIN as int, i128::MAX as int) {
            Ok(Number { i128: Some(v as i128), ..Number::empty() })
        } else if let Some(v) = unsigned_in_range(text, u8::MAX as int) {
            Ok(Number { u8: Some(v as u8), ..Number::empty() })
        } else if let Some(v) = unsigned_in_range(text, u16::MAX as int) {
            Ok(Number { u16: Some(v as u16), ..Number::empty() })
        } else if let Some(v) = unsigned_in_range(text, u32::MAX as int) {
            Ok(Number { u32: Some(v as u32), ..Number::empty() })
        } else if let Some(v) = unsigned_in_range(text, u64::MAX as int) {
            Ok(Number { u64: Some(v as u64), ..Number::empty() })
        } else if let Some(v) = unsigned_in_range(text, u128::MAX as int) {
            Ok(Number { u128: Some(v as u128), ..Number::empty() })
        } else if let Some(f) = float32 {
            Ok(Number { float32: Some(f), ..Number::empty() })
        } else {
            Err(Error::NotNumber)
        }
    }

    /// Reads a number from a text. The library reads the integers itself. It
    /// does not read floats: `float64` and `float32` are what the caller's
    /// reader made of the same text in each width, or nothing where it
    /// refused the text. They take their turn in the order of `of_text`.
    pub fn try_from(
        value: &str,
        float64: Option<Float64>,
        float32: Option<Float32>,
    ) -> (r: Result<Number, Error>)
        ensures
            r == Number::of_text(value@, float64, float32),
    {
        if let Some(v) = parse_signed(value, -0x8000_0000, 0x7fff_ffff) {
            return Ok(Number::from(v as i32));
        }
        if let Some(f) = float64 {
            return Ok(Number::from(f));
        }
        if let Some(v) = parse_signed(value, -0x80, 0x7f) {
            return Ok(Number::from(v as i8));
        }
        if let Some(v) = parse_signed(value, -0x8000, 0x7fff) {
            return Ok(Number::from(v as i16));
        }
        if let Some(v) = parse_signed(value, -0x8000_0000_0000_0000, 0x7fff_ffff_ffff_ffff) {
            return Ok(Number::from(v as i64));
        }
        if let Some(v) = parse_signed(value, i128::MIN, i128::MAX) {
            return Ok(Number::from(v));
        }
        if let Some(v) = parse_unsigned(value, 0xff) {
            return Ok(Number::from(v as u8));
        }
        if let Some(v) = parse_unsigned(value, 0xffff) {
            return Ok(Number::from(v as u16));
        }
        if let Some(v) = parse_unsigned(value, 0xffff_ffff) {
            return Ok(Number::from(v as u32));
        }
        if let Some(v) = parse_unsigned(value, 0xffff_ffff_ffff_ffff) {
            return Ok(Number::from(v as u64));
        }
        if let Some(v) = parse_unsigned(value, u128::MAX) {
            return Ok(Number::from(v));
        }
        if let Some(f) = float32 {
            return Ok(Number::from(f));
        }
        Err(Error::NotNumber)
    }

    /// Reads a number from an owned text, as `try_from` does.
    pub fn try_from_string(
        value: String,
        float64: Option<Float64>,
        float32: Option<Float32>,
    ) -> (r: Result<Number, Error>)
        ensures
            r == Number::of_text(value@, float64, float32),
    {
        Number::try_from(value.as_str(), float64, float32)
    }

    /// What the number is written as: the slot that `kind` names, an integer
    /// in decimal and a float as it is. An empty number is written `0`.
    pub open spec fn shown(&self) -> RenderingView {
        match self.kind() {
            NumberType::I8 => RenderingView::Text(signed_decimal(self.i8->0 as int)),
            NumberType::I16 => RenderingView::Text(signed_decimal(self.i16->0 as int)),
            NumberType::I32 => RenderingView::Text(signed_decimal(self.i32->0 as int)),
            NumberType::I64 => RenderingView::Text(signed_decimal(self.i64->0 as int)),
            NumberType::I128 => RenderingView::Text(signed_decimal(self.i128->0 as int)),
            NumberType::U8 => RenderingView::Text(signed_decimal(self.u8->0 as int)),
            NumberType::U16 => RenderingView::Text(signed_decimal(self.u16->0 as int)),
            NumberType::U32 => RenderingView::Text(signed_decimal(self.u32->0 as int)),
            NumberType::U64 => RenderingView::Text(signed_decimal(self.u64->0 as int)),
            NumberType::U128 => RenderingView::Text(signed_decimal(self.u128->0 as int)),
            NumberType::F32 => RenderingView::Float32(self.float32->0),
            NumberType::F64 => RenderingView::Float64(self.float64->0),
            NumberType::Unknown => RenderingView::Text(seq!['0']),
        }
    }

    /// Writes the number. An integer comes as its decimal text. A float comes
    /// as itself, for the caller to format.
    pub fn display(&self) -> (r: Rendering)
        ensures
            r@ == self.shown(),
    {
        if self.is_i8() {
            Rendering::Text(signed_to_string(self.get_i8_unsafe() as i128))
        } else if self.is_i16() {
            Rendering::Text(signed_to_string(self.get_i16_unsafe() as i128))
        } else if self.is_i32() {
            Rendering::Text(signed_to_string(self.get_i32_unsafe() as i128))
        } else if self.is_i64() {
            Rendering::Text(signed_to_string(self.get_i64_unsafe() as i128))
        } else if self.is_i128() {
            Rendering::Text(signed_to_string(self.get_i128_unsafe() as i128))
        } else if self.is_u8() {
            let v: u128 = self.get_u8_unsafe() as u128;
            Rendering::Text(unsigned_to_string(v))
        } else if self.is_u16() {
            let v: u128 = self.get_u16_unsafe() as u128;
            Rendering::Text(unsigned_to_string(v))
        } else if self.is_u32() {
            let v: u128 = self.get_u32_unsafe() as u128;
            Rendering::Text(unsigned_to_string(v))
        } else if self.is_u64() {
            let v: u128 = self.get_u64_unsafe() as u128;
            Rendering::Text(unsigned_to_string(v))
        } else if self.is_u128() {
            let v: u128 = self.get_u128_unsafe() as u128;
            Rendering::Text(unsigned_to_string(v))
        } else if self.is_f32() {
            Rendering::Float32(self.get_f32_unsafe())
        } else if self.is_f64() {
            Rendering::Float64(self.get_f64_unsafe())
        } else {
            proof {
                reveal_strlit("0");
            }
            let zero = String::from_str("0");
            assert(zero@ =~= seq!['0']);
            Rendering::Text(zero)
        }
    }
}

/// A number that holds an `i32` and nothing else is read back from its own
/// text, whatever the reader of floats makes of that text.
pub proof fn lemma_i32_reads_back(n: Number, float64: Option<Float64>, float32: Option<Float32>)
    requires
        n.only(NumberType::I32),
    ensures
        n.shown() matches RenderingView::Text(text) && Number::of_text(text, float64, float32)
            == Ok::<Number, Error>(n),
{
    lemma_written_reads_back(n.i32->0 as int);
}

} // verus!
