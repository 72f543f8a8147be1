//! A number in one of twelve encodings.

use vstd::prelude::*;
use crate::float::Float32;
use crate::float::Float64;
use crate::float_from::nearest_binary64_signed;
use crate::float_from::widened;

verus! {

/// The encodings a `Number` can hold, and `Unknown` for one that holds none.
#[derive(Debug, Clone, Copy, PartialEq, Eq, Structural)]
pub enum NumberType {
    U8,
    U16,
    U32,
    U64,
    U128,
    I8,
    I16,
    I32,
    I64,
    I128,
    F32,
    F64,
    Unknown,
}

/// Twelve slots, one for each encoding. A number that is in order has at most
/// one of them filled. Setting a slot leaves the others as they are, so a
/// caller clears the number before it sets another encoding.
#[derive(Debug, Clone, Copy)]
pub struct Number {
    pub u8: Option<u8>,
    pub u16: Option<u16>,
    pub u32: Option<u32>,
    pub u64: Option<u64>,
    pub u128: Option<u128>,
    pub i8: Option<i8>,
    pub i16: Option<i16>,
    pub i32: Option<i32>,
    pub i64: Option<i64>,
    pub i128: Option<i128>,
    pub float32: Option<Float32>,
    pub float64: Option<Float64>,
}

/// An optional `u128` as an optional integer without bound.
pub open spec fn widen_unsigned(v: Option<u128>) -> Option<int> {
    match v {
        Some(x) => Some(x as int),
        None => None,
    }
}

/// An optional `i128` as an optional integer without bound.
pub open spec fn widen_signed(v: Option<i128>) -> Option<int> {
    match v {
        Some(x) => Some(x as int),
        None => None,
    }
}

/// What a `Number` offers: setters and getters for each slot, tests on what is
/// held, and conversions to the three 64-bit forms.
pub trait NumberBehavior {
    /// The twelve slots of the value.
    spec fn slots(&self) -> Number;

    fn set_u8(&mut self, value: u8)
        ensures
            final(self).slots() == (Number { u8: Some(value), ..old(self).slots() }),
    ;

    fn set_u16(&mut self, value: u16)
        ensures
            final(self).slots() == (Number { u16: Some(value), ..old(self).slots() }),
    ;

    fn set_u32(&mut self, value: u32)
        ensures
            final(self).slots() == (Number { u32: Some(value), ..old(self).slots() }),
    ;

    fn set_u64(&mut self, value: u64)
        ensures
            final(self).slots() == (Number { u64: Some(value), ..old(self).slots() }),
    ;

    fn set_u128(&mut self, value: u128)
        ensures
            final(self).slots() == (Number { u128: Some(value), ..old(self).slots() }),
    ;

    fn set_i8(&mut self, value: i8)
        ensures
            final(self).slots() == (Number { i8: Some(value), ..old(self).slots() }),
    ;

    fn set_i16(&mut self, value: i16)
        ensures
            final(self).slots() == (Number { i16: Some(value), ..old(self).slots() }),
    ;

    fn set_i32(&mut self, value: i32)
        ensures
            final(self).slots() == (Number { i32: Some(value), ..old(self).slots() }),
    ;

    fn set_i64(&mut self, value: i64)
        ensures
            final(self).slots() == (Number { i64: Some(value), ..old(self).slots() }),
    ;

    fn set_i128(&mut self, value: i128)
        ensures
            final(self).slots() == (Number { i128: Some(value), ..old(self).slots() }),
    ;

    fn set_f32(&mut self, value: Float32)
        ensures
            final(self).slots() == (Number { float32: Some(value), ..old(self).slots() }),
    ;

    fn set_f64(&mut self, value: Float64)
        ensures
            final(self).slots() == (Number { float64: Some(value), ..old(self).slots() }),
    ;

    fn get_u8(&self) -> (r: Option<u8>)
        ensures
            r == self.slots().u8,
    ;

    fn get_u16(&self) -> (r: Option<u16>)
        ensures
            r == self.slots().u16,
    ;

    fn get_u32(&self) -> (r: Option<u32>)
        ensures
            r == self.slots().u32,
    ;

    fn get_u64(&self) -> (r: Option<u64>)
        ensures
            r == self.slots().u64,
    ;

    fn get_u128(&self) -> (r: Option<u128>)
        ensures
            r == self.slots().u128,
    ;

    fn get_i8(&self) -> (r: Option<i8>)
        ensures
            r == self.slots().i8,
    ;

    fn get_i16(&self) -> (r: Option<i16>)
        ensures
            r == self.slots().i16,
    ;

    fn get_i32(&self) -> (r: Option<i32>)
        ensures
            r == self.slots().i32,
    ;

    fn get_i64(&self) -> (r: Option<i64>)
        ensures
            r == self.slots().i64,
    ;

    fn get_i128(&self) -> (r: Option<i128>)
        ensures
            r == self.slots().i128,
    ;

    fn get_f32(&self) -> (r: Option<Float32>)
        ensures
            r == self.slots().float32,
    ;

    fn get_f64(&self) -> (r: Option<Float64>)
        ensures
            r == self.slots().float64,
    ;

    /// Reads the slot without a test. The slot must be filled.
    fn get_u8_unsafe(&self) -> (r: u8)
        requires
            self.slots().holds(NumberType::U8),
        ensures
            self.slots().u8 == Some(r),
    ;

    /// Reads the slot without a test. The slot must be filled.
    fn get_u16_unsafe(&self) -> (r: u16)
        requires
            self.slots().holds(NumberType::U16),
        ensures
            self.slots().u16 == Some(r),
    ;

    /// Reads the slot without a test. The slot must be filled.
    fn get_u32_unsafe(&self) -> (r: u32)
        requires
            self.slots().holds(NumberType::U32),
        ensures
            self.slots().u32 == Some(r),
    ;

    /// Reads the slot without a test. The slot must be filled.
    fn get_u64_unsafe(&self) -> (r: u64)
        requires
            self.slots().holds(NumberType::U64),
        ensures
            self.slots().u64 == Some(r),
    ;

    /// Reads the slot without a test. The slot must be filled.
    fn get_u128_unsafe(&self) -> (r: u128)
        requires
            self.slots().holds(NumberType::U128),
        ensures
            self.slots().u128 == Some(r),
    ;

    /// Reads the slot without a test. The slot must be filled.
    fn get_i8_unsafe(&self) -> (r: i8)
        requires
            self.slots().holds(NumberType::I8),
        ensures
            self.slots().i8 == Some(r),
    ;

    /// Reads the slot without a test. The slot must be filled.
    fn get_i16_unsafe(&self) -> (r: i16)
        requires
            self.slots().holds(NumberType::I16),
        ensures
            self.slots().i16 == Some(r),
    ;

    /// Reads the slot without a test. The slot must be filled.
    fn get_i32_unsafe(&self) -> (r: i32)
        requires
            self.slots().holds(NumberType::I32),
        ensures
            self.slots().i32 == Some(r),
    ;

    /// Reads the slot without a test. The slot must be filled.
    fn get_i64_unsafe(&self) -> (r: i64)
        requires
            self.slots().holds(NumberType::I64),
        ensures
            self.slots().i64 == Some(r),
    ;

    /// Reads the slot without a test. The slot must be filled.
    fn get_i128_unsafe(&self) -> (r: i128)
        requires
            self.slots().holds(NumberType::I128),
        ensures
            self.slots().i128 == Some(r),
    ;

    /// Reads the slot without a test. The slot must be filled.
    fn get_f32_unsafe(&self) -> (r: Float32)
        requires
            self.slots().holds(NumberType::F32),
        ensures
            self.slots().float32 == Some(r),
    ;

    /// Reads the slot without a test. The slot must be filled.
    fn get_f64_unsafe(&self) -> (r: Float64)
        requires
            self.slots().holds(NumberType::F64),
        ensures
            self.slots().float64 == Some(r),
    ;

    fn is_i8(&self) -> (r: bool)
        ensures
            r == (self.slots().i8 is Some),
    ;

    fn is_i16(&self) -> (r: bool)
        ensures
            r == (self.slots().i16 is Some),
    ;

    fn is_i32(&self) -> (r: bool)
        ensures
            r == (self.slots().i32 is Some),
    ;

    fn is_i64(&self) -> (r: bool)
        ensures
            r == (self.slots().i64 is Some),
    ;

    fn is_i128(&self) -> (r: bool)
        ensures
            r == (self.slots().i128 is Some),
    ;

    fn is_u8(&self) -> (r: bool)
        ensures
            r == (self.slots().u8 is Some),
    ;

    fn is_u16(&self) -> (r: bool)
        ensures
            r == (self.slots().u16 is Some),
    ;

    fn is_u32(&self) -> (r: bool)
        ensures
            r == (self.slots().u32 is Some),
    ;

    fn is_u64(&self) -> (r: bool)
        ensures
            r == (self.slots().u64 is Some),
    ;

    fn is_u128(&self) -> (r: bool)
        ensures
            r == (self.slots().u128 is Some),
    ;

    fn is_f32(&self) -> (r: bool)
        ensures
            r == (self.slots().float32 is Some),
    ;

    fn is_f64(&self) -> (r: bool)
        ensures
            r == (self.slots().float64 is Some),
    ;

    fn is_number(&self) -> (r: bool)
        ensures
            r == (self.slots().filled() > 0),
    ;

    fn is_integer(&self) -> (r: bool)
        ensures
            r == self.slots().some_integer(),
    ;

    fn is_float(&self) -> (r: bool)
        ensures
            r == (self.slots().float32 is Some || self.slots().float64 is Some),
    ;

    /// Whether some slot holds a value below zero: a matter of the value, not
    /// of the encoding. A signed slot that holds zero or more does not count.
    fn is_signed(&self) -> (r: bool)
        ensures
            r == self.slots().some_slot_negative(),
    ;

    fn is_unsigned(&self) -> (r: bool)
        ensures
            r == self.slots().some_unsigned(),
    ;

    fn is_zero(&self) -> (r: bool)
        ensures
            r == self.slots().some_slot_zero(),
    ;

    /// Neither below zero nor zero. An empty number counts as positive.
    fn is_positive(&self) -> (r: bool)
        ensures
            r == (!self.slots().some_slot_negative() && !self.slots().some_slot_zero()),
    ;

    fn is_negative(&self) -> (r: bool)
        ensures
            r == (self.slots().some_slot_negative() && !self.slots().some_slot_zero()),
    ;

    fn number_type(&self) -> (r: NumberType)
        ensures
            r == self.slots().kind(),
    ;

    /// The integer held, as a `u64`: absent where no integer slot is filled,
    /// where the integer is below zero, and where it is above `u64::MAX`.
    fn to_u64(&self) -> (r: Option<u64>)
        ensures
            match self.slots().integer() {
                Some(v) => if 0 <= v <= u64::MAX {
                    r == Some(v as u64)
                } else {
                    r is None
                },
                None => r is None,
            },
    ;

    /// The integer held, as an `i64`: absent where no integer slot is filled
    /// and where the integer is outside the range of `i64`.
    fn to_i64(&self) -> (r: Option<i64>)
        ensures
            match self.slots().integer() {
                Some(v) => if i64::MIN <= v <= i64::MAX {
                    r == Some(v as i64)
                } else {
                    r is None
                },
                None => r is None,
            },
    ;

    /// The number as a binary64 number: a float slot as it is or widened, an
    /// integer rounded to the nearest. Absent only where no slot is filled.
    fn to_f64(&self) -> (r: Option<Float64>)
        ensures
            match r {
                Some(f) => self.slots().binary64() == Some(f.bits as int),
                None => self.slots().binary64() is None,
            },
    ;
}

impl Number {
    /// Whether the slot of the given encoding is filled.
    pub open spec fn holds(&self, kind: NumberType) -> bool {
        match kind {
            NumberType::U8 => self.u8 is Some,
            NumberType::U16 => self.u16 is Some,
            NumberType::U32 => self.u32 is Some,
            NumberType::U64 => self.u64 is Some,
            NumberType::U128 => self.u128 is Some,
            NumberType::I8 => self.i8 is Some,
            NumberType::I16 => self.i16 is Some,
            NumberType::I32 => self.i32 is Some,
            NumberType::I64 => self.i64 is Some,
            NumberType::I128 => self.i128 is Some,
            NumberType::F32 => self.float32 is Some,
            NumberType::F64 => self.float64 is Some,
            NumberType::Unknown => false,
        }
    }

    /// The number with every slot empty.
    pub open spec fn empty() -> Number {
        Number {
            u8: None,
            u16: None,
            u32: None,
            u64: None,
            u128: None,
            i8: None,
            i16: None,
            i32: None,
            i64: None,
            i128: None,
            float32: None,
            float64: None,
        }
    }

    /// How many slots are filled.
    pub open spec fn filled(&self) -> nat {
        (if self.u8 is Some { 1nat } else { 0nat })
        + (if self.u16 is Some { 1nat } else { 0nat })
        + (if self.u32 is Some { 1nat } else { 0nat })
        + (if self.u64 is Some { 1nat } else { 0nat })
        + (if self.u128 is Some { 1nat } else { 0nat })
        + (if self.i8 is Some { 1nat } else { 0nat })
        + (if self.i16 is Some { 1nat } else { 0nat })
        + (if self.i32 is Some { 1nat } else { 0nat })
        + (if self.i64 is Some { 1nat } else { 0nat })
        + (if self.i128 is Some { 1nat } else { 0nat })
        + (if self.float32 is Some { 1nat } else { 0nat })
        + (if self.float64 is Some { 1nat } else { 0nat })
    }

    /// The number is in order: at most one slot is filled.
    pub open spec fn single(&self) -> bool {
        self.filled() <= 1
    }

    /// The slot of `kind` is filled and every other slot is empty: the state
    /// that clearing a number and then setting that slot leaves.
    pub open spec fn only(&self, kind: NumberType) -> bool {
        match kind {
            NumberType::U8 => self.u8 is Some && *self == (Number { u8: self.u8, ..Number::empty() }),
            NumberType::U16 => self.u16 is Some && *self == (Number { u16: self.u16, ..Number::empty() }),
            NumberType::U32 => self.u32 is Some && *self == (Number { u32: self.u32, ..Number::empty() }),
            NumberType::U64 => self.u64 is Some && *self == (Number { u64: self.u64, ..Number::empty() }),
            NumberType::U128 => self.u128 is Some && *self == (Number { u128: self.u128, ..Number::empty() }),
            NumberType::I8 => self.i8 is Some && *self == (Number { i8: self.i8, ..Number::empty() }),
            NumberType::I16 => self.i16 is Some && *self == (Number { i16: self.i16, ..Number::empty() }),
            NumberType::I32 => self.i32 is Some && *self == (Number { i32: self.i32, ..Number::empty() }),
            NumberType::I64 => self.i64 is Some && *self == (Number { i64: self.i64, ..Number::empty() }),
            NumberType::I128 => self.i128 is Some && *self == (Number { i128: self.i128, ..Number::empty() }),
            NumberType::F32 => self.float32 is Some && *self == (Number { float32: self.float32, ..Number::empty() }),
            NumberType::F64 => self.float64 is Some && *self == (Number { float64: self.float64, ..Number::empty() }),
            NumberType::Unknown => false,
        }
    }

    /// The encoding that the number reports: that of the first filled slot,
    /// the signed integers first, then the unsigned, then the floats, each
    /// group from narrow to wide.
    pub open spec fn kind(&self) -> NumberType {
        if self.i8 is Some {
            NumberType::I8
        } else if self.i16 is Some {
            NumberType::I16
        } else if self.i32 is Some {
            NumberType::I32
        } else if self.i64 is Some {
            NumberType::I64
        } else if self.i128 is Some {
            NumberType::I128
        } else if self.u8 is Some {
            NumberType::U8
        } else if self.u16 is Some {
            NumberType::U16
        } else if self.u32 is Some {
            NumberType::U32
        } else if self.u64 is Some {
            NumberType::U64
        } else if self.u128 is Some {
            NumberType::U128
        } else if self.float32 is Some {
            NumberType::F32
        } else if self.float64 is Some {
            NumberType::F64
        } else {
            NumberType::Unknown
        }
    }

    /// The integer that the conversions to 64 bits read: that of the first
    /// filled integer slot, the signed before the unsigned, each group from
    /// wide to narrow. A number with no integer slot filled has none.
    pub open spec fn integer(&self) -> Option<int> {
        if self.i128 is Some {
            Some(self.i128->0 as int)
        } else if self.i64 is Some {
            Some(self.i64->0 as int)
        } else if self.i32 is Some {
            Some(self.i32->0 as int)
        } else if self.i16 is Some {
            Some(self.i16->0 as int)
        } else if self.i8 is Some {
            Some(self.i8->0 as int)
        } else if self.u128 is Some {
            Some(self.u128->0 as int)
        } else if self.u64 is Some {
            Some(self.u64->0 as int)
        } else if self.u32 is Some {
            Some(self.u32->0 as int)
        } else if self.u16 is Some {
            Some(self.u16->0 as int)
        } else if self.u8 is Some {
            Some(self.u8->0 as int)
        } else {
            None
        }
    }

    /// The bits of the binary64 number that the number converts to: the
    /// binary64 slot as it is, else the binary32 slot widened, else the first
    /// filled integer slot, rounded to the nearest binary64 number. The
    /// integers are tried signed before unsigned, each group from wide to
    /// narrow.
    pub open spec fn binary64(&self) -> Option<int> {
        if self.float64 is Some {
            Some(self.float64->0.bits as int)
        } else if self.float32 is Some {
            Some(widened(self.float32->0))
        } else {
            match self.integer() {
                Some(v) => Some(nearest_binary64_signed(v)),
                None => None,
            }
        }
    }

    /// The value in the integer slot of an encoding. The float encodings and
    /// `Unknown` have no such slot.
    pub open spec fn integer_slot(&self, kind: NumberType) -> Option<int> {
        match kind {
            NumberType::U8 => match self.u8 {
                Some(v) => Some(v as int),
                None => None,
            },
            NumberType::U16 => match self.u16 {
                Some(v) => Some(v as int),
                None => None,
            },
            NumberType::U32 => match self.u32 {
                Some(v) => Some(v as int),
                None => None,
            },
            NumberType::U64 => match self.u64 {
                Some(v) => Some(v as int),
                None => None,
            },
            NumberType::U128 => match self.u128 {
                Some(v) => Some(v as int),
                None => None,
            },
            NumberType::I8 => match self.i8 {
                Some(v) => Some(v as int),
                None => None,
            },
            NumberType::I16 => match self.i16 {
                Some(v) => Some(v as int),
                None => None,
            },
            NumberType::I32 => match self.i32 {
                Some(v) => Some(v as int),
                None => None,
            },
            NumberType::I64 => match self.i64 {
                Some(v) => Some(v as int),
                None => None,
            },
            NumberType::I128 => match self.i128 {
                Some(v) => Some(v as int),
                None => None,
            },
            _ => None,
        }
    }

    /// Reads the slot of an unsigned encoding, widened to `u128`.
    pub fn unsigned_slot(&self, kind: NumberType) -> (r: Option<u128>)
        requires
            kind is U8 || kind is U16 || kind is U32 || kind is U64 || kind is U128,
        ensures
            widen_unsigned(r) == self.integer_slot(kind),
    {
        match kind {
            NumberType::U8 => match self.u8 {
                Some(v) => Some(v as u128),
                None => None,
            },
            NumberType::U16 => match self.u16 {
                Some(v) => Some(v as u128),
                None => None,
            },
            NumberType::U32 => match self.u32 {
                Some(v) => Some(v as u128),
                None => None,
            },
            NumberType::U64 => match self.u64 {
                Some(v) => Some(v as u128),
                None => None,
            },
            _ => self.u128,
        }
    }

    /// Reads the slot of a signed encoding, widened to `i128`.
    pub fn signed_slot(&self, kind: NumberType) -> (r: Option<i128>)
        requires
            kind is I8 || kind is I16 || kind is I32 || kind is I64 || kind is I128,
        ensures
            widen_signed(r) == self.integer_slot(kind),
    {
        match kind {
            NumberType::I8 => match self.i8 {
                Some(v) => Some(v as i128),
                None => None,
            },
            NumberType::I16 => match self.i16 {
                Some(v) => Some(v as i128),
                None => None,
            },
            NumberType::I32 => match self.i32 {
                Some(v) => Some(v as i128),
                None => None,
            },
            NumberType::I64 => match self.i64 {
                Some(v) => Some(v as i128),
                None => None,
            },
            _ => self.i128,
        }
    }

    /// Some slot holds a value below zero. The unsigned slots never do.
    pub open spec fn some_slot_negative(&self) -> bool {
        ||| self.i8 is Some && self.i8->0 < 0
        ||| self.i16 is Some && self.i16->0 < 0
        ||| self.i32 is Some && self.i32->0 < 0
        ||| self.i64 is Some && self.i64->0 < 0
        ||| self.i128 is Some && self.i128->0 < 0
        ||| self.float32 is Some && self.float32->0.negative()
        ||| self.float64 is Some && self.float64->0.negative()
    }

    /// Some slot holds zero.
    pub open spec fn some_slot_zero(&self) -> bool {
        ||| self.i8 is Some && self.i8->0 == 0
        ||| self.i16 is Some && self.i16->0 == 0
        ||| self.i32 is Some && self.i32->0 == 0
        ||| self.i64 is Some && self.i64->0 == 0
        ||| self.i128 is Some && self.i128->0 == 0
        ||| self.float32 is Some && self.float32->0.zero()
        ||| self.float64 is Some && self.float64->0.zero()
        ||| self.u8 is Some && self.u8->0 == 0
        ||| self.u16 is Some && self.u16->0 == 0
        ||| self.u32 is Some && self.u32->0 == 0
        ||| self.u64 is Some && self.u64->0 == 0
        ||| self.u128 is Some && self.u128->0 == 0
    }

    /// Some integer slot is filled.
    pub open spec fn some_integer(&self) -> bool {
        ||| self.i8 is Some
        ||| self.i16 is Some
        ||| self.i32 is Some
        ||| self.i64 is Some
        ||| self.i128 is Some
        ||| self.u8 is Some
        ||| self.u16 is Some
        ||| self.u32 is Some
        ||| self.u64 is Some
        ||| self.u128 is Some
    }

    /// Some unsigned slot is filled.
    pub open spec fn some_unsigned(&self) -> bool {
        ||| self.u8 is Some
        ||| self.u16 is Some
        ||| self.u32 is Some
        ||| self.u64 is Some
        ||| self.u128 is Some
    }

    /// Empties every slot and hands the number back for the next call.
    pub fn clean(&mut self) -> (r: &mut Self)
        ensures
            *r == Number::empty(),
            *final(self) == *final(r),
    {
        self.u8 = None;
        self.u16 = None;
        self.u32 = None;
        self.u64 = None;
        self.u128 = None;
        self.i8 = None;
        self.i16 = None;
        self.i32 = None;
        self.i64 = None;
        self.i128 = None;
        self.float32 = None;
        self.float64 = None;
        self
    }
}

impl Default for Number {
    fn default() -> (r: Self)
        ensures
            r == Number::empty(),
    {
        Number {
            u8: None,
            u16: None,
            u32: None,
            u64: None,
            u128: None,
            i8: None,
            i16: None,
            i32: None,
            i64: None,
            i128: None,
            float32: None,
            float64: None,
        }
    }
}

impl NumberBehavior for Number {
    open spec fn slots(&self) -> Number {
        *self
    }

    fn set_u8(&mut self, value: u8)
    {
        self.u8 = Some(value);
    }

    fn set_u16(&mut self, value: u16)
    {
        self.u16 = Some(value);
    }

    fn set_u32(&mut self, value: u32)
    {
        self.u32 = Some(value);
    }

    fn set_u64(&mut self, value: u64)
    {
        self.u64 = Some(value);
    }

    fn set_u128(&mut self, value: u128)
    {
        self.u128 = Some(value);
    }

    fn set_i8(&mut self, value: i8)
    {
        self.i8 = Some(value);
    }

    fn set_i16(&mut self, value: i16)
    {
        self.i16 = Some(value);
    }

    fn set_i32(&mut self, value: i32)
    {
        self.i32 = Some(value);
    }

    fn set_i64(&mut self, value: i64)
    {
        self.i64 = Some(value);
    }

    fn set_i128(&mut self, value: i128)
    {
        self.i128 = Some(value);
    }

    fn set_f32(&mut self, value: Float32)
    {
        self.float32 = Some(value);
    }

    fn set_f64(&mut self, value: Float64)
    {
        self.float64 = Some(value);
    }

    fn get_u8(&self) -> (r: Option<u8>)
    {
        self.u8
    }

    fn get_u16(&self) -> (r: Option<u16>)
    {
        self.u16
    }

    fn get_u32(&self) -> (r: Option<u32>)
    {
        self.u32
    }

    fn get_u64(&self) -> (r: Option<u64>)
    {
        self.u64
    }

    fn get_u128(&self) -> (r: Option<u128>)
    {
        self.u128
    }

    fn get_i8(&self) -> (r: Option<i8>)
    {
        self.i8
    }

    fn get_i16(&self) -> (r: Option<i16>)
    {
        self.i16
    }

    fn get_i32(&self) -> (r: Option<i32>)
    {
        self.i32
    }

    fn get_i64(&self) -> (r: Option<i64>)
    {
        self.i64
    }

    fn get_i128(&self) -> (r: Option<i128>)
    {
        self.i128
    }

    fn get_f32(&self) -> (r: Option<Float32>)
    {
        self.float32
    }

    fn get_f64(&self) -> (r: Option<Float64>)
    {
        self.float64
    }

    fn get_u8_unsafe(&self) -> (r: u8)
    {
        self.u8.unwrap()
    }

    fn get_u16_unsafe(&self) -> (r: u16)
    {
        self.u16.unwrap()
    }

    fn get_u32_unsafe(&self) -> (r: u32)
    {
        self.u32.unwrap()
    }

    fn get_u64_unsafe(&self) -> (r: u64)
    {
        self.u64.unwrap()
    }

    fn get_u128_unsafe(&self) -> (r: u128)
    {
        self.u128.unwrap()
    }

    fn get_i8_unsafe(&self) -> (r: i8)
    {
        self.i8.unwrap()
    }

    fn get_i16_unsafe(&self) -> (r: i16)
    {
        self.i16.unwrap()
    }

    fn get_i32_unsafe(&self) -> (r: i32)
    {
        self.i32.unwrap()
    }

    fn get_i64_unsafe(&self) -> (r: i64)
    {
        self.i64.unwrap()
    }

    fn get_i128_unsafe(&self) -> (r: i128)
    {
        self.i128.unwrap()
    }

    fn get_f32_unsafe(&self) -> (r: Float32)
    {
        self.float32.unwrap()
    }

    fn get_f64_unsafe(&self) -> (r: Float64)
    {
        self.float64.unwrap()
    }

    fn is_i8(&self) -> (r: bool)
    {
        self.i8.is_some()
    }

    fn is_i16(&self) -> (r: bool)
    {
        self.i16.is_some()
    }

    fn is_i32(&self) -> (r: bool)
    {
        self.i32.is_some()
    }

    fn is_i64(&self) -> (r: bool)
    {
        self.i64.is_some()
    }

    fn is_i128(&self) -> (r: bool)
    {
        self.i128.is_some()
    }

    fn is_u8(&self) -> (r: bool)
    {
        self.u8.is_some()
    }

    fn is_u16(&self) -> (r: bool)
    {
        self.u16.is_some()
    }

    fn is_u32(&self) -> (r: bool)
    {
        self.u32.is_some()
    }

    fn is_u64(&self) -> (r: bool)
    {
        self.u64.is_some()
    }

    fn is_u128(&self) -> (r: bool)
    {
        self.u128.is_some()
    }

    fn is_f32(&self) -> (r: bool)
    {
        self.float32.is_some()
    }

    fn is_f64(&self) -> (r: bool)
    {
        self.float64.is_some()
    }

    fn is_number(&self) -> (r: bool)
    {
        self.is_i8()
            || self.is_i16()
            || self.is_i32()
            || self.is_i64()
            || self.is_i128()
            || self.is_u8()
            || self.is_u16()
            || self.is_u32()
            || self.is_u64()
            || self.is_u128()
            || self.is_f32()
            || self.is_f64()
    }

    fn is_integer(&self) -> (r: bool)
    {
        self.is_i8()
            || self.is_i16()
            || self.is_i32()
            || self.is_i64()
            || self.is_i128()
            || self.is_u8()
            || self.is_u16()
            || self.is_u32()
            || self.is_u64()
            || self.is_u128()
    }

    fn is_float(&self) -> (r: bool)
    {
        self.is_f32() || self.is_f64()
    }

    fn is_signed(&self) -> (r: bool)
    {
        self.is_i8() && self.get_i8_unsafe() < 0
            || self.is_i16() && self.get_i16_unsafe() < 0
            || self.is_i32() && self.get_i32_unsafe() < 0
            || self.is_i64() && self.get_i64_unsafe() < 0
            || self.is_i128() && self.get_i128_unsafe() < 0
            || self.is_f32() && self.get_f32_unsafe().is_negative()
            || self.is_f64() && self.get_f64_unsafe().is_negative()
    }

    fn is_unsigned(&self) -> (r: bool)
    {
        self.is_u8() || self.is_u16() || self.is_u32() || self.is_u64() || self.is_u128()
    }

    fn is_zero(&self) -> (r: bool)
    {
        self.is_i8() && self.get_i8_unsafe() == 0
            || self.is_i16() && self.get_i16_unsafe() == 0
            || self.is_i32() && self.get_i32_unsafe() == 0
            || self.is_i64() && self.get_i64_unsafe() == 0
            || self.is_i128() && self.get_i128_unsafe() == 0
            || self.is_f32() && self.get_f32_unsafe().is_zero()
            || self.is_f64() && self.get_f64_unsafe().is_zero()
            || self.is_u8() && self.get_u8_unsafe() == 0
            || self.is_u16() && self.get_u16_unsafe() == 0
            || self.is_u32() && self.get_u32_unsafe() == 0
            || self.is_u64() && self.get_u64_unsafe() == 0
            || self.is_u128() && self.get_u128_unsafe() == 0
    }

    fn is_positive(&self) -> (r: bool)
    {
        !self.is_signed() && !self.is_zero()
    }

    fn is_negative(&self) -> (r: bool)
    {
        self.is_signed() && !self.is_zero()
    }

    fn number_type(&self) -> (r: NumberType)
    {
        if self.is_i8() {
            NumberType::I8
        } else if self.is_i16() {
            NumberType::I16
        } else if self.is_i32() {
            NumberType::I32
        } else if self.is_i64() {
            NumberType::I64
        } else if self.is_i128() {
            NumberType::I128
        } else if self.is_u8() {
            NumberType::U8
        } else if self.is_u16() {
            NumberType::U16
        } else if self.is_u32() {
            NumberType::U32
        } else if self.is_u64() {
            NumberType::U64
        } else if self.is_u128() {
            NumberType::U128
        } else if self.is_f32() {
            NumberType::F32
        } else if self.is_f64() {
            NumberType::F64
        } else {
            NumberType::Unknown
        }
    }

    fn to_u64(&self) -> (r: Option<u64>)
    {
        if self.is_i128() {
            let v: i128 = self.get_i128_unsafe();
            if v < 0 || v > u64::MAX as i128 {
                return None;
            }
            Some(v as u64)
        } else if self.is_i64() {
            let v: i64 = self.get_i64_unsafe();
            if v < 0 {
                return None;
            }
            Some(v as u64)
        } else if self.is_i32() {
            let v: i32 = self.get_i32_unsafe();
            if v < 0 {
                return None;
            }
            Some(v as u64)
        } else if self.is_i16() {
            let v: i16 = self.get_i16_unsafe();
            if v < 0 {
                return None;
            }
            Some(v as u64)
        } else if self.is_i8() {
            let v: i8 = self.get_i8_unsafe();
            if v < 0 {
                return None;
            }
            Some(v as u64)
        } else if self.is_u128() {
            let v: u128 = self.get_u128_unsafe();
            if v > u64::MAX as u128 {
                return None;
            }
            Some(v as u64)
        } else if self.is_u64() {
            Some(self.get_u64_unsafe())
        } else if self.is_u32() {
            Some(self.get_u32_unsafe() as u64)
        } else if self.is_u16() {
            Some(self.get_u16_unsafe() as u64)
        } else if self.is_u8() {
            Some(self.get_u8_unsafe() as u64)
        } else {
            None
        }
    }

    fn to_i64(&self) -> (r: Option<i64>)
    {
        if self.is_i128() {
            let v: i128 = self.get_i128_unsafe();
            if v > i64::MAX as i128 || v < i64::MIN as i128 {
                return None;
            }
            Some(v as i64)
        } else if self.is_i64() {
            Some(self.get_i64_unsafe())
        } else if self.is_i32() {
            Some(self.get_i32_unsafe() as i64)
        } else if self.is_i16() {
            Some(self.get_i16_unsafe() as i64)
        } else if self.is_i8() {
            Some(self.get_i8_unsafe() as i64)
        } else if self.is_u128() {
            let v: u128 = self.get_u128_unsafe();
            if v > i64::MAX as u128 {
                return None;
            }
            Some(v as i64)
        } else if self.is_u64() {
            let v: u64 = self.get_u64_unsafe();
            if v > i64::MAX as u64 {
                return None;
            }
            Some(v as i64)
        } else if self.is_u32() {
            Some(self.get_u32_unsafe() as i64)
        } else if self.is_u16() {
            Some(self.get_u16_unsafe() as i64)
        } else if self.is_u8() {
            Some(self.get_u8_unsafe() as i64)
        } else {
            None
        }
    }

    fn to_f64(&self) -> (r: Option<Float64>)
    {
        if self.is_f64() {
            Some(self.get_f64_unsafe())
        } else if self.is_f32() {
            Some(Float64::from_float32(self.get_f32_unsafe()))
        } else if self.is_i128() {
            Some(Float64::from_i128(self.get_i128_unsafe()))
        } else if self.is_i64() {
            Some(Float64::from_i128(self.get_i64_unsafe() as i128))
        } else if self.is_i32() {
            Some(Float64::from_i128(self.get_i32_unsafe() as i128))
        } else if self.is_i16() {
            Some(Float64::from_i128(self.get_i16_unsafe() as i128))
        } else if self.is_i8() {
            Some(Float64::from_i128(self.get_i8_unsafe() as i128))
        } else if self.is_u128() {
            Some(Float64::from_u128(self.get_u128_unsafe()))
        } else if self.is_u64() {
            Some(Float64::from_u128(self.get_u64_unsafe() as u128))
        } else if self.is_u32() {
            Some(Float64::from_u128(self.get_u32_unsafe() as u128))
        } else if self.is_u16() {
            Some(Float64::from_u128(self.get_u16_unsafe() as u128))
        } else if self.is_u8() {
            Some(Float64::from_u128(self.get_u8_unsafe() as u128))
        } else {
            None
        }
    }
}

/// After a number has been cleared and one slot set, that slot is the only one
/// filled, and the number reports the encoding of that slot.
pub proof fn lemma_clear_then_set(n: Number, kind: NumberType)
    requires
        n.only(kind),
    ensures
        n.single(),
        n.filled() == 1,
        n.kind() == kind,
        forall|other: NumberType| n.holds(other) <==> other == kind,
{
}

/// A number that has been cleared is in order, with no slot filled, and
/// reports no encoding.
pub proof fn lemma_cleared(n: Number)
    requires
        n == Number::empty(),
    ensures
        n.single(),
        n.filled() == 0,
        n.kind() == NumberType::Unknown,
        forall|other: NumberType| !n.holds(other),
{
}

} // verus!
