//! Floating-point numbers held by their IEEE 754 bit patterns.
//!
//! The library stores and compares these numbers and does no arithmetic with
//! them, so a pattern of bits is all it needs. Every operation here is integer
//! arithmetic on the pattern, stated against the value the pattern stands for.

use vstd::prelude::*;

verus! {

/// The pattern of the sign bit of a binary32 number.
pub const SIGN_32: u32 = 0x8000_0000;

/// The pattern of the exponent field of a binary32 number: that of infinity.
pub const INFINITY_32: u32 = 0x7f80_0000;

/// The pattern of the sign bit of a binary64 number.
pub const SIGN_64: u64 = 0x8000_0000_0000_0000;

/// The pattern of the exponent field of a binary64 number: that of infinity.
pub const INFINITY_64: u64 = 0x7ff0_0000_0000_0000;

/// An `i64` as an integer without bound.
pub open spec fn widen_i64(v: i64) -> int {
    v as int
}

/// A binary32 number, by its bits.
#[derive(Debug, Clone, Copy)]
pub struct Float32 {
    pub bits: u32,
}

/// A binary64 number, by its bits.
#[derive(Debug, Clone, Copy)]
pub struct Float64 {
    pub bits: u64,
}

impl Float32 {
    /// The bits without the sign: exponent and fraction.
    pub open spec fn magnitude(self) -> int {
        if self.bits >= SIGN_32 {
            self.bits - SIGN_32
        } else {
            self.bits as int
        }
    }

    /// Whether the sign bit is set.
    pub open spec fn sign(self) -> bool {
        self.bits >= SIGN_32
    }

    /// Not a number: the exponent is all ones and the fraction is not zero.
    pub open spec fn nan(self) -> bool {
        self.magnitude() > INFINITY_32
    }

    /// Positive or negative zero.
    pub open spec fn zero(self) -> bool {
        self.magnitude() == 0
    }

    /// An integer that orders the numbers as their values do. For two numbers
    /// that are not NaN, the values compare as the ranks compare; both zeros
    /// have rank 0.
    pub open spec fn rank(self) -> int {
        if self.sign() {
            -self.magnitude()
        } else {
            self.magnitude()
        }
    }

    /// The value is below zero. NaN and negative zero are not.
    pub open spec fn negative(self) -> bool {
        !self.nan() && self.rank() < 0
    }

    pub fn from_bits(bits: u32) -> (r: Self)
        ensures
            r.bits == bits,
    {
        Float32 { bits }
    }

    pub fn to_bits(&self) -> (r: u32)
        ensures
            r == self.bits,
    {
        self.bits
    }

    fn magnitude_bits(&self) -> (r: u32)
        ensures
            r == self.magnitude(),
    {
        if self.bits >= SIGN_32 {
            self.bits - SIGN_32
        } else {
            self.bits
        }
    }

    pub fn is_nan(&self) -> (r: bool)
        ensures
            r == self.nan(),
    {
        self.magnitude_bits() > INFINITY_32
    }

    pub fn is_zero(&self) -> (r: bool)
        ensures
            r == self.zero(),
    {
        self.magnitude_bits() == 0
    }

    pub fn is_negative(&self) -> (r: bool)
        ensures
            r == self.negative(),
    {
        let m: u32 = self.magnitude_bits();
        self.bits >= SIGN_32 && m != 0 && m <= INFINITY_32
    }

    /// The rank, computed.
    pub fn rank_of(&self) -> (r: i64)
        ensures
            r == self.rank(),
    {
        let m: i64 = self.magnitude_bits() as i64;
        if self.bits >= SIGN_32 {
            -m
        } else {
            m
        }
    }
}

impl Float64 {
    /// The bits without the sign: exponent and fraction.
    pub open spec fn magnitude(self) -> int {
        if self.bits >= SIGN_64 {
            self.bits - SIGN_64
        } else {
            self.bits as int
        }
    }

    /// Whether the sign bit is set.
    pub open spec fn sign(self) -> bool {
        self.bits >= SIGN_64
    }

    /// Not a number: the exponent is all ones and the fraction is not zero.
    pub open spec fn nan(self) -> bool {
        self.magnitude() > INFINITY_64
    }

    /// Positive or negative zero.
    pub open spec fn zero(self) -> bool {
        self.magnitude() == 0
    }

    /// An integer that orders the numbers as their values do. For two numbers
    /// that are not NaN, the values compare as the ranks compare; both zeros
    /// have rank 0.
    pub open spec fn rank(self) -> int {
        if self.sign() {
            -self.magnitude()
        } else {
            self.magnitude()
        }
    }

    /// The value is below zero. NaN and negative zero are not.
    pub open spec fn negative(self) -> bool {
        !self.nan() && self.rank() < 0
    }

    pub fn from_bits(bits: u64) -> (r: Self)
        ensures
            r.bits == bits,
    {
        Float64 { bits }
    }

    pub fn to_bits(&self) -> (r: u64)
        ensures
            r == self.bits,
    {
        self.bits
    }

    fn magnitude_bits(&self) -> (r: u64)
        ensures
            r == self.magnitude(),
    {
        if self.bits >= SIGN_64 {
            self.bits - SIGN_64
        } else {
            self.bits
        }
    }

    pub fn is_nan(&self) -> (r: bool)
        ensures
            r == self.nan(),
    {
        self.magnitude_bits() > INFINITY_64
    }

    pub fn is_zero(&self) -> (r: bool)
        ensures
            r == self.zero(),
    {
        self.magnitude_bits() == 0
    }

    pub fn is_negative(&self) -> (r: bool)
        ensures
            r == self.negative(),
    {
        let m: u64 = self.magnitude_bits();
        self.bits >= SIGN_64 && m != 0 && m <= INFINITY_64
    }

    /// The rank, computed.
    pub fn rank_of(&self) -> (r: i64)
        ensures
            r == self.rank(),
    {
        let m: i64 = self.magnitude_bits() as i64;
        if self.bits >= SIGN_64 {
            -m
        } else {
            m
        }
    }
}

} // verus!
