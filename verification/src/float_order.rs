//! Equality and order of floats, as their values have them.
//!
//! A NaN equals nothing, itself included, and compares with nothing. The two
//! zeros are equal. Everything else is ordered by value, which is the order of
//! the ranks.

use std::cmp::Ordering;
use vstd::prelude::*;
use vstd::std_specs::cmp::PartialEqSpecImpl;
use vstd::std_specs::cmp::PartialOrdSpecImpl;
use crate::float::Float32;
use crate::float::Float64;
use crate::float::widen_i64;

verus! {

/// How two integers stand to each other.
pub open spec fn order_of(a: int, b: int) -> Ordering {
    if a < b {
        Ordering::Less
    } else if a == b {
        Ordering::Equal
    } else {
        Ordering::Greater
    }
}

/// How two `i64` stand to each other.
pub fn order_of_i64(a: i64, b: i64) -> (r: Ordering)
    ensures
        r == order_of(widen_i64(a), widen_i64(b)),
{
    if a < b {
        Ordering::Less
    } else if a == b {
        Ordering::Equal
    } else {
        Ordering::Greater
    }
}

/// Whether two binary32 numbers have equal values.
pub open spec fn float32_eq(a: Float32, b: Float32) -> bool {
    !a.nan() && !b.nan() && a.rank() == b.rank()
}

/// How the values of two binary32 numbers stand to each other; nothing
/// where one of them is a NaN.
pub open spec fn float32_order(a: Float32, b: Float32) -> Option<Ordering> {
    if a.nan() || b.nan() {
        None
    } else {
        Some(order_of(a.rank(), b.rank()))
    }
}

impl PartialEq for Float32 {
    fn eq(&self, other: &Self) -> (r: bool) {
        !self.is_nan() && !other.is_nan() && self.rank_of() == other.rank_of()
    }
}

impl PartialEqSpecImpl for Float32 {
    open spec fn obeys_eq_spec() -> bool {
        true
    }

    open spec fn eq_spec(&self, other: &Self) -> bool {
        float32_eq(*self, *other)
    }
}

impl PartialOrd for Float32 {
    fn partial_cmp(&self, other: &Self) -> (r: Option<Ordering>) {
        if self.is_nan() || other.is_nan() {
            None
        } else {
            Some(order_of_i64(self.rank_of(), other.rank_of()))
        }
    }
}

impl PartialOrdSpecImpl for Float32 {
    open spec fn obeys_partial_cmp_spec() -> bool {
        true
    }

    open spec fn partial_cmp_spec(&self, other: &Self) -> Option<Ordering> {
        float32_order(*self, *other)
    }
}

/// Whether two binary64 numbers have equal values.
pub open spec fn float64_eq(a: Float64, b: Float64) -> bool {
    !a.nan() && !b.nan() && a.rank() == b.rank()
}

/// How the values of two binary64 numbers stand to each other; nothing
/// where one of them is a NaN.
pub open spec fn float64_order(a: Float64, b: Float64) -> Option<Ordering> {
    if a.nan() || b.nan() {
        None
    } else {
        Some(order_of(a.rank(), b.rank()))
    }
}

impl PartialEq for Float64 {
    fn eq(&self, other: &Self) -> (r: bool) {
        !self.is_nan() && !other.is_nan() && self.rank_of() == other.rank_of()
    }
}

impl PartialEqSpecImpl for Float64 {
    open spec fn obeys_eq_spec() -> bool {
        true
    }

    open spec fn eq_spec(&self, other: &Self) -> bool {
        float64_eq(*self, *other)
    }
}

impl PartialOrd for Float64 {
    fn partial_cmp(&self, other: &Self) -> (r: Option<Ordering>) {
        if self.is_nan() || other.is_nan() {
            None
        } else {
            Some(order_of_i64(self.rank_of(), other.rank_of()))
        }
    }
}

impl PartialOrdSpecImpl for Float64 {
    open spec fn obeys_partial_cmp_spec() -> bool {
        true
    }

    open spec fn partial_cmp_spec(&self, other: &Self) -> Option<Ordering> {
        float64_order(*self, *other)
    }
}

} // verus!
