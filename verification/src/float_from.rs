//! Binary64 numbers from integers and from binary32 numbers.
//!
//! An integer of more than 53 bits has no binary64 number of its own: it goes
//! to the nearest one, and halfway between two to the one whose fraction is
//! even. A binary32 number always has a binary64 number of the same value.

use vstd::prelude::*;
use vstd::arithmetic::power2::pow2;
use vstd::arithmetic::power2::lemma2_to64;
use vstd::arithmetic::power2::lemma2_to64_rest;
use vstd::arithmetic::power2::lemma_pow2_unfold;
use vstd::arithmetic::power2::lemma_pow2_pos;
use vstd::arithmetic::div_mod::lemma_fundamental_div_mod_converse;
use crate::float::Float32;
use crate::float::Float64;
use crate::float::SIGN_32;
use crate::float::SIGN_64;

verus! {

/// Two to the power 52: the weight of the exponent field of a binary64
/// number, and the hidden bit of its fraction.
pub const HIDDEN_64: u64 = 0x10_0000_0000_0000;

/// Two to the power 23: the same for a binary32 number.
pub const HIDDEN_32: u32 = 0x80_0000;

/// The place of the highest bit that is set in a number above zero, counted
/// from zero.
pub open spec fn top_bit(n: nat) -> nat
    decreases n,
{
    if n <= 1 {
        0
    } else {
        1 + top_bit(n / 2)
    }
}

/// The bits of the binary64 number nearest to a natural number. Up to 53 bits
/// the number is held as it is. Beyond that the bits below the 53 highest are
/// dropped, and the fraction goes up by one where they come to more than half
/// of the last place kept, or to just half with the last place odd.
pub open spec fn nearest_binary64(n: nat) -> int {
    if n == 0 {
        0
    } else {
        let e = top_bit(n);
        if e <= 52 {
            (1023 + e) * pow2(52) + (n * pow2((52 - e) as nat) - pow2(52))
        } else {
            let unit = pow2((e - 52) as nat);
            let kept = n / unit;
            let dropped = n % unit;
            let up: int = if 2 * dropped > unit || (2 * dropped == unit && kept % 2 == 1) {
                1
            } else {
                0
            };
            (1023 + e) * pow2(52) + (kept - pow2(52)) + up
        }
    }
}

/// The bits of the binary64 number nearest to an integer.
pub open spec fn nearest_binary64_signed(v: int) -> int {
    if v < 0 {
        SIGN_64 + nearest_binary64((-v) as nat)
    } else {
        nearest_binary64(v as nat)
    }
}

/// The bits of the binary64 number of the same value as a binary32 number,
/// from the magnitude bits of the latter. An infinity stays one, and a NaN
/// stays a NaN with its fraction moved to the high end.
pub open spec fn widened_magnitude(magnitude: int) -> int {
    let exponent = magnitude / (HIDDEN_32 as int);
    let fraction = magnitude % (HIDDEN_32 as int);
    if exponent == 255 {
        2047 * pow2(52) + fraction * pow2(29)
    } else if exponent > 0 {
        (exponent + 896) * pow2(52) + fraction * pow2(29)
    } else if fraction == 0 {
        0
    } else {
        let t = top_bit(fraction as nat);
        (t + 874) * pow2(52) + (fraction * pow2((52 - t) as nat) - pow2(52))
    }
}

/// The bits of the binary64 number of the same value as a binary32 number.
pub open spec fn widened(f: Float32) -> int {
    if f.sign() {
        SIGN_64 + widened_magnitude(f.magnitude())
    } else {
        widened_magnitude(f.magnitude())
    }
}

/// The highest bit of a number between two neighbouring powers of two.
pub proof fn lemma_top_bit_between(n: nat, k: nat)
    requires
        pow2(k) <= n < pow2(k + 1),
    ensures
        top_bit(n) == k,
    decreases k,
{
    lemma2_to64();
    if k == 0 {
        assert(pow2(1) == 2);
    } else {
        lemma_pow2_unfold(k);
        lemma_pow2_unfold(k + 1);
        lemma_pow2_pos((k - 1) as nat);
        lemma_top_bit_between(n / 2, (k - 1) as nat);
    }
}

/// A number above zero lies between the power of two of its highest bit and
/// the next one.
pub proof fn lemma_top_bit_bounds(n: nat)
    requires
        n > 0,
    ensures
        pow2(top_bit(n)) <= n < pow2(top_bit(n) + 1),
    decreases n,
{
    lemma2_to64();
    if n <= 1 {
    } else {
        lemma_top_bit_bounds(n / 2);
        lemma_pow2_unfold(top_bit(n));
        lemma_pow2_unfold(top_bit(n) + 1);
    }
}

/// A power of two is no less than one with a smaller exponent.
pub proof fn lemma_pow2_monotone(a: nat, b: nat)
    requires
        a <= b,
    ensures
        pow2(a) <= pow2(b),
{
    if a < b {
        vstd::arithmetic::power2::lemma_pow2_strictly_increases(a, b);
    }
}

/// Doubling a number above zero moves its highest bit up by one place.
pub proof fn lemma_top_bit_double(n: nat)
    requires
        n >= 1,
    ensures
        top_bit(2 * n) == top_bit(n) + 1,
{
    assert((2 * n) / 2 == n);
}

/// Two to the power 75.
proof fn lemma_pow2_75()
    ensures
        pow2(75) == 0x800_0000_0000_0000_0000,
{
    lemma2_to64();
    lemma2_to64_rest();
    vstd::arithmetic::power2::lemma_pow2_adds(64, 11);
    assert(pow2(64) * pow2(11) == 0x800_0000_0000_0000_0000) by (nonlinear_arith)
        requires
            pow2(64) == 0x1_0000_0000_0000_0000,
            pow2(11) == 0x800,
    ;
}

/// Doubles a number above zero until its highest bit is the 52nd, and says
/// where that bit stood before.
fn normalise(value: u64) -> (r: (u64, u64))
    requires
        1 <= value < 0x20_0000_0000_0000,
    ensures
        r.1 == top_bit(value as nat),
        r.1 <= 52,
        r.0 == value * pow2((52 - r.1) as nat),
        HIDDEN_64 <= r.0 < 0x20_0000_0000_0000,
{
    let mut scaled: u64 = value;
    let mut place: u64 = 52;
    proof {
        lemma2_to64();
        assert(value * pow2(0) == value) by (nonlinear_arith)
            requires
                pow2(0) == 1,
        ;
    }
    while scaled < HIDDEN_64
        invariant
            1 <= scaled < 0x20_0000_0000_0000,
            place <= 52,
            scaled == value * pow2((52 - place) as nat),
            top_bit(scaled as nat) == top_bit(value as nat) + (52 - place),
        decreases place,
    {
        proof {
            lemma2_to64_rest();
            lemma_top_bit_bounds(scaled as nat);
            if place == 0 {
                lemma_pow2_monotone(52, top_bit(scaled as nat));
                assert(false);
            }
            lemma_pow2_unfold((52 - place + 1) as nat);
            assert(scaled * 2 == value * pow2((52 - place + 1) as nat)) by (nonlinear_arith)
                requires
                    scaled == value * pow2((52 - place) as nat),
                    pow2((52 - place + 1) as nat) == 2 * pow2((52 - place) as nat),
            ;
            lemma_top_bit_double(scaled as nat);
        }
        scaled = scaled * 2;
        place = place - 1;
    }
    proof {
        lemma2_to64_rest();
        lemma_top_bit_between(scaled as nat, 52);
    }
    (scaled, place)
}

impl Float64 {
    /// The binary64 number nearest to an unsigned integer.
    pub fn from_u128(n: u128) -> (r: Self)
        ensures
            r.bits == nearest_binary64(n as nat),
    {
        if n == 0 {
            return Float64 { bits: 0 };
        }
        let mut kept: u128 = n;
        let mut unit: u128 = 1;
        let mut dropped: u128 = 0;
        let mut shift: u64 = 0;
        proof {
            lemma2_to64();
        }
        while kept >= 0x20_0000_0000_0000
            invariant
                kept >= 1,
                unit >= 1,
                shift <= 75,
                unit <= 0x800_0000_0000_0000_0000,
                unit == pow2(shift as nat),
                dropped < unit,
                n == kept * unit + dropped,
                top_bit(n as nat) == shift + top_bit(kept as nat),
                shift > 0 ==> kept >= 0x10_0000_0000_0000,
            decreases kept,
        {
            let half: u128 = kept / 2;
            let odd: bool = kept % 2 == 1;
            proof {
                assert(unit < 0x800_0000_0000_0000_0000) by (nonlinear_arith)
                    requires
                        n == kept * unit + dropped,
                        kept >= 0x20_0000_0000_0000,
                        n <= 0xffff_ffff_ffff_ffff_ffff_ffff_ffff_ffff,
                        dropped >= 0,
                        unit >= 0,
                ;
                lemma_pow2_75();
                if shift >= 75 {
                    lemma_pow2_monotone(75, shift as nat);
                    assert(false);
                }
                lemma_pow2_unfold((shift + 1) as nat);
                lemma_pow2_monotone((shift + 1) as nat, 75);
                if odd {
                    assert(n == half * (unit * 2) + (dropped + unit)) by (nonlinear_arith)
                        requires
                            n == kept * unit + dropped,
                            kept == 2 * half + 1,
                    ;
                } else {
                    assert(n == half * (unit * 2) + dropped) by (nonlinear_arith)
                        requires
                            n == kept * unit + dropped,
                            kept == 2 * half,
                    ;
                }
            }
            if odd {
                dropped = dropped + unit;
            }
            kept = half;
            unit = unit * 2;
            shift = shift + 1;
        }
        proof {
            lemma2_to64();
            lemma2_to64_rest();
        }
        if shift == 0 {
            assert(n == kept) by (nonlinear_arith)
                requires
                    n == kept * unit + dropped,
                    unit == 1,
                    dropped < unit,
                    dropped >= 0,
            ;
            let (scaled, place) = normalise(kept as u64);
            Float64 { bits: (1023 + place) * HIDDEN_64 + (scaled - HIDDEN_64) }
        } else {
            proof {
                lemma_top_bit_between(kept as nat, 52);
                assert(n == kept * unit + dropped);
                assert(kept * unit == (kept as int) * (unit as int));
                lemma_fundamental_div_mod_converse(
                    n as int,
                    unit as int,
                    kept as int,
                    dropped as int,
                );
            }
            let up: u64 = if 2 * dropped > unit || (2 * dropped == unit && kept % 2 == 1) {
                1
            } else {
                0
            };
            Float64 { bits: (1075 + shift) * HIDDEN_64 + (kept as u64 - HIDDEN_64) + up }
        }
    }

    /// The binary64 number nearest to a signed integer.
    pub fn from_i128(v: i128) -> (r: Self)
        ensures
            r.bits == nearest_binary64_signed(v as int),
    {
        if v < 0 {
            let m: u128 = if v == i128::MIN {
                0x8000_0000_0000_0000_0000_0000_0000_0000u128
            } else {
                (-v) as u128
            };
            let magnitude = Float64::from_u128(m);
            proof {
                lemma_nearest_binary64_bound(m as nat);
            }
            Float64 { bits: SIGN_64 + magnitude.bits }
        } else {
            Float64::from_u128(v as u128)
        }
    }

    /// The binary64 number of the same value as a binary32 number.
    pub fn from_float32(f: Float32) -> (r: Self)
        ensures
            r.bits == widened(f),
    {
        proof {
            lemma2_to64();
            lemma2_to64_rest();
        }
        let negative: bool = f.bits >= SIGN_32;
        let magnitude: u32 = if negative {
            f.bits - SIGN_32
        } else {
            f.bits
        };
        let exponent: u64 = (magnitude / HIDDEN_32) as u64;
        let fraction: u64 = (magnitude % HIDDEN_32) as u64;
        let wide: u64 = if exponent == 255 {
            2047 * HIDDEN_64 + fraction * 0x2000_0000
        } else if exponent > 0 {
            (exponent + 896) * HIDDEN_64 + fraction * 0x2000_0000
        } else if fraction == 0 {
            0
        } else {
            let (scaled, place) = normalise(fraction);
            (place + 874) * HIDDEN_64 + (scaled - HIDDEN_64)
        };
        if negative {
            Float64 { bits: SIGN_64 + wide }
        } else {
            Float64 { bits: wide }
        }
    }
}

/// The powers of two up to the 127th are below two to the power 128.
proof fn lemma_pow2_strictly_grows_to_128(e: nat)
    requires
        e <= 127,
    ensures
        pow2(e) * 2 <= 0x1_0000_0000_0000_0000_0000_0000_0000_0000,
    decreases 127 - e,
{
    lemma2_to64();
    lemma2_to64_rest();
    if e == 127 {
        vstd::arithmetic::power2::lemma_pow2_adds(64, 63);
        assert(pow2(127) == pow2(64) * pow2(63));
        assert(pow2(64) * pow2(63) == 0x8000_0000_0000_0000_0000_0000_0000_0000) by (nonlinear_arith)
            requires
                pow2(64) == 0x1_0000_0000_0000_0000,
                pow2(63) == 0x8000_0000_0000_0000,
        ;
    } else {
        lemma_pow2_strictly_grows_to_128(e + 1);
        lemma_pow2_unfold(e + 1);
    }
}

/// The nearest binary64 number to a number that fits in 128 bits is finite
/// and has its sign bit clear.
pub proof fn lemma_nearest_binary64_bound(n: nat)
    requires
        n <= u128::MAX,
    ensures
        0 <= nearest_binary64(n) < SIGN_64,
{
    lemma2_to64();
    lemma2_to64_rest();
    if n > 0 {
        let e = top_bit(n);
        lemma_top_bit_bounds(n);
        if e >= 128 {
            lemma_pow2_at_least_128(e);
        }
        assert(e <= 127);
        if e <= 52 {
            let k = (52 - e) as nat;
            vstd::arithmetic::power2::lemma_pow2_adds(e, k);
            assert(pow2(52) == pow2(e) * pow2(k));
            vstd::arithmetic::power2::lemma_pow2_adds(e + 1, k);
            lemma_pow2_unfold(53);
            lemma_pow2_pos(k);
            assert(pow2(e) * pow2(k) <= n * pow2(k)) by (nonlinear_arith)
                requires
                    pow2(e) <= n,
                    pow2(k) > 0,
            ;
            assert(n * pow2(k) < pow2(e + 1) * pow2(k)) by (nonlinear_arith)
                requires
                    n < pow2(e + 1),
                    pow2(k) > 0,
            ;
            assert((1023 + e) * pow2(52) <= 1075 * pow2(52)) by (nonlinear_arith)
                requires
                    e <= 52,
            ;
        } else {
            let s = (e - 52) as nat;
            let unit = pow2(s);
            lemma_pow2_pos(s);
            vstd::arithmetic::power2::lemma_pow2_adds(52, s);
            vstd::arithmetic::power2::lemma_pow2_adds(53, s);
            lemma_pow2_unfold(53);
            vstd::arithmetic::div_mod::lemma_fundamental_div_mod(n as int, unit as int);
            vstd::arithmetic::div_mod::lemma_mod_bound(n as int, unit as int);
            let kept = (n / unit) as int;
            assert(kept >= pow2(52)) by (nonlinear_arith)
                requires
                    n == unit * kept + n % unit,
                    0 <= n % unit < unit,
                    pow2(52) * unit <= n,
                    unit > 0,
            ;
            assert(kept < pow2(53)) by (nonlinear_arith)
                requires
                    n == unit * kept + n % unit,
                    0 <= n % unit < unit,
                    n < pow2(53) * unit,
                    unit > 0,
            ;
            assert((1023 + e) * pow2(52) <= 1150 * pow2(52)) by (nonlinear_arith)
                requires
                    e <= 127,
            ;
        }
    }
}

/// From the 128th on, the powers of two are above every `u128`.
proof fn lemma_pow2_at_least_128(e: nat)
    requires
        e >= 128,
    ensures
        pow2(e) > u128::MAX,
    decreases e,
{
    if e == 128 {
        lemma_pow2_strictly_grows_to_128(127);
        lemma_pow2_unfold(128);
        lemma2_to64_rest();
        vstd::arithmetic::power2::lemma_pow2_adds(64, 63);
        assert(pow2(64) * pow2(63) == 0x8000_0000_0000_0000_0000_0000_0000_0000) by (nonlinear_arith)
            requires
                pow2(64) == 0x1_0000_0000_0000_0000,
                pow2(63) == 0x8000_0000_0000_0000,
        ;
    } else {
        lemma_pow2_at_least_128((e - 1) as nat);
        lemma_pow2_unfold(e);
    }
}

} // verus!
