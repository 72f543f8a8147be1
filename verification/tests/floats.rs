use std::cmp::Ordering;
use valu3::float_order::order_of_i64;
use valu3::prelude::{Float32, Float64};

const U128_CASES: [u128; 30] = [
    0,
    1,
    2,
    3,
    255,
    (1 << 24) - 1,
    1 << 24,
    (1 << 24) + 1,
    (1 << 53) - 1,
    1 << 53,
    (1 << 53) + 1,
    (1 << 53) + 2,
    (1 << 53) + 3,
    (1 << 54) + 2,
    (1 << 54) + 3,
    (1 << 54) + 6,
    (1 << 60) + (1 << 7),
    (1 << 60) + (1 << 7) + 1,
    (1 << 60) + (3 << 7),
    u64::MAX as u128,
    u64::MAX as u128 - 1023,
    u64::MAX as u128 - 1024,
    (u64::MAX as u128) + 1,
    1 << 100,
    (1 << 100) + (1 << 47),
    (1 << 100) + (1 << 47) + 1,
    1 << 127,
    u128::MAX,
    u128::MAX - (1 << 74),
    123456789012345678901234567890,
];

#[test]
fn unsigned_integers_round_as_the_language_rounds() {
    for n in U128_CASES {
        assert_eq!(Float64::from_u128(n).to_bits(), (n as f64).to_bits(), "{n}");
    }
    let mut n: u128 = 1;
    for _ in 0..2000 {
        n = n.wrapping_mul(6364136223846793005).wrapping_add(1442695040888963407);
        for shift in [0u32, 17, 40, 64, 75, 90] {
            let m = n >> shift;
            assert_eq!(Float64::from_u128(m).to_bits(), (m as f64).to_bits(), "{m}");
        }
    }
}

#[test]
fn signed_integers_round_as_the_language_rounds() {
    for n in U128_CASES {
        if n <= i128::MAX as u128 {
            let v = n as i128;
            assert_eq!(Float64::from_i128(v).to_bits(), (v as f64).to_bits(), "{v}");
            assert_eq!(Float64::from_i128(-v).to_bits(), ((-v) as f64).to_bits(), "-{v}");
        }
    }
    assert_eq!(Float64::from_i128(i128::MIN).to_bits(), (i128::MIN as f64).to_bits());
    assert_eq!(Float64::from_i128(i128::MAX).to_bits(), (i128::MAX as f64).to_bits());
    assert_eq!(Float64::from_i128(-1).to_bits(), (-1.0f64).to_bits());
    assert_eq!(Float64::from_i128(0).to_bits(), 0);
}

#[test]
fn a_binary32_widens_to_the_same_value() {
    let cases: [f32; 16] = [
        0.0,
        -0.0,
        1.0,
        -1.0,
        3.14,
        f32::MAX,
        f32::MIN,
        f32::MIN_POSITIVE,
        -f32::MIN_POSITIVE,
        f32::EPSILON,
        f32::INFINITY,
        f32::NEG_INFINITY,
        1.0e-40,
        -1.0e-45,
        1.17549421e-38,
        16777216.0,
    ];
    for x in cases {
        let wide = Float64::from_float32(Float32::from_bits(x.to_bits()));
        assert_eq!(wide.to_bits(), (x as f64).to_bits(), "{x}");
    }
    let mut bits: u32 = 1;
    for _ in 0..20000 {
        bits = bits.wrapping_mul(1664525).wrapping_add(1013904223);
        for pattern in [bits, bits >> 9, bits & 0x807f_ffff, bits | 0x7f00_0000] {
            let x = f32::from_bits(pattern);
            let wide = Float64::from_float32(Float32::from_bits(pattern));
            if x.is_nan() {
                assert!(wide.is_nan());
                assert!(f64::from_bits(wide.to_bits()).is_nan());
            } else {
                assert_eq!(wide.to_bits(), (x as f64).to_bits(), "{pattern:#x}");
            }
        }
    }
}

#[test]
fn floats_compare_as_their_values_do() {
    let cases: [f64; 14] = [
        0.0,
        -0.0,
        1.0,
        -1.0,
        3.14,
        3.141,
        f64::MAX,
        f64::MIN,
        f64::MIN_POSITIVE,
        -f64::MIN_POSITIVE,
        f64::INFINITY,
        f64::NEG_INFINITY,
        f64::NAN,
        5e-324,
    ];
    for a in cases {
        let x = Float64::from_bits(a.to_bits());
        assert_eq!(x.is_nan(), a.is_nan());
        assert_eq!(x.is_zero(), a == 0.0);
        assert_eq!(x.is_negative(), a < 0.0);
        for b in cases {
            let y = Float64::from_bits(b.to_bits());
            assert_eq!(x == y, a == b, "{a} {b}");
            assert_eq!(x.partial_cmp(&y), a.partial_cmp(&b), "{a} {b}");
            assert_eq!(x < y, a < b, "{a} {b}");
        }
    }
    let cases: [f32; 12] = [
        0.0,
        -0.0,
        1.0,
        -1.0,
        3.14,
        f32::MAX,
        f32::MIN,
        f32::MIN_POSITIVE,
        f32::INFINITY,
        f32::NEG_INFINITY,
        f32::NAN,
        1.0e-45,
    ];
    for a in cases {
        let x = Float32::from_bits(a.to_bits());
        assert_eq!(x.is_nan(), a.is_nan());
        assert_eq!(x.is_zero(), a == 0.0);
        assert_eq!(x.is_negative(), a < 0.0);
        for b in cases {
            let y = Float32::from_bits(b.to_bits());
            assert_eq!(x == y, a == b, "{a} {b}");
            assert_eq!(x.partial_cmp(&y), a.partial_cmp(&b), "{a} {b}");
        }
    }
}

#[test]
fn ranks_are_ordered_as_integers() {
    assert_eq!(order_of_i64(-1, 1), Ordering::Less);
    assert_eq!(order_of_i64(1, 1), Ordering::Equal);
    assert_eq!(order_of_i64(2, 1), Ordering::Greater);
    assert_eq!(Float64::from_bits(1.5f64.to_bits()).rank_of(), 1.5f64.to_bits() as i64);
    assert_eq!(Float64::from_bits((-1.5f64).to_bits()).rank_of(), -(1.5f64.to_bits() as i64));
    assert_eq!(Float32::from_bits((-0.0f32).to_bits()).rank_of(), 0);
}
