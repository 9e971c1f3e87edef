//! Bit-level predicates, comparisons and conversions against the
//! hardware float semantics they model.

use specfilter::fbits::{
    f32_nan_test, f32_finite_test, f32_zero_test, f32_le, f32_lt, f32_ge, f32_min, f32_max,
    f32_abs, f64_nan_test, f64_finite_test, f64_le, f64_lt, f64_min, f64_max,
};
use specfilter::convert::{
    u64_to_f32, i32_to_f32, widen_f32_f64, small_u64_to_f64, i64_to_f64, floor32_int, floor64_int,
    pow2f32, pow2f64,
};
use specfilter::kernel::round32_int;

fn f32s() -> Vec<f32> {
    vec![
        0.0, -0.0, 1.0, -1.0, 0.5, -0.5, 1.5, 2.0, 3.14159, -2.71828, 1e-38, -1e-38, 1e-45,
        -1e-45, 3.4e38, -3.4e38, f32::INFINITY, f32::NEG_INFINITY, f32::NAN, 1.0000001, 0.9999999,
        22050.0, 44100.0, 30000.0, 1.18, 4242.703,
    ]
}

#[test]
fn f32_class_tests_match_std() {
    for x in f32s() {
        let b = x.to_bits();
        assert_eq!(f32_nan_test(b), x.is_nan(), "{x}");
        assert_eq!(f32_finite_test(b), x.is_finite(), "{x}");
        assert_eq!(f32_zero_test(b), x == 0.0 && x.abs().to_bits() == 0, "{x}");
    }
}

#[test]
fn f32_comparisons_match_std() {
    for a in f32s() {
        for b in f32s() {
            let (ab, bb) = (a.to_bits(), b.to_bits());
            assert_eq!(f32_le(ab, bb), a <= b, "{a} <= {b}");
            assert_eq!(f32_lt(ab, bb), a < b, "{a} < {b}");
            assert_eq!(f32_ge(ab, bb), a >= b, "{a} >= {b}");
        }
    }
}

#[test]
fn f32_min_max_match_std() {
    for a in f32s() {
        for b in f32s() {
            // avoid the zero-sign ambiguity of maxnum/minnum
            if a == 0.0 && b == 0.0 {
                continue;
            }
            let m = f32::from_bits(f32_max(a.to_bits(), b.to_bits()));
            let n = f32::from_bits(f32_min(a.to_bits(), b.to_bits()));
            let sm = a.max(b);
            let sn = a.min(b);
            assert!(m == sm || (m.is_nan() && sm.is_nan()), "max {a} {b}: {m} vs {sm}");
            assert!(n == sn || (n.is_nan() && sn.is_nan()), "min {a} {b}: {n} vs {sn}");
        }
    }
}

#[test]
fn f32_abs_matches_std() {
    for x in f32s() {
        if x.is_nan() {
            continue;
        }
        assert_eq!(f32_abs(x.to_bits()), x.abs().to_bits(), "{x}");
    }
}

#[test]
fn f64_comparisons_match_std() {
    let xs: Vec<f64> = vec![
        0.0, -0.0, 1.0, -1.0, 1e300, -1e300, 5e-324, f64::INFINITY, f64::NEG_INFINITY, f64::NAN,
        0.1, -0.1,
    ];
    for &a in &xs {
        for &b in &xs {
            assert_eq!(f64_le(a.to_bits(), b.to_bits()), a <= b, "{a} <= {b}");
            assert_eq!(f64_lt(a.to_bits(), b.to_bits()), a < b, "{a} < {b}");
        }
    }
    for &a in &xs {
        let b = a.to_bits();
        assert_eq!(f64_nan_test(b), a.is_nan());
        assert_eq!(f64_finite_test(b), a.is_finite());
    }
    assert_eq!(f64::from_bits(f64_max(1.0f64.to_bits(), 2.0f64.to_bits())), 2.0);
    assert_eq!(f64::from_bits(f64_min(1.0f64.to_bits(), 2.0f64.to_bits())), 1.0);
}

#[test]
fn u64_to_f32_matches_cast() {
    let cases: Vec<u64> = vec![
        0,
        1,
        2,
        3,
        7,
        0xFF_FFFF,
        0x100_0000,
        0x100_0001,
        0x100_0002,
        0x100_0003,
        0x1FF_FFFF,
        123_456_789,
        u64::MAX,
        u64::MAX - 1,
        0x8000_0000_0000_0000,
        0x8000_0800_0000_0000,
        44100,
        1 << 40,
        (1 << 40) + (1 << 17),
        (1 << 40) + (1 << 16),
        (1 << 40) + (3 << 16),
    ];
    for n in cases {
        assert_eq!(u64_to_f32(n), (n as f32).to_bits(), "{n}");
    }
}

#[test]
fn i32_to_f32_matches_cast() {
    for v in [0i32, 1, -1, 127, -128, 8_388_607, -8_388_608, i32::MAX, i32::MIN, 44100, -44100] {
        assert_eq!(i32_to_f32(v), (v as f32).to_bits(), "{v}");
    }
}

#[test]
fn widen_matches_cast() {
    for x in f32s() {
        let w = widen_f32_f64(x.to_bits());
        let c = (x as f64).to_bits();
        assert_eq!(w, c, "{x}");
    }
}

#[test]
fn small_u64_to_f64_matches_cast() {
    for n in [0u64, 1, 2, 44100, 0xF_FFFF_FFFF_FFFF, 1 << 51] {
        assert_eq!(small_u64_to_f64(n), (n as f64).to_bits(), "{n}");
    }
    for v in [0i64, 1, -1, -44100, (1 << 52) - 1, -((1 << 52) - 1)] {
        assert_eq!(i64_to_f64(v), (v as f64).to_bits(), "{v}");
    }
}

#[test]
fn floor_matches_std() {
    for x in [0.0f32, -0.0, 0.5, -0.5, 1.0, -1.0, 1.5, -1.5, 100.25, -100.25, 8388607.0,
        -8388607.0, 0.0000001, -0.0000001] {
        assert_eq!(floor32_int(x.to_bits()), x.floor() as i64, "{x}");
    }
    for x in [0.0f64, -0.0, 0.5, -0.5, 1.5, -1.5, 1048576.75, -1048576.75] {
        assert_eq!(floor64_int(x.to_bits()), x.floor() as i64, "{x}");
    }
}

#[test]
fn round_matches_std() {
    for x in [0.0f32, 0.4, 0.5, 0.6, -0.4, -0.5, -0.6, 1.5, -1.5, 2.5, -2.5, 3.0, 100.49] {
        assert_eq!(round32_int(x.to_bits()), x.round() as i64, "{x}");
    }
    assert_eq!(round32_int(f32::NAN.to_bits()), 0);
}

#[test]
fn pow2_matches_std() {
    for n in [-150i64, -149, -130, -127, -126, -1, 0, 1, 10, 127] {
        assert_eq!(pow2f32(n), (2.0f32).powi(n as i32).to_bits(), "{n}");
    }
    for n in [-1075i64, -1074, -1040, -1022, -1, 0, 1, 52, 1023] {
        assert_eq!(pow2f64(n), (2.0f64).powi(n as i32).to_bits(), "{n}");
    }
}
