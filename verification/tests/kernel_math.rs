//! Numerical accuracy of the transcendental kernel against the standard
//! library, within tolerances: the kernel is its own fixed curve, not a
//! bit-for-bit copy of the platform's.

use specfilter::kernel::{exp2_32, exp_32, log2_32, exp2_64, exp_64, sqrt_64};

fn rel32(a: f32, b: f32) -> f32 {
    if b == 0.0 {
        a.abs()
    } else {
        ((a - b) / b).abs()
    }
}

fn rel64(a: f64, b: f64) -> f64 {
    if b == 0.0 {
        a.abs()
    } else {
        ((a - b) / b).abs()
    }
}

#[test]
fn exp2_32_accurate() {
    for i in -1200..=1400 {
        let x = i as f32 * 0.1;
        let got = f32::from_bits(exp2_32(x.to_bits()));
        let want = x.exp2();
        if !want.is_finite() {
            assert_eq!(got, want);
            continue;
        }
        if want < 1e-35 {
            // subnormal results are quantized too coarsely for a
            // relative bound
            continue;
        }
        assert!(rel32(got, want) < 2e-6, "exp2({x}): {got} vs {want}");
    }
    assert_eq!(f32::from_bits(exp2_32(0.0f32.to_bits())), 1.0);
    assert_eq!(f32::from_bits(exp2_32(200.0f32.to_bits())), f32::INFINITY);
    assert_eq!(f32::from_bits(exp2_32((-200.0f32).to_bits())), 0.0);
    assert!(f32::from_bits(exp2_32(f32::NAN.to_bits())).is_nan());
}

#[test]
fn exp_32_accurate() {
    for i in -800..=800 {
        let x = i as f32 * 0.1;
        let got = f32::from_bits(exp_32(x.to_bits()));
        let want = x.exp();
        if !want.is_finite() || want < 1e-35 {
            continue;
        }
        assert!(rel32(got, want) < 4e-6, "exp({x}): {got} vs {want}");
    }
}

#[test]
fn log2_32_accurate() {
    for i in 1..=300000 {
        if i % 37 != 0 && i > 1000 {
            continue;
        }
        let x = i as f32 * 0.1;
        let got = f32::from_bits(log2_32(x.to_bits()));
        let want = x.log2();
        assert!((got - want).abs() < 3e-6, "log2({x}): {got} vs {want}");
    }
    assert_eq!(f32::from_bits(log2_32(1.0f32.to_bits())), 0.0);
    assert_eq!(f32::from_bits(log2_32(0.0f32.to_bits())), f32::NEG_INFINITY);
    assert!(f32::from_bits(log2_32((-1.0f32).to_bits())).is_nan());
    assert_eq!(f32::from_bits(log2_32(f32::INFINITY.to_bits())), f32::INFINITY);
    // subnormal input
    let tiny = f32::from_bits(1);
    let got = f32::from_bits(log2_32(tiny.to_bits()));
    assert!((got - (-149.0)).abs() < 1e-4, "log2(min subnormal) = {got}");
}

#[test]
fn exp2_64_accurate() {
    for i in -3000..=3000 {
        let x = i as f64 * 0.25;
        let got = f64::from_bits(exp2_64(x.to_bits()));
        let want = x.exp2();
        if !want.is_finite() {
            continue;
        }
        assert!(rel64(got, want) < 1e-13, "exp2({x}): {got} vs {want}");
    }
    assert_eq!(f64::from_bits(exp2_64(2000.0f64.to_bits())), f64::INFINITY);
    assert_eq!(f64::from_bits(exp2_64((-2000.0f64).to_bits())), 0.0);
}

#[test]
fn exp_64_accurate() {
    for i in -600..=600 {
        let x = i as f64 * 0.5;
        let got = f64::from_bits(exp_64(x.to_bits()));
        let want = x.exp();
        if !want.is_finite() || want < 1e-300 {
            continue;
        }
        assert!(rel64(got, want) < 1e-12, "exp({x}): {got} vs {want}");
    }
}

#[test]
fn sqrt_64_accurate() {
    for i in 1..=5000 {
        let x = i as f64 * 0.37;
        let got = f64::from_bits(sqrt_64(x.to_bits()));
        let want = x.sqrt();
        assert!(rel64(got, want) < 1e-14, "sqrt({x}): {got} vs {want}");
    }
    for x in [1e-300f64, 1e300, 4.0, 2.0, 1.0] {
        let got = f64::from_bits(sqrt_64(x.to_bits()));
        assert!(rel64(got, x.sqrt()) < 1e-14, "sqrt({x})");
    }
    assert_eq!(f64::from_bits(sqrt_64(0.0f64.to_bits())), 0.0);
    assert!(f64::from_bits(sqrt_64((-1.0f64).to_bits())).is_nan());
    assert_eq!(f64::from_bits(sqrt_64(f64::INFINITY.to_bits())), f64::INFINITY);
}

#[test]
fn kernel_is_deterministic() {
    let x = 1.2345f32.to_bits();
    assert_eq!(exp2_32(x), exp2_32(x));
    assert_eq!(log2_32(x), log2_32(x));
    let y = 6.789f64.to_bits();
    assert_eq!(exp_64(y), exp_64(y));
    assert_eq!(sqrt_64(y), sqrt_64(y));
}
