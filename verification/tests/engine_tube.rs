//! The realtime engine and the tube saturation cascade, checked against
//! independent double-precision reimplementations of their recurrences.

use specfilter::design::{SosSection, DesignedFilter, cascade_valid, filtord, match_gain};
use specfilter::engine::{run_channel, resize_state};
use specfilter::tube::TubeStage;
use specfilter::kernel::exp_64;

fn sec(b: [f64; 3], a: [f64; 3]) -> SosSection {
    SosSection {
        b0: b[0].to_bits(),
        b1: b[1].to_bits(),
        b2: b[2].to_bits(),
        a0: a[0].to_bits(),
        a1: a[1].to_bits(),
        a2: a[2].to_bits(),
    }
}

/// The engine's per-section recurrence, in hardware doubles.
fn reference_sos(sections: &[([f64; 3], [f64; 3])], xs: &[f64]) -> Vec<f64> {
    let mut ys: Vec<f64> = xs.to_vec();
    for (b, a) in sections {
        let bt: Vec<f64> = {
            let mut v: Vec<f64> = b.to_vec();
            while !v.is_empty() && v[0] == 0.0 {
                v.remove(0);
            }
            v
        };
        let at: Vec<f64> = {
            let mut v: Vec<f64> = a.to_vec();
            while !v.is_empty() && v[0] == 0.0 {
                v.remove(0);
            }
            v
        };
        let a0 = at.first().copied().unwrap_or(0.0);
        let b0 = bt.first().copied().unwrap_or(0.0);
        let mut w = [0.0f64; 2];
        for y in ys.iter_mut() {
            let mut w0 = *y;
            for (k, &ak) in at.iter().skip(1).enumerate() {
                w0 -= w[k] * (ak / a0);
            }
            let mut acc = w0 * b0;
            for (k, &bk) in bt.iter().skip(1).enumerate() {
                acc += w[k] * bk;
            }
            w = [w0, w[0]];
            *y = acc;
        }
    }
    ys
}

fn run(f: &DesignedFilter, xs: &[f64]) -> (Vec<f64>, bool, usize) {
    let mut state: Vec<u64> = Vec::new();
    let mut buf: Vec<u64> = xs.iter().map(|x| x.to_bits()).collect();
    let fault = run_channel(f, &mut state, &mut buf);
    (buf.iter().map(|&b| f64::from_bits(b)).collect(), fault, state.len())
}

#[test]
fn identity_cascade_passes_through() {
    let f = DesignedFilter::identity();
    let xs = [0.25, -0.5, 1.0, 3.25, -2.0];
    let (ys, fault, state_len) = run(&f, &xs);
    assert!(!fault);
    assert_eq!(state_len, 0);
    assert_eq!(ys, xs.to_vec());
}

#[test]
fn mute_cascade_silences() {
    let f = DesignedFilter::nopass();
    let xs = [0.25, -0.5, 1.0];
    let (ys, fault, state_len) = run(&f, &xs);
    assert!(!fault);
    assert_eq!(state_len, 2);
    for y in ys {
        assert_eq!(y.abs(), 0.0);
    }
}

#[test]
fn biquad_matches_reference_bitwise() {
    let coeffs = ([0.2, 0.4, 0.2], [1.0, -0.5, 0.25]);
    let f = DesignedFilter { sections: vec![sec(coeffs.0, coeffs.1)] };
    let xs: Vec<f64> = (0..64).map(|i| ((i * 37 % 17) as f64 - 8.0) * 0.125).collect();
    let (ys, fault, state_len) = run(&f, &xs);
    assert!(!fault);
    assert_eq!(state_len, 2);
    let want = reference_sos(&[coeffs], &xs);
    for (y, w) in ys.iter().zip(want.iter()) {
        assert_eq!(y.to_bits(), w.to_bits(), "engine must match the recurrence exactly");
    }
}

#[test]
fn cascade_matches_reference_bitwise() {
    let c1 = ([0.2, 0.4, 0.2], [1.0, -0.5, 0.25]);
    let c2 = ([0.5, 0.0, -0.5], [1.0, 0.1, 0.3]);
    let c3 = ([0.0, 1.0, 0.0], [1.0, 0.0, 0.0]);  // leading-zero numerator
    let f = DesignedFilter { sections: vec![sec(c1.0, c1.1), sec(c2.0, c2.1), sec(c3.0, c3.1)] };
    let xs: Vec<f64> = (0..48).map(|i| (i as f64 * 0.7).sin()).collect();
    let (ys, fault, state_len) = run(&f, &xs);
    assert!(!fault);
    assert_eq!(state_len, 6);
    let want = reference_sos(&[c1, c2, c3], &xs);
    for (y, w) in ys.iter().zip(want.iter()) {
        assert_eq!(y.to_bits(), w.to_bits());
    }
}

#[test]
fn non_finite_output_faults_and_mutes() {
    // an infinite coefficient drives the output to NaN on a zero input
    let f = DesignedFilter { sections: vec![sec([f64::INFINITY, 0.0, 0.0], [1.0, 0.0, 0.0])] };
    let xs = [0.0, 1.0, 2.0];
    let (ys, fault, state_len) = run(&f, &xs);
    assert!(fault);
    assert_eq!(state_len, 0, "the delay line is discarded");
    for y in ys {
        assert_eq!(y, 0.0, "the block is muted");
    }
}

#[test]
fn validity_check_rejects_bad_sections() {
    let good = DesignedFilter { sections: vec![sec([0.2, 0.4, 0.2], [1.0, -0.5, 0.25])] };
    assert!(cascade_valid(&good));
    let nan = DesignedFilter { sections: vec![sec([f64::NAN, 0.0, 0.0], [1.0, 0.0, 0.0])] };
    assert!(!cascade_valid(&nan));
    let inf = DesignedFilter { sections: vec![sec([1.0, 0.0, 0.0], [f64::INFINITY, 0.0, 1.0])] };
    assert!(!cascade_valid(&inf));
    let zero_den = DesignedFilter { sections: vec![sec([1.0, 0.0, 0.0], [0.0, 0.0, 0.0])] };
    assert!(!cascade_valid(&zero_den));
    assert!(cascade_valid(&DesignedFilter::identity()));
    assert!(cascade_valid(&DesignedFilter::nopass()));
    let too_long = DesignedFilter {
        sections: (0..33).map(|_| sec([1.0, 0.0, 0.0], [1.0, 0.0, 0.0])).collect(),
    };
    assert!(!cascade_valid(&too_long), "the section cap bounds the order");
}

#[test]
fn filtord_counts_poles() {
    assert_eq!(filtord(&DesignedFilter::identity()), 0);
    let one = DesignedFilter { sections: vec![sec([0.2, 0.4, 0.2], [1.0, -0.5, 0.25])] };
    assert_eq!(filtord(&one), 2);
    let two = DesignedFilter {
        sections: vec![
            sec([0.2, 0.4, 0.2], [1.0, -0.5, 0.25]),
            sec([0.5, 0.0, -0.5], [1.0, 0.1, 0.3]),
        ],
    };
    assert_eq!(filtord(&two), 4);
    let first_order = DesignedFilter { sections: vec![sec([0.0, 0.5, 0.5], [0.0, 1.0, -0.5])] };
    assert_eq!(filtord(&first_order), 1);
}

#[test]
fn match_gain_is_energy_ratio_root() {
    let a = DesignedFilter { sections: vec![sec([2.0, 0.0, 0.0], [1.0, 0.0, 0.0])] };
    let b = DesignedFilter { sections: vec![sec([1.0, 0.0, 0.0], [1.0, 0.0, 0.0])] };
    // energies: 4 and 1, ratio 4, root 2
    let g = f64::from_bits(match_gain(&a, &b));
    assert!((g - 2.0).abs() < 1e-12, "{g}");
    let same = f64::from_bits(match_gain(&b, &b));
    assert!((same - 1.0).abs() < 1e-12, "{same}");
}

#[test]
fn resize_state_truncates_and_pads() {
    let mut v: Vec<u64> = vec![1, 2, 3, 4];
    resize_state(&mut v, 2);
    assert_eq!(v, vec![1, 2]);
    resize_state(&mut v, 5);
    assert_eq!(v, vec![1, 2, 0, 0, 0]);
}

/// The tube's per-sample chain, in hardware doubles with the kernel's
/// own exponential.
fn reference_tube(w: &mut [f64; 9], rate: f64, x: f64) -> f64 {
    let kexp = |v: f64| f64::from_bits(exp_64(v.to_bits()));
    let soft_clip = |x: f64, lo: f64, hi: f64| {
        let c = x.max(lo).min(hi);
        c - 1.0 / kexp(hi - c) + 1.0 / kexp(c - lo)
    };
    let shaped = |x: f64| {
        let x = 0.04 * x;
        let e = kexp(x * 2.0);
        (0.99 * (e - 1.0) / (1.0 + e) + (1.0 - 0.99) * x) / 0.04
    };
    let omegas = [22.0, 47.0, 100.0, 220.0, 470.0, 1000.0, 2200.0, 4700.0, 10000.0]
        .map(|f: f64| std::f64::consts::TAU * f);
    let s1 = soft_clip(x, -200.0, 140.0);
    let mut cur = soft_clip(s1, -20.0, 14.0) * 0.8 + (1.0 - 0.8) * s1;
    for k in 0..9 {
        let omega = omegas[k];
        let two_rate = rate + rate;
        let a0 = omega + two_rate;
        let a1 = omega - two_rate;
        let w0 = cur - (0.0 + w[k] * a1) / a0;
        let z1 = (w0 * omega + w[k] * omega) / a0;
        let z2 = (w0 * two_rate + w[k] * (-two_rate)) / a0;
        w[k] = w0;
        let x1 = z2 * 1.0 - z1 * 1.0;
        let x2 = shaped(x1);
        let s = 1.0 / ((k as f64) + 2.0).sqrt();
        let x3 = soft_clip(x2, -200.0 * s, 140.0 * s) * 0.2 + 0.8 * x2;
        cur = z1 * (1.0 + 1.0 * 1.13) + x3 * 1.13;
    }
    shaped(cur)
}

#[test]
fn tube_matches_reference_bitwise() {
    let rate: f64 = 44100.0;
    let mut tube = TubeStage::new();
    let mut wref = [0.0f64; 9];
    for i in 0..200 {
        let x = ((i as f64) * 0.11).sin() * 2.0;
        let got = f64::from_bits(tube.next(rate.to_bits(), x.to_bits()));
        let want = reference_tube(&mut wref, rate, x);
        assert_eq!(got.to_bits(), want.to_bits(), "sample {i}");
        assert!(got.is_finite());
    }
}

#[test]
fn tube_reset_restores_silence_state() {
    let mut tube = TubeStage::new();
    let rate = 44100.0f64.to_bits();
    for i in 0..16 {
        let _ = tube.next(rate, ((i as f64) * 0.3).to_bits());
    }
    assert!(tube.w.iter().any(|&w| w != 0));
    tube.reset();
    assert!(tube.w.iter().all(|&w| w == 0));
    let fresh = TubeStage::new();
    assert_eq!(tube.w, fresh.w);
}

#[test]
fn tube_is_deterministic() {
    let rate = 48000.0f64.to_bits();
    let mut a = TubeStage::new();
    let mut b = TubeStage::new();
    for i in 0..32 {
        let x = ((i as f64) * 0.21 - 3.0).to_bits();
        assert_eq!(a.next(rate, x), b.next(rate, x));
    }
    assert_eq!(a.w, b.w);
}
