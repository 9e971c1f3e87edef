//! The band mapper: classification, saturation flags, edge ordering and
//! the degenerate cases.

use specfilter::params::SpecfilterParamData;
use specfilter::kinds::{FilterType, classify};
use specfilter::design::DesignBands;

fn snap(f1: f32, f2: f32, bw1: f32, bw2: f32) -> SpecfilterParamData {
    SpecfilterParamData {
        filter_kind: specfilter::kinds::FilterKind::Butterworth,
        passband_ripple: 3.0f32.to_bits(),
        stopband_attenuation: 40.0f32.to_bits(),
        frequency1: f1.to_bits(),
        frequency2: f2.to_bits(),
        bandwidth1: bw1.to_bits(),
        bandwidth2: bw2.to_bits(),
    }
}

#[test]
fn classification_table_is_total() {
    for stop in [false, true] {
        assert_eq!(classify(stop, true, true), if stop {
            FilterType::NoPass
        } else {
            FilterType::AllPass
        });
        assert_eq!(classify(stop, true, false), if stop {
            FilterType::HighPass
        } else {
            FilterType::LowPass
        });
        assert_eq!(classify(stop, false, true), if stop {
            FilterType::LowPass
        } else {
            FilterType::HighPass
        });
        assert_eq!(classify(stop, false, false), if stop {
            FilterType::BandStop
        } else {
            FilterType::BandPass
        });
    }
}

#[test]
fn ordinary_band_is_band_pass() {
    let d = snap(100.0, 4000.0, 0.5, 0.5);
    let rate = 44100.0f32.to_bits();
    let b = d.frequency_data(rate);
    assert!(!b.stop && !b.nolb && !b.noub);
    assert_eq!(d.filter_type(rate), FilterType::BandPass);
    let edges: Vec<f32> = [b.edge0, b.edge1, b.edge2, b.edge3]
        .iter()
        .map(|&e| f32::from_bits(e))
        .collect();
    for w in edges.windows(2) {
        assert!(w[0] <= w[1], "{edges:?}");
    }
}

#[test]
fn swapped_corners_classify_as_band_stop() {
    let d = snap(4000.0, 100.0, 0.5, 0.5);
    let rate = 44100.0f32.to_bits();
    let b = d.frequency_data(rate);
    assert!(b.stop && !b.nolb && !b.noub);
    assert_eq!(d.filter_type(rate), FilterType::BandStop);
}

#[test]
fn corner_at_floor_saturates_low() {
    let d = snap(1.0, 4000.0, 0.5, 0.5);
    let rate = 44100.0f32.to_bits();
    let b = d.frequency_data(rate);
    assert!(b.nolb && !b.noub && !b.stop);
    assert_eq!(d.filter_type(rate), FilterType::LowPass);
}

#[test]
fn corner_at_ceiling_saturates_high() {
    // the lower corner's transition extends inward, so only the upper
    // end saturates
    let d = snap(100.0, 22050.0, -0.5, 0.5);
    let rate = 44100.0f32.to_bits();
    let b = d.frequency_data(rate);
    assert!(!b.nolb && b.noub && !b.stop);
    assert_eq!(d.filter_type(rate), FilterType::HighPass);
}

#[test]
fn equal_corners_collapse_to_no_pass() {
    // identical corners force the stop orientation and both ends
    // saturate through the degeneracy loop
    let d = snap(1000.0, 1000.0, 0.5, 0.5);
    let rate = 44100.0f32.to_bits();
    let b = d.frequency_data(rate);
    assert!(b.stop && b.nolb && b.noub);
    assert_eq!(d.filter_type(rate), FilterType::NoPass);
    assert!(matches!(d.frequencies(rate), DesignBands::Degenerate { pass: false }));
}

#[test]
fn full_range_collapses_to_all_pass() {
    let d = snap(1.0, 30000.0, 0.5, 0.5);
    let rate = 80000.0f32.to_bits();
    let b = d.frequency_data(rate);
    assert!(!b.stop && b.nolb && b.noub);
    assert_eq!(d.filter_type(rate), FilterType::AllPass);
    assert!(matches!(d.frequencies(rate), DesignBands::Degenerate { pass: true }));
}

#[test]
fn narrow_transition_flips_one_flag_only() {
    let d = snap(1000.0, 1000.00001, -0.0001, 0.0001);
    let rate = 44100.0f32.to_bits();
    let b = d.frequency_data(rate);
    assert!(b.nolb && !b.noub);
}

#[test]
fn extreme_low_corner_yields_finite_band_design() {
    // rate 44100, corners 1.18 Hz and 4242.703 Hz: both transition
    // pairs stay wide, so the band is an ordinary band-pass and every
    // edge is finite
    let d = snap(1.18, 4242.703, 0.5, 0.5);
    let rate = 44100.0f32.to_bits();
    let b = d.frequency_data(rate);
    assert!(!b.stop && !b.nolb && !b.noub);
    assert_eq!(d.filter_type(rate), FilterType::BandPass);
    for e in [b.edge0, b.edge1, b.edge2, b.edge3] {
        assert!(f32::from_bits(e).is_finite());
    }
    match d.frequencies(rate) {
        DesignBands::Band { pass, stop } => {
            let p0 = f64::from_bits(pass.0);
            let p1 = f64::from_bits(pass.1);
            let s0 = f64::from_bits(stop.0);
            let s1 = f64::from_bits(stop.1);
            assert!(p0 <= p1 && s0 <= s1);
            assert!((p0 - 1.18).abs() < 1e-3, "{p0}");
            assert!((p1 - 4242.703).abs() < 0.5, "{p1}");
            assert!(s0 < p0 && s1 > p1, "stop band {s0} {s1} straddles the passband");
        },
        _ => panic!("expected a band design"),
    }
}

#[test]
fn single_corner_design_selects_the_right_pair() {
    let d = snap(1.0, 4000.0, 0.5, 0.5);
    let rate = 44100.0f32.to_bits();
    match d.frequencies(rate) {
        DesignBands::Corner { pass, stop } => {
            let p = f64::from_bits(pass);
            let s = f64::from_bits(stop);
            assert!(p < s, "low-pass: pass {p} below stop {s}");
        },
        _ => panic!("expected a single-corner design"),
    }
}

#[test]
fn bandwidths_report_transition_widths() {
    let s: specfilter::params::SpecfilterParameters = Default::default();
    let widths = s.bandwidths();
    let b = s.frequency_data();
    let w0 = f32::from_bits(widths[0]);
    let w1 = f32::from_bits(widths[1]);
    let e = [b.edge0, b.edge1, b.edge2, b.edge3].map(f32::from_bits);
    if b.stop {
        assert_eq!(w0, e[3] - e[2]);
        assert_eq!(w1, e[1] - e[0]);
    } else {
        assert_eq!(w0, e[1] - e[0]);
        assert_eq!(w1, e[3] - e[2]);
    }
}
