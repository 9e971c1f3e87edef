//! The control store: knob mappings, snapshots, smoothing and the
//! preset byte layout.

use specfilter::params::{SpecfilterParameters, SpecfilterParamData, SpecfilterParam};
use specfilter::kinds::FilterKind;

fn default_store() -> SpecfilterParameters {
    Default::default()
}

#[test]
fn default_store_values() {
    let s = default_store();
    assert_eq!(s.filter_kind, 0);
    assert_eq!(f32::from_bits(s.passband_ripple), 3.0);
    assert_eq!(f32::from_bits(s.stopband_attenuation), 40.0);
    assert_eq!(f32::from_bits(s.mix), 1.0);
    assert_eq!(f32::from_bits(s.rate), 44100.0);
    assert_eq!(f32::from_bits(s.bandwidth1), 0.5);
    // corners at 0.3 and 0.7 of the log range from 1 Hz to 22.05 kHz
    let f1 = f32::from_bits(s.frequency1);
    let f2 = f32::from_bits(s.frequency2);
    let want1 = (0.3f32 * 22050.0f32.log2()).exp2();
    let want2 = (0.7f32 * 22050.0f32.log2()).exp2();
    assert!((f1 / want1 - 1.0).abs() < 1e-4, "{f1} vs {want1}");
    assert!((f2 / want2 - 1.0).abs() < 1e-4, "{f2} vs {want2}");
}

#[test]
fn ripple_knob_is_exact_linear_map() {
    let mut s = default_store();
    for v in [0.0f32, 0.25, 0.5, 0.75, 1.0] {
        s.set_parameter(2, v.to_bits());
        let want = v * 99.0 + 1.0;
        assert_eq!(f32::from_bits(s.passband_ripple), want, "{v}");
        let back = f32::from_bits(s.get_parameter(2));
        let want_back = ((want - 1.0) / 99.0).min(1.0).max(0.0);
        assert_eq!(back, want_back, "{v}");
    }
    s.set_parameter(3, 0.5f32.to_bits());
    assert_eq!(f32::from_bits(s.stopband_attenuation), 50.5);
}

#[test]
fn kind_knob_rounds_and_saturates() {
    let mut s = default_store();
    let cases: [(f32, u8); 8] = [
        (0.0, 0),
        (0.1, 0),
        (0.2, 1),
        (0.5, 2),
        (0.84, 3),
        (1.0, 3),
        (2.0, 3),
        (-1.0, 0),
    ];
    for (v, want) in cases {
        s.set_parameter(0, v.to_bits());
        assert_eq!(s.filter_kind, want, "{v}");
    }
    s.set_parameter(0, f32::NAN.to_bits());
    assert_eq!(s.filter_kind, 0);
    s.set_parameter(0, 1.0f32.to_bits());
    assert!(matches!(s.filter_kind(), FilterKind::Elliptic));
}

#[test]
fn frequency_knob_round_trips() {
    let mut s = default_store();
    for v in [0.0f32, 0.1, 0.5, 0.9, 1.0] {
        s.set_parameter(4, v.to_bits());
        let f = f32::from_bits(s.frequency1);
        assert!((1.0..=22050.0).contains(&f), "{v} -> {f}");
        let back = f32::from_bits(s.get_parameter(4));
        assert!((back - v).abs() < 1e-4, "{v} -> {f} -> {back}");
    }
    // the knob mapping is logarithmic between the bounds
    s.set_parameter(4, 0.5f32.to_bits());
    let mid = f32::from_bits(s.frequency1);
    let want = (0.5f32 * 1.000001 * 22050.0f32.log2()).exp2();
    assert!((mid / want - 1.0).abs() < 1e-4, "{mid} vs {want}");
}

#[test]
fn bandwidth_and_mix_knobs() {
    let mut s = default_store();
    s.set_parameter(6, 0.75f32.to_bits());
    assert_eq!(f32::from_bits(s.bandwidth1), 0.5);
    s.set_parameter(7, 0.0f32.to_bits());
    assert_eq!(f32::from_bits(s.bandwidth2), -1.0);
    s.set_parameter(1, 0.25f32.to_bits());
    assert_eq!(f32::from_bits(s.mix), 0.25);
    assert_eq!(f32::from_bits(s.get_parameter(1)), 0.25);
}

#[test]
fn get_parameter_clamps_into_unit_range() {
    let mut s = default_store();
    s.passband_ripple = 1000.0f32.to_bits();
    assert_eq!(f32::from_bits(s.get_parameter(2)), 1.0);
    s.passband_ripple = (-50.0f32).to_bits();
    assert_eq!(f32::from_bits(s.get_parameter(2)), 0.0);
}

#[test]
fn snapshot_and_reset_round_trip() {
    let mut s = default_store();
    s.set_parameter(2, 0.7f32.to_bits());
    let snap = s.snapshot();
    let before = (s.passband_ripple, s.frequency1, s.mix);
    s.set_parameter(2, 0.1f32.to_bits());
    s.set_parameter(4, 0.9f32.to_bits());
    s.reset_to(snap);
    assert_eq!(s.passband_ripple, before.0);
    assert_eq!(s.frequency1, before.1);
    assert_eq!(s.mix, before.2);
}

#[test]
fn change_blends_every_scalar() {
    let mut held = SpecfilterParamData {
        filter_kind: FilterKind::Butterworth,
        passband_ripple: 1.0f32.to_bits(),
        stopband_attenuation: 40.0f32.to_bits(),
        frequency1: 100.0f32.to_bits(),
        frequency2: 1000.0f32.to_bits(),
        bandwidth1: 0.0f32.to_bits(),
        bandwidth2: 0.0f32.to_bits(),
    };
    let target = SpecfilterParamData {
        filter_kind: FilterKind::Elliptic,
        passband_ripple: 3.0f32.to_bits(),
        stopband_attenuation: 60.0f32.to_bits(),
        frequency1: 200.0f32.to_bits(),
        frequency2: 2000.0f32.to_bits(),
        bandwidth1: 1.0f32.to_bits(),
        bandwidth2: (-1.0f32).to_bits(),
    };
    held.change(target, 0.25f32.to_bits());
    assert!(matches!(held.filter_kind, FilterKind::Elliptic));
    let blend = |n: f32, o: f32| n * 0.25 + o * (1.0 - 0.25);
    assert_eq!(f32::from_bits(held.passband_ripple), blend(3.0, 1.0));
    assert_eq!(f32::from_bits(held.stopband_attenuation), blend(60.0, 40.0));
    assert_eq!(f32::from_bits(held.frequency1), blend(200.0, 100.0));
    assert_eq!(f32::from_bits(held.frequency2), blend(2000.0, 1000.0));
    assert_eq!(f32::from_bits(held.bandwidth1), blend(1.0, 0.0));
    assert_eq!(f32::from_bits(held.bandwidth2), blend(-1.0, 0.0));
}

#[test]
fn preset_image_is_32_bytes_in_order() {
    let s = default_store();
    let img = s.get_preset_data();
    assert_eq!(img.len(), 32);
    for k in 0..8i32 {
        let w = u32::from_le_bytes([
            img[(4 * k) as usize],
            img[(4 * k + 1) as usize],
            img[(4 * k + 2) as usize],
            img[(4 * k + 3) as usize],
        ]);
        assert_eq!(w, s.get_parameter(k), "param {k}");
    }
    assert_eq!(img, s.get_bank_data());
}

#[test]
fn preset_image_reloads_to_same_knob_values() {
    let mut s = default_store();
    s.set_parameter(0, 0.67f32.to_bits());
    s.set_parameter(1, 0.5f32.to_bits());
    s.set_parameter(2, 0.25f32.to_bits());
    s.set_parameter(4, 0.6f32.to_bits());
    s.set_parameter(6, 0.9f32.to_bits());
    let img = s.get_preset_data();
    let knobs: Vec<f32> = (0..8).map(|k| f32::from_bits(s.get_parameter(k))).collect();
    let mut t = default_store();
    t.load_preset_data(&img);
    for k in 0..8i32 {
        let got = f32::from_bits(t.get_parameter(k));
        assert!((got - knobs[k as usize]).abs() < 1e-4, "param {k}: {got} vs {}", knobs[k as usize]);
    }
    let mut u = default_store();
    u.load_bank_data(&img);
    assert_eq!(u.get_parameter(2), t.get_parameter(2));
}

#[test]
fn short_preset_image_loads_prefix_only() {
    let mut s = default_store();
    let before_freq = s.frequency1;
    let mut img = s.get_preset_data();
    img.truncate(9);  // two full words and one spare byte
    let mut t = default_store();
    t.set_parameter(0, 1.0f32.to_bits());
    t.set_parameter(1, 0.1f32.to_bits());
    t.frequency1 = 123.0f32.to_bits();
    t.load_preset_data(&img);
    assert_eq!(t.filter_kind, s.filter_kind);
    assert_eq!(t.mix, s.mix);
    assert_eq!(t.frequency1, 123.0f32.to_bits());
    let _ = before_freq;
}

#[test]
fn names_and_automation_range() {
    let s = default_store();
    assert_eq!(s.get_parameter_name(0), "Filter type");
    assert_eq!(s.get_parameter_name(2), "Passband ripple");
    assert_eq!(s.get_parameter_name(7), "Bandwidth 2");
    assert!(s.can_be_automated(7));
    assert!(!s.can_be_automated(8));
    assert_eq!(SpecfilterParam::Frequency1.index(), 4);
}
