//! The per-block pipeline: smoothing, design hand-off, fault recovery
//! and whole-channel processing.

use specfilter::pipeline::{SpecfilterCore, DesignStep, DesignOutcome};
use specfilter::design::{SosSection, DesignedFilter, DesignBands};
use specfilter::kinds::FilterType;

fn sec(b: [f64; 3], a: [f64; 3]) -> SosSection {
    SosSection {
        b0: b[0].to_bits(),
        b1: b[1].to_bits(),
        b2: b[2].to_bits(),
        a0: a[0].to_bits(),
        a1: a[1].to_bits(),
        a2: a[2].to_bits(),
    }
}

fn plain_sections(n: usize) -> DesignedFilter {
    DesignedFilter { sections: (0..n).map(|_| sec([0.2, 0.4, 0.2], [1.0, -0.5, 0.25])).collect() }
}

#[test]
fn test() {
    // an extreme low corner near the domain floor must still yield a
    // finite, acceptable design request
    let mut plugin = SpecfilterCore::new();
    plugin.param.frequency1 = 1.18f32.to_bits();
    plugin.param.frequency2 = 4242.703f32.to_bits();
    let step = plugin.begin_block(usize::MAX);
    match step {
        DesignStep::Request(req) => {
            match req.bands {
                DesignBands::Band { pass, stop } => {
                    assert!(f64::from_bits(pass.0).is_finite());
                    assert!(f64::from_bits(pass.1).is_finite());
                    assert!(f64::from_bits(stop.0).is_finite());
                    assert!(f64::from_bits(stop.1).is_finite());
                },
                _ => panic!("expected a band design"),
            }
            assert_eq!(f64::from_bits(req.ripple), 3.0);
            assert_eq!(f64::from_bits(req.attenuation), 40.0);
            assert_eq!(f64::from_bits(req.rate), 44100.0);
        },
        _ => panic!("expected a design request"),
    }
    println!("Ok!")
}

#[test]
fn identical_snapshot_skips_design_work() {
    let mut core = SpecfilterCore::new();
    // first block establishes the held snapshot and requests a design
    let step = core.begin_block(512);
    assert!(matches!(step, DesignStep::Request(_)));
    let held = core.param_prev;
    let filter_len = core.filter.sections.len();
    core.finish_design(DesignOutcome::ZeroOrder);
    // the controls have not moved: the next block does nothing
    let step2 = core.begin_block(512);
    assert!(matches!(step2, DesignStep::NoChange));
    assert_eq!(core.param_prev, held);
    let step3 = core.begin_block(4096);
    assert!(matches!(step3, DesignStep::NoChange), "block length does not matter");
    assert_eq!(core.filter.sections.len(), filter_len);
}

#[test]
fn changed_control_triggers_new_design() {
    let mut core = SpecfilterCore::new();
    let _ = core.begin_block(512);
    core.finish_design(DesignOutcome::ZeroOrder);
    core.param.set_parameter(4, 0.8f32.to_bits());
    let step = core.begin_block(512);
    assert!(matches!(step, DesignStep::Request(_)));
}

#[test]
fn family_switch_discards_delay_lines() {
    let mut core = SpecfilterCore::new();
    let _ = core.begin_block(512);
    core.finish_design(DesignOutcome::ZeroOrder);
    core.state0 = vec![1, 2, 3];
    core.state1 = vec![4];
    core.param.set_parameter(0, 1.0f32.to_bits());  // Elliptic
    let _ = core.begin_block(512);
    assert!(core.state0.is_empty() && core.state1.is_empty());
}

#[test]
fn rejected_design_rolls_controls_back() {
    let mut core = SpecfilterCore::new();
    let _ = core.begin_block(512);
    core.finish_design(DesignOutcome::ZeroOrder);
    let good_ripple = core.param.passband_ripple;
    let held = core.param_prev;
    core.param.set_parameter(2, 0.9f32.to_bits());
    let step = core.begin_block(512);
    assert!(matches!(step, DesignStep::Request(_)));
    let accepted = core.finish_design(DesignOutcome::Rejected);
    assert!(!accepted);
    assert_eq!(core.param.passband_ripple, good_ripple, "the store reverts");
    assert_eq!(core.param_prev, held, "the held snapshot reverts");
}

#[test]
fn invalid_cascade_is_rejected_wholesale() {
    let mut core = SpecfilterCore::new();
    let _ = core.begin_block(512);
    let bad = DesignedFilter {
        sections: vec![sec([f64::NAN, 0.0, 0.0], [1.0, 0.0, 0.0])],
    };
    let before = core.filter.sections.len();
    let accepted = core.finish_design(DesignOutcome::Cascade(bad));
    assert!(!accepted);
    assert_eq!(core.filter.sections.len(), before, "the previous filter is kept");
}

#[test]
fn equal_order_swap_keeps_scaled_state() {
    let mut core = SpecfilterCore::new();
    let _ = core.begin_block(512);
    core.finish_design(DesignOutcome::Cascade(plain_sections(2)));
    core.state0 = vec![1.0f64.to_bits(), 2.0f64.to_bits(), 3.0f64.to_bits(), 4.0f64.to_bits()];
    core.state1 = core.state0.clone();
    // a gain-doubled cascade of the same order
    let louder = DesignedFilter {
        sections: vec![
            sec([0.4, 0.8, 0.4], [1.0, -0.5, 0.25]),
            sec([0.2, 0.4, 0.2], [1.0, -0.5, 0.25]),
        ],
    };
    core.param.set_parameter(2, 0.4f32.to_bits());
    let _ = core.begin_block(512);
    let accepted = core.finish_design(DesignOutcome::Cascade(louder));
    assert!(accepted);
    assert_eq!(core.state0.len(), 4, "state is retained on an equal-order swap");
    let w0 = f64::from_bits(core.state0[0]);
    assert!((w0 - 2.0).abs() < 1e-12, "state is scaled by the gain factor, got {w0}");
}

#[test]
fn order_change_discards_state() {
    let mut core = SpecfilterCore::new();
    let _ = core.begin_block(512);
    core.finish_design(DesignOutcome::Cascade(plain_sections(2)));
    core.state0 = vec![1; 4];
    core.state1 = vec![1; 4];
    core.param.set_parameter(2, 0.4f32.to_bits());
    let _ = core.begin_block(512);
    let accepted = core.finish_design(DesignOutcome::Cascade(plain_sections(3)));
    assert!(accepted);
    assert!(core.state0.is_empty() && core.state1.is_empty());
}

#[test]
fn degenerate_all_pass_processes_dry_signal() {
    let mut core = SpecfilterCore::new();
    core.param.frequency1 = 1.0f32.to_bits();
    core.param.frequency2 = 30000.0f32.to_bits();
    core.set_sample_rate(80000.0f32.to_bits());
    let step = core.begin_block(8);
    match step {
        DesignStep::Degenerate { pass } => {
            assert!(pass);
            assert!(core.apply_degenerate(pass));
        },
        _ => panic!("expected a degenerate step"),
    }
    assert_eq!(core.filter_type, FilterType::AllPass);
    assert!(core.filter.sections.is_empty());
    // with the mix fully dry the output equals the input exactly
    core.param.mix = 0.0f32.to_bits();
    let xs: Vec<f64> = vec![0.5, -0.25, 0.125, -1.5];
    let mut buf: Vec<u64> = xs.iter().map(|x| x.to_bits()).collect();
    let fault = core.process_channel(0, &mut buf);
    assert!(!fault);
    let ys: Vec<f64> = buf.iter().map(|&b| f64::from_bits(b)).collect();
    assert_eq!(ys, xs);
}

#[test]
fn degenerate_no_pass_mutes_wet_signal() {
    let mut core = SpecfilterCore::new();
    core.param.frequency1 = 1000.0f32.to_bits();
    core.param.frequency2 = 1000.0f32.to_bits();
    let step = core.begin_block(8);
    match step {
        DesignStep::Degenerate { pass } => {
            assert!(!pass);
            assert!(core.apply_degenerate(pass));
        },
        _ => panic!("expected a degenerate step"),
    }
    assert_eq!(core.filter_type, FilterType::NoPass);
    core.param.mix = 1.0f32.to_bits();
    let xs: Vec<f64> = vec![0.5, -0.25, 0.125, -1.5];
    let mut buf: Vec<u64> = xs.iter().map(|x| x.to_bits()).collect();
    let fault = core.process_channel(0, &mut buf);
    assert!(!fault);
    for &b in &buf {
        let y = f64::from_bits(b);
        assert!(y.abs() < 1e-4, "muted output, got {y}");
    }
}

#[test]
fn engine_fault_zeroes_block_and_forgets_snapshot() {
    let mut core = SpecfilterCore::new();
    let _ = core.begin_block(4);
    core.finish_design(DesignOutcome::ZeroOrder);
    // force a NaN out of the linear engine
    core.filter = DesignedFilter {
        sections: vec![sec([f64::INFINITY, 0.0, 0.0], [1.0, 0.0, 0.0])],
    };
    core.param.mix = 1.0f32.to_bits();
    let mut buf: Vec<u64> = vec![0.0f64.to_bits(), 1.0f64.to_bits()];
    let fault = core.process_channel(0, &mut buf);
    assert!(fault);
    assert!(core.param_prev.is_none(), "the held snapshot is forgotten");
    assert!(core.state0.is_empty(), "the channel's delay line is reset");
    for &b in &buf {
        assert!(f64::from_bits(b).is_finite(), "no NaN leaves the block");
    }
}

#[test]
fn channels_are_independent() {
    let mut core = SpecfilterCore::new();
    let _ = core.begin_block(4);
    core.finish_design(DesignOutcome::Cascade(plain_sections(1)));
    let xs: Vec<u64> = (0..8).map(|i| ((i as f64) * 0.25).to_bits()).collect();
    let mut left = xs.clone();
    let mut right = xs.clone();
    let f0 = core.process_channel(0, &mut left);
    let f1 = core.process_channel(1, &mut right);
    assert!(!f0 && !f1);
    assert_eq!(left, right, "equal inputs through equal fresh channels agree");
    assert_eq!(core.state0, core.state1);
}

#[test]
fn smoothing_converges_and_respects_order() {
    // a step change in the ripple control: the held value approaches
    // the target, faster for a lower-order filter than a higher-order
    // one at the same block size
    // accept a same-order cascade each block so the smoother keeps
    // tracking the step
    let track = |order_sections: usize, blocks: usize| -> f32 {
        let mut core = SpecfilterCore::new();
        let _ = core.begin_block(512);
        core.finish_design(DesignOutcome::Cascade(plain_sections(order_sections)));
        let _ = core.begin_block(512);
        core.param.set_parameter(2, 1.0f32.to_bits());
        for _ in 0..blocks {
            let _ = core.begin_block(512);
            let cascade = plain_sections(order_sections);
            assert!(core.finish_design(DesignOutcome::Cascade(cascade)));
        }
        f32::from_bits(core.param_prev.unwrap().passband_ripple)
    };
    let lo_1 = track(1, 1);
    let lo_20 = track(1, 20);
    let hi_1 = track(16, 1);
    let hi_20 = track(16, 20);
    let target = 100.0f32;
    assert!((target - lo_20).abs() < (target - lo_1).abs(), "convergence is monotone");
    assert!((target - hi_20).abs() < (target - hi_1).abs());
    assert!(
        (target - hi_1).abs() >= (target - lo_1).abs(),
        "a higher-order filter never converges faster: {hi_1} vs {lo_1}"
    );
    assert!((target - lo_20).abs() < 1.0, "low order is nearly settled after 20 blocks: {lo_20}");
}

#[test]
fn set_sample_rate_reaches_the_store() {
    let mut core = SpecfilterCore::new();
    core.set_sample_rate(48000.0f32.to_bits());
    let _ = core.begin_block(16);
    assert_eq!(f32::from_bits(core.param.rate), 48000.0);
}
