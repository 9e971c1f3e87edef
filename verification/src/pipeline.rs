//! The per-block pipeline: the smoother that eases the held snapshot
//! toward the live controls, the designer hand-off, the install step
//! that validates a design and decides the fate of retained state, and
//! the per-channel processing with its fault recovery.
//!
//! The designer itself (order estimation and pole placement) cannot run
//! here; `begin_block` says exactly what to ask it, and `finish_design`
//! judges whatever came back.  A rejected design rolls the controls back
//! to the last good snapshot; a non-finite engine output resets the
//! channel, zeroes the block and forgets the held snapshot so the next
//! block rebuilds cleanly.

use vstd::prelude::*;
use crate::arith::{
    f32_sub_bits, f32_mul_bits, f32_div_bits,
    f64_add_bits, f64_sub_bits, f64_mul_bits,
    f32_sub, f32_mul, f32_div,
    f64_add, f64_sub, f64_mul,
};
use crate::fbits::{
    f64_is_nan, f64_min_spec, f64_max_spec, f64_min, f64_max, f64_nan_test,
    F32_ONE, F64_ZERO, F64_ONE,
};
use crate::kernel::{spec_exp_32, exp_32};
use crate::convert::{
    spec_u64_to_f32, spec_i32_to_f32, spec_widen_f32_f64,
    u64_to_f32, i32_to_f32, widen_f32_f64,
};
use crate::params::{SpecfilterParameters, SpecfilterParamData, spec_snapshot};
use crate::band::spec_frequency_data;
use crate::design::{
    DesignedFilter, DesignBands, DesignRequest, MAX_SECTIONS,
    spec_cascade_valid, spec_match_gain, spec_filtord, spec_keep_state, f64_total_key,
    cascade_valid, match_gain, filtord, keep_state, design_bands, sort2,
};
use crate::engine::{spec_cascade_block, spec_resized, run_channel, scale_state};
use crate::kinds::{FilterType, spec_classify};
use crate::tube::{TubeStage, spec_tube_next, TUBE_STAGES};

verus! {

/// The final output clamp bounds.
pub const NEG_10: u64 = 0xC024_0000_0000_0000;
pub const POS_10: u64 = 0x4024_0000_0000_0000;

/// The smoothing time constant.
pub const CHANGE_NEG: u32 = 0xC4FA_0000;  // -2000

/// What a block must do about the filter design.
pub enum DesignStep {
    /// The live snapshot is bit-identical to the held one: reuse
    /// everything, no design work at all.
    NoChange,
    /// Both band ends are saturated: install the pass-through filter
    /// (`pass`) or the mute filter (`!pass`) without a designer.
    Degenerate { pass: bool },
    /// The designer must be asked for a cascade.
    Request(DesignRequest),
}

/// What the designer answered.
pub enum DesignOutcome {
    /// A synthesized cascade, stabilized and converted to sections.
    Cascade(DesignedFilter),
    /// The estimator reported a degenerate zero-order design: the
    /// identity filter stands in.
    ZeroOrder,
    /// Estimation or synthesis failed: the design is rejected.
    Rejected,
}

/// The smoothing factor for one block:
/// `1 - exp(-2000 * blockLength / (order + 1) / rate)`.
pub open spec fn spec_alpha(buf_len: usize, ord: nat, rate: u32) -> u32 {
    f32_sub_bits(
        F32_ONE,
        spec_exp_32(
            f32_div_bits(
                f32_div_bits(
                    f32_mul_bits(CHANGE_NEG, spec_u64_to_f32(buf_len as u64)),
                    spec_i32_to_f32((ord + 1) as i32),
                ),
                rate,
            ),
        ),
    )
}

/// The snapshot held after the smoothing step of one block.
pub open spec fn spec_next_held(
    prev: Option<SpecfilterParamData>,
    next: SpecfilterParamData,
    buf_len: usize,
    ord: nat,
    rate: u32,
) -> SpecfilterParamData {
    match prev {
        Option::None => next,
        Option::Some(p) => crate::params::spec_change(p, next, spec_alpha(buf_len, ord, rate)),
    }
}

/// The whole effect: the live controls, the held and saved snapshots,
/// the current design, and the per-channel delay lines and tube states.
pub struct SpecfilterCore {
    pub param: SpecfilterParameters,
    pub param_prev: Option<SpecfilterParamData>,
    pub saved_prev: Option<SpecfilterParamData>,
    pub filter_type: FilterType,
    pub filter: DesignedFilter,
    pub state0: Vec<u64>,
    pub state1: Vec<u64>,
    pub tube0: TubeStage,
    pub tube1: TubeStage,
    pub rate: u32,
}

impl SpecfilterCore {
    /// The structural invariant: the cascade is within the section cap
    /// and both tube states are complete.
    pub open spec fn wf(&self) -> bool {
        &&& self.filter.sections@.len() <= MAX_SECTIONS
        &&& self.tube0.wf()
        &&& self.tube1.wf()
    }

    /// A fresh effect: default controls, the pass-through filter, silent
    /// delay lines and tubes, at the default rate.
    pub fn new() -> (r: SpecfilterCore)
        ensures
            r.wf(),
            r.param == crate::params::spec_default_parameters(),
            r.param_prev is None,
            r.saved_prev is None,
            r.filter_type == FilterType::AllPass,
            r.filter.sections@.len() == 0,
            r.state0@.len() == 0,
            r.state1@.len() == 0,
            r.rate == crate::params::DEF_RATE,
    {
        SpecfilterCore {
            param: Default::default(),
            param_prev: Option::None,
            saved_prev: Option::None,
            filter_type: FilterType::AllPass,
            filter: DesignedFilter::identity(),
            state0: Vec::new(),
            state1: Vec::new(),
            tube0: TubeStage::new(),
            tube1: TubeStage::new(),
            rate: crate::params::DEF_RATE,
        }
    }

    /// Adopts a new sample rate (single-precision bits).
    pub fn set_sample_rate(&mut self, rate: u32)
        requires
            old(self).wf(),
        ensures
            final(self).wf(),
            final(self).rate == rate,
            *final(self) == (SpecfilterCore { rate, ..*old(self) }),
    {
        self.rate = rate;
    }

    /// Opens a block: publishes the rate to the control store, takes the
    /// snapshot, saves the rollback point, and — unless the snapshot is
    /// bit-identical to the held one — eases the held snapshot toward it
    /// and selects the design work this block needs.  A change of filter
    /// family discards both delay lines first.
    pub fn begin_block(&mut self, buf_len: usize) -> (step: DesignStep)
        requires
            old(self).wf(),
        ensures
            final(self).wf(),
            final(self).rate == old(self).rate,
            final(self).param == (SpecfilterParameters { rate: old(self).rate, ..old(self).param }),
            final(self).saved_prev == old(self).param_prev,
            final(self).filter == old(self).filter,
            final(self).filter_type == old(self).filter_type,
            final(self).tube0 == old(self).tube0,
            final(self).tube1 == old(self).tube1,
            ({
                let next = spec_snapshot(final(self).param);
                let same = old(self).param_prev == Option::Some(next);
                &&& (step is NoChange <==> same)
                &&& (same ==> final(self).param_prev == old(self).param_prev && final(self).state0 == old(self).state0 && final(self).state1 == old(self).state1)
                &&& (!same ==> {
                    let held = spec_next_held(
                        old(self).param_prev,
                        next,
                        buf_len,
                        spec_filtord(old(self).filter.sections@),
                        old(self).rate,
                    );
                    let cleared = (old(self).param_prev matches Option::Some(p) && p.filter_kind
                        != next.filter_kind);
                    &&& final(self).param_prev == Option::Some(held)
                    &&& (cleared ==> final(self).state0@.len() == 0 && final(self).state1@.len() == 0)
                    &&& (!cleared ==> final(self).state0 == old(self).state0 && final(self).state1 == old(self).state1)
                    &&& ({
                        let b = spec_frequency_data(held, old(self).rate);
                        &&& ((b.nolb && b.noub) <==> step matches DesignStep::Degenerate { .. })
                        &&& (step matches DesignStep::Degenerate { pass } ==> pass == !b.stop)
                        &&& (!(b.nolb && b.noub) ==> (step matches DesignStep::Request(req)
                            && req.kind == held.filter_kind && req.ripple == spec_widen_f32_f64(
                            held.passband_ripple,
                        ) && req.attenuation == spec_widen_f32_f64(held.stopband_attenuation)
                            && req.rate == spec_widen_f32_f64(old(self).rate) && ({
                            let raw = crate::design::spec_design_bands(b);
                            match raw {
                                DesignBands::Band { pass, stop } => req.bands
                                    matches DesignBands::Band { pass: rp, stop: rs } && ((rp
                                    == pass || rp == (pass.1, pass.0)) && f64_total_key(rp.0)
                                    <= f64_total_key(rp.1)) && ((rs == stop || rs == (
                                    stop.1,
                                    stop.0,
                                )) && f64_total_key(rs.0) <= f64_total_key(rs.1)),
                                _ => req.bands == raw,
                            }
                        })))
                    })
                })
            }),
    {
        self.param.rate = self.rate;
        let next: SpecfilterParamData = self.param.snapshot();
        self.saved_prev = self.param_prev;
        match self.param_prev {
            Option::Some(prev) => {
                if prev == next {
                    return DesignStep::NoChange;
                }
                if !(prev.filter_kind == next.filter_kind) {
                    self.state0.clear();
                    self.state1.clear();
                }
                let ord: usize = filtord(&self.filter);
                let alpha: u32 = f32_sub(
                    F32_ONE,
                    exp_32(
                        f32_div(
                            f32_div(
                                f32_mul(CHANGE_NEG, u64_to_f32(buf_len as u64)),
                                i32_to_f32((ord + 1) as i32),
                            ),
                            self.rate,
                        ),
                    ),
                );
                let mut held: SpecfilterParamData = prev;
                held.change(next, alpha);
                self.param_prev = Option::Some(held);
            },
            Option::None => {
                self.param_prev = Option::Some(next);
            },
        }
        let data: SpecfilterParamData = self.param_prev.unwrap();
        let b = data.frequency_data(self.rate);
        if b.nolb && b.noub {
            DesignStep::Degenerate { pass: !b.stop }
        } else {
            let raw: DesignBands = design_bands(&b);
            let bands: DesignBands = match raw {
                DesignBands::Band { pass, stop } => {
                    let p: (u64, u64) = sort2(pass.0, pass.1);
                    let s: (u64, u64) = sort2(stop.0, stop.1);
                    DesignBands::Band { pass: p, stop: s }
                },
                _ => raw,
            };
            DesignStep::Request(
                DesignRequest {
                    kind: data.filter_kind,
                    bands,
                    ripple: widen_f32_f64(data.passband_ripple),
                    attenuation: widen_f32_f64(data.stopband_attenuation),
                    rate: widen_f32_f64(self.rate),
                },
            )
        }
    }

    /// Validates a candidate cascade and, if acceptable, installs it:
    /// retained delay lines are scaled by the gain-matching factor when
    /// the order is unchanged and the type transition allows it, and
    /// discarded otherwise.  A rejected candidate changes nothing.
    fn install(&mut self, cand: DesignedFilter, ftype: FilterType) -> (accepted: bool)
        requires
            old(self).wf(),
        ensures
            final(self).wf(),
            accepted == spec_cascade_valid(cand.sections@),
            !accepted ==> *final(self) == *old(self),
            accepted ==> {
                let gain = spec_match_gain(cand.sections@, old(self).filter.sections@);
                let keep = spec_keep_state(
                    gain,
                    spec_filtord(cand.sections@),
                    spec_filtord(old(self).filter.sections@),
                    ftype,
                    old(self).filter_type,
                );
                &&& final(self).filter == cand
                &&& final(self).filter_type == ftype
                &&& final(self).param == old(self).param
                &&& final(self).param_prev == old(self).param_prev
                &&& final(self).saved_prev == old(self).saved_prev
                &&& final(self).tube0 == old(self).tube0
                &&& final(self).tube1 == old(self).tube1
                &&& final(self).rate == old(self).rate
                &&& (keep ==> final(self).state0@.len() == old(self).state0@.len() && (forall|
                    i: int,
                |
                    0 <= i < old(self).state0@.len() ==> final(self).state0@[i] == f64_mul_bits(
                        #[trigger] old(self).state0@[i],
                        gain,
                    )) && final(self).state1@.len() == old(self).state1@.len() && (forall|i: int|
                    0 <= i < old(self).state1@.len() ==> final(self).state1@[i] == f64_mul_bits(
                        #[trigger] old(self).state1@[i],
                        gain,
                    )))
                &&& (!keep ==> final(self).state0@.len() == 0 && final(self).state1@.len() == 0)
            },
    {
        if !cascade_valid(&cand) {
            return false;
        }
        let gain: u64 = match_gain(&cand, &self.filter);
        let newo: usize = filtord(&cand);
        let oldo: usize = filtord(&self.filter);
        if keep_state(gain, newo, oldo, ftype, self.filter_type) {
            scale_state(&mut self.state0, gain);
            scale_state(&mut self.state1, gain);
        } else {
            self.state0.clear();
            self.state1.clear();
        }
        self.filter = cand;
        self.filter_type = ftype;
        true
    }

    /// Rolls the controls back to the saved snapshot after a rejected
    /// design: the held snapshot reverts and the live store is reset, so
    /// the surfaced values match the filter actually in effect.
    fn design_rejected(&mut self)
        ensures
            final(self).param_prev == old(self).saved_prev,
            final(self).saved_prev == old(self).saved_prev,
            final(self).filter == old(self).filter,
            final(self).filter_type == old(self).filter_type,
            final(self).state0 == old(self).state0,
            final(self).state1 == old(self).state1,
            final(self).tube0 == old(self).tube0,
            final(self).tube1 == old(self).tube1,
            final(self).rate == old(self).rate,
            match old(self).saved_prev {
                Option::Some(p) => final(self).param.filter_kind == crate::kinds::spec_kind_index(
                    p.filter_kind,
                ) && final(self).param.passband_ripple == p.passband_ripple && final(self).param.stopband_attenuation == p.stopband_attenuation && final(self).param.frequency1 == p.frequency1 && final(self).param.frequency2 == p.frequency2
                    && final(self).param.bandwidth1 == p.bandwidth1 && final(self).param.bandwidth2
                    == p.bandwidth2 && final(self).param.mix == old(self).param.mix && final(self).param.rate == old(self).param.rate,
                Option::None => final(self).param == old(self).param,
            },
    {
        self.param_prev = self.saved_prev;
        match self.saved_prev {
            Option::Some(prev) => {
                self.param.reset_to(prev);
            },
            Option::None => {},
        }
    }

    /// Judges the designer's answer for this block.  The classified type
    /// comes from the held snapshot.  Returns whether a design was
    /// installed; on rejection (including an invalid cascade) the
    /// previous filter stays and the controls roll back.
    pub fn finish_design(&mut self, outcome: DesignOutcome) -> (accepted: bool)
        requires
            old(self).wf(),
            old(self).param_prev is Some,
        ensures
            final(self).wf(),
            ({
                let held = old(self).param_prev->Some_0;
                let b = spec_frequency_data(held, old(self).rate);
                let ftype = spec_classify(b.stop, b.nolb, b.noub);
                match outcome {
                    DesignOutcome::Cascade(f) => accepted == spec_cascade_valid(f.sections@) && (
                    accepted ==> final(self).filter == f && final(self).filter_type == ftype),
                    DesignOutcome::ZeroOrder => accepted && final(self).filter.sections@.len() == 0
                        && final(self).filter_type == ftype,
                    DesignOutcome::Rejected => !accepted,
                }
            }),
            !accepted ==> final(self).filter == old(self).filter && final(self).filter_type == old(self).filter_type && final(self).param_prev == old(self).saved_prev,
    {
        let data: SpecfilterParamData = self.param_prev.unwrap();
        let ftype: FilterType = data.filter_type(self.rate);
        let accepted: bool = match outcome {
            DesignOutcome::Cascade(f) => self.install(f, ftype),
            DesignOutcome::ZeroOrder => self.install(DesignedFilter::identity(), ftype),
            DesignOutcome::Rejected => false,
        };
        if !accepted {
            self.design_rejected();
        }
        accepted
    }

    /// Installs the degenerate design of a fully saturated band: the
    /// pass-through filter, or the mute filter.  Always accepted.
    pub fn apply_degenerate(&mut self, pass: bool) -> (accepted: bool)
        requires
            old(self).wf(),
            old(self).param_prev is Some,
        ensures
            final(self).wf(),
            accepted,
            pass ==> final(self).filter.sections@.len() == 0,
            !pass ==> final(self).filter.sections@ =~= seq![crate::design::spec_nopass_section()],
            ({
                let held = old(self).param_prev->Some_0;
                let b = spec_frequency_data(held, old(self).rate);
                final(self).filter_type == spec_classify(b.stop, b.nolb, b.noub)
            }),
    {
        let data: SpecfilterParamData = self.param_prev.unwrap();
        let ftype: FilterType = data.filter_type(self.rate);
        let cand: DesignedFilter = if pass {
            DesignedFilter::identity()
        } else {
            DesignedFilter::nopass()
        };
        proof {
            assert(0u64 & 0x7FFF_FFFF_FFFF_FFFFu64 == 0u64) by (bit_vector);
            assert(0x3FF0_0000_0000_0000u64 & 0x7FFF_FFFF_FFFF_FFFFu64
                == 0x3FF0_0000_0000_0000u64) by (bit_vector);
        }
        let accepted: bool = self.install(cand, ftype);
        accepted
    }
}

/// An element-wise copy of a block.
fn copy_block(buf: &Vec<u64>) -> (r: Vec<u64>)
    ensures
        r@ =~= buf@,
{
    let mut r: Vec<u64> = Vec::new();
    let mut i: usize = 0;
    while i < buf.len()
        invariant
            0 <= i <= buf@.len(),
            r@.len() == i,
            forall|j: int| 0 <= j < i ==> r@[j] == buf@[j],
        decreases buf@.len() - i,
    {
        r.push(buf[i]);
        i = i + 1;
    }
    r
}

/// The output clamp never passes a NaN on: whatever the saturation stage
/// yields, the clamped sample is a number (a NaN clamps to the lower
/// bound, anything else lands in the clamp range).
pub proof fn lemma_clamped_sample_is_number(z: u64)
    ensures
        !f64_is_nan(f64_min_spec(f64_max_spec(z, NEG_10), POS_10)),
{
    assert(0xC024_0000_0000_0000u64 & 0x7FFF_FFFF_FFFF_FFFFu64 == 0x4024_0000_0000_0000u64)
        by (bit_vector);
    assert(0x4024_0000_0000_0000u64 & 0x7FFF_FFFF_FFFF_FFFFu64 == 0x4024_0000_0000_0000u64)
        by (bit_vector);
}

/// One sample of the post-filter chain: the tube pass with its fault
/// reset, the output clamp, and the dry/wet mix against the original
/// input sample.  Yields the new tube state and the output sample.
pub open spec fn spec_post_sample(ws: Seq<u64>, rate: u64, mix: u64, x: u64, z: u64) -> (
    Seq<u64>,
    u64,
) {
    let t = spec_tube_next(ws, rate, z);
    let ws2 = if f64_is_nan(t.1) {
        Seq::new(TUBE_STAGES as nat, |i: int| F64_ZERO)
    } else {
        t.0
    };
    let z2 = if f64_is_nan(t.1) {
        F64_ZERO
    } else {
        t.1
    };
    let zc = f64_min_spec(f64_max_spec(z2, NEG_10), POS_10);
    let y = f64_add_bits(f64_mul_bits(zc, mix), f64_mul_bits(x, f64_sub_bits(F64_ONE, mix)));
    (ws2, y)
}

/// The post-filter chain over a whole block, sample by sample from the
/// front, threading the tube state.
pub open spec fn spec_post_block(
    ws: Seq<u64>,
    rate: u64,
    mix: u64,
    xs: Seq<u64>,
    zs: Seq<u64>,
    i: nat,
) -> (Seq<u64>, Seq<u64>)
    decreases zs.len() - i,
{
    if i >= zs.len() {
        (ws, Seq::<u64>::empty())
    } else {
        let s = spec_post_sample(ws, rate, mix, xs[i as int], zs[i as int]);
        let rest = spec_post_block(s.0, rate, mix, xs, zs, i + 1);
        (rest.0, seq![s.1] + rest.1)
    }
}

/// The linear engine's result on one channel's block: the filtered
/// output and the new delay line, from the channel's state re-fitted to
/// the cascade.
pub open spec fn spec_engine_pass(c: SpecfilterCore, ch: usize, xs: Seq<u64>) -> (
    Seq<u64>,
    Seq<u64>,
) {
    let state = if ch == 0 {
        c.state0@
    } else {
        c.state1@
    };
    spec_cascade_block(c.filter.sections@, spec_resized(state, 2 * c.filter.sections@.len()), xs)
}

/// Whether the engine faults on one channel's block: some filtered
/// sample is NaN.
pub open spec fn spec_engine_faults(c: SpecfilterCore, ch: usize, xs: Seq<u64>) -> bool {
    exists|i: int|
        0 <= i < spec_engine_pass(c, ch, xs).0.len() && f64_is_nan(
            #[trigger] spec_engine_pass(c, ch, xs).0[i],
        )
}

/// What the saturation chain receives: the filtered block, or silence
/// after an engine fault.
pub open spec fn spec_engine_out(c: SpecfilterCore, ch: usize, xs: Seq<u64>) -> Seq<u64> {
    if spec_engine_faults(c, ch, xs) {
        Seq::new(xs.len(), |i: int| F64_ZERO)
    } else {
        spec_engine_pass(c, ch, xs).0
    }
}

/// One channel's whole block: the saturation chain over the engine
/// output, mixed against the raw input.  Yields the channel's final tube
/// state and the output block.
pub open spec fn spec_channel_post(c: SpecfilterCore, ch: usize, xs: Seq<u64>) -> (
    Seq<u64>,
    Seq<u64>,
) {
    let ws = if ch == 0 {
        c.tube0.w@
    } else {
        c.tube1.w@
    };
    spec_post_block(
        ws,
        spec_widen_f32_f64(c.rate),
        spec_widen_f32_f64(c.param.mix),
        xs,
        spec_engine_out(c, ch, xs),
        0,
    )
}

impl SpecfilterCore {
    /// Processes one channel's block in place: the linear filter with
    /// its NaN fault rule (state discarded, block zeroed, held snapshot
    /// forgotten and controls rolled back), then per sample the tube
    /// stage with its own fault reset, the clamp and the dry/wet mix.
    /// Returns whether the engine faulted, so the host can be told about
    /// the rolled-back controls.
    #[verifier::loop_isolation(false)]
    #[verifier::rlimit(100)]
    #[verifier::spinoff_prover]
    pub fn process_channel(&mut self, ch: usize, buf: &mut Vec<u64>) -> (engine_fault: bool)
        requires
            old(self).wf(),
            ch < 2,
        ensures
            final(self).wf(),
            final(buf)@.len() == old(buf)@.len(),
            final(self).filter == old(self).filter,
            final(self).filter_type == old(self).filter_type,
            final(self).saved_prev == old(self).saved_prev,
            final(self).rate == old(self).rate,
            engine_fault == spec_engine_faults(*old(self), ch, old(buf)@),
            final(buf)@ == spec_channel_post(*old(self), ch, old(buf)@).1,
            ch == 0 ==> final(self).tube0.w@ == spec_channel_post(*old(self), ch, old(buf)@).0
                && final(self).tube1 == old(self).tube1,
            ch != 0 ==> final(self).tube1.w@ == spec_channel_post(*old(self), ch, old(buf)@).0
                && final(self).tube0 == old(self).tube0,
            !engine_fault && ch == 0 ==> final(self).state0@ == spec_engine_pass(
                *old(self),
                ch,
                old(buf)@,
            ).1 && final(self).state1 == old(self).state1,
            !engine_fault && ch != 0 ==> final(self).state1@ == spec_engine_pass(
                *old(self),
                ch,
                old(buf)@,
            ).1 && final(self).state0 == old(self).state0,
            !engine_fault ==> final(self).param == old(self).param && final(self).param_prev
                == old(self).param_prev,
            engine_fault && ch == 0 ==> final(self).state0@.len() == 0 && final(self).state1
                == old(self).state1,
            engine_fault && ch != 0 ==> final(self).state1@.len() == 0 && final(self).state0
                == old(self).state0,
            engine_fault ==> final(self).param_prev is None,
            engine_fault ==> (match old(self).saved_prev {
                Option::Some(p) => final(self).param == (SpecfilterParameters {
                    filter_kind: crate::kinds::spec_kind_index(p.filter_kind),
                    passband_ripple: p.passband_ripple,
                    stopband_attenuation: p.stopband_attenuation,
                    frequency1: p.frequency1,
                    frequency2: p.frequency2,
                    bandwidth1: p.bandwidth1,
                    bandwidth2: p.bandwidth2,
                    ..old(self).param
                }),
                Option::None => final(self).param == old(self).param,
            }),
    {
        let ghost xs0 = buf@;
        let xcopy: Vec<u64> = copy_block(buf);
        let mix: u64 = widen_f32_f64(self.param.mix);
        let rate64: u64 = widen_f32_f64(self.rate);
        let fault: bool = if ch == 0 {
            let f = run_channel(&self.filter, &mut self.state0, buf);
            f
        } else {
            let f = run_channel(&self.filter, &mut self.state1, buf);
            f
        };
        proof {
            let rr = spec_engine_pass(*old(self), ch, xs0);
            if ch == 0 {
                assert(rr == spec_cascade_block(
                    old(self).filter.sections@,
                    spec_resized(old(self).state0@, 2 * old(self).filter.sections@.len()),
                    xs0,
                ));
            } else {
                assert(rr == spec_cascade_block(
                    old(self).filter.sections@,
                    spec_resized(old(self).state1@, 2 * old(self).filter.sections@.len()),
                    xs0,
                ));
            }
            assert(fault == spec_engine_faults(*old(self), ch, xs0));
        }
        if fault {
            self.param_prev = Option::None;
            match self.saved_prev {
                Option::Some(prev) => {
                    self.param.reset_to(prev);
                },
                Option::None => {},
            }
        }
        proof {
            if fault {
                assert(buf@ =~= Seq::new(xs0.len(), |k: int| F64_ZERO));
            }
            assert(buf@ == spec_engine_out(*old(self), ch, xs0));
        }
        let ghost zs = buf@;
        let ghost mid = *self;
        let ghost ws0 = if ch == 0 {
            self.tube0.w@
        } else {
            self.tube1.w@
        };
        let n: usize = buf.len();
        let mut i: usize = 0;
        while i < n
            invariant
                0 <= i <= n,
                buf@.len() == n,
                n == zs.len(),
                xs0.len() == n,
                self.tube0.wf(),
                self.tube1.wf(),
                ch < 2,
                self.param == mid.param,
                self.param_prev == mid.param_prev,
                self.saved_prev == mid.saved_prev,
                self.filter == mid.filter,
                self.filter_type == mid.filter_type,
                self.state0 == mid.state0,
                self.state1 == mid.state1,
                self.rate == mid.rate,
                forall|j: int| i <= j < n ==> buf@[j] == zs[j],
                (if ch == 0 {
                    self.tube1 == mid.tube1
                } else {
                    self.tube0 == mid.tube0
                }),
                ({
                    let ws = if ch == 0 {
                        self.tube0.w@
                    } else {
                        self.tube1.w@
                    };
                    spec_post_block(ws0, rate64, mix, xs0, zs, 0) == (
                        spec_post_block(ws, rate64, mix, xs0, zs, i as nat).0,
                        buf@.subrange(0, i as int) + spec_post_block(
                            ws,
                            rate64,
                            mix,
                            xs0,
                            zs,
                            i as nat,
                        ).1,
                    )
                }),
            decreases n - i,
        {
            let z: u64 = buf[i];
            let zt: u64 = if ch == 0 {
                self.tube0.next(rate64, z)
            } else {
                self.tube1.next(rate64, z)
            };
            let z2: u64 = if f64_nan_test(zt) {
                if ch == 0 {
                    self.tube0.reset();
                } else {
                    self.tube1.reset();
                }
                F64_ZERO
            } else {
                zt
            };
            proof {
                let ws = if ch == 0 {
                    self.tube0.w@
                } else {
                    self.tube1.w@
                };
                if f64_is_nan(zt) {
                    assert(ws =~= Seq::new(TUBE_STAGES as nat, |k: int| F64_ZERO));
                }
            }
            let zc: u64 = f64_min(f64_max(z2, NEG_10), POS_10);
            let y: u64 = f64_add(f64_mul(zc, mix), f64_mul(xcopy[i], f64_sub(F64_ONE, mix)));
            buf.set(i, y);
            proof {
                assert(buf@.subrange(0, i + 1) =~= buf@.subrange(0, i as int).push(y));
            }
            i = i + 1;
        }
        proof {
            let ws = if ch == 0 {
                self.tube0.w@
            } else {
                self.tube1.w@
            };
            assert(spec_post_block(ws, rate64, mix, xs0, zs, n as nat).1
                =~= Seq::<u64>::empty());
            assert(buf@.subrange(0, n as int) =~= buf@);
            assert(buf@ + Seq::<u64>::empty() =~= buf@);
        }
        fault
    }
}

} // verus!
