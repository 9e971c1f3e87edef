//! The band mapper: two corner frequencies and two signed bandwidth knobs
//! become four ordered band edges, an orientation flag and two saturation
//! flags, and from the flags the filter type.
//!
//! Edges are placed by logarithmic interpolation between a corner and
//! either the opposite corner, the domain floor or the domain ceiling.
//! Degeneracy is re-checked after placement: whenever a transition pair
//! collapses (its ratio falls to `1 + ε`), the corresponding saturation
//! flag turns true and the edges are recomputed — a fixed-point loop that
//! terminates because flags only ever turn true.

use vstd::prelude::*;
use crate::arith::{
    f32_add_bits, f32_sub_bits, f32_mul_bits, f32_div_bits,
    f32_add, f32_sub, f32_mul, f32_div,
};
use crate::fbits::{
    f32_min_spec, f32_max_spec, f32_lt_spec, f32_le_spec, f32_abs_spec,
    f32_min, f32_max, f32_lt, f32_le, f32_ge, f32_abs,
    F32_ZERO, F32_ONE,
};
use crate::kernel::{spec_log2_32, spec_exp2_32, log2_32, exp2_32};
use crate::params::{SpecfilterParamData, SpecfilterParameters, spec_max_freq, max_freq_at, MIN_FREQ};
use crate::kinds::{FilterType, spec_classify, classify};

verus! {

/// The narrowest a transition band may get, as a fraction of the range.
pub const MIN_TRANSITION: u32 = 0x3C23_D70A;  // 0.01
/// One minus the narrowest transition band.
pub const TRANSITION_SPAN: u32 = 0x3F7D_70A4;  // 0.99
/// The machine epsilon used by the saturation tests.
pub const F32_EPSILON: u32 = 0x3400_0000;  // 2^-23
/// The domain floor plus epsilon: the lower saturation threshold.
pub const MIN_FREQ_PLUS_EPS: u32 = 0x3F80_0001;
/// `1 + ε` with the bandwidth epsilon: the degeneracy ratio threshold.
pub const BW_RATIO_MIN: u32 = 0x3F80_0054;  // 1.00001

/// Four band edges in ascending order together with the orientation flag
/// and the two saturation flags.  `edge0..edge1` is one transition
/// region, `edge2..edge3` the other.
#[derive(Clone, Copy, PartialEq, Eq, Structural, Debug)]
pub struct BandSpec {
    pub edge0: u32,
    pub edge1: u32,
    pub edge2: u32,
    pub edge3: u32,
    pub stop: bool,
    pub nolb: bool,
    pub noub: bool,
}

/// A bandwidth knob's magnitude remapped onto the transition-band range:
/// `MIN_TRANSITION + |bw| * (1 - MIN_TRANSITION)`.
pub open spec fn spec_remap_bw(bw: u32) -> u32 {
    f32_add_bits(MIN_TRANSITION, f32_mul_bits(f32_abs_spec(bw), TRANSITION_SPAN))
}

fn remap_bw(bw: u32) -> (r: u32)
    ensures
        r == spec_remap_bw(bw),
{
    f32_add(MIN_TRANSITION, f32_mul(f32_abs(bw), TRANSITION_SPAN))
}

/// Logarithmic interpolation from corner `x` a fraction `bw` of the way
/// toward `y`: `2 ^ (log2(x) * (1 - bw) + bw * log2(y))`.
pub open spec fn spec_edge(x: u32, bw: u32, y: u32) -> u32 {
    spec_exp2_32(
        f32_add_bits(
            f32_mul_bits(spec_log2_32(x), f32_sub_bits(F32_ONE, bw)),
            f32_mul_bits(bw, spec_log2_32(y)),
        ),
    )
}

fn edge(x: u32, bw: u32, y: u32) -> (r: u32)
    ensures
        r == spec_edge(x, bw, y),
{
    exp2_32(
        f32_add(f32_mul(log2_32(x), f32_sub(F32_ONE, bw)), f32_mul(bw, log2_32(y))),
    )
}

/// One placement of the four edges for a given flag state.  `f0 <= f1`
/// are the swapped corners, `b0`/`b1` the remapped bandwidths,
/// `out0`/`out1` whether each transition extends outward.
pub open spec fn spec_band_step(
    f0: u32,
    f1: u32,
    b0: u32,
    b1: u32,
    out0: bool,
    out1: bool,
    maxf: u32,
    nolb: bool,
    noub: bool,
) -> (u32, u32, u32, u32) {
    if !nolb && !noub {
        if !out0 && !out1 {
            let a = spec_edge(f0, b0, f1);
            let b = spec_edge(f1, b1, f0);
            (f0, f32_min_spec(a, b), f32_max_spec(b, a), f1)
        } else if out0 && !out1 {
            (spec_edge(f0, b0, MIN_FREQ), f0, spec_edge(f1, b1, f0), f1)
        } else if !out0 && out1 {
            (f0, spec_edge(f0, b0, f1), f1, spec_edge(f1, b1, maxf))
        } else {
            (spec_edge(f0, b0, MIN_FREQ), f0, f1, spec_edge(f1, b1, maxf))
        }
    } else if nolb && !noub {
        if !out1 {
            (MIN_FREQ, MIN_FREQ, spec_edge(f1, b1, MIN_FREQ), f1)
        } else {
            (MIN_FREQ, MIN_FREQ, f1, spec_edge(f1, b1, maxf))
        }
    } else if !nolb && noub {
        if !out0 {
            (f0, spec_edge(f0, b0, maxf), maxf, maxf)
        } else {
            (spec_edge(f0, b0, maxf), f0, maxf, maxf)
        }
    } else {
        (MIN_FREQ, MIN_FREQ, maxf, maxf)
    }
}

fn band_step(
    f0: u32,
    f1: u32,
    b0: u32,
    b1: u32,
    out0: bool,
    out1: bool,
    maxf: u32,
    nolb: bool,
    noub: bool,
) -> (r: (u32, u32, u32, u32))
    ensures
        r == spec_band_step(f0, f1, b0, b1, out0, out1, maxf, nolb, noub),
{
    if !nolb && !noub {
        if !out0 && !out1 {
            let a: u32 = edge(f0, b0, f1);
            let b: u32 = edge(f1, b1, f0);
            (f0, f32_min(a, b), f32_max(b, a), f1)
        } else if out0 && !out1 {
            (edge(f0, b0, MIN_FREQ), f0, edge(f1, b1, f0), f1)
        } else if !out0 && out1 {
            (f0, edge(f0, b0, f1), f1, edge(f1, b1, maxf))
        } else {
            (edge(f0, b0, MIN_FREQ), f0, f1, edge(f1, b1, maxf))
        }
    } else if nolb && !noub {
        if !out1 {
            (MIN_FREQ, MIN_FREQ, edge(f1, b1, MIN_FREQ), f1)
        } else {
            (MIN_FREQ, MIN_FREQ, f1, edge(f1, b1, maxf))
        }
    } else if !nolb && noub {
        if !out0 {
            (f0, edge(f0, b0, maxf), maxf, maxf)
        } else {
            (edge(f0, b0, maxf), f0, maxf, maxf)
        }
    } else {
        (MIN_FREQ, MIN_FREQ, maxf, maxf)
    }
}

/// Whether a transition pair is non-degenerate: its ratio strictly
/// exceeds `1 + ε`.
pub open spec fn spec_pair_wide(lo: u32, hi: u32) -> bool {
    f32_lt_spec(BW_RATIO_MIN, f32_div_bits(hi, lo))
}

/// The fixed point of edge placement and degeneracy re-checking: place
/// the edges for the current flags; where a transition pair has
/// collapsed, saturate its flag and place again.  Flags only turn true,
/// so the recursion bottoms out.
pub open spec fn spec_band_loop(
    f0: u32,
    f1: u32,
    b0: u32,
    b1: u32,
    out0: bool,
    out1: bool,
    maxf: u32,
    nolb: bool,
    noub: bool,
) -> ((u32, u32, u32, u32), bool, bool)
    decreases (if nolb { 0int } else { 1int }) + (if noub { 0int } else { 1int }),
{
    let e = spec_band_step(f0, f1, b0, b1, out0, out1, maxf, nolb, noub);
    let nolb2 = nolb || !spec_pair_wide(e.0, e.1);
    let noub2 = noub || !spec_pair_wide(e.2, e.3);
    if nolb2 == nolb && noub2 == noub {
        (e, nolb, noub)
    } else {
        spec_band_loop(f0, f1, b0, b1, out0, out1, maxf, nolb2, noub2)
    }
}

/// The band specification a snapshot maps to at a sample rate.
pub open spec fn spec_frequency_data(d: SpecfilterParamData, rate: u32) -> BandSpec {
    let maxf = spec_max_freq(rate);
    let stop = f32_le_spec(d.frequency2, d.frequency1);
    let nolb0 = f32_le_spec(
        f32_min_spec(d.frequency1, d.frequency2),
        MIN_FREQ_PLUS_EPS,
    );
    let noub0 = f32_le_spec(
        f32_sub_bits(maxf, F32_EPSILON),
        f32_max_spec(d.frequency1, d.frequency2),
    );
    let f0 = if stop {
        d.frequency2
    } else {
        d.frequency1
    };
    let f1 = if stop {
        d.frequency1
    } else {
        d.frequency2
    };
    let bw0 = if stop {
        d.bandwidth2
    } else {
        d.bandwidth1
    };
    let bw1 = if stop {
        d.bandwidth1
    } else {
        d.bandwidth2
    };
    let out0 = f32_le_spec(F32_ZERO, bw0) != stop;
    let out1 = f32_le_spec(F32_ZERO, bw1) != stop;
    let b0 = spec_remap_bw(bw0);
    let b1 = spec_remap_bw(bw1);
    let r = spec_band_loop(f0, f1, b0, b1, out0, out1, maxf, nolb0, noub0);
    let edges = r.0;
    BandSpec {
        edge0: edges.0,
        edge1: edges.1,
        edge2: edges.2,
        edge3: edges.3,
        stop,
        nolb: r.1,
        noub: r.2,
    }
}

/// The saturation flags of the fixed point include the flags it was
/// started from: the loop only ever turns a flag true.
pub proof fn lemma_band_loop_monotone(
    f0: u32,
    f1: u32,
    b0: u32,
    b1: u32,
    out0: bool,
    out1: bool,
    maxf: u32,
    nolb: bool,
    noub: bool,
)
    ensures
        nolb ==> spec_band_loop(f0, f1, b0, b1, out0, out1, maxf, nolb, noub).1,
        noub ==> spec_band_loop(f0, f1, b0, b1, out0, out1, maxf, nolb, noub).2,
    decreases (if nolb { 0int } else { 1int }) + (if noub { 0int } else { 1int }),
{
    let e = spec_band_step(f0, f1, b0, b1, out0, out1, maxf, nolb, noub);
    let nolb2 = nolb || !spec_pair_wide(e.0, e.1);
    let noub2 = noub || !spec_pair_wide(e.2, e.3);
    if !(nolb2 == nolb && noub2 == noub) {
        lemma_band_loop_monotone(f0, f1, b0, b1, out0, out1, maxf, nolb2, noub2);
    }
}

/// At the fixed point, every transition pair is either wide or saturated:
/// a returned flag is false only if its pair's ratio strictly exceeds
/// `1 + ε`.
pub proof fn lemma_band_loop_fixed_point(
    f0: u32,
    f1: u32,
    b0: u32,
    b1: u32,
    out0: bool,
    out1: bool,
    maxf: u32,
    nolb: bool,
    noub: bool,
)
    ensures
        ({
            let r = spec_band_loop(f0, f1, b0, b1, out0, out1, maxf, nolb, noub);
            (r.0 == spec_band_step(f0, f1, b0, b1, out0, out1, maxf, r.1, r.2))
                && (!r.1 ==> spec_pair_wide(r.0.0, r.0.1))
                && (!r.2 ==> spec_pair_wide(r.0.2, r.0.3))
        }),
    decreases (if nolb { 0int } else { 1int }) + (if noub { 0int } else { 1int }),
{
    let e = spec_band_step(f0, f1, b0, b1, out0, out1, maxf, nolb, noub);
    let nolb2 = nolb || !spec_pair_wide(e.0, e.1);
    let noub2 = noub || !spec_pair_wide(e.2, e.3);
    if !(nolb2 == nolb && noub2 == noub) {
        lemma_band_loop_fixed_point(f0, f1, b0, b1, out0, out1, maxf, nolb2, noub2);
    }
}

/// A saturation flag the raw corner comparisons already set is never
/// cleared by the band mapper: classification moves only toward the
/// degenerate shapes, never back.
pub proof fn lemma_frequency_data_monotone(d: SpecfilterParamData, rate: u32)
    ensures
        ({
            let maxf = spec_max_freq(rate);
            let nolb0 = f32_le_spec(
                f32_min_spec(d.frequency1, d.frequency2),
                MIN_FREQ_PLUS_EPS,
            );
            let noub0 = f32_le_spec(
                f32_sub_bits(maxf, F32_EPSILON),
                f32_max_spec(d.frequency1, d.frequency2),
            );
            let b = spec_frequency_data(d, rate);
            (nolb0 ==> b.nolb) && (noub0 ==> b.noub)
        }),
{
    let maxf = spec_max_freq(rate);
    let stop = f32_le_spec(d.frequency2, d.frequency1);
    let nolb0 = f32_le_spec(f32_min_spec(d.frequency1, d.frequency2), MIN_FREQ_PLUS_EPS);
    let noub0 = f32_le_spec(
        f32_sub_bits(maxf, F32_EPSILON),
        f32_max_spec(d.frequency1, d.frequency2),
    );
    let f0 = if stop {
        d.frequency2
    } else {
        d.frequency1
    };
    let f1 = if stop {
        d.frequency1
    } else {
        d.frequency2
    };
    let bw0 = if stop {
        d.bandwidth2
    } else {
        d.bandwidth1
    };
    let bw1 = if stop {
        d.bandwidth1
    } else {
        d.bandwidth2
    };
    let out0 = f32_le_spec(F32_ZERO, bw0) != stop;
    let out1 = f32_le_spec(F32_ZERO, bw1) != stop;
    let b0 = spec_remap_bw(bw0);
    let b1 = spec_remap_bw(bw1);
    lemma_band_loop_monotone(f0, f1, b0, b1, out0, out1, maxf, nolb0, noub0);
}

impl SpecfilterParamData {
    /// Maps the snapshot's two corners and two bandwidth knobs onto four
    /// ordered band edges, the orientation flag and the saturation flags.
    #[verifier::loop_isolation(false)]
    pub fn frequency_data(&self, rate: u32) -> (r: BandSpec)
        ensures
            r == spec_frequency_data(*self, rate),
    {
        let maxf: u32 = max_freq_at(rate);
        let stop: bool = f32_ge(self.frequency1, self.frequency2);
        let mut nolb: bool = f32_le(
            f32_min(self.frequency1, self.frequency2),
            MIN_FREQ_PLUS_EPS,
        );
        let mut noub: bool = f32_ge(
            f32_max(self.frequency1, self.frequency2),
            f32_sub(maxf, F32_EPSILON),
        );
        let ghost nolb0 = nolb;
        let ghost noub0 = noub;
        let f0: u32 = if stop {
            self.frequency2
        } else {
            self.frequency1
        };
        let f1: u32 = if stop {
            self.frequency1
        } else {
            self.frequency2
        };
        let bw0: u32 = if stop {
            self.bandwidth2
        } else {
            self.bandwidth1
        };
        let bw1: u32 = if stop {
            self.bandwidth1
        } else {
            self.bandwidth2
        };
        let out0: bool = f32_ge(bw0, F32_ZERO) != stop;
        let out1: bool = f32_ge(bw1, F32_ZERO) != stop;
        let b0: u32 = remap_bw(bw0);
        let b1: u32 = remap_bw(bw1);
        loop
            invariant
                spec_band_loop(f0, f1, b0, b1, out0, out1, maxf, nolb, noub) == spec_band_loop(
                    f0,
                    f1,
                    b0,
                    b1,
                    out0,
                    out1,
                    maxf,
                    nolb0,
                    noub0,
                ),
            decreases (if nolb { 0int } else { 1int }) + (if noub { 0int } else { 1int }),
        {
            let e: (u32, u32, u32, u32) = band_step(
                f0,
                f1,
                b0,
                b1,
                out0,
                out1,
                maxf,
                nolb,
                noub,
            );
            let mut changed: bool = false;
            if !nolb && !f32_lt(BW_RATIO_MIN, f32_div(e.1, e.0)) {
                nolb = true;
                changed = true;
            }
            if !noub && !f32_lt(BW_RATIO_MIN, f32_div(e.3, e.2)) {
                noub = true;
                changed = true;
            }
            if !changed {
                proof {
                    assert(spec_band_loop(f0, f1, b0, b1, out0, out1, maxf, nolb, noub) == (
                        (e.0, e.1, e.2, e.3),
                        nolb,
                        noub,
                    ));
                }
                return BandSpec {
                    edge0: e.0,
                    edge1: e.1,
                    edge2: e.2,
                    edge3: e.3,
                    stop,
                    nolb,
                    noub,
                };
            }
        }
    }

    /// The filter type a snapshot classifies to at a sample rate — the
    /// classification table applied to the mapped flags.
    pub fn filter_type(&self, rate: u32) -> (t: FilterType)
        ensures
            ({
                let b = spec_frequency_data(*self, rate);
                t == spec_classify(b.stop, b.nolb, b.noub)
            }),
    {
        let b = self.frequency_data(rate);
        classify(b.stop, b.nolb, b.noub)
    }
}

impl SpecfilterParameters {
    /// The band specification of the live store at its own sample rate.
    pub fn frequency_data(&self) -> (r: BandSpec)
        ensures
            r == spec_frequency_data(spec_snapshot_of(*self), self.rate),
    {
        let d = self.snapshot();
        d.frequency_data(self.rate)
    }

    /// The widths of the two transition bands, low first for a pass
    /// orientation, high first for a stop orientation.
    pub fn bandwidths(&self) -> (r: [u32; 2])
        ensures
            ({
                let b = spec_frequency_data(spec_snapshot_of(*self), self.rate);
                if b.stop {
                    r[0] == f32_sub_bits(b.edge3, b.edge2) && r[1] == f32_sub_bits(
                        b.edge1,
                        b.edge0,
                    )
                } else {
                    r[0] == f32_sub_bits(b.edge1, b.edge0) && r[1] == f32_sub_bits(
                        b.edge3,
                        b.edge2,
                    )
                }
            }),
    {
        let b = self.frequency_data();
        if b.stop {
            [f32_sub(b.edge3, b.edge2), f32_sub(b.edge1, b.edge0)]
        } else {
            [f32_sub(b.edge1, b.edge0), f32_sub(b.edge3, b.edge2)]
        }
    }

    /// The filter type of the live store at its own sample rate.
    pub fn filter_type(&self) -> (t: FilterType)
        ensures
            ({
                let b = spec_frequency_data(spec_snapshot_of(*self), self.rate);
                t == spec_classify(b.stop, b.nolb, b.noub)
            }),
    {
        let d = self.snapshot();
        d.filter_type(self.rate)
    }
}

/// The snapshot of a live store (re-exported shorthand for contracts).
pub open spec fn spec_snapshot_of(s: SpecfilterParameters) -> SpecfilterParamData {
    crate::params::spec_snapshot(s)
}

} // verus!
