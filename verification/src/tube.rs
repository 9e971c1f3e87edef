//! The tube saturation stage: a fixed cascade of nine first-order
//! filters at rising corner frequencies, interleaved with exponential
//! soft clips and a sigmoid waveshaper, per channel.
//!
//! Each stage splits its input into a low output and a complementary
//! high-passed term, drives the high term through the sigmoid and an
//! order-dependent soft clip, and recombines with the low term at fixed
//! gains.  The stage state is one delay slot per first-order filter.

use vstd::prelude::*;
use crate::arith::{
    f64_add_bits, f64_sub_bits, f64_mul_bits, f64_div_bits,
    f64_add, f64_sub, f64_mul, f64_div,
};
use crate::fbits::{f64_min_spec, f64_max_spec, f64_min, f64_max, F64_ZERO, F64_ONE, F64_TWO};
use crate::kernel::{spec_exp_64, exp_64};

verus! {

/// How many first-order filters the cascade holds.
pub const TUBE_STAGES: usize = 9;

// Fixed gains of the cascade.
pub const G_CLIP: u64 = 0x3FA4_7AE1_47AE_147B;  // 0.04
pub const P_HARD_CLIP: u64 = 0x3FC9_9999_9999_999A;  // 0.2
pub const ONE_MINUS_P_HARD_CLIP: u64 = 0x3FE9_9999_9999_999A;  // 0.8
pub const P_HARD_CLIP_FINAL: u64 = 0x3FE9_9999_9999_999A;  // 0.8
pub const ONE_MINUS_P_HARD_CLIP_FINAL: u64 = 0x3FC9_9999_9999_9998;  // 0.2 (as 1 - 0.8 rounds)
pub const G_OVERTONES: u64 = 0x3FF0_0000_0000_0000;  // 1
pub const P_SOFT_CLIP: u64 = 0x3FF0_0000_0000_0000;  // 1
pub const G_SOFT_CLIP: u64 = 0x3FF2_147A_E147_AE14;  // 1.13
pub const ONE_PLUS_SOFT_GAIN: u64 = 0x4001_0A3D_70A3_D70A;  // 1 + 1 * 1.13
pub const P_SIGMOID_CLIP: u64 = 0x3FEF_AE14_7AE1_47AE;  // 0.99
pub const ONE_MINUS_P_SIGMOID_CLIP: u64 = 0x3F84_7AE1_47AE_1480;  // 0.01 (as 1 - 0.99 rounds)

// Clip bounds.
pub const NEG_200: u64 = 0xC069_0000_0000_0000;
pub const POS_140: u64 = 0x4061_8000_0000_0000;
pub const NEG_20: u64 = 0xC034_0000_0000_0000;
pub const POS_14: u64 = 0x402C_0000_0000_0000;

/// The angular corner frequency `2π f` of stage `k`
/// (f = 22, 47, 100, 220, 470, 1000, 2200, 4700, 10000 Hz).
pub open spec fn spec_omega(k: nat) -> u64 {
    if k == 0 {
        0x4061_475C_C9EE_DF00u64
    } else if k == 1 {
        0x4072_74F4_91E2_111Eu64
    } else if k == 2 {
        0x4083_A28C_59D5_433Bu64
    } else if k == 3 {
        0x4095_9933_FC6A_96C1u64
    } else if k == 4 {
        0x40A7_1231_B65A_9565u64
    } else if k == 5 {
        0x40B8_8B2F_704A_9409u64
    } else if k == 6 {
        0x40CA_FF80_FB85_3C71u64
    } else if k == 7 {
        0x40DC_D6BE_23F1_3ABEu64
    } else {
        0x40EE_ADFB_4C5D_390Cu64
    }
}

fn omega_at(k: usize) -> (r: u64)
    requires
        k < TUBE_STAGES,
    ensures
        r == spec_omega(k as nat),
{
    if k == 0 {
        0x4061_475C_C9EE_DF00u64
    } else if k == 1 {
        0x4072_74F4_91E2_111Eu64
    } else if k == 2 {
        0x4083_A28C_59D5_433Bu64
    } else if k == 3 {
        0x4095_9933_FC6A_96C1u64
    } else if k == 4 {
        0x40A7_1231_B65A_9565u64
    } else if k == 5 {
        0x40B8_8B2F_704A_9409u64
    } else if k == 6 {
        0x40CA_FF80_FB85_3C71u64
    } else if k == 7 {
        0x40DC_D6BE_23F1_3ABEu64
    } else {
        0x40EE_ADFB_4C5D_390Cu64
    }
}

/// The shrinking clip scale `1 / sqrt(k + 2)` of stage `k`.
pub open spec fn spec_clip_scale(k: nat) -> u64 {
    if k == 0 {
        0x3FE6_A09E_667F_3BCCu64
    } else if k == 1 {
        0x3FE2_79A7_4590_331Du64
    } else if k == 2 {
        0x3FE0_0000_0000_0000u64
    } else if k == 3 {
        0x3FDC_9F25_C5BF_EDD9u64
    } else if k == 4 {
        0x3FDA_20BD_700C_2C3Fu64
    } else if k == 5 {
        0x3FD8_3091_E6A7_F7E6u64
    } else if k == 6 {
        0x3FD6_A09E_667F_3BCCu64
    } else if k == 7 {
        0x3FD5_5555_5555_5555u64
    } else {
        0x3FD4_3D13_6248_490Fu64
    }
}

fn clip_scale_at(k: usize) -> (r: u64)
    requires
        k < TUBE_STAGES,
    ensures
        r == spec_clip_scale(k as nat),
{
    if k == 0 {
        0x3FE6_A09E_667F_3BCCu64
    } else if k == 1 {
        0x3FE2_79A7_4590_331Du64
    } else if k == 2 {
        0x3FE0_0000_0000_0000u64
    } else if k == 3 {
        0x3FDC_9F25_C5BF_EDD9u64
    } else if k == 4 {
        0x3FDA_20BD_700C_2C3Fu64
    } else if k == 5 {
        0x3FD8_3091_E6A7_F7E6u64
    } else if k == 6 {
        0x3FD6_A09E_667F_3BCCu64
    } else if k == 7 {
        0x3FD5_5555_5555_5555u64
    } else {
        0x3FD4_3D13_6248_490Fu64
    }
}

/// The exponential soft clip: the input is clamped into `[lo, hi]`, then
/// eased away from both bounds:
/// `c - 1/exp(hi - c) + 1/exp(c - lo)`.
pub open spec fn spec_soft_clip(x: u64, lo: u64, hi: u64) -> u64 {
    let c = f64_min_spec(f64_max_spec(x, lo), hi);
    f64_add_bits(
        f64_sub_bits(c, f64_div_bits(F64_ONE, spec_exp_64(f64_sub_bits(hi, c)))),
        f64_div_bits(F64_ONE, spec_exp_64(f64_sub_bits(c, lo))),
    )
}

pub fn soft_clip(x: u64, lo: u64, hi: u64) -> (r: u64)
    ensures
        r == spec_soft_clip(x, lo, hi),
{
    let c: u64 = f64_min(f64_max(x, lo), hi);
    f64_add(
        f64_sub(c, f64_div(F64_ONE, exp_64(f64_sub(hi, c)))),
        f64_div(F64_ONE, exp_64(f64_sub(c, lo))),
    )
}

/// The fixed sigmoid pass: `0.99` of `(e^{2x} - 1)/(1 + e^{2x})` blended
/// with `0.01` of the identity (the gain staging around it is the
/// caller's).
pub open spec fn spec_sigmoid(x: u64) -> u64 {
    let e = spec_exp_64(f64_mul_bits(x, F64_TWO));
    f64_add_bits(
        f64_div_bits(f64_mul_bits(P_SIGMOID_CLIP, f64_sub_bits(e, F64_ONE)), f64_add_bits(F64_ONE, e)),
        f64_mul_bits(ONE_MINUS_P_SIGMOID_CLIP, x),
    )
}

fn sigmoid(x: u64) -> (r: u64)
    ensures
        r == spec_sigmoid(x),
{
    let e: u64 = exp_64(f64_mul(x, F64_TWO));
    f64_add(
        f64_div(f64_mul(P_SIGMOID_CLIP, f64_sub(e, F64_ONE)), f64_add(F64_ONE, e)),
        f64_mul(ONE_MINUS_P_SIGMOID_CLIP, x),
    )
}

/// The sigmoid wrapped in its gain staging: scale down by `G_CLIP`,
/// shape, scale back up.
pub open spec fn spec_shaped(x: u64) -> u64 {
    f64_div_bits(spec_sigmoid(f64_mul_bits(G_CLIP, x)), G_CLIP)
}

fn shaped(x: u64) -> (r: u64)
    ensures
        r == spec_shaped(x),
{
    f64_div(sigmoid(f64_mul(G_CLIP, x)), G_CLIP)
}

/// One first-order filter step at stage `k`: the bilinear-transform
/// low-pass and high-pass outputs sharing one delay slot.
/// Yields `(low, high, new_w)`.
pub open spec fn spec_first_order(k: nat, w: u64, rate: u64, x: u64) -> (u64, u64, u64) {
    let omega = spec_omega(k);
    let two_rate = f64_add_bits(rate, rate);
    let a0 = f64_add_bits(omega, two_rate);
    let a1 = f64_sub_bits(omega, two_rate);
    let w0 = f64_sub_bits(x, f64_div_bits(f64_add_bits(F64_ZERO, f64_mul_bits(w, a1)), a0));
    let low = f64_div_bits(f64_add_bits(f64_mul_bits(w0, omega), f64_mul_bits(w, omega)), a0);
    let high = f64_div_bits(
        f64_add_bits(f64_mul_bits(w0, two_rate), f64_mul_bits(w, f64_neg_bits(two_rate))),
        a0,
    );
    (low, high, w0)
}

/// Sign flip on a double-precision pattern.
pub open spec fn f64_neg_bits(b: u64) -> u64 {
    b ^ 0x8000_0000_0000_0000u64
}

fn first_order(k: usize, w: u64, rate: u64, x: u64) -> (r: (u64, u64, u64))
    requires
        k < TUBE_STAGES,
    ensures
        r == spec_first_order(k as nat, w, rate, x),
{
    let omega: u64 = omega_at(k);
    let two_rate: u64 = f64_add(rate, rate);
    let a0: u64 = f64_add(omega, two_rate);
    let a1: u64 = f64_sub(omega, two_rate);
    let w0: u64 = f64_sub(x, f64_div(f64_add(F64_ZERO, f64_mul(w, a1)), a0));
    let low: u64 = f64_div(f64_add(f64_mul(w0, omega), f64_mul(w, omega)), a0);
    let high: u64 = f64_div(
        f64_add(f64_mul(w0, two_rate), f64_mul(w, two_rate ^ 0x8000_0000_0000_0000u64)),
        a0,
    );
    (low, high, w0)
}

/// One full saturation stage: filter, overtone mix, sigmoid, the
/// order-dependent soft clip, and the recombination with the low band.
/// Yields `(new_w, stage output)`.
pub open spec fn spec_stage(k: nat, w: u64, rate: u64, x: u64) -> (u64, u64) {
    let f = spec_first_order(k, w, rate, x);
    let z1 = f.0;
    let z2 = f.1;
    let x1 = f64_sub_bits(f64_mul_bits(z2, G_OVERTONES), f64_mul_bits(z1, P_SOFT_CLIP));
    let x2 = spec_shaped(x1);
    let s = spec_clip_scale(k);
    let x3 = f64_add_bits(
        f64_mul_bits(
            spec_soft_clip(x2, f64_mul_bits(NEG_200, s), f64_mul_bits(POS_140, s)),
            P_HARD_CLIP,
        ),
        f64_mul_bits(ONE_MINUS_P_HARD_CLIP, x2),
    );
    let y = f64_add_bits(f64_mul_bits(z1, ONE_PLUS_SOFT_GAIN), f64_mul_bits(x3, G_SOFT_CLIP));
    (f.2, y)
}

fn stage(k: usize, w: u64, rate: u64, x: u64) -> (r: (u64, u64))
    requires
        k < TUBE_STAGES,
    ensures
        r == spec_stage(k as nat, w, rate, x),
{
    let f: (u64, u64, u64) = first_order(k, w, rate, x);
    let z1: u64 = f.0;
    let z2: u64 = f.1;
    let x1: u64 = f64_sub(f64_mul(z2, G_OVERTONES), f64_mul(z1, P_SOFT_CLIP));
    let x2: u64 = shaped(x1);
    let s: u64 = clip_scale_at(k);
    let x3: u64 = f64_add(
        f64_mul(soft_clip(x2, f64_mul(NEG_200, s), f64_mul(POS_140, s)), P_HARD_CLIP),
        f64_mul(ONE_MINUS_P_HARD_CLIP, x2),
    );
    let y: u64 = f64_add(f64_mul(z1, ONE_PLUS_SOFT_GAIN), f64_mul(x3, G_SOFT_CLIP));
    (f.2, y)
}

/// The cascade from stage `k` on: the new delay slots for stages
/// `k..9` and the signal after them.
pub open spec fn spec_stages_from(ws: Seq<u64>, k: nat, rate: u64, x: u64) -> (Seq<u64>, u64)
    decreases TUBE_STAGES - k,
{
    if k >= TUBE_STAGES {
        (Seq::<u64>::empty(), x)
    } else {
        let st = spec_stage(k, ws[k as int], rate, x);
        let rest = spec_stages_from(ws, k + 1, rate, st.1);
        (seq![st.0] + rest.0, rest.1)
    }
}

/// One channel's whole tube pass on one sample: the input hard-limited
/// and pre-clipped, the nine stages, and the final shaper.
pub open spec fn spec_tube_next(ws: Seq<u64>, rate: u64, x: u64) -> (Seq<u64>, u64) {
    let s1 = spec_soft_clip(x, NEG_200, POS_140);
    let s2 = f64_add_bits(
        f64_mul_bits(spec_soft_clip(s1, NEG_20, POS_14), P_HARD_CLIP_FINAL),
        f64_mul_bits(ONE_MINUS_P_HARD_CLIP_FINAL, s1),
    );
    let r = spec_stages_from(ws, 0, rate, s2);
    (r.0, spec_shaped(r.1))
}

/// One channel's tube state: one delay slot per first-order filter.
#[derive(Clone, Debug)]
pub struct TubeStage {
    pub w: Vec<u64>,
}

impl TubeStage {
    /// Whether the state is the full cascade's.
    pub open spec fn wf(&self) -> bool {
        self.w@.len() == TUBE_STAGES
    }

    /// A fresh, silent cascade.
    pub fn new() -> (r: TubeStage)
        ensures
            r.wf(),
            forall|i: int| 0 <= i < TUBE_STAGES ==> r.w@[i] == F64_ZERO,
    {
        let mut w: Vec<u64> = Vec::new();
        let mut i: usize = 0;
        while i < TUBE_STAGES
            invariant
                0 <= i <= TUBE_STAGES,
                w@.len() == i,
                forall|j: int| 0 <= j < i ==> w@[j] == F64_ZERO,
            decreases TUBE_STAGES - i,
        {
            w.push(F64_ZERO);
            i = i + 1;
        }
        TubeStage { w }
    }

    /// Silences the cascade: every delay slot back to zero.
    pub fn reset(&mut self)
        requires
            old(self).wf(),
        ensures
            final(self).wf(),
            forall|i: int| 0 <= i < TUBE_STAGES ==> final(self).w@[i] == F64_ZERO,
    {
        let n: usize = self.w.len();
        let mut i: usize = 0;
        while i < n
            invariant
                0 <= i <= n,
                self.w@.len() == n,
                forall|j: int| 0 <= j < i ==> self.w@[j] == F64_ZERO,
            decreases n - i,
        {
            self.w.set(i, F64_ZERO);
            i = i + 1;
        }
    }

    /// Runs one sample through the cascade, advancing every stage's
    /// delay slot.
    #[verifier::loop_isolation(false)]
    pub fn next(&mut self, rate: u64, x: u64) -> (y: u64)
        requires
            old(self).wf(),
        ensures
            final(self).wf(),
            (final(self).w@, y) == spec_tube_next(old(self).w@, rate, x),
    {
        let ghost ws0 = self.w@;
        let s1: u64 = soft_clip(x, NEG_200, POS_140);
        let mut cur: u64 = f64_add(
            f64_mul(soft_clip(s1, NEG_20, POS_14), P_HARD_CLIP_FINAL),
            f64_mul(ONE_MINUS_P_HARD_CLIP_FINAL, s1),
        );
        let ghost s2 = cur;
        let mut k: usize = 0;
        while k < TUBE_STAGES
            invariant
                0 <= k <= TUBE_STAGES,
                self.w@.len() == TUBE_STAGES,
                forall|j: int| k <= j < TUBE_STAGES ==> self.w@[j] == ws0[j],
                spec_stages_from(ws0, 0, rate, s2) == (
                    self.w@.subrange(0, k as int) + spec_stages_from(ws0, k as nat, rate, cur).0,
                    spec_stages_from(ws0, k as nat, rate, cur).1,
                ),
            decreases TUBE_STAGES - k,
        {
            let st: (u64, u64) = stage(k, self.w[k], rate, cur);
            self.w.set(k, st.0);
            cur = st.1;
            proof {
                assert(self.w@.subrange(0, k + 1) =~= self.w@.subrange(0, k as int).push(st.0));
            }
            k = k + 1;
        }
        proof {
            assert(spec_stages_from(ws0, TUBE_STAGES as nat, rate, cur).0
                =~= Seq::<u64>::empty());
            assert(self.w@.subrange(0, TUBE_STAGES as int) =~= self.w@);
            assert(self.w@ + Seq::<u64>::empty() =~= self.w@);
        }
        shaped(cur)
    }
}

} // verus!
