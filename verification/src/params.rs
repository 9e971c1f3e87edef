//! The control surface: the live parameter store, the per-block snapshot,
//! the normalized knob mappings and the preset byte layout.
//!
//! Every scalar control is held as a single-precision bit pattern.  The
//! snapshot is an immutable copy of the store taken once per block; two
//! snapshots are "identical" exactly when they are bit-identical.

use vstd::prelude::*;
use crate::arith::{
    f32_add_bits, f32_sub_bits, f32_mul_bits, f32_div_bits,
    f32_add, f32_sub, f32_mul, f32_div,
};
use crate::fbits::{
    f32_min_spec, f32_max_spec, f32_is_nan, f32_mag,
    f32_min, f32_max, f32_nan_test,
    F32_ZERO, F32_ONE, F32_TWO, F32_HALF,
};
use crate::kernel::{spec_log2_32, spec_exp2_32, log2_32, exp2_32, spec_round32, round32_int};
use crate::convert::{spec_i32_to_f32, i32_to_f32};
use crate::kinds::{FilterKind, spec_kind_from_index};

verus! {

// Bit patterns of the control-range constants.
pub const MIN_FREQ: u32 = 0x3F80_0000;  // 1 Hz
pub const MAX_FREQ: u32 = 0x46EA_6000;  // 30 kHz
pub const MIN_RIPPLE: u32 = 0x3F80_0000;  // 1 dB
pub const RIPPLE_SPAN: u32 = 0x42C6_0000;  // 99 dB between the ripple bounds
pub const F32_THREE: u32 = 0x4040_0000;
pub const FREQ_SCALE: u32 = 0x3F80_0008;  // 1.000001, the knob overshoot guard
pub const DEF_RIPPLE: u32 = 0x4040_0000;  // 3 dB
pub const DEF_ATTEN: u32 = 0x4220_0000;  // 40 dB
pub const DEF_RATE: u32 = 0x472C_4400;  // 44.1 kHz
pub const DEF_BANDWIDTH: u32 = 0x3F00_0000;  // 0.5
pub const DEF_MIX: u32 = 0x3F80_0000;  // 1
pub const DEF_FREQ_POS1: u32 = 0x3E99_999A;  // 0.3 of the log range
pub const DEF_FREQ_POS2: u32 = 0x3F33_3333;  // 0.7 of the log range

/// The eight automatable controls, in their fixed enumeration order —
/// the order of the preset byte layout.
#[derive(Clone, Copy, PartialEq, Eq, Structural, Debug)]
pub enum SpecfilterParam {
    FilterKind,
    Mix,
    PassbandRipple,
    StopbandAttenuation,
    Frequency1,
    Frequency2,
    Bandwidth1,
    Bandwidth2,
}

/// The number of controls.
pub const PARAM_COUNT: u8 = 8;

pub open spec fn spec_param_index(p: SpecfilterParam) -> int {
    match p {
        SpecfilterParam::FilterKind => 0,
        SpecfilterParam::Mix => 1,
        SpecfilterParam::PassbandRipple => 2,
        SpecfilterParam::StopbandAttenuation => 3,
        SpecfilterParam::Frequency1 => 4,
        SpecfilterParam::Frequency2 => 5,
        SpecfilterParam::Bandwidth1 => 6,
        SpecfilterParam::Bandwidth2 => 7,
    }
}

impl SpecfilterParam {
    pub fn index(self) -> (i: i32)
        ensures
            i == spec_param_index(self),
    {
        match self {
            SpecfilterParam::FilterKind => 0,
            SpecfilterParam::Mix => 1,
            SpecfilterParam::PassbandRipple => 2,
            SpecfilterParam::StopbandAttenuation => 3,
            SpecfilterParam::Frequency1 => 4,
            SpecfilterParam::Frequency2 => 5,
            SpecfilterParam::Bandwidth1 => 6,
            SpecfilterParam::Bandwidth2 => 7,
        }
    }
}

/// An immutable snapshot of the design-relevant controls, taken once per
/// block.  Comparison is bitwise.
#[derive(Clone, Copy, PartialEq, Eq, Structural, Debug)]
pub struct SpecfilterParamData {
    pub filter_kind: FilterKind,
    pub passband_ripple: u32,
    pub stopband_attenuation: u32,
    pub frequency1: u32,
    pub frequency2: u32,
    pub bandwidth1: u32,
    pub bandwidth2: u32,
}

/// One exponential smoothing step of a scalar:
/// `new * a + old * (1 - a)`, in that operation order.
pub open spec fn spec_blend(new: u32, old: u32, a: u32) -> u32 {
    f32_add_bits(f32_mul_bits(new, a), f32_mul_bits(old, f32_sub_bits(F32_ONE, a)))
}

/// The snapshot after one smoothing step toward `new` with factor `a`:
/// the family switches immediately, every scalar is blended.
pub open spec fn spec_change(old: SpecfilterParamData, new: SpecfilterParamData, a: u32)
    -> SpecfilterParamData {
    SpecfilterParamData {
        filter_kind: new.filter_kind,
        passband_ripple: spec_blend(new.passband_ripple, old.passband_ripple, a),
        stopband_attenuation: spec_blend(new.stopband_attenuation, old.stopband_attenuation, a),
        frequency1: spec_blend(new.frequency1, old.frequency1, a),
        frequency2: spec_blend(new.frequency2, old.frequency2, a),
        bandwidth1: spec_blend(new.bandwidth1, old.bandwidth1, a),
        bandwidth2: spec_blend(new.bandwidth2, old.bandwidth2, a),
    }
}

impl SpecfilterParamData {
    /// Blends every scalar of the held snapshot toward `new` with
    /// smoothing factor `a` and adopts `new`'s filter family.
    pub fn change(&mut self, new: SpecfilterParamData, a: u32)
        ensures
            *final(self) == spec_change(*old(self), new, a),
    {
        let omc: u32 = f32_sub(F32_ONE, a);
        self.filter_kind = new.filter_kind;
        self.passband_ripple = f32_add(
            f32_mul(new.passband_ripple, a),
            f32_mul(self.passband_ripple, omc),
        );
        self.stopband_attenuation = f32_add(
            f32_mul(new.stopband_attenuation, a),
            f32_mul(self.stopband_attenuation, omc),
        );
        self.frequency1 = f32_add(f32_mul(new.frequency1, a), f32_mul(self.frequency1, omc));
        self.frequency2 = f32_add(f32_mul(new.frequency2, a), f32_mul(self.frequency2, omc));
        self.bandwidth1 = f32_add(f32_mul(new.bandwidth1, a), f32_mul(self.bandwidth1, omc));
        self.bandwidth2 = f32_add(f32_mul(new.bandwidth2, a), f32_mul(self.bandwidth2, omc));
    }
}

/// The live control store written through the normalized knob interface.
/// All fields are bit patterns except the family index.
#[derive(Clone, Copy, PartialEq, Eq, Structural, Debug)]
pub struct SpecfilterParameters {
    pub filter_kind: u8,
    pub passband_ripple: u32,
    pub stopband_attenuation: u32,
    pub frequency1: u32,
    pub frequency2: u32,
    pub bandwidth1: u32,
    pub bandwidth2: u32,
    pub mix: u32,
    pub rate: u32,
}

/// The upper frequency bound at a sample rate: 30 kHz, or the Nyquist
/// frequency when the rate is lower.
pub open spec fn spec_max_freq(rate: u32) -> u32 {
    f32_min_spec(MAX_FREQ, f32_div_bits(rate, F32_TWO))
}

pub fn max_freq_at(rate: u32) -> (r: u32)
    ensures
        r == spec_max_freq(rate),
{
    f32_min(MAX_FREQ, f32_div(rate, F32_TWO))
}

/// The normalized `[0,1]` reading of one control, before the final clamp.
pub open spec fn spec_get_parameter_raw(s: SpecfilterParameters, index: int) -> u32 {
    if index == 0 {
        f32_div_bits(spec_i32_to_f32(s.filter_kind as i32), F32_THREE)
    } else if index == 1 {
        s.mix
    } else if index == 2 {
        f32_div_bits(f32_sub_bits(s.passband_ripple, MIN_RIPPLE), RIPPLE_SPAN)
    } else if index == 3 {
        f32_div_bits(f32_sub_bits(s.stopband_attenuation, MIN_RIPPLE), RIPPLE_SPAN)
    } else if index == 4 || index == 5 {
        let f = if index == 4 {
            s.frequency1
        } else {
            s.frequency2
        };
        let lmin = spec_log2_32(MIN_FREQ);
        let lmax = spec_log2_32(spec_max_freq(s.rate));
        f32_div_bits(f32_sub_bits(spec_log2_32(f), lmin), f32_sub_bits(lmax, lmin))
    } else {
        let bw = if index == 6 {
            s.bandwidth1
        } else {
            s.bandwidth2
        };
        f32_mul_bits(f32_add_bits(bw, F32_ONE), F32_HALF)
    }
}

/// The normalized `[0,1]` reading of one control: the raw mapping above,
/// clamped into `[0,1]`.
pub open spec fn spec_get_parameter(s: SpecfilterParameters, index: int) -> u32 {
    f32_max_spec(f32_min_spec(spec_get_parameter_raw(s, index), F32_ONE), F32_ZERO)
}

/// The family index a normalized knob value selects: the value times the
/// last index, rounded half away from zero, saturated into the index
/// range (a NaN knob selects the first family).
pub open spec fn spec_knob_kind(value: u32) -> u8 {
    let v3 = f32_mul_bits(value, F32_THREE);
    if f32_is_nan(v3) {
        0u8
    } else {
        let c = f32_max_spec(f32_min_spec(v3, F32_THREE), F32_ZERO);
        let r = spec_round32(c);
        if r < 0 {
            0u8
        } else if r > 3 {
            3u8
        } else {
            r as u8
        }
    }
}

/// The store after one normalized write to one control.
pub open spec fn spec_set_parameter(s: SpecfilterParameters, index: int, value: u32)
    -> SpecfilterParameters {
    if index == 0 {
        SpecfilterParameters { filter_kind: spec_knob_kind(value), ..s }
    } else if index == 1 {
        SpecfilterParameters { mix: value, ..s }
    } else if index == 2 {
        SpecfilterParameters {
            passband_ripple: f32_add_bits(f32_mul_bits(value, RIPPLE_SPAN), MIN_RIPPLE),
            ..s
        }
    } else if index == 3 {
        SpecfilterParameters {
            stopband_attenuation: f32_add_bits(f32_mul_bits(value, RIPPLE_SPAN), MIN_RIPPLE),
            ..s
        }
    } else if index == 4 || index == 5 {
        let mf = spec_max_freq(s.rate);
        let lmin = spec_log2_32(MIN_FREQ);
        let lmax = spec_log2_32(mf);
        let raw = spec_exp2_32(
            f32_add_bits(
                f32_mul_bits(f32_mul_bits(value, FREQ_SCALE), f32_sub_bits(lmax, lmin)),
                lmin,
            ),
        );
        let clamped = f32_max_spec(f32_min_spec(raw, mf), MIN_FREQ);
        if index == 4 {
            SpecfilterParameters { frequency1: clamped, ..s }
        } else {
            SpecfilterParameters { frequency2: clamped, ..s }
        }
    } else {
        let bw = f32_sub_bits(f32_mul_bits(value, F32_TWO), F32_ONE);
        if index == 6 {
            SpecfilterParameters { bandwidth1: bw, ..s }
        } else {
            SpecfilterParameters { bandwidth2: bw, ..s }
        }
    }
}

impl SpecfilterParameters {
    /// Reads one control as its normalized `[0,1]` knob value.
    pub fn get_parameter(&self, index: i32) -> (r: u32)
        requires
            0 <= index < 8,
        ensures
            r == spec_get_parameter(*self, index as int),
    {
        let raw: u32 = if index == 0 {
            f32_div(i32_to_f32(self.filter_kind as i32), F32_THREE)
        } else if index == 1 {
            self.mix
        } else if index == 2 {
            f32_div(f32_sub(self.passband_ripple, MIN_RIPPLE), RIPPLE_SPAN)
        } else if index == 3 {
            f32_div(f32_sub(self.stopband_attenuation, MIN_RIPPLE), RIPPLE_SPAN)
        } else if index == 4 || index == 5 {
            let f: u32 = if index == 4 {
                self.frequency1
            } else {
                self.frequency2
            };
            let lmin: u32 = log2_32(MIN_FREQ);
            let lmax: u32 = log2_32(max_freq_at(self.rate));
            f32_div(f32_sub(log2_32(f), lmin), f32_sub(lmax, lmin))
        } else {
            let bw: u32 = if index == 6 {
                self.bandwidth1
            } else {
                self.bandwidth2
            };
            f32_mul(f32_add(bw, F32_ONE), F32_HALF)
        };
        f32_max(f32_min(raw, F32_ONE), F32_ZERO)
    }

    /// Writes one control from its normalized `[0,1]` knob value,
    /// applying the control's non-linear mapping.
    pub fn set_parameter(&mut self, index: i32, value: u32)
        requires
            0 <= index < 8,
        ensures
            *final(self) == spec_set_parameter(*old(self), index as int, value),
    {
        if index == 0 {
            let v3: u32 = f32_mul(value, F32_THREE);
            if f32_nan_test(v3) {
                self.filter_kind = 0;
            } else {
                let c: u32 = f32_max(f32_min(v3, F32_THREE), F32_ZERO);
                proof {
                    // the clamped knob is one of v3, 3 or 0, each below 2^23
                    assert(0x4040_0000u32 & 0x7FFF_FFFFu32 == 0x4040_0000u32) by (bit_vector);
                    assert(0u32 & 0x7FFF_FFFFu32 == 0u32) by (bit_vector);
                    assert(f32_mag(c) < 0x4B00_0000u32);
                }
                let r: i64 = round32_int(c);
                self.filter_kind = if r < 0 {
                    0
                } else if r > 3 {
                    3
                } else {
                    r as u8
                };
            }
        } else if index == 1 {
            self.mix = value;
        } else if index == 2 {
            self.passband_ripple = f32_add(f32_mul(value, RIPPLE_SPAN), MIN_RIPPLE);
        } else if index == 3 {
            self.stopband_attenuation = f32_add(f32_mul(value, RIPPLE_SPAN), MIN_RIPPLE);
        } else if index == 4 || index == 5 {
            let mf: u32 = max_freq_at(self.rate);
            let lmin: u32 = log2_32(MIN_FREQ);
            let lmax: u32 = log2_32(mf);
            let raw: u32 = exp2_32(
                f32_add(f32_mul(f32_mul(value, FREQ_SCALE), f32_sub(lmax, lmin)), lmin),
            );
            let clamped: u32 = f32_max(f32_min(raw, mf), MIN_FREQ);
            if index == 4 {
                self.frequency1 = clamped;
            } else {
                self.frequency2 = clamped;
            }
        } else {
            let bw: u32 = f32_sub(f32_mul(value, F32_TWO), F32_ONE);
            if index == 6 {
                self.bandwidth1 = bw;
            } else {
                self.bandwidth2 = bw;
            }
        }
    }

    /// The filter family the store currently selects.
    pub fn filter_kind(&self) -> (k: FilterKind)
        ensures
            k == spec_kind_from_index(self.filter_kind),
    {
        FilterKind::from_index(self.filter_kind)
    }

    /// Takes the immutable per-block snapshot of the design controls.
    pub fn snapshot(&self) -> (d: SpecfilterParamData)
        ensures
            d == spec_snapshot(*self),
    {
        SpecfilterParamData {
            filter_kind: FilterKind::from_index(self.filter_kind),
            passband_ripple: self.passband_ripple,
            stopband_attenuation: self.stopband_attenuation,
            frequency1: self.frequency1,
            frequency2: self.frequency2,
            bandwidth1: self.bandwidth1,
            bandwidth2: self.bandwidth2,
        }
    }

    /// Rolls the design controls back to a snapshot, leaving the mix and
    /// the sample rate untouched.
    pub fn reset_to(&mut self, to: SpecfilterParamData)
        ensures
            final(self).filter_kind == crate::kinds::spec_kind_index(to.filter_kind),
            final(self).passband_ripple == to.passband_ripple,
            final(self).stopband_attenuation == to.stopband_attenuation,
            final(self).frequency1 == to.frequency1,
            final(self).frequency2 == to.frequency2,
            final(self).bandwidth1 == to.bandwidth1,
            final(self).bandwidth2 == to.bandwidth2,
            final(self).mix == old(self).mix,
            final(self).rate == old(self).rate,
    {
        self.filter_kind = to.filter_kind.index();
        self.passband_ripple = to.passband_ripple;
        self.stopband_attenuation = to.stopband_attenuation;
        self.frequency1 = to.frequency1;
        self.frequency2 = to.frequency2;
        self.bandwidth1 = to.bandwidth1;
        self.bandwidth2 = to.bandwidth2;
    }

    /// The display name of one control.
    pub fn get_parameter_name(&self, index: i32) -> (r: String)
        requires
            0 <= index < 8,
        ensures
            index == 0 ==> r@ == "Filter type"@,
            index == 1 ==> r@ == "Mix"@,
            index == 2 ==> r@ == "Passband ripple"@,
            index == 3 ==> r@ == "Stopband attenuation"@,
            index == 4 ==> r@ == "Frequency 1"@,
            index == 5 ==> r@ == "Frequency 2"@,
            index == 6 ==> r@ == "Bandwidth 1"@,
            index == 7 ==> r@ == "Bandwidth 2"@,
    {
        if index == 0 {
            "Filter type".to_string()
        } else if index == 1 {
            "Mix".to_string()
        } else if index == 2 {
            "Passband ripple".to_string()
        } else if index == 3 {
            "Stopband attenuation".to_string()
        } else if index == 4 {
            "Frequency 1".to_string()
        } else if index == 5 {
            "Frequency 2".to_string()
        } else if index == 6 {
            "Bandwidth 1".to_string()
        } else {
            "Bandwidth 2".to_string()
        }
    }

    /// Whether a host index addresses one of the eight controls.
    pub fn can_be_automated(&self, index: i32) -> (r: bool)
        ensures
            r == (index < PARAM_COUNT as i32),
    {
        index < PARAM_COUNT as i32
    }
}

/// The snapshot a store yields.
pub open spec fn spec_snapshot(s: SpecfilterParameters) -> SpecfilterParamData {
    SpecfilterParamData {
        filter_kind: spec_kind_from_index(s.filter_kind),
        passband_ripple: s.passband_ripple,
        stopband_attenuation: s.stopband_attenuation,
        frequency1: s.frequency1,
        frequency2: s.frequency2,
        bandwidth1: s.bandwidth1,
        bandwidth2: s.bandwidth2,
    }
}

impl Default for SpecfilterParameters {
    /// The store at first construction: a Butterworth at 3 dB ripple and
    /// 40 dB attenuation, corners at 0.3 and 0.7 of the log range, both
    /// bandwidth knobs at 0.5, full mix, at a 44.1 kHz rate.
    fn default() -> (s: SpecfilterParameters)
        ensures
            s == spec_default_parameters(),
    {
        let rate: u32 = DEF_RATE;
        let mf: u32 = max_freq_at(rate);
        let lmin: u32 = log2_32(MIN_FREQ);
        let lmax: u32 = log2_32(mf);
        let span: u32 = f32_sub(lmax, lmin);
        let f1: u32 = exp2_32(f32_add(f32_mul(DEF_FREQ_POS1, span), lmin));
        let f2: u32 = exp2_32(f32_add(f32_mul(DEF_FREQ_POS2, span), lmin));
        SpecfilterParameters {
            filter_kind: 0,
            passband_ripple: DEF_RIPPLE,
            stopband_attenuation: DEF_ATTEN,
            frequency1: f1,
            frequency2: f2,
            bandwidth1: DEF_BANDWIDTH,
            bandwidth2: DEF_BANDWIDTH,
            mix: DEF_MIX,
            rate,
        }
    }
}

/// The default store.
pub open spec fn spec_default_parameters() -> SpecfilterParameters {
    let lmin = spec_log2_32(MIN_FREQ);
    let lmax = spec_log2_32(spec_max_freq(DEF_RATE));
    let span = f32_sub_bits(lmax, lmin);
    SpecfilterParameters {
        filter_kind: 0,
        passband_ripple: DEF_RIPPLE,
        stopband_attenuation: DEF_ATTEN,
        frequency1: spec_exp2_32(f32_add_bits(f32_mul_bits(DEF_FREQ_POS1, span), lmin)),
        frequency2: spec_exp2_32(f32_add_bits(f32_mul_bits(DEF_FREQ_POS2, span), lmin)),
        bandwidth1: DEF_BANDWIDTH,
        bandwidth2: DEF_BANDWIDTH,
        mix: DEF_MIX,
        rate: DEF_RATE,
    }
}

} // verus!
