//! The crate's deterministic transcendental kernel.
//!
//! The engine needs a base-2 exponential and logarithm, the natural
//! exponential, a square root and a rounding rule.  Each is defined here
//! as a fixed, total function of the input bit pattern: the argument is
//! reduced by exact bit manipulation, a fixed polynomial or iteration is
//! evaluated through the named IEEE operations of [`crate::arith`], and
//! the pieces are recombined.  The spec function of each kernel routine
//! is its exact definition, so two calls on the same pattern always agree
//! and every caller's contract can name the result precisely.  How close
//! each curve runs to the mathematical function is checked numerically by
//! the test suite, not assumed by any proof.

use vstd::prelude::*;
use crate::arith::{
    f32_add_bits, f32_sub_bits, f32_mul_bits, f32_div_bits,
    f64_add_bits, f64_sub_bits, f64_mul_bits, f64_div_bits,
    f32_add, f32_sub, f32_mul, f32_div,
    f64_add, f64_sub, f64_mul, f64_div,
};
use crate::fbits::{
    f32_is_nan, f32_sign, f32_mag, f32_key, f32_le_spec, f32_is_zero, f32_is_finite,
    f64_is_nan, f64_sign, f64_mag, f64_key, f64_le_spec, f64_is_zero, f64_is_finite,
    f32_nan_test, f32_le, f64_nan_test, f64_le,
    F32_ZERO, F32_ONE, F32_TWO, F32_NAN, F32_INF, F32_NEG_INF,
    F64_ZERO, F64_ONE, F64_HALF, F64_NAN, F64_INF,
};
use crate::convert::{
    spec_floor32, spec_floor64, spec_i32_to_f32, spec_i64_to_f64,
    spec_pow2f32, spec_pow2f64, norm_up32, norm_up64,
    floor32_int, floor64_int, i32_to_f32, i64_to_f64, pow2f32, pow2f64,
};

verus! {

// log2(e) in both precisions.
pub const F32_LOG2E: u32 = 0x3FB8_AA3B;
pub const F64_LOG2E: u64 = 0x3FF7_1547_652B_82FE;

// Taylor coefficients of 2^f about 0: (ln 2)^k / k!, single precision.
pub const E2C0: u32 = 0x3F80_0000;
pub const E2C1: u32 = 0x3F31_7218;
pub const E2C2: u32 = 0x3E75_FDF0;
pub const E2C3: u32 = 0x3D63_5847;
pub const E2C4: u32 = 0x3C1D_955B;
pub const E2C5: u32 = 0x3AAE_C3FF;
pub const E2C6: u32 = 0x3921_8489;
pub const E2C7: u32 = 0x377F_E5FE;
pub const E2C8: u32 = 0x35B1_6011;
pub const E2C9: u32 = 0x33DA_929F;

// Taylor coefficients of 2^f about 0: (ln 2)^k / k!, double precision.
pub const D2C0: u64 = 0x3FF0_0000_0000_0000;
pub const D2C1: u64 = 0x3FE6_2E42_FEFA_39EF;
pub const D2C2: u64 = 0x3FCE_BFBD_FF82_C58E;
pub const D2C3: u64 = 0x3FAC_6B08_D704_A0BF;
pub const D2C4: u64 = 0x3F83_B2AB_6FBA_4E77;
pub const D2C5: u64 = 0x3F55_D87F_E78A_6730;
pub const D2C6: u64 = 0x3F24_3091_2F86_C786;
pub const D2C7: u64 = 0x3EEF_FCBF_C588_B0C5;
pub const D2C8: u64 = 0x3EB6_2C02_23A5_C822;
pub const D2C9: u64 = 0x3E7B_5253_D395_E7C1;
pub const D2C10: u64 = 0x3E3E_4CF5_158B_8EC7;
pub const D2C11: u64 = 0x3DFE_8CAC_7351_BB22;
pub const D2C12: u64 = 0x3DBC_3BD6_50FC_2983;
pub const D2C13: u64 = 0x3D78_1619_3166_D0F7;
pub const D2C14: u64 = 0x3D33_1496_4D58_78A7;
pub const D2C15: u64 = 0x3CEC_36E8_43B0_401E;
pub const D2C16: u64 = 0x3CA3_8E89_AE79_F8B1;
pub const D2C17: u64 = 0x3C59_8444_B41C_25A3;

// Odd reciprocals 1/(2k+1) for the logarithm series, single precision.
pub const LGC0: u32 = 0x3F80_0000;
pub const LGC1: u32 = 0x3EAA_AAAB;
pub const LGC2: u32 = 0x3E4C_CCCD;
pub const LGC3: u32 = 0x3E12_4925;
pub const LGC4: u32 = 0x3DE3_8E39;
pub const LGC5: u32 = 0x3DBA_2E8C;

/// The polynomial part of `2^f`, a degree-9 Taylor series evaluated by
/// Horner's rule through the named single-precision operations.
pub open spec fn spec_exp2_frac32(f: u32) -> u32 {
    let t8 = f32_add_bits(E2C8, f32_mul_bits(f, E2C9));
    let t7 = f32_add_bits(E2C7, f32_mul_bits(f, t8));
    let t6 = f32_add_bits(E2C6, f32_mul_bits(f, t7));
    let t5 = f32_add_bits(E2C5, f32_mul_bits(f, t6));
    let t4 = f32_add_bits(E2C4, f32_mul_bits(f, t5));
    let t3 = f32_add_bits(E2C3, f32_mul_bits(f, t4));
    let t2 = f32_add_bits(E2C2, f32_mul_bits(f, t3));
    let t1 = f32_add_bits(E2C1, f32_mul_bits(f, t2));
    f32_add_bits(E2C0, f32_mul_bits(f, t1))
}

fn exp2_frac32(f: u32) -> (r: u32)
    ensures
        r == spec_exp2_frac32(f),
{
    let t8: u32 = f32_add(E2C8, f32_mul(f, E2C9));
    let t7: u32 = f32_add(E2C7, f32_mul(f, t8));
    let t6: u32 = f32_add(E2C6, f32_mul(f, t7));
    let t5: u32 = f32_add(E2C5, f32_mul(f, t6));
    let t4: u32 = f32_add(E2C4, f32_mul(f, t5));
    let t3: u32 = f32_add(E2C3, f32_mul(f, t4));
    let t2: u32 = f32_add(E2C2, f32_mul(f, t3));
    let t1: u32 = f32_add(E2C1, f32_mul(f, t2));
    f32_add(E2C0, f32_mul(f, t1))
}

/// The polynomial part of `2^f`, a degree-17 Taylor series evaluated by
/// Horner's rule through the named double-precision operations.
pub open spec fn spec_exp2_frac64(f: u64) -> u64 {
    let t16 = f64_add_bits(D2C16, f64_mul_bits(f, D2C17));
    let t15 = f64_add_bits(D2C15, f64_mul_bits(f, t16));
    let t14 = f64_add_bits(D2C14, f64_mul_bits(f, t15));
    let t13 = f64_add_bits(D2C13, f64_mul_bits(f, t14));
    let t12 = f64_add_bits(D2C12, f64_mul_bits(f, t13));
    let t11 = f64_add_bits(D2C11, f64_mul_bits(f, t12));
    let t10 = f64_add_bits(D2C10, f64_mul_bits(f, t11));
    let t9 = f64_add_bits(D2C9, f64_mul_bits(f, t10));
    let t8 = f64_add_bits(D2C8, f64_mul_bits(f, t9));
    let t7 = f64_add_bits(D2C7, f64_mul_bits(f, t8));
    let t6 = f64_add_bits(D2C6, f64_mul_bits(f, t7));
    let t5 = f64_add_bits(D2C5, f64_mul_bits(f, t6));
    let t4 = f64_add_bits(D2C4, f64_mul_bits(f, t5));
    let t3 = f64_add_bits(D2C3, f64_mul_bits(f, t4));
    let t2 = f64_add_bits(D2C2, f64_mul_bits(f, t3));
    let t1 = f64_add_bits(D2C1, f64_mul_bits(f, t2));
    f64_add_bits(D2C0, f64_mul_bits(f, t1))
}

fn exp2_frac64(f: u64) -> (r: u64)
    ensures
        r == spec_exp2_frac64(f),
{
    let t16: u64 = f64_add(D2C16, f64_mul(f, D2C17));
    let t15: u64 = f64_add(D2C15, f64_mul(f, t16));
    let t14: u64 = f64_add(D2C14, f64_mul(f, t15));
    let t13: u64 = f64_add(D2C13, f64_mul(f, t14));
    let t12: u64 = f64_add(D2C12, f64_mul(f, t13));
    let t11: u64 = f64_add(D2C11, f64_mul(f, t12));
    let t10: u64 = f64_add(D2C10, f64_mul(f, t11));
    let t9: u64 = f64_add(D2C9, f64_mul(f, t10));
    let t8: u64 = f64_add(D2C8, f64_mul(f, t9));
    let t7: u64 = f64_add(D2C7, f64_mul(f, t8));
    let t6: u64 = f64_add(D2C6, f64_mul(f, t7));
    let t5: u64 = f64_add(D2C5, f64_mul(f, t6));
    let t4: u64 = f64_add(D2C4, f64_mul(f, t5));
    let t3: u64 = f64_add(D2C3, f64_mul(f, t4));
    let t2: u64 = f64_add(D2C2, f64_mul(f, t3));
    let t1: u64 = f64_add(D2C1, f64_mul(f, t2));
    f64_add(D2C0, f64_mul(f, t1))
}

/// The kernel's `2^x` on single-precision patterns: NaN propagates,
/// `x >= 128` saturates to infinity, `x <= -150` flushes to zero, and in
/// between the argument is split as `x = n + f` with `n = floor(x)` and
/// the fraction handled by the polynomial.
pub open spec fn spec_exp2_32(x: u32) -> u32 {
    if f32_is_nan(x) {
        F32_NAN
    } else if f32_le_spec(0x4300_0000u32, x) {
        F32_INF
    } else if f32_le_spec(x, 0xC316_0000u32) {
        F32_ZERO
    } else {
        let n0 = spec_floor32(x);
        let n = if n0 < -150 {
            -150int
        } else if n0 > 127 {
            127int
        } else {
            n0
        };
        let f = f32_sub_bits(x, spec_i32_to_f32(n as i32));
        f32_mul_bits(spec_exp2_frac32(f), spec_pow2f32(n))
    }
}

pub fn exp2_32(x: u32) -> (r: u32)
    ensures
        r == spec_exp2_32(x),
{
    if f32_nan_test(x) {
        F32_NAN
    } else if f32_le(0x4300_0000u32, x) {
        F32_INF
    } else if f32_le(x, 0xC316_0000u32) {
        F32_ZERO
    } else {
        proof {
            // -150 < x < 128 in the key order, so |x| < 150 < 2^24
            assert(f32_mag(0x4300_0000u32) == 0x4300_0000u32) by (bit_vector);
            assert(f32_mag(0xC316_0000u32) == 0x4316_0000u32) by (bit_vector);
            assert(f32_sign(0x4300_0000u32) == false) by (bit_vector);
            assert(f32_sign(0xC316_0000u32) == true) by (bit_vector);
            assert(f32_mag(x) == x & 0x7FFF_FFFFu32);
            assert(f32_sign(x) ==> f32_key(x) == -(f32_mag(x) as int));
        }
        let n0: i64 = floor32_int(x);
        let n: i64 = if n0 < -150 {
            -150
        } else if n0 > 127 {
            127
        } else {
            n0
        };
        let f: u32 = f32_sub(x, i32_to_f32(n as i32));
        f32_mul(exp2_frac32(f), pow2f32(n))
    }
}

/// The kernel's natural exponential on single-precision patterns:
/// `2^(x * log2 e)`.
pub open spec fn spec_exp_32(x: u32) -> u32 {
    spec_exp2_32(f32_mul_bits(x, F32_LOG2E))
}

pub fn exp_32(x: u32) -> (r: u32)
    ensures
        r == spec_exp_32(x),
{
    exp2_32(f32_mul(x, F32_LOG2E))
}

/// The kernel's `2^x` on double-precision patterns, saturating at
/// `x >= 1024` and flushing to zero at `x <= -1080`.
pub open spec fn spec_exp2_64(x: u64) -> u64 {
    if f64_is_nan(x) {
        F64_NAN
    } else if f64_le_spec(0x4090_0000_0000_0000u64, x) {
        F64_INF
    } else if f64_le_spec(x, 0xC090_E000_0000_0000u64) {
        F64_ZERO
    } else {
        let n0 = spec_floor64(x);
        let n = if n0 < -1075 {
            -1075int
        } else if n0 > 1023 {
            1023int
        } else {
            n0
        };
        let f = f64_sub_bits(x, spec_i64_to_f64(n as i64));
        f64_mul_bits(spec_exp2_frac64(f), spec_pow2f64(n))
    }
}

pub fn exp2_64(x: u64) -> (r: u64)
    ensures
        r == spec_exp2_64(x),
{
    if f64_nan_test(x) {
        F64_NAN
    } else if f64_le(0x4090_0000_0000_0000u64, x) {
        F64_INF
    } else if f64_le(x, 0xC090_E000_0000_0000u64) {
        F64_ZERO
    } else {
        proof {
            assert(f64_mag(0x4090_0000_0000_0000u64) == 0x4090_0000_0000_0000u64) by (bit_vector);
            assert(f64_mag(0xC090_E000_0000_0000u64) == 0x4090_E000_0000_0000u64) by (bit_vector);
            assert(f64_sign(0x4090_0000_0000_0000u64) == false) by (bit_vector);
            assert(f64_sign(0xC090_E000_0000_0000u64) == true) by (bit_vector);
            assert(f64_mag(x) == x & 0x7FFF_FFFF_FFFF_FFFFu64);
            assert(f64_sign(x) ==> f64_key(x) == -(f64_mag(x) as int));
        }
        let n0: i64 = floor64_int(x);
        let n: i64 = if n0 < -1075 {
            -1075
        } else if n0 > 1023 {
            1023
        } else {
            n0
        };
        let f: u64 = f64_sub(x, i64_to_f64(n));
        f64_mul(exp2_frac64(f), pow2f64(n))
    }
}

/// The kernel's natural exponential on double-precision patterns:
/// `2^(x * log2 e)`.
pub open spec fn spec_exp_64(x: u64) -> u64 {
    spec_exp2_64(f64_mul_bits(x, F64_LOG2E))
}

pub fn exp_64(x: u64) -> (r: u64)
    ensures
        r == spec_exp_64(x),
{
    exp2_64(f64_mul(x, F64_LOG2E))
}

/// The series part of the kernel logarithm: with `u = s^2`, the sum
/// `1 + u/3 + u^2/5 + u^3/7 + u^4/9 + u^5/11`, evaluated by Horner's rule.
pub open spec fn spec_log2_series32(u: u32) -> u32 {
    let t4 = f32_add_bits(LGC4, f32_mul_bits(u, LGC5));
    let t3 = f32_add_bits(LGC3, f32_mul_bits(u, t4));
    let t2 = f32_add_bits(LGC2, f32_mul_bits(u, t3));
    let t1 = f32_add_bits(LGC1, f32_mul_bits(u, t2));
    f32_add_bits(LGC0, f32_mul_bits(u, t1))
}

fn log2_series32(u: u32) -> (r: u32)
    ensures
        r == spec_log2_series32(u),
{
    let t4: u32 = f32_add(LGC4, f32_mul(u, LGC5));
    let t3: u32 = f32_add(LGC3, f32_mul(u, t4));
    let t2: u32 = f32_add(LGC2, f32_mul(u, t3));
    let t1: u32 = f32_add(LGC1, f32_mul(u, t2));
    f32_add(LGC0, f32_mul(u, t1))
}

/// The mantissa and exponent split of a positive finite single-precision
/// pattern: a pattern `m` in `[0.75, 1.5)` and the exponent `e` with
/// `x = m * 2^e` (subnormals are normalized first).
pub open spec fn spec_log2_reduce32(x: u32) -> (u32, int) {
    let ef = (x >> 23u32) & 0xFFu32;
    let fr = x & 0x7F_FFFFu32;
    let me = if ef == 0 {
        let (m, ex) = norm_up32(fr as u64, -126);
        ((0x3F80_0000u32 | ((m as u32) & 0x7F_FFFF)), ex)
    } else {
        ((0x3F80_0000u32 | fr), ef - 127)
    };
    let mbits = me.0;
    let e = me.1;
    if mbits >= 0x3FC0_0000u32 {
        ((0x3F00_0000u32 | (mbits & 0x7F_FFFFu32)), e + 1)
    } else {
        (mbits, e)
    }
}

/// The kernel's base-2 logarithm on single-precision patterns: NaN for a
/// NaN or negative input, negative infinity at zero, infinity at
/// infinity; otherwise `e + log2(m)` with the mantissa logarithm from the
/// arctanh series `log2(m) = 2 s P(s^2) log2(e)`, `s = (m-1)/(m+1)`.
pub open spec fn spec_log2_32(x: u32) -> u32 {
    if f32_is_nan(x) {
        F32_NAN
    } else if f32_is_zero(x) {
        F32_NEG_INF
    } else if f32_sign(x) {
        F32_NAN
    } else if !f32_is_finite(x) {
        F32_INF
    } else {
        let me = spec_log2_reduce32(x);
        let m = me.0;
        let e = me.1;
        let s = f32_div_bits(f32_sub_bits(m, F32_ONE), f32_add_bits(m, F32_ONE));
        let u = f32_mul_bits(s, s);
        let p = spec_log2_series32(u);
        let lnm = f32_mul_bits(f32_mul_bits(F32_TWO, s), p);
        let logm = f32_mul_bits(lnm, F32_LOG2E);
        f32_add_bits(spec_i32_to_f32(e as i32), logm)
    }
}

pub fn log2_32(x: u32) -> (r: u32)
    ensures
        r == spec_log2_32(x),
{
    if f32_nan_test(x) {
        return F32_NAN;
    }
    if crate::fbits::f32_zero_test(x) {
        return F32_NEG_INF;
    }
    if (x & 0x8000_0000) != 0 {
        return F32_NAN;
    }
    if !crate::fbits::f32_finite_test(x) {
        return F32_INF;
    }
    let ef: u32 = (x >> 23u32) & 0xFFu32;
    let fr: u32 = x & 0x7F_FFFFu32;
    proof {
        assert((x >> 23u32) & 0xFFu32 < 0x100u32) by (bit_vector);
        assert(x & 0x7F_FFFFu32 < 0x80_0000u32) by (bit_vector);
        assert((x & 0x7FFF_FFFFu32 > 0u32 && (x >> 23u32) & 0xFFu32 == 0u32) ==> x & 0x7F_FFFFu32
            > 0u32) by (bit_vector);
    }
    let mut mbits: u32;
    let mut e: i64;
    if ef == 0 {
        let mut m: u64 = fr as u64;
        let mut ex: i64 = -126;
        let ghost mut k: nat = 0nat;
        proof {
            vstd::arithmetic::power2::lemma2_to64();
        }
        while m < 0x80_0000
            invariant
                1 <= m < 0x100_0000,
                ex == -126 - k,
                0 <= k <= 23,
                vstd::arithmetic::power2::pow2(k) <= m,
                norm_up32(m, ex as int) == norm_up32(fr as u64, -126),
            decreases 0x100_0000u64 - m,
        {
            proof {
                vstd::arithmetic::power2::lemma_pow2_adds(k, 1);
                vstd::arithmetic::power2::lemma2_to64();
                if k + 1 > 23 {
                    vstd::arithmetic::power2::lemma_pow2_strictly_increases(23, k + 1);
                }
            }
            m = m * 2;
            ex = ex - 1;
            proof {
                k = k + 1nat;
            }
        }
        mbits = 0x3F80_0000u32 | ((m as u32) & 0x7F_FFFF);
        e = ex;
    } else {
        mbits = 0x3F80_0000u32 | fr;
        e = ef as i64 - 127;
    }
    if mbits >= 0x3FC0_0000u32 {
        mbits = 0x3F00_0000u32 | (mbits & 0x7F_FFFFu32);
        e = e + 1;
    }
    let s: u32 = f32_div(f32_sub(mbits, F32_ONE), f32_add(mbits, F32_ONE));
    let u: u32 = f32_mul(s, s);
    let p: u32 = log2_series32(u);
    let lnm: u32 = f32_mul(f32_mul(F32_TWO, s), p);
    let logm: u32 = f32_mul(lnm, F32_LOG2E);
    f32_add(i32_to_f32(e as i32), logm)
}

/// The kernel square root on double-precision patterns: NaN for NaN or
/// negative input, the zeros and infinity map to themselves, and a
/// positive finite input runs seven Newton steps from the power-of-two
/// initial guess `2^floor(e/2)`.
pub open spec fn spec_sqrt_64(x: u64) -> u64 {
    if f64_is_nan(x) {
        F64_NAN
    } else if f64_is_zero(x) {
        x
    } else if f64_sign(x) {
        F64_NAN
    } else if !f64_is_finite(x) {
        F64_INF
    } else {
        let ef = (x >> 52u64) & 0x7FFu64;
        let e = if ef == 0 {
            let (m, ex) = norm_up64((x & 0xF_FFFF_FFFF_FFFFu64) as u64, -1022);
            ex
        } else {
            ef - 1023
        };
        let e2 = if e >= 0 {
            e / 2
        } else {
            -((-e + 1) / 2)
        };
        let g0 = spec_pow2f64(e2);
        let g1 = f64_mul_bits(F64_HALF, f64_add_bits(g0, f64_div_bits(x, g0)));
        let g2 = f64_mul_bits(F64_HALF, f64_add_bits(g1, f64_div_bits(x, g1)));
        let g3 = f64_mul_bits(F64_HALF, f64_add_bits(g2, f64_div_bits(x, g2)));
        let g4 = f64_mul_bits(F64_HALF, f64_add_bits(g3, f64_div_bits(x, g3)));
        let g5 = f64_mul_bits(F64_HALF, f64_add_bits(g4, f64_div_bits(x, g4)));
        let g6 = f64_mul_bits(F64_HALF, f64_add_bits(g5, f64_div_bits(x, g5)));
        f64_mul_bits(F64_HALF, f64_add_bits(g6, f64_div_bits(x, g6)))
    }
}

pub fn sqrt_64(x: u64) -> (r: u64)
    ensures
        r == spec_sqrt_64(x),
{
    if f64_nan_test(x) {
        return F64_NAN;
    }
    if crate::fbits::f64_zero_test(x) {
        return x;
    }
    if (x & 0x8000_0000_0000_0000) != 0 {
        return F64_NAN;
    }
    if !crate::fbits::f64_finite_test(x) {
        return F64_INF;
    }
    let ef: u64 = (x >> 52u64) & 0x7FFu64;
    proof {
        assert((x >> 52u64) & 0x7FFu64 < 0x800u64) by (bit_vector);
        assert(x & 0xF_FFFF_FFFF_FFFFu64 < 0x10_0000_0000_0000u64) by (bit_vector);
        assert((x & 0x7FFF_FFFF_FFFF_FFFFu64 > 0u64 && (x >> 52u64) & 0x7FFu64 == 0u64) ==> x
            & 0xF_FFFF_FFFF_FFFFu64 > 0u64) by (bit_vector);
    }
    let e: i64;
    if ef == 0 {
        let fr: u64 = x & 0xF_FFFF_FFFF_FFFFu64;
        let mut m: u64 = fr;
        let mut ex: i64 = -1022;
        let ghost mut k: nat = 0nat;
        proof {
            vstd::arithmetic::power2::lemma2_to64();
        }
        while m < 0x10_0000_0000_0000
            invariant
                1 <= m < 0x20_0000_0000_0000,
                ex == -1022 - k,
                0 <= k <= 52,
                vstd::arithmetic::power2::pow2(k) <= m,
                norm_up64(m, ex as int) == norm_up64(fr, -1022),
            decreases 0x20_0000_0000_0000u64 - m,
        {
            proof {
                vstd::arithmetic::power2::lemma_pow2_adds(k, 1);
                vstd::arithmetic::power2::lemma2_to64();
                vstd::arithmetic::power2::lemma2_to64_rest();
                if k + 1 > 52 {
                    vstd::arithmetic::power2::lemma_pow2_strictly_increases(52, k + 1);
                }
            }
            m = m * 2;
            ex = ex - 1;
            proof {
                k = k + 1nat;
            }
        }
        e = ex;
    } else {
        e = ef as i64 - 1023;
    }
    let e2: i64 = if e >= 0 {
        e / 2
    } else {
        -((-e + 1) / 2)
    };
    let g0: u64 = pow2f64(e2);
    let g1: u64 = f64_mul(F64_HALF, f64_add(g0, f64_div(x, g0)));
    let g2: u64 = f64_mul(F64_HALF, f64_add(g1, f64_div(x, g1)));
    let g3: u64 = f64_mul(F64_HALF, f64_add(g2, f64_div(x, g2)));
    let g4: u64 = f64_mul(F64_HALF, f64_add(g3, f64_div(x, g3)));
    let g5: u64 = f64_mul(F64_HALF, f64_add(g4, f64_div(x, g4)));
    let g6: u64 = f64_mul(F64_HALF, f64_add(g5, f64_div(x, g5)));
    f64_mul(F64_HALF, f64_add(g6, f64_div(x, g6)))
}

/// Rounding half away from zero, as an integer, for single-precision
/// patterns of magnitude below `2^23`; NaN rounds to zero.
pub open spec fn spec_round32(b: u32) -> int {
    if f32_is_nan(b) {
        0
    } else {
        let e = (((b >> 23u32) & 0xFFu32) as int) - 127;
        let m = ((b & 0x7F_FFFFu32) | 0x80_0000u32) as int;
        let mag: int = if e < -1 {
            0
        } else if e == -1 {
            1
        } else {
            let d = vstd::arithmetic::power2::pow2((150 - (e + 127)) as nat) as int;
            if m % d >= (d + 1) / 2 {
                m / d + 1
            } else {
                m / d
            }
        };
        if f32_sign(b) {
            -mag
        } else {
            mag
        }
    }
}

/// Rounds a single-precision pattern half away from zero.
pub fn round32_int(b: u32) -> (r: i64)
    requires
        f32_mag(b) < 0x4B00_0000u32,  // |value| < 2^23
    ensures
        r == spec_round32(b),
{
    if f32_nan_test(b) {
        return 0;
    }
    let sign: bool = (b & 0x8000_0000) != 0;
    let ef: u32 = (b >> 23u32) & 0xFFu32;
    let m: u64 = ((b & 0x7F_FFFFu32) | 0x80_0000u32) as u64;
    proof {
        assert(((b & 0x7F_FFFFu32) | 0x80_0000u32) < 0x100_0000u32) by (bit_vector);
        assert((b & 0x7FFF_FFFFu32) < 0x4B00_0000u32 ==> ((b >> 23u32) & 0xFFu32) < 150u32)
            by (bit_vector);
    }
    let mag: u64 = if ef < 126 {
        0
    } else if ef == 126 {
        1
    } else {
        let d: u64 = crate::convert::pow2_u64((150 - ef) as u64);
        proof {
            vstd::arithmetic::power2::lemma_pow2_pos((150 - ef) as nat);
            vstd::arithmetic::power2::lemma_pow2_strictly_increases((150 - ef) as nat, 63);
            vstd::arithmetic::power2::lemma2_to64_rest();
        }
        let ip: u64 = m / d;
        let rem: u64 = m % d;
        if rem >= (d + 1) / 2 {
            ip + 1
        } else {
            ip
        }
    };
    if sign {
        -(mag as i64)
    } else {
        mag as i64
    }
}

} // verus!
