//! Verified conversions between integers and IEEE-754 bit patterns.
//!
//! Everything here is exact bit manipulation: widening a single-precision
//! pattern to double precision, converting an integer to the nearest
//! single-precision pattern (ties to even, as the hardware casts do),
//! taking the floor of a pattern as an integer, and building the pattern
//! of a power of two.  Each executable function mirrors a spec function
//! that defines the conversion by structural recursion on the bits.

use vstd::prelude::*;
use vstd::arithmetic::power2::{
    pow2,
    lemma_pow2_adds,
    lemma_pow2_strictly_increases,
    lemma_pow2_pos,
    lemma2_to64,
    lemma2_to64_rest,
};
use crate::fbits::{f32_sign, f32_mag, f64_sign, f64_mag, F32_ZERO, F64_ZERO};

verus! {

/// Doubling a positive 24-bit-bounded mantissa until it reaches
/// `[2^23, 2^24)`, decrementing the exponent at each step.
pub open spec fn norm_up32(m: u64, e: int) -> (u64, int)
    decreases 0x100_0000int - m,
{
    if m == 0 || m >= 0x80_0000 {
        (m, e)
    } else {
        norm_up32((m * 2) as u64, e - 1)
    }
}

/// Doubling a positive 53-bit-bounded mantissa until it reaches
/// `[2^52, 2^53)`, decrementing the exponent at each step.
pub open spec fn norm_up64(m: u64, e: int) -> (u64, int)
    decreases 0x20_0000_0000_0000int - m,
{
    if m == 0 || m >= 0x10_0000_0000_0000 {
        (m, e)
    } else {
        norm_up64((m * 2) as u64, e - 1)
    }
}

/// Halving a wide integer until it fits in 24 bits, counting the steps in
/// `e` and collecting the guard bit `g` (the last bit shifted out) and the
/// sticky bit `s` (whether any earlier bit shifted out was set).
pub open spec fn fit24(n: u64, e: nat, g: bool, s: bool) -> (u64, nat, bool, bool)
    decreases n,
{
    if n < 0x100_0000 {
        (n, e, g, s)
    } else {
        fit24(n / 2, e + 1, n % 2 == 1, s || g)
    }
}

/// The single-precision pattern nearest to `n`, ties to even — the value
/// of an `as` cast of `n` to single precision.
pub open spec fn spec_u64_to_f32(n: u64) -> u32 {
    if n == 0 {
        F32_ZERO
    } else if n >= 0x100_0000 {
        let (m, e, g, s) = fit24(n, 0, false, false);
        let m2: u64 = if g && (s || m % 2 == 1) {
            (m + 1) as u64
        } else {
            m
        };
        if m2 == 0x100_0000 {
            ((151 + e) as u32) << 23u32
        } else {
            (((150 + e) as u32) << 23u32) | ((m2 as u32) & 0x7F_FFFF)
        }
    } else {
        let (m, e) = norm_up32(n, 0);
        (((150 + e) as u32) << 23u32) | ((m as u32) & 0x7F_FFFF)
    }
}

/// The single-precision pattern of a signed integer, by magnitude.
pub open spec fn spec_i32_to_f32(v: i32) -> u32 {
    if v >= 0 {
        spec_u64_to_f32(v as u64)
    } else {
        0x8000_0000u32 | spec_u64_to_f32((-(v as int)) as u64)
    }
}

/// The double-precision pattern with the same value as a single-precision
/// pattern — the value of an `as` widening cast.  Exact for every input;
/// a NaN keeps its payload in the widened fraction.
pub open spec fn spec_widen_f32_f64(b: u32) -> u64 {
    let s: u64 = if f32_sign(b) {
        0x8000_0000_0000_0000u64
    } else {
        0u64
    };
    let e: u32 = (b >> 23u32) & 0xFFu32;
    let f: u32 = b & 0x7F_FFFFu32;
    if e == 0xFF {
        s | 0x7FF0_0000_0000_0000u64 | ((f as u64) << 29u64)
    } else if e == 0 {
        if f == 0 {
            s
        } else {
            let (m, ex) = norm_up32(f as u64, -126);
            s | (((ex + 1023) as u64) << 52u64) | (((m as u64) & 0x7F_FFFFu64) << 29u64)
        }
    } else {
        s | (((e + 896) as u64) << 52u64) | ((f as u64) << 29u64)
    }
}

/// The double-precision pattern of an integer below `2^52` — exact.
pub open spec fn spec_small_u64_to_f64(n: u64) -> u64 {
    if n == 0 {
        F64_ZERO
    } else {
        let (m, e) = norm_up64(n, 0);
        (((1075 + e) as u64) << 52u64) | (m & 0xF_FFFF_FFFF_FFFFu64)
    }
}

/// The double-precision pattern of a signed integer of magnitude below
/// `2^52` — exact.
pub open spec fn spec_i64_to_f64(v: i64) -> u64 {
    if v >= 0 {
        spec_small_u64_to_f64(v as u64)
    } else {
        0x8000_0000_0000_0000u64 | spec_small_u64_to_f64((-(v as int)) as u64)
    }
}

/// `pow2` as an executable function, for small exponents.
pub fn pow2_u64(k: u64) -> (r: u64)
    requires
        k <= 63,
    ensures
        r == pow2(k as nat),
{
    proof {
        lemma2_to64();
    }
    let mut r: u64 = 1;
    let mut i: u64 = 0;
    while i < k
        invariant
            i <= k <= 63,
            r == pow2(i as nat),
        decreases k - i,
    {
        proof {
            lemma_pow2_adds(i as nat, 1);
            lemma2_to64();
            if (i + 1) as nat <= 63 {
                lemma_pow2_strictly_increases((i + 1) as nat, 64);
                lemma2_to64_rest();
            }
        }
        r = r * 2;
        i = i + 1;
    }
    r
}

/// Converts an unsigned integer to the nearest single-precision pattern,
/// rounding ties to even — the semantics of an `as` cast to single
/// precision.
pub fn u64_to_f32(n: u64) -> (r: u32)
    ensures
        r == spec_u64_to_f32(n),
{
    if n == 0 {
        return F32_ZERO;
    }
    if n >= 0x100_0000 {
        let mut m: u64 = n;
        let mut e: u64 = 0;
        let mut g: bool = false;
        let mut s: bool = false;
        proof {
            lemma2_to64();
        }
        while m >= 0x100_0000
            invariant
                m >= 1,
                e <= 63,
                pow2(e as nat) * m <= n,
                fit24(m, e as nat, g, s) == fit24(n, 0, false, false),
            decreases m,
        {
            proof {
                lemma_pow2_adds(e as nat, 1);
                lemma2_to64();
                lemma2_to64_rest();
                assert(pow2((e + 1) as nat) * (m / 2) <= pow2(e as nat) * m) by (nonlinear_arith)
                    requires
                        pow2((e + 1) as nat) == pow2(e as nat) * 2,
                        m >= 2,
                ;
                // e stays small: pow2(e) <= pow2(e) * m <= n < 2^64
                assert(pow2((e + 1) as nat) <= pow2((e + 1) as nat) * (m / 2)) by (nonlinear_arith)
                    requires
                        m >= 2,
                        pow2((e + 1) as nat) > 0,
                ;
                lemma_pow2_pos((e + 1) as nat);
                if e + 1 >= 64 {
                    if e + 1 > 64 {
                        lemma_pow2_strictly_increases(64, (e + 1) as nat);
                    }
                    assert(false);
                }
            }
            let newg: bool = m % 2 == 1;
            s = s || g;
            g = newg;
            m = m / 2;
            e = e + 1;
        }
        let up: bool = g && (s || m % 2 == 1);
        let m2: u64 = if up {
            m + 1
        } else {
            m
        };
        if m2 == 0x100_0000 {
            ((151 + e) as u32) << 23u32
        } else {
            (((150 + e) as u32) << 23u32) | ((m2 as u32) & 0x7F_FFFF)
        }
    } else {
        let mut m: u64 = n;
        let mut e: i64 = 0;
        let ghost mut k: nat = 0nat;
        proof {
            lemma2_to64();
        }
        while m < 0x80_0000
            invariant
                1 <= m < 0x100_0000,
                e == -(k as int),
                0 <= k <= 23,
                pow2(k) <= m,
                norm_up32(m, e as int) == norm_up32(n, 0),
            decreases 0x100_0000 - m,
        {
            proof {
                lemma_pow2_adds(k, 1);
                lemma2_to64();
                if k + 1 > 23 {
                    lemma_pow2_strictly_increases(23, k + 1);
                }
            }
            m = m * 2;
            e = e - 1;
            proof {
                k = k + 1nat;
            }
        }
        (((150 + e) as i64) as u32) << 23u32 | ((m as u32) & 0x7F_FFFF)
    }
}

/// Converts a signed integer to the nearest single-precision pattern.
pub fn i32_to_f32(v: i32) -> (r: u32)
    ensures
        r == spec_i32_to_f32(v),
{
    if v >= 0 {
        u64_to_f32(v as u64)
    } else {
        let mag: u64 = (-(v as i64)) as u64;
        0x8000_0000u32 | u64_to_f32(mag)
    }
}

/// Widens a single-precision pattern to the double-precision pattern with
/// the same value (exact, as an `as` widening cast).
pub fn widen_f32_f64(b: u32) -> (r: u64)
    ensures
        r == spec_widen_f32_f64(b),
{
    let s: u64 = if (b & 0x8000_0000) != 0 {
        0x8000_0000_0000_0000u64
    } else {
        0u64
    };
    let e: u32 = (b >> 23u32) & 0xFFu32;
    let f: u32 = b & 0x7F_FFFFu32;
    proof {
        assert((b >> 23u32) & 0xFFu32 < 0x100u32) by (bit_vector);
        assert(b & 0x7F_FFFFu32 < 0x80_0000u32) by (bit_vector);
    }
    if e == 0xFF {
        s | 0x7FF0_0000_0000_0000u64 | ((f as u64) << 29u64)
    } else if e == 0 {
        if f == 0 {
            s
        } else {
            let mut m: u64 = f as u64;
            let mut ex: i64 = -126;
            let ghost mut k: nat = 0nat;
            proof {
                lemma2_to64();
            }
            while m < 0x80_0000
                invariant
                    1 <= m < 0x100_0000,
                    ex == -126 - k,
                    0 <= k <= 23,
                    pow2(k) <= m,
                    norm_up32(m, ex as int) == norm_up32(f as u64, -126),
                decreases 0x100_0000 - m,
            {
                proof {
                    lemma_pow2_adds(k, 1);
                    lemma2_to64();
                    if k + 1 > 23 {
                        lemma_pow2_strictly_increases(23, k + 1);
                    }
                }
                m = m * 2;
                ex = ex - 1;
                proof {
                    k = k + 1nat;
                }
            }
            s | (((ex + 1023) as u64) << 52u64) | (((m as u64) & 0x7F_FFFFu64) << 29u64)
        }
    } else {
        s | (((e + 896) as u64) << 52u64) | ((f as u64) << 29u64)
    }
}

/// Converts an unsigned integer below `2^52` to its exact double-precision
/// pattern.
pub fn small_u64_to_f64(n: u64) -> (r: u64)
    requires
        n < 0x10_0000_0000_0000,
    ensures
        r == spec_small_u64_to_f64(n),
{
    if n == 0 {
        return F64_ZERO;
    }
    let mut m: u64 = n;
    let mut e: i64 = 0;
    let ghost mut k: nat = 0nat;
    proof {
        lemma2_to64();
    }
    while m < 0x10_0000_0000_0000
        invariant
            1 <= m < 0x20_0000_0000_0000,
            e == -(k as int),
            0 <= k <= 52,
            pow2(k) <= m,
            norm_up64(m, e as int) == norm_up64(n, 0),
        decreases 0x20_0000_0000_0000 - m,
    {
        proof {
            lemma_pow2_adds(k, 1);
            lemma2_to64();
            lemma2_to64_rest();
            if k + 1 > 52 {
                lemma_pow2_strictly_increases(52, k + 1);
            }
        }
        m = m * 2;
        e = e - 1;
        proof {
            k = k + 1nat;
        }
    }
    (((1075 + e) as u64) << 52u64) | (m & 0xF_FFFF_FFFF_FFFFu64)
}

/// Converts a signed integer of magnitude below `2^52` to its exact
/// double-precision pattern.
pub fn i64_to_f64(v: i64) -> (r: u64)
    requires
        -0x10_0000_0000_0000 < v < 0x10_0000_0000_0000,
    ensures
        r == spec_i64_to_f64(v),
{
    if v >= 0 {
        small_u64_to_f64(v as u64)
    } else {
        let mag: u64 = (-(v as i128)) as u64;
        0x8000_0000_0000_0000u64 | small_u64_to_f64(mag)
    }
}

/// The floor of a finite single-precision pattern, as an integer.
/// Meaningful for magnitudes below `2^31`.
pub open spec fn spec_floor32(b: u32) -> int {
    let sign = f32_sign(b);
    let e = (((b >> 23u32) & 0xFFu32) as int) - 127;
    let m = ((b & 0x7F_FFFFu32) | 0x80_0000u32) as int;
    if e < 0 {
        if sign && f32_mag(b) != 0u32 {
            -1
        } else {
            0
        }
    } else {
        let d = pow2((150 - (e + 127)) as nat) as int;
        if sign {
            if m % d == 0 {
                -(m / d)
            } else {
                -(m / d) - 1
            }
        } else {
            m / d
        }
    }
}

/// Floor of a single-precision pattern whose magnitude is below `2^24`
/// (every caller reduces its argument into that range first).
pub fn floor32_int(b: u32) -> (r: i64)
    requires
        f32_mag(b) < 0x4B80_0000u32,  // |value| < 2^24
    ensures
        r == spec_floor32(b),
{
    let sign: bool = (b & 0x8000_0000) != 0;
    let ef: u32 = (b >> 23u32) & 0xFFu32;
    let m: u64 = ((b & 0x7F_FFFFu32) | 0x80_0000u32) as u64;
    proof {
        assert(((b & 0x7F_FFFFu32) | 0x80_0000u32) < 0x100_0000u32) by (bit_vector);
        assert((b & 0x7FFF_FFFFu32) < 0x4B80_0000u32 ==> ((b >> 23u32) & 0xFFu32) < 151u32)
            by (bit_vector);
    }
    if ef < 127 {
        if sign && (b & 0x7FFF_FFFF) != 0 {
            -1
        } else {
            0
        }
    } else {
        let d: u64 = pow2_u64((150 - ef) as u64);
        proof {
            lemma_pow2_pos((150 - ef) as nat);
            lemma_pow2_strictly_increases((150 - ef) as nat, 63);
        }
        let ip: u64 = m / d;
        let rem: u64 = m % d;
        if sign {
            if rem == 0 {
                -(ip as i64)
            } else {
                -(ip as i64) - 1
            }
        } else {
            ip as i64
        }
    }
}

/// The floor of a finite double-precision pattern, as an integer.
/// Meaningful for magnitudes below `2^52`.
pub open spec fn spec_floor64(b: u64) -> int {
    let sign = f64_sign(b);
    let e = (((b >> 52u64) & 0x7FFu64) as int) - 1023;
    let m = ((b & 0xF_FFFF_FFFF_FFFFu64) | 0x10_0000_0000_0000u64) as int;
    if e < 0 {
        if sign && f64_mag(b) != 0u64 {
            -1
        } else {
            0
        }
    } else {
        let d = pow2((1075 - (e + 1023)) as nat) as int;
        if sign {
            if m % d == 0 {
                -(m / d)
            } else {
                -(m / d) - 1
            }
        } else {
            m / d
        }
    }
}

/// Floor of a double-precision pattern whose magnitude is below `2^24`
/// (every caller reduces its argument into that range first).
pub fn floor64_int(b: u64) -> (r: i64)
    requires
        f64_mag(b) < 0x4170_0000_0000_0000u64,  // |value| < 2^24
    ensures
        r == spec_floor64(b),
{
    let sign: bool = (b & 0x8000_0000_0000_0000) != 0;
    let ef: u64 = (b >> 52u64) & 0x7FFu64;
    let m: u64 = (b & 0xF_FFFF_FFFF_FFFFu64) | 0x10_0000_0000_0000u64;
    proof {
        assert(((b & 0xF_FFFF_FFFF_FFFFu64) | 0x10_0000_0000_0000u64) < 0x20_0000_0000_0000u64)
            by (bit_vector);
        assert((b & 0x7FFF_FFFF_FFFF_FFFFu64) < 0x4170_0000_0000_0000u64
            ==> ((b >> 52u64) & 0x7FFu64) < 1048u64) by (bit_vector);
    }
    if ef < 1023 {
        if sign && (b & 0x7FFF_FFFF_FFFF_FFFF) != 0 {
            -1
        } else {
            0
        }
    } else {
        let d: u64 = pow2_u64(1075 - ef);
        proof {
            lemma_pow2_pos((1075 - ef) as nat);
            lemma_pow2_strictly_increases((1075 - ef) as nat, 63);
        }
        let ip: u64 = m / d;
        let rem: u64 = m % d;
        if sign {
            if rem == 0 {
                -(ip as i64)
            } else {
                -(ip as i64) - 1
            }
        } else {
            ip as i64
        }
    }
}

/// The single-precision pattern of `2^n` for `n <= 127`
/// (`2^-150` and below underflow to zero; `-149..=-127` give subnormals).
pub open spec fn spec_pow2f32(n: int) -> u32 {
    if n <= -150 {
        F32_ZERO
    } else if n < -126 {
        (pow2((n + 149) as nat) as u32)
    } else {
        ((n + 127) as u32) << 23u32
    }
}

pub fn pow2f32(n: i64) -> (r: u32)
    requires
        n <= 127,
    ensures
        r == spec_pow2f32(n as int),
{
    if n <= -150 {
        F32_ZERO
    } else if n < -126 {
        let p: u64 = pow2_u64((n + 149) as u64);
        proof {
            lemma_pow2_strictly_increases((n + 149) as nat, 32);
            lemma2_to64();
        }
        p as u32
    } else {
        ((n + 127) as u32) << 23u32
    }
}

/// The double-precision pattern of `2^n` for `n <= 1023`
/// (`2^-1075` and below underflow to zero).
pub open spec fn spec_pow2f64(n: int) -> u64 {
    if n <= -1075 {
        F64_ZERO
    } else if n < -1022 {
        pow2((n + 1074) as nat) as u64
    } else {
        ((n + 1023) as u64) << 52u64
    }
}

pub fn pow2f64(n: i64) -> (r: u64)
    requires
        n <= 1023,
    ensures
        r == spec_pow2f64(n as int),
{
    if n <= -1075 {
        F64_ZERO
    } else if n < -1022 {
        let p: u64 = pow2_u64((n + 1074) as u64);
        proof {
            lemma_pow2_strictly_increases((n + 1074) as nat, 63);
        }
        p
    } else {
        ((n + 1023) as u64) << 52u64
    }
}

} // verus!
