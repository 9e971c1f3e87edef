//! Verified bit-level view of IEEE-754 values.
//!
//! A single-precision value is carried as its bit pattern in a `u32`, a
//! double-precision value as its bit pattern in a `u64`.  Everything that
//! can be read off a pattern without arithmetic — the class of the value
//! (NaN, finite, zero), the sign, the ordering of two values, the
//! NaN-ignoring minimum and maximum, the absolute value — is ordinary
//! integer logic and is implemented and verified here.
//!
//! Ordering uses the sign-magnitude key of a pattern: non-NaN values
//! compare exactly as their keys do, and the two zeros share the key `0`,
//! which reproduces the IEEE partial order (any comparison with a NaN is
//! false).

use vstd::prelude::*;

verus! {

// Frequently used single-precision bit patterns.
pub const F32_ZERO: u32 = 0x0000_0000;
pub const F32_ONE: u32 = 0x3F80_0000;
pub const F32_TWO: u32 = 0x4000_0000;
pub const F32_HALF: u32 = 0x3F00_0000;
pub const F32_NAN: u32 = 0x7FC0_0000;
pub const F32_INF: u32 = 0x7F80_0000;
pub const F32_NEG_INF: u32 = 0xFF80_0000;

// Frequently used double-precision bit patterns.
pub const F64_ZERO: u64 = 0x0000_0000_0000_0000;
pub const F64_ONE: u64 = 0x3FF0_0000_0000_0000;
pub const F64_TWO: u64 = 0x4000_0000_0000_0000;
pub const F64_HALF: u64 = 0x3FE0_0000_0000_0000;
pub const F64_NAN: u64 = 0x7FF8_0000_0000_0000;
pub const F64_INF: u64 = 0x7FF0_0000_0000_0000;

/// The sign bit of a single-precision pattern.
pub open spec fn f32_sign(b: u32) -> bool {
    b & 0x8000_0000u32 != 0u32
}

/// The magnitude (exponent and fraction) of a single-precision pattern.
pub open spec fn f32_mag(b: u32) -> u32 {
    b & 0x7FFF_FFFFu32
}

/// Whether a single-precision pattern is a NaN.
pub open spec fn f32_is_nan(b: u32) -> bool {
    f32_mag(b) > 0x7F80_0000u32
}

/// Whether a single-precision pattern is finite (neither NaN nor infinite).
pub open spec fn f32_is_finite(b: u32) -> bool {
    f32_mag(b) < 0x7F80_0000u32
}

/// Whether a single-precision pattern is one of the two zeros.
pub open spec fn f32_is_zero(b: u32) -> bool {
    f32_mag(b) == 0u32
}

/// Sign-magnitude ordering key: non-NaN values order as their keys do,
/// and both zeros share the key `0`.
pub open spec fn f32_key(b: u32) -> int {
    if f32_sign(b) {
        -(f32_mag(b) as int)
    } else {
        f32_mag(b) as int
    }
}

/// The IEEE `<=` relation on single-precision patterns: false whenever an
/// operand is NaN, the key order otherwise.
pub open spec fn f32_le_spec(a: u32, b: u32) -> bool {
    !f32_is_nan(a) && !f32_is_nan(b) && f32_key(a) <= f32_key(b)
}

/// The IEEE `<` relation on single-precision patterns.
pub open spec fn f32_lt_spec(a: u32, b: u32) -> bool {
    !f32_is_nan(a) && !f32_is_nan(b) && f32_key(a) < f32_key(b)
}

/// The NaN-ignoring maximum: a NaN operand yields the other operand,
/// otherwise the larger by key (the first on a tie).
pub open spec fn f32_max_spec(a: u32, b: u32) -> u32 {
    if f32_is_nan(a) {
        b
    } else if f32_is_nan(b) {
        a
    } else if f32_lt_spec(a, b) {
        b
    } else {
        a
    }
}

/// The NaN-ignoring minimum: a NaN operand yields the other operand,
/// otherwise the smaller by key (the first on a tie).
pub open spec fn f32_min_spec(a: u32, b: u32) -> u32 {
    if f32_is_nan(a) {
        b
    } else if f32_is_nan(b) {
        a
    } else if f32_lt_spec(b, a) {
        b
    } else {
        a
    }
}

/// The absolute value of a single-precision pattern: the sign bit cleared.
pub open spec fn f32_abs_spec(b: u32) -> u32 {
    f32_mag(b)
}

pub fn f32_nan_test(b: u32) -> (r: bool)
    ensures
        r == f32_is_nan(b),
{
    (b & 0x7FFF_FFFF) > 0x7F80_0000
}

pub fn f32_finite_test(b: u32) -> (r: bool)
    ensures
        r == f32_is_finite(b),
{
    (b & 0x7FFF_FFFF) < 0x7F80_0000
}

pub fn f32_zero_test(b: u32) -> (r: bool)
    ensures
        r == f32_is_zero(b),
{
    (b & 0x7FFF_FFFF) == 0
}

pub fn f32_le(a: u32, b: u32) -> (r: bool)
    ensures
        r == f32_le_spec(a, b),
{
    let ma: u32 = a & 0x7FFF_FFFF;
    let mb: u32 = b & 0x7FFF_FFFF;
    if ma > 0x7F80_0000 || mb > 0x7F80_0000 {
        false
    } else {
        let sa: bool = (a & 0x8000_0000) != 0;
        let sb: bool = (b & 0x8000_0000) != 0;
        if sa {
            if sb {
                ma >= mb
            } else {
                true
            }
        } else {
            if sb {
                ma == 0 && mb == 0
            } else {
                ma <= mb
            }
        }
    }
}

pub fn f32_lt(a: u32, b: u32) -> (r: bool)
    ensures
        r == f32_lt_spec(a, b),
{
    let ma: u32 = a & 0x7FFF_FFFF;
    let mb: u32 = b & 0x7FFF_FFFF;
    if ma > 0x7F80_0000 || mb > 0x7F80_0000 {
        false
    } else {
        let sa: bool = (a & 0x8000_0000) != 0;
        let sb: bool = (b & 0x8000_0000) != 0;
        if sa {
            if sb {
                ma > mb
            } else {
                ma != 0 || mb != 0
            }
        } else {
            if sb {
                false
            } else {
                ma < mb
            }
        }
    }
}

/// IEEE `>=`, written through the mirrored `<=`.
pub fn f32_ge(a: u32, b: u32) -> (r: bool)
    ensures
        r == f32_le_spec(b, a),
{
    f32_le(b, a)
}

pub fn f32_max(a: u32, b: u32) -> (r: u32)
    ensures
        r == f32_max_spec(a, b),
{
    if f32_nan_test(a) {
        b
    } else if f32_nan_test(b) {
        a
    } else if f32_lt(a, b) {
        b
    } else {
        a
    }
}

pub fn f32_min(a: u32, b: u32) -> (r: u32)
    ensures
        r == f32_min_spec(a, b),
{
    if f32_nan_test(a) {
        b
    } else if f32_nan_test(b) {
        a
    } else if f32_lt(b, a) {
        b
    } else {
        a
    }
}

pub fn f32_abs(b: u32) -> (r: u32)
    ensures
        r == f32_abs_spec(b),
{
    b & 0x7FFF_FFFF
}

/// The sign bit of a double-precision pattern.
pub open spec fn f64_sign(b: u64) -> bool {
    b & 0x8000_0000_0000_0000u64 != 0u64
}

/// The magnitude (exponent and fraction) of a double-precision pattern.
pub open spec fn f64_mag(b: u64) -> u64 {
    b & 0x7FFF_FFFF_FFFF_FFFFu64
}

/// Whether a double-precision pattern is a NaN.
pub open spec fn f64_is_nan(b: u64) -> bool {
    f64_mag(b) > 0x7FF0_0000_0000_0000u64
}

/// Whether a double-precision pattern is finite.
pub open spec fn f64_is_finite(b: u64) -> bool {
    f64_mag(b) < 0x7FF0_0000_0000_0000u64
}

/// Whether a double-precision pattern is one of the two zeros.
pub open spec fn f64_is_zero(b: u64) -> bool {
    f64_mag(b) == 0u64
}

/// Sign-magnitude ordering key of a double-precision pattern.
pub open spec fn f64_key(b: u64) -> int {
    if f64_sign(b) {
        -(f64_mag(b) as int)
    } else {
        f64_mag(b) as int
    }
}

/// The IEEE `<=` relation on double-precision patterns.
pub open spec fn f64_le_spec(a: u64, b: u64) -> bool {
    !f64_is_nan(a) && !f64_is_nan(b) && f64_key(a) <= f64_key(b)
}

/// The IEEE `<` relation on double-precision patterns.
pub open spec fn f64_lt_spec(a: u64, b: u64) -> bool {
    !f64_is_nan(a) && !f64_is_nan(b) && f64_key(a) < f64_key(b)
}

/// The NaN-ignoring maximum of two double-precision patterns.
pub open spec fn f64_max_spec(a: u64, b: u64) -> u64 {
    if f64_is_nan(a) {
        b
    } else if f64_is_nan(b) {
        a
    } else if f64_lt_spec(a, b) {
        b
    } else {
        a
    }
}

/// The NaN-ignoring minimum of two double-precision patterns.
pub open spec fn f64_min_spec(a: u64, b: u64) -> u64 {
    if f64_is_nan(a) {
        b
    } else if f64_is_nan(b) {
        a
    } else if f64_lt_spec(b, a) {
        b
    } else {
        a
    }
}

pub fn f64_nan_test(b: u64) -> (r: bool)
    ensures
        r == f64_is_nan(b),
{
    (b & 0x7FFF_FFFF_FFFF_FFFF) > 0x7FF0_0000_0000_0000
}

pub fn f64_finite_test(b: u64) -> (r: bool)
    ensures
        r == f64_is_finite(b),
{
    (b & 0x7FFF_FFFF_FFFF_FFFF) < 0x7FF0_0000_0000_0000
}

pub fn f64_zero_test(b: u64) -> (r: bool)
    ensures
        r == f64_is_zero(b),
{
    (b & 0x7FFF_FFFF_FFFF_FFFF) == 0
}

pub fn f64_le(a: u64, b: u64) -> (r: bool)
    ensures
        r == f64_le_spec(a, b),
{
    let ma: u64 = a & 0x7FFF_FFFF_FFFF_FFFF;
    let mb: u64 = b & 0x7FFF_FFFF_FFFF_FFFF;
    if ma > 0x7FF0_0000_0000_0000 || mb > 0x7FF0_0000_0000_0000 {
        false
    } else {
        let sa: bool = (a & 0x8000_0000_0000_0000) != 0;
        let sb: bool = (b & 0x8000_0000_0000_0000) != 0;
        if sa {
            if sb {
                ma >= mb
            } else {
                true
            }
        } else {
            if sb {
                ma == 0 && mb == 0
            } else {
                ma <= mb
            }
        }
    }
}

pub fn f64_lt(a: u64, b: u64) -> (r: bool)
    ensures
        r == f64_lt_spec(a, b),
{
    let ma: u64 = a & 0x7FFF_FFFF_FFFF_FFFF;
    let mb: u64 = b & 0x7FFF_FFFF_FFFF_FFFF;
    if ma > 0x7FF0_0000_0000_0000 || mb > 0x7FF0_0000_0000_0000 {
        false
    } else {
        let sa: bool = (a & 0x8000_0000_0000_0000) != 0;
        let sb: bool = (b & 0x8000_0000_0000_0000) != 0;
        if sa {
            if sb {
                ma > mb
            } else {
                ma != 0 || mb != 0
            }
        } else {
            if sb {
                false
            } else {
                ma < mb
            }
        }
    }
}

pub fn f64_max(a: u64, b: u64) -> (r: u64)
    ensures
        r == f64_max_spec(a, b),
{
    if f64_nan_test(a) {
        b
    } else if f64_nan_test(b) {
        a
    } else if f64_lt(a, b) {
        b
    } else {
        a
    }
}

pub fn f64_min(a: u64, b: u64) -> (r: u64)
    ensures
        r == f64_min_spec(a, b),
{
    if f64_nan_test(a) {
        b
    } else if f64_nan_test(b) {
        a
    } else if f64_lt(b, a) {
        b
    } else {
        a
    }
}

} // verus!
