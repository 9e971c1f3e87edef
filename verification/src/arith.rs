//! Trusted bridge to IEEE-754 binary arithmetic.
//!
//! The crate stores every single-precision value as its raw bit pattern in
//! a `u32`, and every double-precision value as its bit pattern in a `u64`.
//! The four elementary operations on those patterns are delegated to
//! `rustc_apfloat`, the software float library used by the Rust compiler
//! itself, which implements IEEE-754 binary32/binary64 arithmetic with
//! round-to-nearest-ties-to-even — the same rounding the hardware uses.
//! Each operation's result is a pure function of the operand bit patterns,
//! so each is named by an uninterpreted spec function.

use rustc_apfloat::Float;
use vstd::prelude::*;

verus! {

/// The bits of the IEEE-754 binary32 sum of two values given as bits.
pub uninterp spec fn f32_add_bits(a: u32, b: u32) -> u32;

/// The bits of the IEEE-754 binary32 difference of two values given as bits.
pub uninterp spec fn f32_sub_bits(a: u32, b: u32) -> u32;

/// The bits of the IEEE-754 binary32 product of two values given as bits.
pub uninterp spec fn f32_mul_bits(a: u32, b: u32) -> u32;

/// The bits of the IEEE-754 binary32 quotient of two values given as bits.
pub uninterp spec fn f32_div_bits(a: u32, b: u32) -> u32;

/// The bits of the IEEE-754 binary64 sum of two values given as bits.
pub uninterp spec fn f64_add_bits(a: u64, b: u64) -> u64;

/// The bits of the IEEE-754 binary64 difference of two values given as bits.
pub uninterp spec fn f64_sub_bits(a: u64, b: u64) -> u64;

/// The bits of the IEEE-754 binary64 product of two values given as bits.
pub uninterp spec fn f64_mul_bits(a: u64, b: u64) -> u64;

/// The bits of the IEEE-754 binary64 quotient of two values given as bits.
pub uninterp spec fn f64_div_bits(a: u64, b: u64) -> u64;

/// Relies on `rustc_apfloat::ieee::Single`'s `Add`: IEEE-754 binary32
/// addition, round to nearest, ties to even.
#[verifier::external_body]
pub(crate) fn f32_add(a: u32, b: u32) -> (r: u32)
    ensures
        r == f32_add_bits(a, b),
{
    let x = rustc_apfloat::ieee::Single::from_bits(a as u128);
    let y = rustc_apfloat::ieee::Single::from_bits(b as u128);
    (x + y).value.to_bits() as u32
}

/// Relies on `rustc_apfloat::ieee::Single`'s `Sub`: IEEE-754 binary32
/// subtraction, round to nearest, ties to even.
#[verifier::external_body]
pub(crate) fn f32_sub(a: u32, b: u32) -> (r: u32)
    ensures
        r == f32_sub_bits(a, b),
{
    let x = rustc_apfloat::ieee::Single::from_bits(a as u128);
    let y = rustc_apfloat::ieee::Single::from_bits(b as u128);
    (x - y).value.to_bits() as u32
}

/// Relies on `rustc_apfloat::ieee::Single`'s `Mul`: IEEE-754 binary32
/// multiplication, round to nearest, ties to even.
#[verifier::external_body]
pub(crate) fn f32_mul(a: u32, b: u32) -> (r: u32)
    ensures
        r == f32_mul_bits(a, b),
{
    let x = rustc_apfloat::ieee::Single::from_bits(a as u128);
    let y = rustc_apfloat::ieee::Single::from_bits(b as u128);
    (x * y).value.to_bits() as u32
}

/// Relies on `rustc_apfloat::ieee::Single`'s `Div`: IEEE-754 binary32
/// division, round to nearest, ties to even.
#[verifier::external_body]
pub(crate) fn f32_div(a: u32, b: u32) -> (r: u32)
    ensures
        r == f32_div_bits(a, b),
{
    let x = rustc_apfloat::ieee::Single::from_bits(a as u128);
    let y = rustc_apfloat::ieee::Single::from_bits(b as u128);
    (x / y).value.to_bits() as u32
}

/// Relies on `rustc_apfloat::ieee::Double`'s `Add`: IEEE-754 binary64
/// addition, round to nearest, ties to even.
#[verifier::external_body]
pub(crate) fn f64_add(a: u64, b: u64) -> (r: u64)
    ensures
        r == f64_add_bits(a, b),
{
    let x = rustc_apfloat::ieee::Double::from_bits(a as u128);
    let y = rustc_apfloat::ieee::Double::from_bits(b as u128);
    (x + y).value.to_bits() as u64
}

/// Relies on `rustc_apfloat::ieee::Double`'s `Sub`: IEEE-754 binary64
/// subtraction, round to nearest, ties to even.
#[verifier::external_body]
pub(crate) fn f64_sub(a: u64, b: u64) -> (r: u64)
    ensures
        r == f64_sub_bits(a, b),
{
    let x = rustc_apfloat::ieee::Double::from_bits(a as u128);
    let y = rustc_apfloat::ieee::Double::from_bits(b as u128);
    (x - y).value.to_bits() as u64
}

/// Relies on `rustc_apfloat::ieee::Double`'s `Mul`: IEEE-754 binary64
/// multiplication, round to nearest, ties to even.
#[verifier::external_body]
pub(crate) fn f64_mul(a: u64, b: u64) -> (r: u64)
    ensures
        r == f64_mul_bits(a, b),
{
    let x = rustc_apfloat::ieee::Double::from_bits(a as u128);
    let y = rustc_apfloat::ieee::Double::from_bits(b as u128);
    (x * y).value.to_bits() as u64
}

/// Relies on `rustc_apfloat::ieee::Double`'s `Div`: IEEE-754 binary64
/// division, round to nearest, ties to even.
#[verifier::external_body]
pub(crate) fn f64_div(a: u64, b: u64) -> (r: u64)
    ensures
        r == f64_div_bits(a, b),
{
    let x = rustc_apfloat::ieee::Double::from_bits(a as u128);
    let y = rustc_apfloat::ieee::Double::from_bits(b as u128);
    (x / y).value.to_bits() as u64
}

} // verus!
