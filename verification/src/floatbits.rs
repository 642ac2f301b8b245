//! IEEE 754 single-precision values, handled as their bit patterns.
//!
//! Verified code cannot compute with `f32` directly, so every scalar the
//! theme math touches is carried as the `u32` bit pattern of the intended
//! `f32` value. The arithmetic itself is deterministic in those bits, so
//! each operation gets an uninterpreted spec-level name and a thin trusted
//! wrapper that performs the operation through software IEEE arithmetic.
use vstd::prelude::*;

use rustc_apfloat::Float;

verus! {

/// Bit pattern of the `f32` value `30.0`, the base hue angle in degrees.
pub const THIRTY_DEG_BITS: u32 = 0x41F0_0000;

/// Bit pattern of the `f32` value `0.5`, the ink lightness threshold.
pub const HALF_BITS: u32 = 0x3F00_0000;

/// Bit pattern of the `f32` value `2.0`, the divisor used when averaging
/// two lightness values.
pub const TWO_BITS: u32 = 0x4000_0000;

/// The bit pattern of the IEEE 754 `f32` sum of the values with bit
/// patterns `a` and `b`. The sum is a function of the operand bits alone;
/// nothing more is assumed of it here.
pub uninterp spec fn f32_add(a: u32, b: u32) -> u32;

/// The bit pattern of the IEEE 754 `f32` quotient of the values with bit
/// patterns `a` and `b`.
pub uninterp spec fn f32_div(a: u32, b: u32) -> u32;

/// Whether the `f32` value with bit pattern `a` is strictly greater than
/// the one with bit pattern `b`.
pub uninterp spec fn f32_gt(a: u32, b: u32) -> bool;

/// Relies on `rustc_apfloat::ieee::Single` addition: IEEE 754 binary32,
/// round to nearest even, so the sum's bit pattern is a function of the
/// operand bit patterns alone.
#[verifier::external_body]
pub(crate) fn add_bits(a: u32, b: u32) -> (r: u32)
    ensures
        r == f32_add(a, b),
{
    let x = rustc_apfloat::ieee::Single::from_bits(a as u128);
    let y = rustc_apfloat::ieee::Single::from_bits(b as u128);
    (x + y).value.to_bits() as u32
}

/// Relies on `rustc_apfloat::ieee::Single` division: IEEE 754 binary32,
/// round to nearest even, so the quotient's bit pattern is a function of
/// the operand bit patterns alone.
#[verifier::external_body]
pub(crate) fn div_bits(a: u32, b: u32) -> (r: u32)
    ensures
        r == f32_div(a, b),
{
    let x = rustc_apfloat::ieee::Single::from_bits(a as u128);
    let y = rustc_apfloat::ieee::Single::from_bits(b as u128);
    (x / y).value.to_bits() as u32
}

/// Relies on `rustc_apfloat::ieee::Single` comparison (IEEE 754 `>`): it
/// is a function of the operand bit patterns alone, and it is false when
/// both operands carry one and the same bit pattern (no value exceeds
/// itself, and a NaN comparison is always false).
#[verifier::external_body]
pub(crate) fn gt_bits(a: u32, b: u32) -> (r: bool)
    ensures
        r == f32_gt(a, b),
        a == b ==> r == false,
{
    let x = rustc_apfloat::ieee::Single::from_bits(a as u128);
    let y = rustc_apfloat::ieee::Single::from_bits(b as u128);
    x > y
}

} // verus!
