//! Trusted bridge to a software implementation of IEEE 754 binary32
//! arithmetic.
//!
//! The four rounding operations called here — addition, subtraction,
//! multiplication and division — cannot be stated as integer logic of a few
//! lines, so each result is given a name (`add_bits`, ...) and every
//! caller's contract is stated over those names.  Each operation is a
//! deterministic function of its argument bit patterns: rustc_apfloat
//! computes the exact result and rounds to nearest, ties to even, the
//! IEEE 754 default, which is also what the GPU path's hardware arithmetic
//! does.  The square root, by contrast, is implemented and verified in the
//! `sqrt` module and needs no trust.
//!
//! Beside the names stand only the zero-propagation facts that the
//! singularity-guard proof needs; each is a plainly documented IEEE 754
//! identity on the +0.0 pattern (the pattern `0u32`).

use rustc_apfloat::Float;
use rustc_apfloat::Round;
use rustc_apfloat::ieee::Single;
use vstd::prelude::*;

verus! {

/// The pattern that binary32 addition (round to nearest, ties to even)
/// returns for the two argument patterns.
pub uninterp spec fn add_bits(a: u32, b: u32) -> u32;

/// The pattern that binary32 subtraction returns for the two argument
/// patterns.
pub uninterp spec fn sub_bits(a: u32, b: u32) -> u32;

/// The pattern that binary32 multiplication returns for the two argument
/// patterns.
pub uninterp spec fn mul_bits(a: u32, b: u32) -> u32;

/// The pattern that binary32 division returns for the two argument patterns.
pub uninterp spec fn div_bits(a: u32, b: u32) -> u32;

/// Relies on rustc_apfloat::ieee::Single::add_r: IEEE 754 binary32 addition,
/// round to nearest ties to even.  The sum of two zeros of equal sign is
/// that zero, so +0.0 + +0.0 is +0.0 exactly.
#[verifier::external_body]
pub(crate) fn fp_add(a: u32, b: u32) -> (r: u32)
    ensures
        r == add_bits(a, b),
        a == 0 && b == 0 ==> r == 0,
{
    let x = Single::from_bits(a as u128);
    let y = Single::from_bits(b as u128);
    x.add_r(y, Round::NearestTiesToEven).value.to_bits() as u32
}

/// Relies on rustc_apfloat::ieee::Single::sub_r: IEEE 754 binary32
/// subtraction, round to nearest ties to even.  The difference of a finite
/// value with itself is +0.0 exactly under this rounding.
#[verifier::external_body]
pub(crate) fn fp_sub(a: u32, b: u32) -> (r: u32)
    ensures
        r == sub_bits(a, b),
        a == b && crate::fp::is_finite(a) ==> r == 0,
{
    let x = Single::from_bits(a as u128);
    let y = Single::from_bits(b as u128);
    x.sub_r(y, Round::NearestTiesToEven).value.to_bits() as u32
}

/// Relies on rustc_apfloat::ieee::Single::mul_r: IEEE 754 binary32
/// multiplication, round to nearest ties to even.  The product of two +0.0
/// operands is +0.0 exactly (the result sign is the exclusive or of the
/// operand signs).
#[verifier::external_body]
pub(crate) fn fp_mul(a: u32, b: u32) -> (r: u32)
    ensures
        r == mul_bits(a, b),
        a == 0 && b == 0 ==> r == 0,
{
    let x = Single::from_bits(a as u128);
    let y = Single::from_bits(b as u128);
    x.mul_r(y, Round::NearestTiesToEven).value.to_bits() as u32
}

/// Relies on rustc_apfloat::ieee::Single::div_r: IEEE 754 binary32 division,
/// round to nearest ties to even.
#[verifier::external_body]
pub(crate) fn fp_div(a: u32, b: u32) -> (r: u32)
    ensures
        r == div_bits(a, b),
{
    let x = Single::from_bits(a as u128);
    let y = Single::from_bits(b as u128);
    x.div_r(y, Round::NearestTiesToEven).value.to_bits() as u32
}

} // verus!
