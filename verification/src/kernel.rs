//! The vortex interaction kernel.
//!
//! `velocity_influence(source, at)` is the closed-form velocity contribution
//! of one vortex at another point: with the displacement d from the source
//! to the observation point and r its norm, the kernel returns
//! cross(source.vorticity, d / r^3), an inverse-square-falloff rotational
//! field; when r falls below the guard radius 1e-4 it returns the zero
//! vector, a deliberate policy that removes the singularity at coincident
//! points.  The contract states the exact composition of IEEE 754
//! operations, and that the guard fires whenever the two positions coincide
//! (singularity guard).

use crate::fp::{bits_lt, lt_bits};
use crate::softfp::{fp_mul, mul_bits};
use crate::vec3::{cross3, div3, finite3, magnitude3, sub3, zero3, Vec3};
use crate::vortex::Vortex;
use vstd::prelude::*;

verus! {

/// Bit pattern of 1e-4, the singularity guard radius.
pub const EPSILON_BITS: u32 = 0x38D1_B717;

/// The kernel as a function of bit patterns: the exact composition of
/// IEEE 754 operations that `velocity_influence` evaluates.
pub open spec fn velocity_influence_bits(source: Vortex, at: Vortex) -> Vec3 {
    let d = sub3(at.position, source.position);
    let dist = magnitude3(d);
    if lt_bits(dist, EPSILON_BITS) {
        zero3()
    } else {
        cross3(source.vorticity, div3(d, mul_bits(mul_bits(dist, dist), dist)))
    }
}

/// Velocity induced at `at` by the vortex `source`.
///
/// Only the position and vorticity fields are read.  The second clause is
/// the singularity guard: at zero separation (and finite coordinates, where
/// the IEEE difference of the positions is exactly zero) the result is the
/// zero vector.  For merely near-coincident positions the guard's firing
/// depends on the real value of the rounded distance, which the named
/// arithmetic results deliberately do not axiomatize; the policy itself —
/// zero whenever the computed distance compares below the guard radius —
/// is stated exactly by the first clause.
pub fn velocity_influence(source: &Vortex, at: &Vortex) -> (r: Vec3)
    ensures
        r == velocity_influence_bits(*source, *at),
        at.position == source.position && finite3(source.position) ==> r == zero3(),
{
    let d = at.position.sub(&source.position);
    let dist = d.magnitude();
    proof {
        // +0.0 compares below the guard radius: evaluate the comparison's
        // bit fields on the two literal patterns.
        assert(0u32 >> 31 == 0) by (bit_vector);
        assert((0u32 >> 23) & 0xFF == 0) by (bit_vector);
        assert(0u32 & 0x7FFF_FFFF == 0) by (bit_vector);
        assert(0x38D1_B717u32 >> 31 == 0) by (bit_vector);
        assert((0x38D1_B717u32 >> 23) & 0xFF == 0x71) by (bit_vector);
        assert(0x38D1_B717u32 & 0x7FFF_FFFF == 0x38D1_B717) by (bit_vector);
    }
    if bits_lt(dist, EPSILON_BITS) {
        Vec3::zero()
    } else {
        let dist_cubed = fp_mul(fp_mul(dist, dist), dist);
        source.vorticity.cross(&d.div(dist_cubed))
    }
}

} // verus!
