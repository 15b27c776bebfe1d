//! Random point samplers for seeding particles and free vortices.
//!
//! Randomness enters through one trusted declaration of the generator; the
//! shaping of raw generator words into unit-interval scalars and sphere
//! points is ordinary library code.  Each sampler's contract states, in
//! exists form, the exact composition of IEEE 754 operations that shaped
//! its result from generator words; which words were drawn is random, so
//! two calls may differ.

use crate::fp::{bits_le, le_bits, ONE_BITS};
use crate::kernel::EPSILON_BITS;
use crate::softfp::{add_bits, fp_add, fp_mul, fp_sub, mul_bits, sub_bits};
use crate::sqrt::{fp_sqrt, sqrt_bits};
use crate::vec3::{div3, dot3, scale3, Vec3};
use vstd::prelude::*;

verus! {

/// Bit pattern of 2.0.
pub const TWO_BITS: u32 = 0x4000_0000;

/// Relies on rand::random: a value drawn from the thread-local generator's
/// standard distribution.  Nothing can be promised of the result.
pub assume_specification<T>[ rand::random::<T> ]() -> (r: T)
    where
        rand::distributions::Standard: rand::distributions::Distribution<T>,
;

/// The scalar in [1, 2) whose fraction bits are the word's top 23 bits,
/// moved down to [0, 1).
pub open spec fn unit_scalar_bits(w: u32) -> u32 {
    sub_bits(0x3F80_0000u32 | (w >> 9), ONE_BITS)
}

/// A scalar shaped from some generator word into [0, 1).
pub open spec fn unit_scalar_shaped(s: u32) -> bool {
    exists|w: u32| s == unit_scalar_bits(w)
}

/// A scalar shaped from some generator word into [-1, 1): a unit-interval
/// scalar doubled, less one.
pub open spec fn signed_scalar_shaped(s: u32) -> bool {
    exists|u: u32|
        s == sub_bits(#[trigger] mul_bits(unit_scalar_bits(u), TWO_BITS), ONE_BITS)
}

/// A sphere point as the samplers shape it: either a cube point of
/// signed-scalar components whose squared norm was accepted (within
/// (0, 1], bounded away from zero by the kernel's guard radius) and then
/// divided by the root of that norm — or, if every bounded draw was
/// rejected, the unit x axis.
pub open spec fn sphere_point_shaped(p: Vec3) -> bool {
    ||| p == (Vec3 { x: ONE_BITS, y: 0, z: 0 })
    ||| exists|v: Vec3|
        {
            &&& signed_scalar_shaped(v.x)
            &&& signed_scalar_shaped(v.y)
            &&& signed_scalar_shaped(v.z)
            &&& le_bits(dot3(v, v), ONE_BITS)
            &&& le_bits(EPSILON_BITS, dot3(v, v))
            &&& p == #[trigger] div3(v, sqrt_bits(dot3(v, v)))
        }
}

/// A ball point as the samplers shape it: a sphere point scaled by a
/// unit-interval factor.
pub open spec fn ball_point_shaped(q: Vec3) -> bool {
    exists|p: Vec3, t: u32|
        sphere_point_shaped(p) && unit_scalar_shaped(t) && q == #[trigger] scale3(p, t)
}

/// A uniform scalar in [0, 1) shaped from one generator word.
pub fn random_word_scalar() -> (r: u32)
    ensures
        unit_scalar_shaped(r),
{
    let w: u32 = rand::random::<u32>();
    let r = fp_sub(0x3F80_0000u32 | (w >> 9), ONE_BITS);
    proof {
        assert(r == unit_scalar_bits(w));
    }
    r
}

/// A scalar in [-1, 1) shaped from one generator word.
fn random_signed_scalar() -> (r: u32)
    ensures
        signed_scalar_shaped(r),
{
    let u = random_word_scalar();
    let r = fp_sub(fp_mul(u, TWO_BITS), ONE_BITS);
    proof {
        let w = choose|w: u32| u == unit_scalar_bits(w);
        assert(r == sub_bits(mul_bits(unit_scalar_bits(w), TWO_BITS), ONE_BITS));
    }
    r
}

/// A random point on the unit sphere: a point of the cube [-1, 1)^3 is
/// accepted when its squared norm lies in (0, 1] and projected onto the
/// sphere; after a bounded number of rejected draws the fallback is the
/// unit x axis.
pub fn random_on_unit_sphere() -> (r: Vec3)
    ensures
        sphere_point_shaped(r),
{
    let mut tries: usize = 0;
    while tries < 64
        invariant
            tries <= 64,
        decreases 64 - tries,
    {
        let v = Vec3 {
            x: random_signed_scalar(),
            y: random_signed_scalar(),
            z: random_signed_scalar(),
        };
        let s = v.dot(&v);
        if bits_le(s, ONE_BITS) && bits_le(EPSILON_BITS, s) {
            let r = v.div(fp_sqrt(s));
            proof {
                assert(r == div3(v, sqrt_bits(dot3(v, v))));
            }
            return r;
        }
        tries = tries + 1;
    }
    Vec3 { x: ONE_BITS, y: 0, z: 0 }
}

/// A random point inside the unit sphere: a sphere point scaled by a
/// uniform radius factor in [0, 1).
pub fn random_inside_unit_sphere() -> (r: Vec3)
    ensures
        ball_point_shaped(r),
{
    let p = random_on_unit_sphere();
    let t = random_word_scalar();
    let r = p.scale(t);
    proof {
        assert(r == scale3(p, t));
    }
    r
}

/// A random point between the two given radii: a sphere point scaled by a
/// factor drawn uniformly from [inner_radius, outer_radius); the radii are
/// binary32 bit patterns.
pub fn random_inside_sphere(inner_radius: u32, outer_radius: u32) -> (r: Vec3)
    ensures
        exists|p: Vec3, t: u32|
            sphere_point_shaped(p) && unit_scalar_shaped(t) && r == #[trigger] scale3(
                p,
                add_bits(mul_bits(t, sub_bits(outer_radius, inner_radius)), inner_radius),
            ),
{
    let p = random_on_unit_sphere();
    let u = random_word_scalar();
    let t = fp_add(fp_mul(u, fp_sub(outer_radius, inner_radius)), inner_radius);
    let r = p.scale(t);
    proof {
        assert(r == scale3(p, add_bits(mul_bits(u, sub_bits(outer_radius, inner_radius)), inner_radius)));
    }
    r
}

} // verus!
