//! Ray picking against a spherical collider.
//!
//! The probe body is picked by intersecting the mouse ray with a sphere
//! around its position: with oc the ray origin relative to the centre,
//! b = oc . dir and c = |oc|^2 - radius^2, the discriminant b^2 - c decides
//! whether the ray meets the sphere, and t = -b - sqrt(b^2 - c) is the
//! first hit parameter; a hit behind the origin (t < 0) does not count.
//! The contract states the exact composition of IEEE 754 operations.

use crate::fp::{bits_lt, bits_neg, lt_bits, neg_of, ONE_BITS};
use crate::gpu::{Cube, Ray};
use crate::softfp::{fp_mul, fp_sub, mul_bits, sub_bits};
use crate::sqrt::{fp_sqrt, sqrt_bits};
use crate::vec3::{add3, dot3, scale3, sub3, Vec3};
use vstd::prelude::*;

verus! {

/// The intersection as a function of bit patterns: the first sphere hit in
/// front of the ray origin, or nothing.
pub open spec fn ray_sphere_hit(ray: Ray, center: Vec3, radius: u32) -> Option<Vec3> {
    let oc = sub3(ray.origin, center);
    let b = dot3(oc, ray.direction);
    let c = sub_bits(dot3(oc, oc), mul_bits(radius, radius));
    let discriminant = sub_bits(mul_bits(b, b), c);
    if lt_bits(discriminant, 0) {
        Option::None
    } else {
        let t = sub_bits(neg_of(b), sqrt_bits(discriminant));
        if lt_bits(t, 0) {
            Option::None
        } else {
            Option::Some(add3(ray.origin, scale3(ray.direction, t)))
        }
    }
}

/// The first intersection of the ray with the sphere, computed.
pub fn ray_sphere_intersection(ray: &Ray, center: Vec3, radius: u32) -> (r: Option<Vec3>)
    ensures
        r == ray_sphere_hit(*ray, center, radius),
{
    let oc = ray.origin.sub(&center);
    let b = oc.dot(&ray.direction);
    let c = fp_sub(oc.dot(&oc), fp_mul(radius, radius));
    let discriminant = fp_sub(fp_mul(b, b), c);
    if bits_lt(discriminant, 0) {
        return Option::None;
    }
    let t = fp_sub(bits_neg(b), fp_sqrt(discriminant));
    if bits_lt(t, 0) {
        return Option::None;
    }
    Option::Some(ray.origin.add(&ray.direction.scale(t)))
}

/// An object a world-space ray can hit.
pub trait Collider {
    fn collides_with_ray(&self, ray: &Ray) -> Option<Vec3>;
}

impl Collider for Cube {
    /// The probe body is picked as a unit sphere around its position.
    fn collides_with_ray(&self, ray: &Ray) -> Option<Vec3> {
        ray_sphere_intersection(ray, self.position, ONE_BITS)
    }
}

} // verus!
