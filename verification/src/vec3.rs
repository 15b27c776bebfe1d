//! Three-component vectors of binary32 bit patterns.
//!
//! Each arithmetic method states, over the named rounding operations of
//! `softfp` and the verified square root, exactly which composition of
//! IEEE 754 operations produced its result, in the evaluation order the
//! method uses.

use crate::fp::is_finite;
use crate::softfp::{add_bits, div_bits, fp_add, fp_div, fp_mul, fp_sub, mul_bits, sub_bits};
use crate::sqrt::{fp_sqrt, sqrt_bits};
use vstd::prelude::*;

verus! {

/// A 3-vector; each component is a binary32 bit pattern.
#[derive(Clone, Copy, Debug, PartialEq, Eq, Structural)]
pub struct Vec3 {
    pub x: u32,
    pub y: u32,
    pub z: u32,
}

/// The zero vector, +0.0 in every component.
pub open spec fn zero3() -> Vec3 {
    Vec3 { x: 0, y: 0, z: 0 }
}

/// All three components are finite patterns.
pub open spec fn finite3(v: Vec3) -> bool {
    is_finite(v.x) && is_finite(v.y) && is_finite(v.z)
}

/// Component-wise addition.
pub open spec fn add3(a: Vec3, b: Vec3) -> Vec3 {
    Vec3 { x: add_bits(a.x, b.x), y: add_bits(a.y, b.y), z: add_bits(a.z, b.z) }
}

/// Component-wise subtraction.
pub open spec fn sub3(a: Vec3, b: Vec3) -> Vec3 {
    Vec3 { x: sub_bits(a.x, b.x), y: sub_bits(a.y, b.y), z: sub_bits(a.z, b.z) }
}

/// The dot product, summed left to right: (x*x' + y*y') + z*z'.
pub open spec fn dot3(a: Vec3, b: Vec3) -> u32 {
    add_bits(add_bits(mul_bits(a.x, b.x), mul_bits(a.y, b.y)), mul_bits(a.z, b.z))
}

/// The cross product.
pub open spec fn cross3(a: Vec3, b: Vec3) -> Vec3 {
    Vec3 {
        x: sub_bits(mul_bits(a.y, b.z), mul_bits(a.z, b.y)),
        y: sub_bits(mul_bits(a.z, b.x), mul_bits(a.x, b.z)),
        z: sub_bits(mul_bits(a.x, b.y), mul_bits(a.y, b.x)),
    }
}

/// Every component multiplied by the scalar pattern `s`.
pub open spec fn scale3(a: Vec3, s: u32) -> Vec3 {
    Vec3 { x: mul_bits(a.x, s), y: mul_bits(a.y, s), z: mul_bits(a.z, s) }
}

/// Every component divided by the scalar pattern `s`.
pub open spec fn div3(a: Vec3, s: u32) -> Vec3 {
    Vec3 { x: div_bits(a.x, s), y: div_bits(a.y, s), z: div_bits(a.z, s) }
}

/// The Euclidean norm: the square root of the dot product with itself.
pub open spec fn magnitude3(a: Vec3) -> u32 {
    sqrt_bits(dot3(a, a))
}

impl Vec3 {
    /// The zero vector.
    pub fn zero() -> (r: Vec3)
        ensures
            r == zero3(),
    {
        Vec3 { x: 0, y: 0, z: 0 }
    }

    /// Component-wise sum.  Adding the zero vector to the zero vector gives
    /// the zero vector again (the IEEE sum of +0.0 with itself is +0.0).
    pub fn add(&self, o: &Vec3) -> (r: Vec3)
        ensures
            r == add3(*self, *o),
            *self == zero3() && *o == zero3() ==> r == zero3(),
    {
        Vec3 { x: fp_add(self.x, o.x), y: fp_add(self.y, o.y), z: fp_add(self.z, o.z) }
    }

    /// Component-wise difference.  Subtracting a finite vector from itself
    /// gives the zero vector (each IEEE difference of a finite value with
    /// itself is +0.0).
    pub fn sub(&self, o: &Vec3) -> (r: Vec3)
        ensures
            r == sub3(*self, *o),
            *self == *o && finite3(*self) ==> r == zero3(),
    {
        Vec3 { x: fp_sub(self.x, o.x), y: fp_sub(self.y, o.y), z: fp_sub(self.z, o.z) }
    }

    /// Dot product, accumulated left to right.  The dot product of the zero
    /// vector with itself is +0.0.
    pub fn dot(&self, o: &Vec3) -> (r: u32)
        ensures
            r == dot3(*self, *o),
            *self == zero3() && *o == zero3() ==> r == 0,
    {
        let xx = fp_mul(self.x, o.x);
        let yy = fp_mul(self.y, o.y);
        let zz = fp_mul(self.z, o.z);
        fp_add(fp_add(xx, yy), zz)
    }

    /// Cross product.
    pub fn cross(&self, o: &Vec3) -> (r: Vec3)
        ensures
            r == cross3(*self, *o),
    {
        Vec3 {
            x: fp_sub(fp_mul(self.y, o.z), fp_mul(self.z, o.y)),
            y: fp_sub(fp_mul(self.z, o.x), fp_mul(self.x, o.z)),
            z: fp_sub(fp_mul(self.x, o.y), fp_mul(self.y, o.x)),
        }
    }

    /// Every component multiplied by the scalar pattern `s`.
    pub fn scale(&self, s: u32) -> (r: Vec3)
        ensures
            r == scale3(*self, s),
    {
        Vec3 { x: fp_mul(self.x, s), y: fp_mul(self.y, s), z: fp_mul(self.z, s) }
    }

    /// Every component divided by the scalar pattern `s`.
    pub fn div(&self, s: u32) -> (r: Vec3)
        ensures
            r == div3(*self, s),
    {
        Vec3 { x: fp_div(self.x, s), y: fp_div(self.y, s), z: fp_div(self.z, s) }
    }

    /// Euclidean norm.  The norm of the zero vector is +0.0 (the square root
    /// of +0.0 is +0.0).
    pub fn magnitude(&self) -> (r: u32)
        ensures
            r == magnitude3(*self),
            *self == zero3() ==> r == 0,
    {
        let d = self.dot(self);
        proof {
            // The square root of the +0.0 pattern is itself: evaluate the
            // classification bit fields of the zero pattern.
            assert((0u32 >> 23) & 0xFF == 0) by (bit_vector);
            assert(0u32 & 0x7FFF_FFFF == 0) by (bit_vector);
            assert(0u32 >> 31 == 0) by (bit_vector);
        }
        fp_sqrt(d)
    }
}

} // verus!
