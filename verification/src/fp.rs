//! IEEE 754 binary32 scalars, carried as raw bit patterns.
//!
//! The library never holds a hardware floating-point value.  Every scalar is
//! a `u32` holding the bit pattern of one binary32 number: one sign bit,
//! eight exponent bits, twenty-three fraction bits.  Classification, absolute
//! value and the IEEE comparison predicates read only those bit fields, so
//! they are ordinary integer logic, written and verified here without any
//! trusted step.  Arithmetic, which rounds, lives behind the trusted bridge
//! in `softfp`.

use vstd::prelude::*;

verus! {

/// Bit pattern of +1.0.
pub const ONE_BITS: u32 = 0x3F80_0000;

/// Sign bit of the pattern: 0 for non-negative values, 1 for negative ones.
pub open spec fn sign_of(a: u32) -> u32 {
    a >> 31
}

/// The eight exponent bits.
pub open spec fn exp_of(a: u32) -> u32 {
    (a >> 23) & 0xFF
}

/// The twenty-three fraction bits.
pub open spec fn frac_of(a: u32) -> u32 {
    a & 0x007F_FFFF
}

/// The pattern with the sign bit cleared: the IEEE absolute value.
pub open spec fn abs_of(a: u32) -> u32 {
    a & 0x7FFF_FFFF
}

/// A NaN pattern: exponent all ones, fraction not zero.
pub open spec fn is_nan(a: u32) -> bool {
    exp_of(a) == 0xFF && frac_of(a) != 0
}

/// A finite value: exponent not all ones (neither an infinity nor a NaN).
pub open spec fn is_finite(a: u32) -> bool {
    exp_of(a) != 0xFF
}

/// Order key of the IEEE comparison predicates: the magnitude, negated for a
/// negative sign.  Both zeros share the key 0.  For non-NaN patterns `a`, `b`
/// the IEEE predicate `a < b` holds exactly when `cmp_key(a) < cmp_key(b)`.
pub open spec fn cmp_key(a: u32) -> int {
    if sign_of(a) == 0 {
        abs_of(a) as int
    } else {
        -(abs_of(a) as int)
    }
}

/// The IEEE `lessThan` predicate on bit patterns; false when either operand
/// is NaN.
pub open spec fn lt_bits(a: u32, b: u32) -> bool {
    !is_nan(a) && !is_nan(b) && cmp_key(a) < cmp_key(b)
}

/// The IEEE `lessThanOrEqual` predicate on bit patterns; false when either
/// operand is NaN.
pub open spec fn le_bits(a: u32, b: u32) -> bool {
    !is_nan(a) && !is_nan(b) && cmp_key(a) <= cmp_key(b)
}

/// Key of the IEEE total order (sign-magnitude integer order), the order the
/// diagnostics sort uses: every negative pattern lies below every
/// non-negative one, -0.0 lies just below +0.0, and NaN patterns order by
/// their payload.  The key is injective, so a sorted permutation of a
/// sequence of patterns is unique.
pub open spec fn total_key(a: u32) -> int {
    if sign_of(a) == 0 {
        a as int
    } else {
        -(abs_of(a) as int) - 1
    }
}

/// NaN test, computed on the bit fields.
pub fn bits_is_nan(a: u32) -> (r: bool)
    ensures
        r == is_nan(a),
{
    (a >> 23) & 0xFF == 0xFF && a & 0x007F_FFFF != 0
}

/// The IEEE absolute value: clear the sign bit.
pub fn bits_abs(a: u32) -> (r: u32)
    ensures
        r == abs_of(a),
{
    a & 0x7FFF_FFFF
}

/// The pattern with the sign bit flipped: the IEEE negation, exact.
pub open spec fn neg_of(a: u32) -> u32 {
    a ^ 0x8000_0000
}

/// The IEEE negation: flip the sign bit.
pub fn bits_neg(a: u32) -> (r: u32)
    ensures
        r == neg_of(a),
{
    a ^ 0x8000_0000
}

/// The IEEE `lessThan` predicate, computed on the bit patterns.
pub fn bits_lt(a: u32, b: u32) -> (r: bool)
    ensures
        r == lt_bits(a, b),
{
    if bits_is_nan(a) || bits_is_nan(b) {
        false
    } else {
        let sa = a >> 31;
        let sb = b >> 31;
        let ma = a & 0x7FFF_FFFF;
        let mb = b & 0x7FFF_FFFF;
        proof {
            assert(a >> 31 == 0 || a >> 31 == 1) by (bit_vector);
            assert(b >> 31 == 0 || b >> 31 == 1) by (bit_vector);
        }
        if sa == 0 && sb == 0 {
            ma < mb
        } else if sa == 1 && sb == 1 {
            mb < ma
        } else if sa == 1 {
            // a is negative, b is not: a < b unless both are zeros.
            ma != 0 || mb != 0
        } else {
            false
        }
    }
}

/// The IEEE `lessThanOrEqual` predicate, computed on the bit patterns.
pub fn bits_le(a: u32, b: u32) -> (r: bool)
    ensures
        r == le_bits(a, b),
{
    if bits_is_nan(a) || bits_is_nan(b) {
        false
    } else {
        let sa = a >> 31;
        let sb = b >> 31;
        let ma = a & 0x7FFF_FFFF;
        let mb = b & 0x7FFF_FFFF;
        proof {
            assert(a >> 31 == 0 || a >> 31 == 1) by (bit_vector);
            assert(b >> 31 == 0 || b >> 31 == 1) by (bit_vector);
        }
        if sa == 0 && sb == 0 {
            ma <= mb
        } else if sa == 1 && sb == 1 {
            mb <= ma
        } else if sa == 1 {
            true
        } else {
            // a is non-negative, b is negative: a <= b only when both are zeros.
            ma == 0 && mb == 0
        }
    }
}

/// Comparison in the IEEE total order, the order the diagnostics sort uses.
pub fn bits_total_le(a: u32, b: u32) -> (r: bool)
    ensures
        r == (total_key(a) <= total_key(b)),
{
    let sa = a >> 31;
    let sb = b >> 31;
    proof {
        assert(a >> 31 == 0 || a >> 31 == 1) by (bit_vector);
        assert(b >> 31 == 0 || b >> 31 == 1) by (bit_vector);
        assert(a >> 31 == 1 ==> a & 0x7FFF_FFFF == a - 0x8000_0000) by (bit_vector);
        assert(b >> 31 == 1 ==> b & 0x7FFF_FFFF == b - 0x8000_0000) by (bit_vector);
        assert(a >> 31 == 0 ==> a & 0x7FFF_FFFF == a) by (bit_vector);
        assert(b >> 31 == 0 ==> b & 0x7FFF_FFFF == b) by (bit_vector);
    }
    if sa == 0 && sb == 0 {
        a <= b
    } else if sa == 1 && sb == 1 {
        b <= a
    } else {
        sa == 1
    }
}

} // verus!
