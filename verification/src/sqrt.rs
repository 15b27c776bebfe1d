//! A verified IEEE 754 binary32 square root.
//!
//! The square root is the one rounding operation of the solver that is
//! implemented here rather than behind the trusted arithmetic bridge: on a
//! positive finite pattern it decodes the significand, normalizes it to an
//! even power of two, takes an integer square root, rounds to nearest (a tie
//! cannot occur: the square root of an integer is never halfway between two
//! integers), and encodes the result, all as verified integer logic.
//! `sqrt_bits` is the exact mathematical mirror of that computation and the
//! contract of `fp_sqrt`.
//!
//! Special patterns follow IEEE 754: the root of a NaN or of a negative
//! value other than -0.0 is the canonical quiet NaN, the root of a zero is
//! that zero, and the root of +infinity is +infinity.

use crate::fp::{abs_of, exp_of, frac_of, is_nan, sign_of};
use vstd::arithmetic::power2::{lemma2_to64, lemma2_to64_rest, lemma_pow2_adds, lemma_pow2_pos, pow2};
use vstd::prelude::*;

verus! {

/// The canonical quiet NaN pattern.
pub const NAN_BITS: u32 = 0x7FC0_0000;

/// Integer square root, defined digit by digit: the greatest r with
/// r * r <= n.
pub open spec fn isqrt_spec(n: nat) -> nat
    decreases n,
{
    if n == 0 {
        0
    } else {
        let h = 2 * isqrt_spec(n / 4);
        if (h + 1) * (h + 1) <= n {
            h + 1
        } else {
            h
        }
    }
}

/// `isqrt_spec` is the greatest integer whose square does not exceed `n`.
pub proof fn lemma_isqrt_bounds(n: nat)
    ensures
        isqrt_spec(n) * isqrt_spec(n) <= n,
        n < (isqrt_spec(n) + 1) * (isqrt_spec(n) + 1),
    decreases n,
{
    if n == 0 {
        assert(isqrt_spec(0nat) == 0);
        assert(isqrt_spec(n) * isqrt_spec(n) <= n);
        assert(n < (isqrt_spec(n) + 1) * (isqrt_spec(n) + 1)) by (nonlinear_arith)
            requires
                n == 0,
                isqrt_spec(n) == 0,
        ;
    } else {
        let q = isqrt_spec(n / 4);
        lemma_isqrt_bounds(n / 4);
        let h = 2 * q;
        assert(h * h == 4 * (q * q)) by (nonlinear_arith)
            requires
                h == 2 * q,
        ;
        assert(4 * (q * q) <= 4 * (n / 4)) by (nonlinear_arith)
            requires
                q * q <= n / 4,
        ;
        assert(4 * (n / 4) <= n);
        assert(n / 4 + 1 <= (q + 1) * (q + 1));
        assert(n < 4 * (n / 4) + 4);
        assert(4 * (n / 4 + 1) <= 4 * ((q + 1) * (q + 1))) by (nonlinear_arith)
            requires
                n / 4 + 1 <= (q + 1) * (q + 1),
        ;
        assert(4 * ((q + 1) * (q + 1)) == (h + 2) * (h + 2)) by (nonlinear_arith)
            requires
                h == 2 * q,
        ;
        let s = isqrt_spec(n);
        if (h + 1) * (h + 1) <= n {
            assert(s == h + 1);
            assert(s * s <= n) by (nonlinear_arith)
                requires
                    s == h + 1,
                    (h + 1) * (h + 1) <= n,
            ;
            assert(n < (s + 1) * (s + 1)) by (nonlinear_arith)
                requires
                    s == h + 1,
                    n < (h + 2) * (h + 2),
            ;
        } else {
            assert(s == h);
            assert(s * s <= n) by (nonlinear_arith)
                requires
                    s == h,
                    h * h <= n,
            ;
            assert(n < (s + 1) * (s + 1)) by (nonlinear_arith)
                requires
                    s == h,
                    n < (h + 1) * (h + 1),
            ;
        }
    }
}

/// Any r sandwiched as r * r <= n < (r + 1) * (r + 1) is `isqrt_spec(n)`.
pub proof fn lemma_isqrt_unique(n: nat, r: nat)
    requires
        r * r <= n,
        n < (r + 1) * (r + 1),
    ensures
        r == isqrt_spec(n),
{
    lemma_isqrt_bounds(n);
    let s = isqrt_spec(n);
    if r < s {
        assert((r + 1) * (r + 1) <= s * s) by (nonlinear_arith)
            requires
                r + 1 <= s,
        ;
    }
    if s < r {
        assert((s + 1) * (s + 1) <= r * r) by (nonlinear_arith)
            requires
                s + 1 <= r,
        ;
    }
}

/// Integer square root of a value below 2^50, by binary search.
pub fn isqrt64(x: u64) -> (r: u64)
    requires
        x < 0x4_0000_0000_0000,
    ensures
        r == isqrt_spec(x as nat),
        r * r <= x,
        x < (r + 1) * (r + 1),
{
    let mut lo: u64 = 0;
    let mut hi: u64 = 0x200_0000;
    proof {
        assert((0x200_0000u64 as int) * (0x200_0000u64 as int) == 0x4_0000_0000_0000)
            by (nonlinear_arith);
    }
    while lo + 1 < hi
        invariant
            lo < hi <= 0x200_0000,
            lo * lo <= x,
            x < hi * hi,
        decreases hi - lo,
    {
        let mid = lo + (hi - lo) / 2;
        proof {
            assert(mid * mid <= 0x200_0000 * 0x200_0000) by (nonlinear_arith)
                requires
                    mid <= 0x200_0000u64,
            ;
        }
        if mid * mid <= x {
            lo = mid;
        } else {
            hi = mid;
        }
    }
    proof {
        assert(hi == lo + 1);
        lemma_isqrt_unique(x as nat, lo as nat);
    }
    lo
}

/// Significand of a finite pattern, with the implicit bit for normal ones.
pub open spec fn sig_of(a: u32) -> nat {
    if exp_of(a) == 0 {
        frac_of(a) as nat
    } else {
        (frac_of(a) + 0x80_0000) as nat
    }
}

/// Power position of a finite pattern: its value is
/// sig_of(a) * 2^(pexp_of(a) - 150).
pub open spec fn pexp_of(a: u32) -> nat {
    if exp_of(a) == 0 {
        1
    } else {
        exp_of(a) as nat
    }
}

/// Shift a positive significand up by factors of four, keeping the power
/// position even, until it lies in [2^46, 2^48).
pub open spec fn norm_shift(m: int, f: int) -> (int, int)
    decreases (if m >= 0x4000_0000_0000 {
        0int
    } else {
        0x4000_0000_0000 - m
    }),
{
    if m < 1 || m >= 0x4000_0000_0000 {
        (m, f)
    } else {
        norm_shift(4 * m, f - 2)
    }
}

/// The bit pattern of the correctly rounded IEEE 754 binary32 square root of
/// the pattern `a`.
pub open spec fn sqrt_bits(a: u32) -> u32 {
    if is_nan(a) || (sign_of(a) == 1 && abs_of(a) != 0) {
        NAN_BITS
    } else if abs_of(a) == 0 {
        a
    } else if exp_of(a) == 0xFF {
        a
    } else {
        let m0 = sig_of(a) as int;
        let f0 = pexp_of(a) as int - 150;
        let m1 = if pexp_of(a) % 2 == 1 {
            2 * m0
        } else {
            m0
        };
        let f1 = if pexp_of(a) % 2 == 1 {
            f0 - 1
        } else {
            f0
        };
        let mf = norm_shift(m1, f1);
        let r0 = isqrt_spec(mf.0 as nat) as int;
        let r1 = if mf.0 > r0 * (r0 + 1) {
            r0 + 1
        } else {
            r0
        };
        let rs = if r1 == 0x100_0000 {
            0x80_0000int
        } else {
            r1
        };
        let re = if r1 == 0x100_0000 {
            (mf.1 + 300) / 2 + 1
        } else {
            (mf.1 + 300) / 2
        };
        (re * 0x80_0000 + (rs - 0x80_0000)) as u32
    }
}

/// The correctly rounded IEEE 754 binary32 square root, computed on the bit
/// pattern.
pub fn fp_sqrt(a: u32) -> (r: u32)
    ensures
        r == sqrt_bits(a),
{
    let e: u32 = (a >> 23) & 0xFF;
    let fr: u32 = a & 0x007F_FFFF;
    let mag: u32 = a & 0x7FFF_FFFF;
    let sg: u32 = a >> 31;
    proof {
        assert(a >> 31 == 0 || a >> 31 == 1) by (bit_vector);
        assert((a >> 23) & 0xFF < 0x100) by (bit_vector);
        assert(a & 0x007F_FFFF < 0x80_0000) by (bit_vector);
        assert(((a >> 23) & 0xFF == 0xFF && a & 0x007F_FFFF == 0 && a >> 31 == 0) ==> a
            == 0x7F80_0000) by (bit_vector);
        assert((a & 0x7FFF_FFFF == 0 && a >> 31 == 0) ==> a == 0) by (bit_vector);
        assert(((a >> 23) & 0xFF < 0xFF && !((a >> 23) & 0xFF == 0 && a & 0x007F_FFFF == 0) && a
            >> 31 == 0) ==> a & 0x7FFF_FFFF != 0) by (bit_vector);
    }
    if (e == 0xFF && fr != 0) || (sg == 1 && mag != 0) {
        return NAN_BITS;
    }
    if mag == 0 {
        return a;
    }
    if e == 0xFF {
        return a;
    }
    // A positive finite nonzero pattern: its value is m * 2^f exactly.
    proof {
        assert(((a >> 23) & 0xFF == 0 && a & 0x7FFF_FFFF != 0) ==> a & 0x007F_FFFF != 0)
            by (bit_vector);
    }
    let pe: u32 = if e == 0 {
        1
    } else {
        e
    };
    let mut m: u64 = if e == 0 {
        fr as u64
    } else {
        (fr + 0x80_0000) as u64
    };
    let mut f: i64 = pe as i64 - 150;
    proof {
        assert(m as nat == sig_of(a));
        assert(pe as nat == pexp_of(a));
        assert(1 <= m < 0x100_0000);
    }
    let ghost m1: int = if pe % 2 == 1 {
        2 * (m as int)
    } else {
        m as int
    };
    let ghost f1: int = if pe % 2 == 1 {
        f as int - 1
    } else {
        f as int
    };
    if pe % 2 == 1 {
        m = m * 2;
        f = f - 1;
    }
    assert(1 <= m < 0x200_0000);
    assert(m as int == m1 && f as int == f1);
    let ghost k: int = 0;
    proof {
        lemma2_to64();
        assert(m1 * pow2(0) == m1) by (nonlinear_arith)
            requires
                pow2(0) == 1,
        ;
    }
    while m < 0x4000_0000_0000
        invariant
            1 <= m < 0x1_0000_0000_0000,
            0 <= k,
            m as int == m1 * pow2((2 * k) as nat),
            f as int == f1 - 2 * k,
            f1 - 48 <= f as int <= f1,
            m1 >= 1,
            -151 <= f1 <= 104,
            2 * k <= 46,
            norm_shift(m1, f1) == norm_shift(m as int, f as int),
        decreases 46 - 2 * k,
    {
        proof {
            // The shift count is bounded: 2^(2k) <= m < 2^46, so 2k < 46.
            assert(pow2((2 * k) as nat) <= m1 * pow2((2 * k) as nat)) by (nonlinear_arith)
                requires
                    m1 >= 1,
                    pow2((2 * k) as nat) >= 0,
            ;
            if 2 * k >= 46 {
                lemma_pow2_adds(46, (2 * k - 46) as nat);
                lemma_pow2_pos((2 * k - 46) as nat);
                lemma2_to64();
                lemma2_to64_rest();
                assert(pow2(46) * 1 <= pow2(46) * pow2((2 * k - 46) as nat)) by (nonlinear_arith)
                    requires
                        1 <= pow2((2 * k - 46) as nat),
                        pow2(46) >= 0,
                ;
                assert(false);
            }
            // One more doubling of the shift keeps the significand equation.
            lemma_pow2_adds((2 * k) as nat, 2);
            lemma2_to64();
            assert(m1 * pow2((2 * k + 2) as nat) == (m1 * pow2((2 * k) as nat)) * 4)
                by (nonlinear_arith)
                requires
                    pow2((2 * k + 2) as nat) == pow2((2 * k) as nat) * 4,
            ;
            assert(norm_shift(m as int, f as int) == norm_shift(4 * (m as int), f as int - 2));
        }
        m = m * 4;
        f = f - 2;
        proof {
            k = k + 1;
        }
    }
    proof {
        // The loop left the significand in [2^46, 2^48): norm_shift is done.
        assert(norm_shift(m as int, f as int) == (m as int, f as int));
        assert(norm_shift(m1, f1) == (m as int, f as int));
    }
    let r0: u64 = isqrt64(m);
    proof {
        assert(r0 * r0 <= m < 0x1_0000_0000_0000);
        assert(r0 < 0x100_0000) by (nonlinear_arith)
            requires
                r0 * r0 < 0x1_0000_0000_0000,
        ;
        assert(0x80_0000 <= r0) by (nonlinear_arith)
            requires
                0x4000_0000_0000 < (r0 + 1) * (r0 + 1),
                r0 >= 0,
        ;
    }
    proof {
        assert(r0 * (r0 + 1) < 0x1_0000_0000_0000) by (nonlinear_arith)
            requires
                r0 < 0x100_0000,
        ;
    }
    let r1: u64 = if m > r0 * (r0 + 1) {
        r0 + 1
    } else {
        r0
    };
    let rs: u64 = if r1 == 0x100_0000 {
        0x80_0000
    } else {
        r1
    };
    let fp300: u64 = (f + 300) as u64;
    let re: u64 = if r1 == 0x100_0000 {
        fp300 / 2 + 1
    } else {
        fp300 / 2
    };
    proof {
        assert(101 <= fp300 <= 404);
        assert(re as int == (if r1 == 0x100_0000 {
            (f as int + 300) / 2 + 1
        } else {
            (f as int + 300) / 2
        }));
        assert(50 <= re <= 254);
        assert(0x80_0000 <= rs < 0x100_0000);
    }
    let bits: u32 = ((re as u32) << 23) | ((rs as u32) - 0x80_0000);
    proof {
        let reu: u32 = re as u32;
        let rsu: u32 = ((rs as u32) - 0x80_0000) as u32;
        assert(((reu << 23) | rsu) as u64 == (reu as u64) * 0x80_0000 + (rsu as u64))
            by (bit_vector)
            requires
                reu < 0x100u32,
                rsu < 0x80_0000u32,
        ;
        assert(bits as int == re as int * 0x80_0000 + (rs as int - 0x80_0000));
        assert(0 <= re as int * 0x80_0000 + (rs as int - 0x80_0000) < 0x1_0000_0000);
        assert(bits == sqrt_bits(a));
    }
    bits
}

} // verus!
