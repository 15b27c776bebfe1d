//! Convergence diagnostics: summary statistics of residual magnitudes.
//!
//! `MagnitudeStatistics::from_vectors` takes the per-panel residual
//! vectors, sorts their norms, and reports the largest, the smallest, the
//! mean (the sorted norms summed left to right, divided by the count) and
//! the median (the middle element of the sorted order, the lower middle on
//! even length — plain index length / 2, no interpolation).
//!
//! The sort uses the IEEE 754 total order on bit patterns, under which
//! every pattern — a NaN included — has a place; on NaN-free data it sorts
//! exactly as the ordinary comparison does.

use crate::fp::{abs_of, bits_abs, bits_total_le, total_key};
use crate::softfp::{add_bits, div_bits, fp_add, fp_div};
use crate::vec3::{magnitude3, Vec3};
use vstd::prelude::*;
use vstd::relations::{sorted_by, total_ordering};
use vstd::multiset::Multiset;
use vstd::seq_lib::{group_to_multiset_ensures, lemma_sorted_unique};

verus! {

/// The IEEE total order on bit patterns, as a relation.
pub open spec fn total_le_fn() -> spec_fn(u32, u32) -> bool {
    |a: u32, b: u32| total_key(a) <= total_key(b)
}

/// The IEEE total order really is a total ordering: its key is injective.
pub proof fn lemma_total_le_ordering()
    ensures
        total_ordering(total_le_fn()),
{
    let leq = total_le_fn();
    assert forall|a: u32, b: u32| #[trigger] leq(a, b) && #[trigger] leq(b, a) implies a == b by {
        assert(total_key(a) == total_key(b));
        assert(a >> 31 == 0 || a >> 31 == 1) by (bit_vector);
        assert(b >> 31 == 0 || b >> 31 == 1) by (bit_vector);
        if a >> 31 == 1 && b >> 31 == 1 {
            assert((a >> 31 == 1 && b >> 31 == 1 && a & 0x7FFF_FFFF == b & 0x7FFF_FFFF) ==> a
                == b) by (bit_vector);
        }
    }
}

/// The accumulator after summing the first k entries, left to right from
/// +0.0.
pub open spec fn sum_fold(s: Seq<u32>, k: int) -> u32
    decreases k,
{
    if k <= 0 {
        0
    } else {
        add_bits(sum_fold(s, k - 1), s[k - 1])
    }
}

/// The exact binary32 pattern of the small count n (n below 2^24, where
/// every count is representable exactly).
pub open spec fn count_bits(n: nat) -> u32 {
    if n == 0 {
        0
    } else {
        (((bit_len(n) - 1 + 127) * 0x80_0000 + n * pow2_nat((24 - bit_len(n)) as nat))
            - 0x80_0000) as u32
    }
}

/// Number of binary digits of n.
pub open spec fn bit_len(n: nat) -> nat
    decreases n,
{
    if n == 0 {
        0
    } else {
        1 + bit_len(n / 2)
    }
}

/// Two to the power e, recursively.
pub open spec fn pow2_nat(e: nat) -> nat
    decreases e,
{
    if e == 0 {
        1nat
    } else {
        2 * pow2_nat((e - 1) as nat)
    }
}

/// Summary statistics of a set of residual magnitudes, each field a
/// binary32 bit pattern.
#[derive(Clone, Copy, Debug, PartialEq, Eq, Structural)]
pub struct MagnitudeStatistics {
    pub max: u32,
    pub min: u32,
    pub mean: u32,
    pub median: u32,
}

/// Sort bit patterns by the IEEE total order, by selection: repeatedly
/// move the least remaining pattern over.
fn sort_total(v: Vec<u32>) -> (r: Vec<u32>)
    ensures
        r@.len() == v@.len(),
        r@.to_multiset() == v@.to_multiset(),
        sorted_by(r@, total_le_fn()),
        r@ == v@.sort_by(total_le_fn()),
{
    broadcast use group_to_multiset_ensures;
    broadcast use vstd::multiset::group_multiset_axioms;

    let ghost leq = total_le_fn();
    let ghost orig = v@;
    let mut rem = v;
    let mut out: Vec<u32> = Vec::new();
    while rem.len() > 0
        invariant
            out@.to_multiset().add(rem@.to_multiset()) =~= orig.to_multiset(),
            out@.len() + rem@.len() == orig.len(),
            sorted_by(out@, leq),
            leq == total_le_fn(),
            forall|i: int, j: int|
                0 <= i < out@.len() && 0 <= j < rem@.len() ==> total_key(#[trigger] out@[i])
                    <= total_key(#[trigger] rem@[j]),
        decreases rem@.len(),
    {
        // Find the least remaining pattern.
        let mut best: usize = 0;
        let mut k: usize = 1;
        while k < rem.len()
            invariant
                rem@.len() > 0,
                best < k <= rem@.len(),
                forall|j: int|
                    0 <= j < k ==> total_key(rem@[best as int]) <= total_key(#[trigger] rem@[j]),
            decreases rem@.len() - k,
        {
            if bits_total_le(rem[k], rem[best]) {
                best = k;
            }
            k = k + 1;
        }
        let ghost old_rem = rem@;
        let ghost old_out = out@;
        let m = rem.remove(best);
        out.push(m);
        proof {
            // One element moved over: the combined multiset is unchanged.
            assert(old_rem[best as int] == m);
            assert(old_rem.contains(m));
            assert(rem@ == old_rem.remove(best as int));
            vstd::seq_lib::to_multiset_remove::<u32>(old_rem, best as int);
            vstd::seq_lib::to_multiset_contains::<u32>(old_rem, m);
            vstd::seq_lib::to_multiset_build::<u32>(old_out, m);
            assert(old_rem.to_multiset().count(m) > 0);
            assert(rem@.to_multiset() =~= old_rem.to_multiset().remove(m));
            assert(out@.to_multiset() =~= old_out.to_multiset().insert(m));
            assert(out@.to_multiset().add(rem@.to_multiset()) =~= old_out.to_multiset().add(
                old_rem.to_multiset(),
            ));
            assert(sorted_by(out@, leq)) by {
                assert(forall|i: int|
                    0 <= i < old_out.len() ==> total_key(#[trigger] old_out[i]) <= total_key(m));
                assert(forall|i: int, j: int|
                    0 <= i < j < out@.len() && j < old_out.len() ==> #[trigger] leq(
                        out@[i],
                        out@[j],
                    ));
            }
        }
    }
    proof {
        assert(rem@.to_multiset().len() == 0);
        assert(rem@.to_multiset() =~= Multiset::empty());
        assert(out@.to_multiset() =~= orig.to_multiset());
        lemma_total_le_ordering();
        orig.lemma_sort_by_ensures(leq);
        lemma_sorted_unique(out@, orig.sort_by(leq), leq);
    }
    out
}

/// The exact binary32 pattern of a small count.
fn fp_from_count(n: usize) -> (r: u32)
    requires
        n < 0x100_0000,
    ensures
        r == count_bits(n as nat),
{
    if n == 0 {
        return 0;
    }
    proof {
        lemma_bit_len_bound(n as nat);
    }
    // Binary digit count of n.
    let mut p: usize = 0;
    let mut t: usize = n;
    while t >= 2
        invariant
            1 <= t,
            bit_len(n as nat) == bit_len(t as nat) + p,
            bit_len(n as nat) <= 24,
            p <= 23,
            t <= n < 0x100_0000,
        decreases t,
    {
        proof {
            assert(t / 2 >= 1);
            assert(bit_len((t / 2) as nat) >= 1);
        }
        t = t / 2;
        p = p + 1;
    }
    proof {
        reveal_with_fuel(bit_len, 3);
        assert(bit_len(1nat) == 1);
    }
    proof {
        assert(bit_len(n as nat) == p + 1);
        // A 24-digit bound: bit_len is monotone in its argument's digits.
        lemma_bit_len_bound(n as nat);
    }
    // The significand: n shifted up to 24 digits.
    let mut m: u32 = n as u32;
    let mut s: usize = 0;
    let ghost shift_total: int = 23 - p;
    proof {
        assert(pow2_nat(0) == 1);
        assert((n as nat) * 1 == n as nat);
    }
    while s < 23 - p
        invariant
            p < 24,
            n >= 1,
            s <= 23 - p,
            m == (n as nat) * pow2_nat(s as nat),
            m < 0x100_0000,
            m >= 1,
            bit_len(m as nat) == p + 1 + s,
            bit_len(n as nat) == p + 1,
        decreases 23 - p - s,
    {
        proof {
            lemma_bit_len_double(m as nat);
            lemma_bit_len_small((p + 1 + s) as nat, m as nat);
            lemma_pow2_nat_mono((p + 1 + s) as nat, 23);
            reveal_with_fuel(pow2_nat, 25);
            assert(pow2_nat(23) == 0x80_0000);
            assert(m < 0x80_0000);
        }
        m = m * 2;
        s = s + 1;
        proof {
            assert((n as nat) * pow2_nat((s - 1) as nat) * 2 == (n as nat) * pow2_nat(s as nat))
                by (nonlinear_arith)
                requires
                    pow2_nat(s as nat) == 2 * pow2_nat((s - 1) as nat),
            ;
        }
    }
    proof {
        lemma_bit_len_small(24, m as nat);
        lemma_bit_len_ge(m as nat);
    }
    let bits: u32 = ((p as u32) + 127) * 0x80_0000 + (m - 0x80_0000);
    proof {
        assert(bits == count_bits(n as nat));
    }
    bits
}

/// Powers of two grow with the exponent.
proof fn lemma_pow2_nat_mono(d1: nat, d2: nat)
    requires
        d1 <= d2,
    ensures
        pow2_nat(d1) <= pow2_nat(d2),
    decreases d2,
{
    if d1 < d2 {
        lemma_pow2_nat_mono(d1, (d2 - 1) as nat);
        assert(pow2_nat((d2 - 1) as nat) >= 1) by {
            lemma_pow2_nat_pos((d2 - 1) as nat);
        }
    }
}

/// Powers of two are positive.
proof fn lemma_pow2_nat_pos(d: nat)
    ensures
        pow2_nat(d) >= 1,
    decreases d,
{
    if d > 0 {
        lemma_pow2_nat_pos((d - 1) as nat);
    }
}

/// n has fewer than d binary digits exactly when n < 2^d.
proof fn lemma_bit_len_small(d: nat, n: nat)
    requires
        bit_len(n) == d,
    ensures
        n < pow2_nat(d),
        d > 0 ==> n >= pow2_nat((d - 1) as nat),
    decreases n,
{
    if n > 0 {
        lemma_bit_len_small((d - 1) as nat, n / 2);
    }
}

/// Doubling a positive number adds one binary digit.
proof fn lemma_bit_len_double(n: nat)
    requires
        n >= 1,
    ensures
        bit_len(2 * n) == bit_len(n) + 1,
{
    assert(2 * n / 2 == n);
}

/// A number below 2^24 has at most 24 binary digits.
proof fn lemma_bit_len_bound(n: nat)
    requires
        n < 0x100_0000,
    ensures
        bit_len(n) <= 24,
    decreases n,
{
    if n > 0 {
        lemma_bit_len_bound(n / 2);
        if bit_len(n / 2) == 24 {
            lemma_bit_len_small(24, n / 2);
            reveal_with_fuel(pow2_nat, 25);
            assert(pow2_nat(23) == 0x80_0000);
            assert(n / 2 >= pow2_nat(23));
            assert(false);
        }
    }
}

/// A 24-digit number lies in [2^23, 2^24).
proof fn lemma_bit_len_ge(n: nat)
    requires
        bit_len(n) == 24,
    ensures
        0x80_0000 <= n < 0x100_0000,
{
    lemma_bit_len_small(24, n);
    reveal_with_fuel(pow2_nat, 25);
    assert(pow2_nat(24) == 0x100_0000);
    assert(pow2_nat(23) == 0x80_0000);
}

impl MagnitudeStatistics {
    /// Summary statistics of the vectors' norms: with `sorted` the norms in
    /// the IEEE total order, the largest, the smallest, the left-to-right
    /// sum divided by the exact count, and the lower middle element.  The
    /// count must stay below 2^24, the range in which every count has an
    /// exact binary32 pattern for the mean's divisor — far beyond any panel
    /// count.
    pub fn from_vectors(vectors: &Vec<Vec3>) -> (r: MagnitudeStatistics)
        requires
            vectors@.len() > 0,
            vectors@.len() < 0x100_0000,
        ensures
            ({
                let mags = Seq::new(
                    vectors@.len(),
                    |i: int| abs_of(magnitude3(vectors@[i])),
                );
                let sorted = mags.sort_by(total_le_fn());
                &&& r.max == sorted[sorted.len() - 1]
                &&& r.min == sorted[0]
                &&& r.median == sorted[sorted.len() as int / 2]
                &&& r.mean == div_bits(
                    sum_fold(sorted, sorted.len() as int),
                    count_bits(vectors@.len() as nat),
                )
            }),
    {
        let ghost mags_spec = Seq::new(vectors@.len(), |i: int| abs_of(magnitude3(vectors@[i])));
        let mut mags: Vec<u32> = Vec::new();
        let mut i: usize = 0;
        while i < vectors.len()
            invariant
                i <= vectors@.len(),
                mags@.len() == i,
                mags_spec == Seq::new(vectors@.len(), |k: int| abs_of(magnitude3(vectors@[k]))),
                forall|k: int| 0 <= k < i ==> #[trigger] mags@[k] == mags_spec[k],
            decreases vectors@.len() - i,
        {
            let mg = vectors[i].magnitude();
            mags.push(bits_abs(mg));
            i = i + 1;
        }
        proof {
            assert(mags@ =~= mags_spec);
        }
        let sorted = sort_total(mags);
        let n = sorted.len();
        let mut sum: u32 = 0;
        let mut k: usize = 0;
        while k < n
            invariant
                n == sorted@.len(),
                k <= n,
                sum == sum_fold(sorted@, k as int),
            decreases n - k,
        {
            sum = fp_add(sum, sorted[k]);
            k = k + 1;
        }
        let count = fp_from_count(n);
        let mean = fp_div(sum, count);
        MagnitudeStatistics {
            max: sorted[n - 1],
            min: sorted[0],
            mean,
            median: sorted[n / 2],
        }
    }
}

} // verus!
