//! Dense matrices of binary32 bit patterns, stored row major.

use crate::fp::{abs_of, bits_abs, bits_lt, lt_bits};
use vstd::prelude::*;

verus! {

/// Bit pattern of 1e-5, the magnitude below which `purify` zeroes an entry.
pub const PURIFY_TINY_BITS: u32 = 0x3727_C5AC;

/// A dense matrix of binary32 bit patterns, stored row major.
pub struct Matrix {
    pub rows: usize,
    pub cols: usize,
    pub data: Vec<u32>,
}

impl Matrix {
    /// Well-formedness: the storage holds exactly rows * cols entries.
    pub open spec fn wf(&self) -> bool {
        self.data.len() == self.rows * self.cols
    }

    /// The entry at row r, column c.
    pub open spec fn ent(&self, r: int, c: int) -> u32 {
        self.data[r * self.cols + c]
    }

    /// The all-zero matrix of the given shape.
    pub fn zeros(rows: usize, cols: usize) -> (m: Matrix)
        requires
            rows * cols <= usize::MAX,
        ensures
            m.wf(),
            m.rows == rows,
            m.cols == cols,
            forall|r: int, c: int|
                0 <= r < rows && 0 <= c < cols ==> #[trigger] m.ent(r, c) == 0,
    {
        let n = rows * cols;
        let mut data: Vec<u32> = Vec::new();
        let mut i: usize = 0;
        while i < n
            invariant
                i <= n,
                data.len() == i,
                forall|k: int| 0 <= k < i ==> data[k] == 0,
            decreases n - i,
        {
            data.push(0);
            i = i + 1;
        }
        let m = Matrix { rows, cols, data };
        proof {
            assert forall|r: int, c: int|
                0 <= r < rows && 0 <= c < cols implies #[trigger] m.ent(r, c) == 0 by {
                assert(0 <= r * (cols as int) + c < rows * cols) by (nonlinear_arith)
                    requires
                        0 <= r < rows,
                        0 <= c < cols,
                ;
            }
        }
        m
    }

    /// Build a matrix from its row-major entries.
    pub fn from_data(rows: usize, cols: usize, data: Vec<u32>) -> (m: Matrix)
        requires
            data.len() == rows * cols,
        ensures
            m.wf(),
            m.rows == rows,
            m.cols == cols,
            m.data == data,
    {
        Matrix { rows, cols, data }
    }

    /// Read the entry at row r, column c.
    pub fn get(&self, r: usize, c: usize) -> (v: u32)
        requires
            self.wf(),
            r < self.rows,
            c < self.cols,
        ensures
            v == self.ent(r as int, c as int),
    {
        proof {
            assert(0 <= r * (self.cols as int) + c < self.rows * self.cols) by (nonlinear_arith)
                requires
                    0 <= (r as int) < self.rows,
                    0 <= (c as int) < self.cols,
            ;
        }
        self.data[r * self.cols + c]
    }

    /// Overwrite the entry at row r, column c.
    pub fn set(&mut self, r: usize, c: usize, v: u32)
        requires
            old(self).wf(),
            r < old(self).rows,
            c < old(self).cols,
        ensures
            final(self).wf(),
            final(self).rows == old(self).rows,
            final(self).cols == old(self).cols,
            final(self).ent(r as int, c as int) == v,
            forall|i: int, j: int|
                0 <= i < old(self).rows && 0 <= j < old(self).cols && !(i == r && j == c)
                    ==> #[trigger] final(self).ent(i, j) == old(self).ent(i, j),
    {
        proof {
            assert(0 <= r * (self.cols as int) + c < self.rows * self.cols) by (nonlinear_arith)
                requires
                    0 <= (r as int) < self.rows,
                    0 <= (c as int) < self.cols,
            ;
        }
        let idx = r * self.cols + c;
        self.data.set(idx, v);
        proof {
            let rr = r as int;
            let cc = c as int;
            let n = self.cols as int;
            assert forall|i: int, j: int|
                0 <= i < self.rows && 0 <= j < n && !(i == rr && j == cc) implies #[trigger] self
                .ent(i, j) == old(self).ent(i, j) by {
                assert(0 <= i * n + j < self.rows * n) by (nonlinear_arith)
                    requires
                        0 <= i < self.rows,
                        0 <= j < n,
                ;
                assert(i * n + j != rr * n + cc) by (nonlinear_arith)
                    requires
                        0 <= i,
                        0 <= j < n,
                        0 <= rr,
                        0 <= cc < n,
                        !(i == rr && j == cc),
                ;
            }
        }
    }

    /// The transposed matrix.
    pub fn transpose(&self) -> (t: Matrix)
        requires
            self.wf(),
        ensures
            t.wf(),
            t.rows == self.cols,
            t.cols == self.rows,
            forall|r: int, c: int|
                0 <= r < self.cols && 0 <= c < self.rows ==> #[trigger] t.ent(r, c) == self.ent(
                    c,
                    r,
                ),
    {
        proof {
            assert(self.cols * self.rows == self.rows * self.cols) by (nonlinear_arith);
        }
        let mut data: Vec<u32> = Vec::new();
        let mut r: usize = 0;
        while r < self.cols
            invariant
                self.wf(),
                r <= self.cols,
                data.len() == r * self.rows,
                forall|i: int, j: int|
                    0 <= i < r && 0 <= j < self.rows ==> #[trigger] data[i * self.rows + j]
                        == self.ent(j, i),
            decreases self.cols - r,
        {
            let mut c: usize = 0;
            while c < self.rows
                invariant
                    self.wf(),
                    r < self.cols,
                    c <= self.rows,
                    data.len() == r * self.rows + c,
                    forall|i: int, j: int|
                        0 <= i < r && 0 <= j < self.rows ==> #[trigger] data[i * self.rows + j]
                            == self.ent(j, i),
                    forall|j: int|
                        0 <= j < c ==> #[trigger] data[r * self.rows + j] == self.ent(j, r as int),
                decreases self.rows - c,
            {
                let v = self.get(c, r);
                data.push(v);
                c = c + 1;
                proof {
                    assert(r * self.rows + (c - 1) < data.len());
                    assert forall|i: int, j: int|
                        0 <= i < r && 0 <= j < self.rows implies #[trigger] data[i * self.rows + j]
                        == self.ent(j, i) by {
                        assert(i * self.rows + j < r * self.rows) by (nonlinear_arith)
                            requires
                                0 <= i < r,
                                0 <= j < self.rows,
                        ;
                    }
                }
            }
            r = r + 1;
            proof {
                assert(r * self.rows == (r - 1) * self.rows + self.rows) by (nonlinear_arith);
            }
        }
        proof {
            assert(data.len() == self.cols * self.rows);
        }
        let t = Matrix { rows: self.cols, cols: self.rows, data };
        proof {
            assert forall|r2: int, c2: int|
                0 <= r2 < self.cols && 0 <= c2 < self.rows implies #[trigger] t.ent(r2, c2)
                == self.ent(c2, r2) by {
                assert(t.data[r2 * t.cols + c2] == self.ent(c2, r2));
            }
        }
        t
    }

    /// The entries in column-major order: the order the GPU buffer expects
    /// and the order in which the reference linear-algebra storage walks a
    /// matrix.
    pub fn flatten_column_major(&self) -> (v: Vec<u32>)
        requires
            self.wf(),
        ensures
            v.len() == self.rows * self.cols,
            forall|c: int, r: int|
                0 <= c < self.cols && 0 <= r < self.rows ==> #[trigger] v[c * self.rows + r]
                    == self.ent(r, c),
    {
        proof {
            assert(self.cols * self.rows == self.rows * self.cols) by (nonlinear_arith);
        }
        let mut out: Vec<u32> = Vec::new();
        let mut c: usize = 0;
        while c < self.cols
            invariant
                self.wf(),
                c <= self.cols,
                out.len() == c * self.rows,
                forall|i: int, j: int|
                    0 <= i < c && 0 <= j < self.rows ==> #[trigger] out[i * self.rows + j]
                        == self.ent(j, i),
            decreases self.cols - c,
        {
            let mut r: usize = 0;
            while r < self.rows
                invariant
                    self.wf(),
                    c < self.cols,
                    r <= self.rows,
                    out.len() == c * self.rows + r,
                    forall|i: int, j: int|
                        0 <= i < c && 0 <= j < self.rows ==> #[trigger] out[i * self.rows + j]
                            == self.ent(j, i),
                    forall|j: int|
                        0 <= j < r ==> #[trigger] out[c * self.rows + j] == self.ent(j, c as int),
                decreases self.rows - r,
            {
                let v = self.get(r, c);
                out.push(v);
                r = r + 1;
                proof {
                    assert forall|i: int, j: int|
                        0 <= i < c && 0 <= j < self.rows implies #[trigger] out[i * self.rows + j]
                        == self.ent(j, i) by {
                        assert(i * self.rows + j < c * self.rows) by (nonlinear_arith)
                            requires
                                0 <= i < c,
                                0 <= j < self.rows,
                        ;
                    }
                }
            }
            c = c + 1;
            proof {
                assert(c * self.rows == (c - 1) * self.rows + self.rows) by (nonlinear_arith);
            }
        }
        out
    }

    /// The cleaned copy that `Purifiable` returns: every entry of a diagonal
    /// 3 x 3 block, and every entry of magnitude below 1e-5, replaced by
    /// +0.0.
    pub fn purified(&self) -> (m: Matrix)
        requires
            self.wf(),
        ensures
            m.wf(),
            m.rows == self.rows,
            m.cols == self.cols,
            forall|r: int, c: int|
                0 <= r < self.rows && 0 <= c < self.cols ==> #[trigger] m.ent(r, c) == (if r / 3
                    == c / 3 || lt_bits(abs_of(self.ent(r, c)), PURIFY_TINY_BITS) {
                    0u32
                } else {
                    self.ent(r, c)
                }),
    {
        let mut out = Matrix::zeros(self.rows, self.cols);
        let mut r: usize = 0;
        while r < self.rows
            invariant
                self.wf(),
                out.wf(),
                out.rows == self.rows,
                out.cols == self.cols,
                r <= self.rows,
                forall|i: int, j: int|
                    0 <= i < r && 0 <= j < self.cols ==> #[trigger] out.ent(i, j) == (if i / 3 == j
                        / 3 || lt_bits(abs_of(self.ent(i, j)), PURIFY_TINY_BITS) {
                        0u32
                    } else {
                        self.ent(i, j)
                    }),
                forall|i: int, j: int|
                    r <= i < self.rows && 0 <= j < self.cols ==> #[trigger] out.ent(i, j) == 0,
            decreases self.rows - r,
        {
            let mut c: usize = 0;
            while c < self.cols
                invariant
                    self.wf(),
                    out.wf(),
                    out.rows == self.rows,
                    out.cols == self.cols,
                    r < self.rows,
                    c <= self.cols,
                    forall|i: int, j: int|
                        0 <= i < r && 0 <= j < self.cols ==> #[trigger] out.ent(i, j) == (if i / 3
                            == j / 3 || lt_bits(abs_of(self.ent(i, j)), PURIFY_TINY_BITS) {
                            0u32
                        } else {
                            self.ent(i, j)
                        }),
                    forall|j: int|
                        0 <= j < c ==> #[trigger] out.ent(r as int, j) == (if (r as int) / 3 == j
                            / 3 || lt_bits(abs_of(self.ent(r as int, j)), PURIFY_TINY_BITS) {
                            0u32
                        } else {
                            self.ent(r as int, j)
                        }),
                    forall|i: int, j: int|
                        r < i < self.rows && 0 <= j < self.cols ==> #[trigger] out.ent(i, j) == 0,
                    forall|j: int| c <= j < self.cols ==> #[trigger] out.ent(r as int, j) == 0,
                decreases self.cols - c,
            {
                let v = self.get(r, c);
                let keep = !(r / 3 == c / 3 || bits_lt(bits_abs(v), PURIFY_TINY_BITS));
                if keep {
                    out.set(r, c, v);
                }
                c = c + 1;
            }
            r = r + 1;
        }
        out
    }
}

/// A pseudoinverse as persisted beside a checksum of the geometry it was
/// computed from, so a cached copy can be matched against its source.
pub struct ComputedInverse {
    pub original_checksum: u32,
    pub inverse: Matrix,
}

/// Cleaning of a computed inverse: diagonal 3 x 3 blocks and entries of
/// magnitude below 1e-5 are forced to exact zero.
pub trait Purifiable: Sized {
    /// What the cleaned copy satisfies.
    spec fn purify_post(&self, r: &Self) -> bool;

    /// The cleaned copy.
    fn purify(&self) -> (r: Self)
        ensures
            self.purify_post(&r),
    ;
}

impl Purifiable for Matrix {
    /// A well-formed matrix keeps its shape and has every entry of a
    /// diagonal 3 x 3 block, and every entry of magnitude below 1e-5,
    /// replaced by +0.0; a malformed one keeps its shape over empty
    /// storage.
    open spec fn purify_post(&self, r: &Matrix) -> bool {
        &&& r.rows == self.rows
        &&& r.cols == self.cols
        &&& if self.wf() {
            r.wf() && forall|i: int, j: int|
                0 <= i < self.rows && 0 <= j < self.cols ==> #[trigger] r.ent(i, j) == (if i / 3
                    == j / 3 || lt_bits(abs_of(self.ent(i, j)), PURIFY_TINY_BITS) {
                    0u32
                } else {
                    self.ent(i, j)
                })
        } else {
            r.data@.len() == 0
        }
    }

    fn purify(&self) -> (r: Matrix) {
        let dl = self.data.len();
        match self.rows.checked_mul(self.cols) {
            Some(n) if n == dl => self.purified(),
            _ => Matrix { rows: self.rows, cols: self.cols, data: Vec::new() },
        }
    }
}

} // verus!
