//! Matrix table rendering.
//!
//! A debugging aid renders a matrix as an aligned table of ten-character
//! cells.  The rendering is a verified function from the matrix to the
//! text: each entry becomes the ten-character cell
//! `0x` + eight upper-case hex digits of its bit pattern, cells of one row
//! are joined by single spaces, and rows end with a newline.  Printing the
//! text is the caller's business.

use crate::matrix::Matrix;
use vstd::prelude::*;

verus! {

/// The ASCII hex digit (upper case) of a value below 16.
pub open spec fn hex_digit(n: int) -> u8 {
    if n < 10 {
        (0x30 + n) as u8
    } else {
        (0x41 + (n - 10)) as u8
    }
}

/// The ten-byte cell of one entry: `0x` and eight hex digits, most
/// significant first.
pub open spec fn hex_cell(v: u32) -> Seq<u8> {
    seq![0x30u8, 0x78u8] + Seq::new(8, |i: int| hex_digit(((v >> ((7 - i) * 4)) & 0xF) as int))
}

/// One rendered row: the cells of row r joined by spaces, ended by a
/// newline.
pub open spec fn table_row(m: Matrix, r: int) -> Seq<u8>
    decreases m.cols,
{
    table_row_prefix(m, r, m.cols as int) + seq![0x0Au8]
}

/// The first c cells of row r, each preceded by a space except the first.
pub open spec fn table_row_prefix(m: Matrix, r: int, c: int) -> Seq<u8>
    decreases c,
{
    if c <= 0 {
        Seq::empty()
    } else if c == 1 {
        hex_cell(m.ent(r, 0))
    } else {
        table_row_prefix(m, r, c - 1) + seq![0x20u8] + hex_cell(m.ent(r, c - 1))
    }
}

/// The first r rendered rows.
pub open spec fn table_rows(m: Matrix, r: int) -> Seq<u8>
    decreases r,
{
    if r <= 0 {
        Seq::empty()
    } else {
        table_rows(m, r - 1) + table_row(m, r - 1)
    }
}

/// Relies on String::from_utf8: ASCII bytes decode to exactly one character
/// each, in order.
#[verifier::external_body]
fn string_from_ascii(v: Vec<u8>) -> (r: String)
    requires
        forall|i: int| 0 <= i < v@.len() ==> v@[i] < 0x80,
    ensures
        r@.len() == v@.len(),
        forall|i: int| 0 <= i < v@.len() ==> r@[i] == v@[i] as char,
{
    match String::from_utf8(v) {
        Ok(s) => s,
        Err(_) => String::new(),
    }
}

/// Rendering a matrix as an aligned table of ten-character cells.
pub trait MatrixExtension {
    /// What the rendered table satisfies.
    spec fn printstd_post(&self, r: &String) -> bool;

    /// The table text; callers print it to standard output.
    fn printstd(&self) -> (r: String)
        ensures
            self.printstd_post(&r),
    ;
}

impl Matrix {
    /// One entry's cell, as bytes.
    fn push_cell(out: &mut Vec<u8>, v: u32)
        ensures
            final(out)@ == old(out)@ + hex_cell(v),
    {
        out.push(0x30);
        out.push(0x78);
        let mut i: usize = 0;
        while i < 8
            invariant
                i <= 8,
                out@ == old(out)@ + seq![0x30u8, 0x78u8] + Seq::new(
                    i as nat,
                    |k: int| hex_digit(((v >> ((7 - k) * 4)) & 0xF) as int),
                ),
            decreases 8 - i,
        {
            let shift: u32 = ((7 - i) * 4) as u32;
            let nib: u32 = (v >> shift) & 0xF;
            proof {
                assert((v >> shift) & 0xF < 16) by (bit_vector);
            }
            let d: u8 = if nib < 10 {
                (0x30 + nib) as u8
            } else {
                (0x41 + (nib - 10)) as u8
            };
            out.push(d);
            i = i + 1;
            proof {
                assert(out@ =~= old(out)@ + seq![0x30u8, 0x78u8] + Seq::new(
                    i as nat,
                    |k: int| hex_digit(((v >> ((7 - k) * 4)) & 0xF) as int),
                ));
            }
        }
        proof {
            assert(out@ =~= old(out)@ + hex_cell(v));
        }
    }

    /// The table text of the matrix, with its exact layout pinned down.
    pub fn table_text(&self) -> (r: String)
        requires
            self.wf(),
        ensures
            r@.len() == table_rows(*self, self.rows as int).len(),
            forall|i: int|
                0 <= i < r@.len() ==> r@[i] == table_rows(*self, self.rows as int)[i] as char,
    {
        let mut out: Vec<u8> = Vec::new();
        let mut r: usize = 0;
        while r < self.rows
            invariant
                self.wf(),
                r <= self.rows,
                out@ == table_rows(*self, r as int),
                forall|i: int| 0 <= i < out@.len() ==> out@[i] < 0x80,
            decreases self.rows - r,
        {
            let mut c: usize = 0;
            let ghost row_start = out@;
            while c < self.cols
                invariant
                    self.wf(),
                    r < self.rows,
                    c <= self.cols,
                    out@ == row_start + table_row_prefix(*self, r as int, c as int),
                    forall|i: int| 0 <= i < out@.len() ==> out@[i] < 0x80,
                decreases self.cols - c,
            {
                if c > 0 {
                    out.push(0x20);
                }
                let v = self.get(r, c);
                Matrix::push_cell(&mut out, v);
                c = c + 1;
                proof {
                    lemma_hex_cell_ascii(v);
                    if c == 1 {
                        assert(out@ =~= row_start + table_row_prefix(*self, r as int, 1));
                    } else {
                        assert(out@ =~= row_start + table_row_prefix(*self, r as int, c as int));
                    }
                }
            }
            out.push(0x0A);
            r = r + 1;
            proof {
                assert(out@ =~= table_rows(*self, r as int));
            }
        }
        string_from_ascii(out)
    }
}

/// Every byte of a cell is ASCII.
proof fn lemma_hex_cell_ascii(v: u32)
    ensures
        forall|i: int| 0 <= i < hex_cell(v).len() ==> hex_cell(v)[i] < 0x80,
{
    assert forall|i: int| 0 <= i < hex_cell(v).len() implies hex_cell(v)[i] < 0x80 by {
        if i >= 2 {
            let sh = (7 - (i - 2)) * 4;
            let x: u32 = v >> sh;
            assert(x & 0xF < 16) by (bit_vector);
        }
    }
}

impl MatrixExtension for Matrix {
    /// A well-formed matrix renders as exactly its table rows; a malformed
    /// one as the empty text.
    open spec fn printstd_post(&self, r: &String) -> bool {
        if self.wf() {
            r@.len() == table_rows(*self, self.rows as int).len() && forall|i: int|
                0 <= i < r@.len() ==> r@[i] == table_rows(*self, self.rows as int)[i] as char
        } else {
            r@.len() == 0
        }
    }

    fn printstd(&self) -> (r: String) {
        let dl = self.data.len();
        match self.rows.checked_mul(self.cols) {
            Some(n) if n == dl => self.table_text(),
            _ => String::new(),
        }
    }
}

} // verus!
