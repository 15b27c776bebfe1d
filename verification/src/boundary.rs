//! The boundary-condition solver: influence-matrix construction, per-step
//! error measurement, and the corrective vorticity adjustment.
//!
//! A `BoundaryVorticies` value holds the panel groups and, for each group,
//! the regularized pseudoinverse of its influence matrix.  The
//! pseudoinverse itself is a one-time numerical decomposition performed by
//! the linear-algebra back end outside this library; the constructor takes
//! it as an argument and everything downstream of it — matrix assembly,
//! error measurement, correction — is verified here.

use crate::fp::ONE_BITS;
use crate::kernel::{velocity_influence, velocity_influence_bits};
use crate::matrix::Matrix;
use crate::softfp::{add_bits, fp_add, fp_mul, mul_bits};
use crate::vec3::{add3, zero3, Vec3};
use crate::vortex::{BoundaryInfo, Vortex};
use vstd::prelude::*;

verus! {

/// The unit vector (pattern 1.0) along axis i.
pub open spec fn axis_unit(i: int) -> Vec3 {
    if i == 0 {
        Vec3 { x: ONE_BITS, y: 0, z: 0 }
    } else if i == 1 {
        Vec3 { x: 0, y: ONE_BITS, z: 0 }
    } else {
        Vec3 { x: 0, y: 0, z: ONE_BITS }
    }
}

/// Component j of a vector.
pub open spec fn comp3(v: Vec3, j: int) -> u32 {
    if j == 0 {
        v.x
    } else if j == 1 {
        v.y
    } else {
        v.z
    }
}

/// The synthetic probe vortex used by the matrix builder: the panel record
/// with its vorticity replaced by a unit perturbation.
pub open spec fn probe(p: Vortex, w: Vec3) -> Vortex {
    Vortex { vorticity: w, ..p }
}

/// The influence-matrix entry at row 3a+i, column 3b+j: the velocity
/// response at panel a, along axis j, to a unit vorticity perturbation of
/// panel b along axis i; zero by construction when i equals j.
pub open spec fn influence_entry(panels: Seq<Vortex>, rr: int, cc: int) -> u32 {
    let a = rr / 3;
    let i = rr % 3;
    let b = cc / 3;
    let j = cc % 3;
    if i == j {
        0
    } else {
        comp3(velocity_influence_bits(probe(panels[b], axis_unit(i)), panels[a]), j)
    }
}

/// Matrix diagonal invariant: every influence-matrix entry whose row axis
/// equals its column axis — the entries at row 3a+i, column 3b+j with
/// i = j — is exactly zero, for every pair of panels.
pub proof fn lemma_matrix_diagonal(panels: Seq<Vortex>, rr: int, cc: int)
    requires
        rr % 3 == cc % 3,
    ensures
        influence_entry(panels, rr, cc) == 0,
{
}

/// The unit vector along axis i, computed.
fn axis_unit_exec(i: usize) -> (v: Vec3)
    requires
        i < 3,
    ensures
        v == axis_unit(i as int),
{
    if i == 0 {
        Vec3 { x: ONE_BITS, y: 0, z: 0 }
    } else if i == 1 {
        Vec3 { x: 0, y: ONE_BITS, z: 0 }
    } else {
        Vec3 { x: 0, y: 0, z: ONE_BITS }
    }
}

/// One influence-matrix entry, computed.
fn influence_entry_exec(panels: &Vec<Vortex>, rr: usize, cc: usize) -> (v: u32)
    requires
        rr < 3 * panels@.len(),
        cc < 3 * panels@.len(),
    ensures
        v == influence_entry(panels@, rr as int, cc as int),
{
    let i = rr % 3;
    let j = cc % 3;
    if i == j {
        0
    } else {
        let a = rr / 3;
        let b = cc / 3;
        proof {
            assert(rr / 3 < panels@.len() && cc / 3 < panels@.len());
        }
        let unit = axis_unit_exec(i);
        let source = Vortex { vorticity: unit, ..panels[b] };
        let vel = velocity_influence(&source, &panels[a]);
        if j == 0 {
            vel.x
        } else if j == 1 {
            vel.y
        } else {
            vel.z
        }
    }
}

/// A configuration error: the simulation must not start.
#[derive(Clone, Copy, Debug, PartialEq, Eq, Structural)]
pub enum ConfigError {
    /// A panel group (or the whole list of groups) is empty.
    EmptyPanelGroup,
    /// A pseudoinverse does not have the shape of its panel group, or the
    /// group and matrix lists differ in length.
    ShapeMismatch,
    /// The pseudoinverse decomposition did not converge; reported by the
    /// linear-algebra back end before this library is ever constructed.
    DecompositionFailed,
}

/// The boundary panel groups with their cached pseudoinverses.
pub struct BoundaryVorticies {
    /// The panel groups; vorticity is the only field the correction step
    /// mutates.
    pub vorticies: Vec<Vec<Vortex>>,
    /// For each group, the regularized pseudoinverse of its influence
    /// matrix (not transposed; `calculate_corrections` multiplies by its
    /// transpose).
    pub matricies: Vec<Matrix>,
    /// The group the correction step currently operates on.
    pub active_index: usize,
}

impl BoundaryVorticies {
    /// Build the dense influence matrix of one panel group: entry
    /// (3a+i, 3b+j) holds the kernel response at panel a, axis j, to a unit
    /// vorticity at panel b along axis i, and the diagonal-axis entries
    /// (i = j) stay zero.
    pub fn create_matrix(vorticies: &Vec<Vortex>) -> (m: Matrix)
        requires
            (3 * vorticies@.len()) * (3 * vorticies@.len()) <= usize::MAX,
        ensures
            m.wf(),
            m.rows == 3 * vorticies@.len(),
            m.cols == 3 * vorticies@.len(),
            forall|rr: int, cc: int|
                0 <= rr < 3 * vorticies@.len() && 0 <= cc < 3 * vorticies@.len()
                    ==> #[trigger] m.ent(rr, cc) == influence_entry(vorticies@, rr, cc),
    {
        proof {
            assert(3 * vorticies@.len() <= (3 * vorticies@.len()) * (3 * vorticies@.len()))
                by (nonlinear_arith);
        }
        let n: usize = 3 * vorticies.len();
        let mut data: Vec<u32> = Vec::new();
        let mut rr: usize = 0;
        while rr < n
            invariant
                n == 3 * vorticies@.len(),
                n * n <= usize::MAX,
                rr <= n,
                data.len() == rr * n,
                forall|i: int, j: int|
                    0 <= i < rr && 0 <= j < n ==> #[trigger] data[i * n + j] == influence_entry(
                        vorticies@,
                        i,
                        j,
                    ),
            decreases n - rr,
        {
            let mut cc: usize = 0;
            proof {
                assert(rr * n + n <= n * n) by (nonlinear_arith)
                    requires
                        rr < n,
                ;
            }
            while cc < n
                invariant
                    n == 3 * vorticies@.len(),
                    n * n <= usize::MAX,
                    rr < n,
                    rr * n + n <= n * n,
                    cc <= n,
                    data.len() == rr * n + cc,
                    forall|i: int, j: int|
                        0 <= i < rr && 0 <= j < n ==> #[trigger] data[i * n + j] == influence_entry(
                            vorticies@,
                            i,
                            j,
                        ),
                    forall|j: int|
                        0 <= j < cc ==> #[trigger] data[rr * n + j] == influence_entry(
                            vorticies@,
                            rr as int,
                            j,
                        ),
                decreases n - cc,
            {
                let v = influence_entry_exec(vorticies, rr, cc);
                data.push(v);
                cc = cc + 1;
                proof {
                    assert forall|i: int, j: int|
                        0 <= i < rr && 0 <= j < n implies #[trigger] data[i * n + j]
                        == influence_entry(vorticies@, i, j) by {
                        assert(i * n + j < rr * n) by (nonlinear_arith)
                            requires
                                0 <= i < rr,
                                0 <= j < n,
                        ;
                    }
                }
            }
            rr = rr + 1;
            proof {
                assert(rr * n == (rr - 1) * n + n) by (nonlinear_arith);
            }
        }
        proof {
            assert(data.len() == n * n);
        }
        let m = Matrix::from_data(n, n, data);
        proof {
            assert forall|rr2: int, cc2: int|
                0 <= rr2 < n && 0 <= cc2 < n implies #[trigger] m.ent(rr2, cc2) == influence_entry(
                vorticies@,
                rr2,
                cc2,
            ) by {
                assert(m.ent(rr2, cc2) == m.data[rr2 * n + cc2]);
            }
        }
        m
    }
}

/// The accumulator after folding the kernel contributions of the first k
/// sources onto `acc`, in source order, with one IEEE vector addition per
/// source.
pub open spec fn influence_sum(acc: Vec3, sources: Seq<Vortex>, at: Vortex, k: int) -> Vec3
    decreases k,
{
    if k <= 0 {
        acc
    } else {
        add3(
            influence_sum(acc, sources, at, k - 1),
            velocity_influence_bits(sources[k - 1], at),
        )
    }
}

/// The boundary error at one panel: the velocity the other sources induce
/// there.  When `scb` (should_check_boundary) is set the panel's own group
/// contributes first, then every active vortex, in order.
pub open spec fn error_at(
    panels: Seq<Vortex>,
    active: Seq<Vortex>,
    scb: bool,
    at: Vortex,
) -> Vec3 {
    let base = if scb {
        influence_sum(zero3(), panels, at, panels.len() as int)
    } else {
        zero3()
    };
    influence_sum(base, active, at, active.len() as int)
}

/// Component k of the error vector flattened into a length-3P column.
pub open spec fn flat_error(errors: Seq<Vec3>, k: int) -> u32 {
    comp3(errors[k / 3], k % 3)
}

/// The accumulator after the first k terms of row r of the correction
/// product: corrections = transpose(m) * flattened errors, each row summed
/// left to right from +0.0.
pub open spec fn correction_dot(m: Matrix, errors: Seq<Vec3>, r: int, k: int) -> u32
    decreases k,
{
    if k <= 0 {
        0
    } else {
        add_bits(
            correction_dot(m, errors, r, k - 1),
            mul_bits(m.ent(k - 1, r), flat_error(errors, k - 1)),
        )
    }
}

/// The corrective 3-vector of panel p.
pub open spec fn correction_at(m: Matrix, errors: Seq<Vec3>, p: int) -> Vec3 {
    let n = 3 * errors.len() as int;
    Vec3 {
        x: correction_dot(m, errors, 3 * p, n),
        y: correction_dot(m, errors, 3 * p + 1, n),
        z: correction_dot(m, errors, 3 * p + 2, n),
    }
}

impl BoundaryVorticies {
    /// Measure the boundary error: for each panel, the sum of the kernel
    /// contributions of every active vortex — and, when
    /// `should_check_boundary` is set, of every panel of the same group
    /// first.
    pub fn create_error_vector(
        vorticies: &Vec<Vortex>,
        active_vorticies: &Vec<Vortex>,
        should_check_boundary: bool,
    ) -> (r: Vec<Vec3>)
        ensures
            r@.len() == vorticies@.len(),
            forall|a: int|
                0 <= a < vorticies@.len() ==> #[trigger] r@[a] == error_at(
                    vorticies@,
                    active_vorticies@,
                    should_check_boundary,
                    vorticies@[a],
                ),
    {
        let mut out: Vec<Vec3> = Vec::new();
        let mut a: usize = 0;
        while a < vorticies.len()
            invariant
                a <= vorticies@.len(),
                out@.len() == a,
                forall|i: int|
                    0 <= i < a ==> #[trigger] out@[i] == error_at(
                        vorticies@,
                        active_vorticies@,
                        should_check_boundary,
                        vorticies@[i],
                    ),
            decreases vorticies@.len() - a,
        {
            let at = vorticies[a];
            let mut sum = Vec3::zero();
            if should_check_boundary {
                let mut b: usize = 0;
                while b < vorticies.len()
                    invariant
                        b <= vorticies@.len(),
                        a < vorticies@.len(),
                        at == vorticies@[a as int],
                        sum == influence_sum(zero3(), vorticies@, at, b as int),
                    decreases vorticies@.len() - b,
                {
                    let v = velocity_influence(&vorticies[b], &at);
                    sum = sum.add(&v);
                    b = b + 1;
                }
            }
            let ghost base = sum;
            let mut b: usize = 0;
            while b < active_vorticies.len()
                invariant
                    b <= active_vorticies@.len(),
                    a < vorticies@.len(),
                    at == vorticies@[a as int],
                    sum == influence_sum(base, active_vorticies@, at, b as int),
                decreases active_vorticies@.len() - b,
            {
                let v = velocity_influence(&active_vorticies[b], &at);
                sum = sum.add(&v);
                b = b + 1;
            }
            out.push(sum);
            a = a + 1;
        }
        out
    }

    /// Apply the cached pseudoinverse: flatten the error vector into a
    /// length-3P column, multiply by the transpose of `matrix`, and reshape
    /// the product into per-panel corrective 3-vectors.
    pub fn calculate_corrections(matrix: &Matrix, errors: &Vec<Vec3>) -> (r: Vec<Vec3>)
        requires
            matrix.wf(),
            matrix.rows == 3 * errors@.len(),
            matrix.cols == 3 * errors@.len(),
            3 * errors@.len() <= usize::MAX,
        ensures
            r@.len() == errors@.len(),
            forall|p: int|
                0 <= p < errors@.len() ==> #[trigger] r@[p] == correction_at(*matrix, errors@, p),
    {
        let n: usize = 3 * errors.len();
        let mut out: Vec<Vec3> = Vec::new();
        let mut p: usize = 0;
        while p < errors.len()
            invariant
                n == 3 * errors@.len(),
                matrix.wf(),
                matrix.rows == n,
                matrix.cols == n,
                p <= errors@.len(),
                out@.len() == p,
                forall|i: int|
                    0 <= i < p ==> #[trigger] out@[i] == correction_at(*matrix, errors@, i),
            decreases errors@.len() - p,
        {
            let x = Self::correction_row(matrix, errors, 3 * p);
            let y = Self::correction_row(matrix, errors, 3 * p + 1);
            let z = Self::correction_row(matrix, errors, 3 * p + 2);
            out.push(Vec3 { x, y, z });
            p = p + 1;
        }
        out
    }

    /// One row of the correction product: the dot product of column r of
    /// the pseudoinverse with the flattened error column.
    fn correction_row(matrix: &Matrix, errors: &Vec<Vec3>, r: usize) -> (v: u32)
        requires
            matrix.wf(),
            matrix.rows == 3 * errors@.len(),
            matrix.cols == 3 * errors@.len(),
            r < 3 * errors@.len(),
        ensures
            v == correction_dot(*matrix, errors@, r as int, 3 * errors@.len() as int),
    {
        let n: usize = 3 * errors.len();
        let mut acc: u32 = 0;
        let mut k: usize = 0;
        while k < n
            invariant
                n == 3 * errors@.len(),
                matrix.wf(),
                matrix.rows == n,
                matrix.cols == n,
                r < n,
                k <= n,
                acc == correction_dot(*matrix, errors@, r as int, k as int),
            decreases n - k,
        {
            proof {
                assert(k / 3 < errors@.len());
            }
            let e = errors[k / 3];
            let ek = if k % 3 == 0 {
                e.x
            } else if k % 3 == 1 {
                e.y
            } else {
                e.z
            };
            let mv = matrix.get(k, r);
            acc = fp_add(acc, fp_mul(mv, ek));
            k = k + 1;
        }
        acc
    }
}

/// The first configuration flaw among the groups at index g and beyond:
/// an empty group, or a pseudoinverse whose shape is not 3P x 3P.
pub open spec fn group_flaw(
    vs: Seq<Seq<Vortex>>,
    ms: Seq<Matrix>,
    g: int,
) -> Option<ConfigError>
    decreases vs.len() - g,
{
    if g < 0 || g >= vs.len() {
        Option::None
    } else if vs[g].len() == 0 {
        Option::Some(ConfigError::EmptyPanelGroup)
    } else if !(ms[g].wf() && ms[g].rows == 3 * vs[g].len() && ms[g].cols == 3 * vs[g].len()
        && (3 * vs[g].len()) * (3 * vs[g].len()) <= usize::MAX) {
        Option::Some(ConfigError::ShapeMismatch)
    } else {
        group_flaw(vs, ms, g + 1)
    }
}

/// The first configuration flaw of a whole panel-group configuration.
pub open spec fn config_flaw(vs: Seq<Seq<Vortex>>, ms: Seq<Matrix>) -> Option<ConfigError> {
    if vs.len() == 0 {
        Option::Some(ConfigError::EmptyPanelGroup)
    } else if vs.len() != ms.len() {
        Option::Some(ConfigError::ShapeMismatch)
    } else {
        group_flaw(vs, ms, 0)
    }
}

impl BoundaryVorticies {
    /// Well-formedness: at least one group, an active index in range, one
    /// pseudoinverse per group, each of its group's 3P x 3P shape, and no
    /// group empty.
    pub open spec fn wf(&self) -> bool {
        &&& self.vorticies@.len() > 0
        &&& self.active_index < self.vorticies@.len()
        &&& self.matricies@.len() == self.vorticies@.len()
        &&& forall|g: int|
            0 <= g < self.vorticies@.len() ==> (#[trigger] self.vorticies@[g]@.len() > 0
                && self.matricies@[g].wf() && self.matricies@[g].rows == 3
                * self.vorticies@[g]@.len() && self.matricies@[g].cols == 3
                * self.vorticies@[g]@.len() && (3 * self.vorticies@[g]@.len()) * (3
                * self.vorticies@[g]@.len()) <= usize::MAX)
    }

    /// The sequence of panel-group views.
    pub open spec fn group_views(&self) -> Seq<Seq<Vortex>> {
        self.vorticies@.map_values(|v: Vec<Vortex>| v@)
    }

    /// Construct the solver state from the panel groups and their computed
    /// pseudoinverses.  Fails, with the first flaw found, on an empty
    /// configuration, an empty group, or a shape mismatch — a fatal
    /// configuration error: the simulation must not start.
    pub fn from_vorticies(vorticies: Vec<Vec<Vortex>>, matricies: Vec<Matrix>) -> (r: Result<
        BoundaryVorticies,
        ConfigError,
    >)
        ensures
            match r {
                Result::Ok(b) => {
                    &&& config_flaw(vorticies@.map_values(|v: Vec<Vortex>| v@), matricies@)
                        is None
                    &&& b.wf()
                    &&& b.vorticies == vorticies
                    &&& b.matricies == matricies
                    &&& b.active_index == 0
                },
                Result::Err(e) => config_flaw(
                    vorticies@.map_values(|v: Vec<Vortex>| v@),
                    matricies@,
                ) == Option::Some(e),
            },
    {
        let ghost vs = vorticies@.map_values(|v: Vec<Vortex>| v@);
        if vorticies.len() == 0 {
            return Result::Err(ConfigError::EmptyPanelGroup);
        }
        if vorticies.len() != matricies.len() {
            return Result::Err(ConfigError::ShapeMismatch);
        }
        let mut g: usize = 0;
        while g < vorticies.len()
            invariant
                vs == vorticies@.map_values(|v: Vec<Vortex>| v@),
                vorticies@.len() == matricies@.len(),
                g <= vorticies@.len(),
                group_flaw(vs, matricies@, 0) == group_flaw(vs, matricies@, g as int),
                forall|h: int|
                    0 <= h < g ==> (#[trigger] vorticies@[h]@.len() > 0 && matricies@[h].wf()
                        && matricies@[h].rows == 3 * vorticies@[h]@.len() && matricies@[h].cols
                        == 3 * vorticies@[h]@.len() && (3 * vorticies@[h]@.len()) * (3
                        * vorticies@[h]@.len()) <= usize::MAX),
            decreases vorticies@.len() - g,
        {
            proof {
                assert(vs[g as int] == vorticies@[g as int]@);
            }
            if vorticies[g].len() == 0 {
                return Result::Err(ConfigError::EmptyPanelGroup);
            }
            let len = vorticies[g].len();
            let l3 = match len.checked_mul(3) {
                Some(v) => v,
                None => {
                    proof {
                        assert(3 * vs[g as int].len() <= (3 * vs[g as int].len()) * (3
                            * vs[g as int].len())) by (nonlinear_arith)
                            requires
                                vs[g as int].len() >= 1,
                        ;
                    }
                    return Result::Err(ConfigError::ShapeMismatch);
                },
            };
            let ll = match l3.checked_mul(l3) {
                Some(v) => v,
                None => {
                    return Result::Err(ConfigError::ShapeMismatch);
                },
            };
            let m = &matricies[g];
            if !(m.rows == l3 && m.cols == l3 && m.data.len() == ll) {
                return Result::Err(ConfigError::ShapeMismatch);
            }
            g = g + 1;
        }
        let b = BoundaryVorticies { vorticies, matricies, active_index: 0 };
        Result::Ok(b)
    }

    /// Number of panels in the active group.
    pub fn current_length(&self) -> (n: usize)
        requires
            self.wf(),
        ensures
            n == self.vorticies@[self.active_index as int]@.len(),
    {
        self.vorticies[self.active_index].len()
    }

    /// Switch the correction to another panel group.  Returns false, and
    /// changes nothing, when the index is out of range.
    pub fn set_active_index(&mut self, index: usize) -> (ok: bool)
        requires
            old(self).wf(),
        ensures
            final(self).wf(),
            ok == (index < old(self).vorticies@.len()),
            ok ==> *final(self) == (BoundaryVorticies {
                active_index: index,
                ..*old(self)
            }),
            !ok ==> *final(self) == *old(self),
    {
        if index < self.vorticies.len() {
            self.active_index = index;
            true
        } else {
            false
        }
    }

    /// One full Measure -> Apply cycle of the reference path on the active
    /// group: measure the error vector the active vortices (and, when
    /// `should_check_boundary` is set, the group itself) induce, turn it
    /// into corrections through the cached pseudoinverse, and overwrite
    /// each panel's vorticity with its correction.  (The correction
    /// replaces the vorticity; repeating the cycle re-derives it from the
    /// newly measured error each tick.)
    pub fn step_cpu(&mut self, active_vorticies: &Vec<Vortex>, should_check_boundary: bool)
        requires
            old(self).wf(),
        ensures
            final(self).wf(),
            final(self).matricies == old(self).matricies,
            final(self).active_index == old(self).active_index,
            final(self).vorticies@.len() == old(self).vorticies@.len(),
            forall|g: int|
                0 <= g < old(self).vorticies@.len() && g != old(self).active_index
                    ==> #[trigger] final(self).vorticies@[g] == old(self).vorticies@[g],
            final(self).vorticies@[old(self).active_index as int]@.len() == old(
                self,
            ).vorticies@[old(self).active_index as int]@.len(),
            forall|p: int|
                0 <= p < old(self).vorticies@[old(self).active_index as int]@.len() ==> {
                    let panels = old(self).vorticies@[old(self).active_index as int]@;
                    let m = old(self).matricies@[old(self).active_index as int];
                    let errors = Seq::new(
                        panels.len(),
                        |a: int|
                            error_at(panels, active_vorticies@, should_check_boundary, panels[a]),
                    );
                    #[trigger] final(self).vorticies@[old(self).active_index as int]@[p]
                        == (Vortex {
                        vorticity: correction_at(m, errors, p),
                        ..panels[p]
                    })
                },
    {
        let idx = self.active_index;
        let errors = Self::create_error_vector(
            &self.vorticies[idx],
            active_vorticies,
            should_check_boundary,
        );
        let corrections = Self::calculate_corrections(&self.matricies[idx], &errors);
        let ghost panels = self.vorticies@[idx as int]@;
        let ghost especs = Seq::new(
            panels.len(),
            |a: int| error_at(panels, active_vorticies@, should_check_boundary, panels[a]),
        );
        proof {
            assert(errors@ =~= especs);
        }
        let group = &mut self.vorticies[idx];
        let n = group.len();
        let mut p: usize = 0;
        while p < n
            invariant
                n == panels.len(),
                corrections@.len() == n,
                group@.len() == n,
                forall|i: int|
                    0 <= i < n ==> #[trigger] corrections@[i] == correction_at(
                        old(self).matricies@[old(self).active_index as int],
                        especs,
                        i,
                    ),
                forall|i: int|
                    p <= i < n ==> #[trigger] group@[i] == panels[i],
                forall|i: int|
                    0 <= i < p ==> #[trigger] group@[i] == (Vortex {
                        vorticity: corrections@[i],
                        ..panels[i]
                    }),
            decreases n - p,
        {
            let c = corrections[p];
            let updated = Vortex { vorticity: c, ..group[p] };
            group.set(p, updated);
            p = p + 1;
        }
    }

    /// Derive boundary panels from mesh vertices: each (position, normal)
    /// pair becomes a fixed panel at that position whose initial vorticity
    /// is the unit normal divided by `vorticity_scale_divisor` (a binary32
    /// pattern; the reference configuration divides by 10 — the divisor is
    /// a tunable parameter, not a principled constant).  The other fields
    /// start at the default record's values.
    pub fn vorticies_from_positions(
        positions_and_normals: Vec<(Vec3, Vec3)>,
        vorticity_scale_divisor: u32,
    ) -> (r: Vec<Vortex>)
        ensures
            r@.len() == positions_and_normals@.len(),
            forall|i: int|
                0 <= i < r@.len() ==> #[trigger] r@[i] == (Vortex {
                    position: positions_and_normals@[i].0,
                    vorticity: crate::vec3::div3(
                        crate::vec3::div3(
                            positions_and_normals@[i].1,
                            crate::vec3::magnitude3(positions_and_normals@[i].1),
                        ),
                        vorticity_scale_divisor,
                    ),
                    ..crate::vortex::vortex_default()
                }),
    {
        let mut out: Vec<Vortex> = Vec::new();
        let mut i: usize = 0;
        while i < positions_and_normals.len()
            invariant
                i <= positions_and_normals@.len(),
                out@.len() == i,
                forall|k: int|
                    0 <= k < i ==> #[trigger] out@[k] == (Vortex {
                        position: positions_and_normals@[k].0,
                        vorticity: crate::vec3::div3(
                            crate::vec3::div3(
                                positions_and_normals@[k].1,
                                crate::vec3::magnitude3(positions_and_normals@[k].1),
                            ),
                            vorticity_scale_divisor,
                        ),
                        ..crate::vortex::vortex_default()
                    }),
            decreases positions_and_normals@.len() - i,
        {
            let (position, normal) = positions_and_normals[i];
            let mag = normal.magnitude();
            let vorticity = normal.div(mag).div(vorticity_scale_divisor);
            out.push(Vortex { position, vorticity, ..Vortex::default() });
            i = i + 1;
        }
        out
    }

    /// Pack all boundary vortex records into one contiguous, group-major
    /// buffer: the layout the GPU path reads.
    pub fn pack_vortex_groups(vorticies: &Vec<Vec<Vortex>>) -> (r: Vec<Vortex>)
        ensures
            r@ == packed_groups(vorticies@.map_values(|v: Vec<Vortex>| v@), vorticies@.len() as int),
    {
        let ghost vs = vorticies@.map_values(|v: Vec<Vortex>| v@);
        let mut out: Vec<Vortex> = Vec::new();
        let mut g: usize = 0;
        while g < vorticies.len()
            invariant
                vs == vorticies@.map_values(|v: Vec<Vortex>| v@),
                g <= vorticies@.len(),
                out@ == packed_groups(vs, g as int),
            decreases vorticies@.len() - g,
        {
            let group = &vorticies[g];
            let mut j: usize = 0;
            while j < group.len()
                invariant
                    vs == vorticies@.map_values(|v: Vec<Vortex>| v@),
                    g < vorticies@.len(),
                    group@ == vorticies@[g as int]@,
                    j <= group@.len(),
                    out@ == packed_groups(vs, g as int) + group@.subrange(0, j as int),
                decreases group@.len() - j,
            {
                out.push(group[j]);
                proof {
                    assert(out@ =~= packed_groups(vs, g as int) + group@.subrange(
                        0,
                        j as int + 1,
                    ));
                }
                j = j + 1;
            }
            g = g + 1;
            proof {
                assert(group@.subrange(0, group@.len() as int) =~= group@);
                assert(out@ == packed_groups(vs, g as int));
            }
        }
        out
    }
}

/// The concatenation of the first k panel groups, in order.
pub open spec fn packed_groups(vs: Seq<Seq<Vortex>>, k: int) -> Seq<Vortex>
    decreases k,
{
    if k <= 0 {
        Seq::empty()
    } else {
        packed_groups(vs, k - 1) + vs[k - 1]
    }
}

impl BoundaryInfo {
    /// The control record of a configuration: group zero active, its panel
    /// count (a third of its influence matrix's row count) as the active
    /// count, and the number of groups.  None when there is no group at all
    /// — an empty configuration is a fatal configuration error.
    pub fn from_matrices(matricies: &Vec<Matrix>) -> (r: Option<BoundaryInfo>)
        requires
            matricies@.len() <= i32::MAX,
            matricies@.len() > 0 ==> matricies@[0].rows <= i32::MAX,
        ensures
            match r {
                Option::Some(info) => {
                    &&& matricies@.len() > 0
                    &&& info.active_index == 0
                    &&& info.active_count == matricies@[0].rows as int / 3
                    &&& info.count == matricies@.len()
                },
                Option::None => matricies@.len() == 0,
            },
    {
        if matricies.len() == 0 {
            return Option::None;
        }
        Option::Some(
            BoundaryInfo {
                active_index: 0,
                active_count: (matricies[0].rows / 3) as i32,
                count: matricies.len() as i32,
            },
        )
    }
}

} // verus!
