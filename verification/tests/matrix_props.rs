use vortex_panels::boundary::BoundaryVorticies;
use vortex_panels::extensions::MatrixExtension;
use vortex_panels::kernel::velocity_influence;
use vortex_panels::matrix::{Matrix, Purifiable};
use vortex_panels::vec3::Vec3;
use vortex_panels::vortex::{Lifetime, Vortex};

fn v3(x: f32, y: f32, z: f32) -> Vec3 {
    Vec3 { x: x.to_bits(), y: y.to_bits(), z: z.to_bits() }
}

fn vortex(p: Vec3, w: Vec3) -> Vortex {
    Vortex {
        position: p,
        normal: v3(0., 0., 0.),
        vorticity: w,
        lifetime: Lifetime { current: 0, max: 0 },
    }
}

fn sample_panels() -> Vec<Vortex> {
    vec![
        vortex(v3(-1., 0., 0.), v3(0., -1., 0.)),
        vortex(v3(1., 0., 0.), v3(1., 1., 1.)),
        vortex(v3(0., 2., -1.), v3(0.5, 0., -0.25)),
    ]
}

#[test]
fn matrix_diagonal_invariant() {
    // Every entry at row 3a+i, column 3b+j with i = j is exactly zero.
    let panels = sample_panels();
    let m = BoundaryVorticies::create_matrix(&panels);
    assert_eq!(m.rows, 9);
    assert_eq!(m.cols, 9);
    for rr in 0..m.rows {
        for cc in 0..m.cols {
            if rr % 3 == cc % 3 {
                assert_eq!(m.get(rr, cc), 0u32, "entry ({}, {})", rr, cc);
            }
        }
    }
}

#[test]
fn matrix_entries_are_kernel_responses() {
    // Entry (3a+i, 3b+j) is the j component of the kernel response at
    // panel a to a unit vorticity along axis i placed at panel b.
    let panels = sample_panels();
    let m = BoundaryVorticies::create_matrix(&panels);
    let units = [v3(1., 0., 0.), v3(0., 1., 0.), v3(0., 0., 1.)];
    for a in 0..3usize {
        for b in 0..3usize {
            for i in 0..3usize {
                for j in 0..3usize {
                    if i == j {
                        continue;
                    }
                    let probe = Vortex { vorticity: units[i], ..panels[b] };
                    let vel = velocity_influence(&probe, &panels[a]);
                    let comp = [vel.x, vel.y, vel.z][j];
                    assert_eq!(m.get(3 * a + i, 3 * b + j), comp);
                }
            }
        }
    }
}

#[test]
fn transpose_and_flatten() {
    let m = Matrix::from_data(2, 3, vec![1, 2, 3, 4, 5, 6]);
    let t = m.transpose();
    assert_eq!((t.rows, t.cols), (3, 2));
    assert_eq!(t.data, vec![1, 4, 2, 5, 3, 6]);
    // Column-major flattening walks the columns of the row-major storage.
    assert_eq!(m.flatten_column_major(), vec![1, 4, 2, 5, 3, 6]);
}

#[test]
fn purify_zeroes_blocks_and_dust() {
    // 4 x 4: the leading 3 x 3 block index pairs (r / 3 == c / 3) go to
    // zero, as does anything of magnitude below 1e-5.
    let big = 2.0f32.to_bits();
    let dust = 1e-6f32.to_bits();
    let neg = (-3.0f32).to_bits();
    let mut data = vec![0u32; 16];
    data[0 * 4 + 0] = big;  // diagonal block: cleared
    data[0 * 4 + 3] = big;  // off block: kept
    data[1 * 4 + 3] = dust; // off block but tiny: cleared
    data[3 * 4 + 0] = neg;  // off block: kept
    data[3 * 4 + 3] = big;  // diagonal block (r/3 == c/3 == 1): cleared
    let m = Matrix::from_data(4, 4, data);
    let p = m.purify();
    assert_eq!(p.get(0, 0), 0);
    assert_eq!(p.get(0, 3), big);
    assert_eq!(p.get(1, 3), 0);
    assert_eq!(p.get(3, 0), neg);
    assert_eq!(p.get(3, 3), 0);
}

#[test]
fn table_text_layout() {
    let m = Matrix::from_data(2, 2, vec![0, 1.0f32.to_bits(), 0xDEADBEEF, 0xA]);
    let text = m.printstd();
    assert_eq!(text, "0x00000000 0x3F800000\n0xDEADBEEF 0x0000000A\n");
}
