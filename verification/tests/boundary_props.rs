use vortex_panels::boundary::{BoundaryVorticies, ConfigError};
use vortex_panels::matrix::Matrix;
use vortex_panels::stats::MagnitudeStatistics;
use vortex_panels::vec3::Vec3;
use vortex_panels::vortex::{BoundaryInfo, Lifetime, Vortex};

fn v3(x: f32, y: f32, z: f32) -> Vec3 {
    Vec3 { x: x.to_bits(), y: y.to_bits(), z: z.to_bits() }
}

fn vortex(p: Vec3, w: Vec3) -> Vortex {
    Vortex {
        position: p,
        normal: v3(0., 0., 0.),
        vorticity: w,
        lifetime: Lifetime { current: 0, max: 0 },
    }
}

/// The regularized pseudoinverse (relative singular-value cutoff 1e-4),
/// computed by the linear-algebra back end the production path uses.
fn pseudo_inverse(m: &Matrix) -> Matrix {
    let n = m.rows;
    let dm = nalgebra::DMatrix::from_fn(n, n, |r, c| f32::from_bits(m.data[r * n + c]));
    let pi = dm.pseudo_inverse(0.0001f32).unwrap();
    let mut data = Vec::new();
    for r in 0..n {
        for c in 0..n {
            data.push(pi[(r, c)].to_bits());
        }
    }
    Matrix::from_data(n, n, data)
}

/// One Measure -> Apply cycle of the reference path, returning the error
/// statistics before and after the correction.
fn correction_cycle(
    panels: &[Vortex],
    active: &[Vortex],
) -> (MagnitudeStatistics, MagnitudeStatistics) {
    let panels: Vec<Vortex> = panels.to_vec();
    let active: Vec<Vortex> = active.to_vec();
    let matrix = BoundaryVorticies::create_matrix(&panels);
    let pinv = pseudo_inverse(&matrix);
    let errors_before = BoundaryVorticies::create_error_vector(&panels, &active, false);
    let corrections = BoundaryVorticies::calculate_corrections(&pinv, &errors_before);
    let corrected: Vec<Vortex> = panels
        .iter()
        .enumerate()
        .map(|(i, v)| Vortex { vorticity: corrections[i], ..*v })
        .collect();
    let errors_after = BoundaryVorticies::create_error_vector(&corrected, &active, true);
    (
        MagnitudeStatistics::from_vectors(&errors_before),
        MagnitudeStatistics::from_vectors(&errors_after),
    )
}

fn two_panel_group() -> Vec<Vortex> {
    vec![
        vortex(v3(-1., 0., 0.), v3(0., -1., 0.)),
        vortex(v3(1., 0., 0.), v3(1., 1., 1.)),
    ]
}

fn two_active() -> Vec<Vortex> {
    vec![
        Vortex {
            position: v3(0., 0., 0.),
            normal: v3(0., 0., 0.),
            vorticity: v3(0., 1., 0.),
            lifetime: Lifetime { current: 1.0f32.to_bits(), max: 1.0f32.to_bits() },
        },
        Vortex {
            position: v3(0.5, 0.5, 0.),
            normal: v3(0., 0., 0.),
            vorticity: v3(1., 1., 0.),
            lifetime: Lifetime { current: 1.0f32.to_bits(), max: 1.0f32.to_bits() },
        },
    ]
}

#[test]
fn test_cpu() {
    // One full Measure -> Apply cycle on the two-panel group drives the
    // recomputed boundary error below the 1e-4 tolerance.
    let mut panels = two_panel_group();
    panels[0].normal = v3(2., 0., 1.);
    panels[1].normal = v3(1., 0., 0.);
    let active = two_active();
    let (_before, after) = correction_cycle(&panels, &active);
    assert!(f32::from_bits(after.max) <= 0.0001f32, "max {:e}", f32::from_bits(after.max));
}

#[test]
fn correction_convergence_single_vortex() {
    // The same cycle against a single active vortex at the origin.
    let panels = two_panel_group();
    let active = vec![vortex(v3(0., 0., 0.), v3(0., 1., 0.))];
    let (before, after) = correction_cycle(&panels, &active);
    assert!(f32::from_bits(before.max) > 0.1);
    assert!(f32::from_bits(after.max) <= 0.0001f32);
}

#[test]
fn scale_invariance_relative() {
    // The same configuration with vorticity magnitudes scaled by 1e9 still
    // converges, to the same 1e-4 tolerance relative to the scale: binary32
    // carries about seven significant digits, so the absolute residual
    // scales with the data.
    let s = 1e9f32;
    let panels = vec![
        vortex(v3(-1., 0., 0.), v3(0., -s, 0.)),
        vortex(v3(1., 0., 0.), v3(s, s, s)),
    ];
    let active = vec![vortex(v3(0., 0., 0.), v3(0., s, 0.))];
    let (_before, after) = correction_cycle(&panels, &active);
    assert!(f32::from_bits(after.max) <= 0.0001f32 * s, "max {:e}", f32::from_bits(after.max));
}

#[test]
fn step_cpu_replaces_vorticity_with_corrections() {
    // The stepper's cycle must agree with the pieces composed by hand.
    let panels = two_panel_group();
    let active = vec![vortex(v3(0., 0., 0.), v3(0., 1., 0.))];
    let matrix = BoundaryVorticies::create_matrix(&panels);
    let pinv = pseudo_inverse(&matrix);
    let errors = BoundaryVorticies::create_error_vector(&panels, &active, false);
    let corrections = BoundaryVorticies::calculate_corrections(&pinv, &errors);

    let pinv2 = Matrix::from_data(pinv.rows, pinv.cols, pinv.data.clone());
    let mut b = BoundaryVorticies::from_vorticies(vec![panels.clone()], vec![pinv2]).unwrap();
    b.step_cpu(&active, false);
    for p in 0..2 {
        assert_eq!(b.vorticies[0][p].vorticity, corrections[p]);
        assert_eq!(b.vorticies[0][p].position, panels[p].position);
    }
}

#[test]
fn from_vorticies_rejects_bad_configurations() {
    // No group at all.
    let r = BoundaryVorticies::from_vorticies(vec![], vec![]);
    assert_eq!(r.err(), Some(ConfigError::EmptyPanelGroup));
    // An empty group.
    let m0 = Matrix::from_data(0, 0, vec![]);
    let r = BoundaryVorticies::from_vorticies(vec![vec![]], vec![m0]);
    assert_eq!(r.err(), Some(ConfigError::EmptyPanelGroup));
    // Group and matrix lists of different length.
    let r = BoundaryVorticies::from_vorticies(vec![two_panel_group()], vec![]);
    assert_eq!(r.err(), Some(ConfigError::ShapeMismatch));
    // A matrix of the wrong shape.
    let bad = Matrix::from_data(2, 2, vec![0; 4]);
    let r = BoundaryVorticies::from_vorticies(vec![two_panel_group()], vec![bad]);
    assert_eq!(r.err(), Some(ConfigError::ShapeMismatch));
    // A well-shaped configuration is accepted.
    let good = Matrix::from_data(6, 6, vec![0; 36]);
    let b = BoundaryVorticies::from_vorticies(vec![two_panel_group()], vec![good]).unwrap();
    assert_eq!(b.active_index, 0);
    assert_eq!(b.current_length(), 2);
}

#[test]
fn set_active_index_switches_groups() {
    let g1 = two_panel_group();
    let g2 = vec![vortex(v3(0., 3., 0.), v3(0., 0., 1.))];
    let m1 = Matrix::from_data(6, 6, vec![0; 36]);
    let m2 = Matrix::from_data(3, 3, vec![0; 9]);
    let mut b = BoundaryVorticies::from_vorticies(vec![g1, g2], vec![m1, m2]).unwrap();
    assert_eq!(b.current_length(), 2);
    assert!(b.set_active_index(1));
    assert_eq!(b.current_length(), 1);
    assert!(!b.set_active_index(5));
    assert_eq!(b.active_index, 1);
}

#[test]
fn pack_groups_is_contiguous_group_major() {
    let g1 = two_panel_group();
    let g2 = vec![vortex(v3(0., 3., 0.), v3(0., 0., 1.))];
    let packed = BoundaryVorticies::pack_vortex_groups(&vec![g1.clone(), g2.clone()]);
    assert_eq!(packed.len(), 3);
    assert_eq!(packed[0], g1[0]);
    assert_eq!(packed[1], g1[1]);
    assert_eq!(packed[2], g2[0]);
}

#[test]
fn boundary_info_of_matrices() {
    let m1 = Matrix::from_data(6, 6, vec![0; 36]);
    let info = BoundaryInfo::from_matrices(&vec![m1]).unwrap();
    assert_eq!(info.active_index, 0);
    // Two panels: six matrix rows, three per panel.
    assert_eq!(info.active_count, 2);
    assert_eq!(info.count, 1);
    // A single-panel group has a 3 x 3 matrix and an active count of one.
    let m2 = Matrix::from_data(3, 3, vec![0; 9]);
    let info2 = BoundaryInfo::from_matrices(&vec![m2]).unwrap();
    assert_eq!(info2.active_count, 1);
    assert!(BoundaryInfo::from_matrices(&vec![]).is_none());
}

#[test]
fn vorticies_from_positions_normalizes() {
    let pairs = vec![(v3(1., 2., 3.), v3(0., 3., 4.))];
    let ten = 10.0f32.to_bits();
    let panels = BoundaryVorticies::vorticies_from_positions(pairs, ten);
    assert_eq!(panels.len(), 1);
    assert_eq!(panels[0].position, v3(1., 2., 3.));
    // The vorticity is the unit normal divided by ten, evaluated in
    // binary32: (0, 3, 4) has norm 5.
    let expect = v3((0.0f32 / 5.0) / 10.0, (3.0f32 / 5.0) / 10.0, (4.0f32 / 5.0) / 10.0);
    assert_eq!(panels[0].vorticity, expect);
    // The normal field itself stays at the default record's value.
    assert_eq!(panels[0].normal, v3(0., 0., 0.));
}

/// The kernel evaluated with hardware arithmetic, in the library's
/// operation order.
fn hw_kernel(source: &Vortex, at: &Vortex) -> (f32, f32, f32) {
    let dx = f32::from_bits(at.position.x) - f32::from_bits(source.position.x);
    let dy = f32::from_bits(at.position.y) - f32::from_bits(source.position.y);
    let dz = f32::from_bits(at.position.z) - f32::from_bits(source.position.z);
    let dist = ((dx * dx + dy * dy) + dz * dz).sqrt();
    if dist < 1e-4f32 {
        return (0.0, 0.0, 0.0);
    }
    let d3 = (dist * dist) * dist;
    let (wx, wy, wz) = (
        f32::from_bits(source.vorticity.x),
        f32::from_bits(source.vorticity.y),
        f32::from_bits(source.vorticity.z),
    );
    let (ex, ey, ez) = (dx / d3, dy / d3, dz / d3);
    (wy * ez - wz * ey, wz * ex - wx * ez, wx * ey - wy * ex)
}

#[test]
fn error_vector_matches_manual_sum() {
    // The measured error is the left-to-right sum of kernel contributions,
    // group first (when enabled), then the active vortices; it must agree
    // bit for bit with the same sum in hardware arithmetic.
    let panels = two_panel_group();
    let active = two_active();
    let errors = BoundaryVorticies::create_error_vector(&panels, &active, true);
    for (a, panel) in panels.iter().enumerate() {
        let mut sum = (0.0f32, 0.0f32, 0.0f32);
        for b in panels.iter().chain(active.iter()) {
            let k = hw_kernel(b, panel);
            sum = (sum.0 + k.0, sum.1 + k.1, sum.2 + k.2);
        }
        assert_eq!(errors[a].x, sum.0.to_bits());
        assert_eq!(errors[a].y, sum.1.to_bits());
        assert_eq!(errors[a].z, sum.2.to_bits());
    }
}
