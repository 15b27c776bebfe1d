use vortex_panels::kernel::velocity_influence;
use vortex_panels::vec3::Vec3;
use vortex_panels::vortex::{Lifetime, Vortex};

fn v3(x: f32, y: f32, z: f32) -> Vec3 {
    Vec3 { x: x.to_bits(), y: y.to_bits(), z: z.to_bits() }
}

fn vortex(p: Vec3, w: Vec3) -> Vortex {
    Vortex {
        position: p,
        normal: v3(0., 0., 0.),
        vorticity: w,
        lifetime: Lifetime { current: 0, max: 0 },
    }
}

/// The kernel evaluated with hardware arithmetic, in the same operation
/// order as the library.
fn hardware_kernel(source: &Vortex, at: &Vortex) -> (f32, f32, f32) {
    let dx = f32::from_bits(at.position.x) - f32::from_bits(source.position.x);
    let dy = f32::from_bits(at.position.y) - f32::from_bits(source.position.y);
    let dz = f32::from_bits(at.position.z) - f32::from_bits(source.position.z);
    let dist = ((dx * dx + dy * dy) + dz * dz).sqrt();
    if dist < 1e-4f32 {
        return (0.0, 0.0, 0.0);
    }
    let d3 = (dist * dist) * dist;
    let (wx, wy, wz) = (
        f32::from_bits(source.vorticity.x),
        f32::from_bits(source.vorticity.y),
        f32::from_bits(source.vorticity.z),
    );
    let (ex, ey, ez) = (dx / d3, dy / d3, dz / d3);
    (wy * ez - wz * ey, wz * ex - wx * ez, wx * ey - wy * ex)
}

#[test]
fn kernel_right_hand_rule() {
    // A unit vortex along +z at the origin, observed at +x: the induced
    // velocity points along +y (right-hand rule), with magnitude 1.
    let source = vortex(v3(0., 0., 0.), v3(0., 0., 1.));
    let at = vortex(v3(1., 0., 0.), v3(0., 1., 0.));
    let r = velocity_influence(&source, &at);
    assert_eq!(f32::from_bits(r.x), 0.0);
    assert_eq!(f32::from_bits(r.y), 1.0);
    assert_eq!(f32::from_bits(r.z), 0.0);
    // The two directions are independent computations: observed from -x the
    // velocity points along -y.
    let at2 = vortex(v3(-1., 0., 0.), v3(0., 1., 0.));
    let r2 = velocity_influence(&source, &at2);
    assert_eq!(f32::from_bits(r2.y), -1.0);
}

#[test]
fn kernel_singularity_guard() {
    // Zero separation gives the zero vector, whatever the vorticity.
    let a = vortex(v3(3.5, -2.25, 7.125), v3(123.0, -456.0, 789.0));
    let r = velocity_influence(&a, &a);
    assert_eq!(r.x, 0u32);
    assert_eq!(r.y, 0u32);
    assert_eq!(r.z, 0u32);
    // Two distinct records at one position behave the same way.
    let b = vortex(v3(3.5, -2.25, 7.125), v3(1.0, 0.0, 0.0));
    let r2 = velocity_influence(&b, &a);
    assert_eq!((r2.x, r2.y, r2.z), (0, 0, 0));
}

#[test]
fn kernel_matches_hardware_arithmetic() {
    // The library evaluates the kernel on bit patterns through a software
    // float implementation; the result must match hardware IEEE 754
    // arithmetic bit for bit, square root included.
    let cases = [
        (v3(-1., 0., 0.), v3(0., -1., 0.), v3(1., 0., 0.)),
        (v3(0.5, 0.5, 0.), v3(1., 1., 0.), v3(-1., 0., 0.)),
        (v3(0.3, -0.7, 2.9), v3(0.01, 5.5, -3.25), v3(-1.5, 0.25, 0.125)),
        (v3(1e-3, 0., 0.), v3(1e6, -2e-5, 4.), v3(0., 0., 0.)),
        (v3(7., 8., 9.), v3(1e9, 1e9, 1e9), v3(-4., 1., 0.5)),
    ];
    for (p, w, q) in cases {
        let source = vortex(p, w);
        let at = vortex(q, v3(0., 0., 0.));
        let r = velocity_influence(&source, &at);
        let (hx, hy, hz) = hardware_kernel(&source, &at);
        assert_eq!(r.x, hx.to_bits());
        assert_eq!(r.y, hy.to_bits());
        assert_eq!(r.z, hz.to_bits());
    }
}
