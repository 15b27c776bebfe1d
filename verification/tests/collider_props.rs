use vortex_panels::collider::{ray_sphere_intersection, Collider};
use vortex_panels::gpu::{Cube, Ray};
use vortex_panels::vec3::Vec3;

fn v3(x: f32, y: f32, z: f32) -> Vec3 {
    Vec3 { x: x.to_bits(), y: y.to_bits(), z: z.to_bits() }
}

fn f(b: u32) -> f32 {
    f32::from_bits(b)
}

#[test]
fn ray_hits_unit_sphere_head_on() {
    // From (0, 0, -5) along +z into a unit sphere at the origin: first hit
    // at (0, 0, -1).
    let ray = Ray { origin: v3(0., 0., -5.), direction: v3(0., 0., 1.) };
    let hit = ray_sphere_intersection(&ray, v3(0., 0., 0.), 1.0f32.to_bits()).unwrap();
    assert_eq!(f(hit.x), 0.0);
    assert_eq!(f(hit.y), 0.0);
    assert_eq!(f(hit.z), -1.0);
}

#[test]
fn ray_misses_or_points_away() {
    // A parallel ray two units off the axis misses.
    let ray = Ray { origin: v3(0., 2., -5.), direction: v3(0., 0., 1.) };
    assert!(ray_sphere_intersection(&ray, v3(0., 0., 0.), 1.0f32.to_bits()).is_none());
    // A ray pointing away from the sphere misses too (the hit would lie
    // behind the origin).
    let ray = Ray { origin: v3(0., 0., -5.), direction: v3(0., 0., -1.) };
    assert!(ray_sphere_intersection(&ray, v3(0., 0., 0.), 1.0f32.to_bits()).is_none());
}

#[test]
fn cube_collider_matches_hardware_math() {
    let cube = Cube { position: v3(0.25, -0.5, 3.0), velocity: v3(0., 0., 0.), color: v3(1., 0., 0.) };
    let ray = Ray { origin: v3(0.1, 0., 0.), direction: v3(0.05, -0.1, 0.99) };
    let hit = cube.collides_with_ray(&ray);

    // The same computation with hardware arithmetic.
    let (ox, oy, oz) = (0.1f32 - 0.25, 0.0f32 - -0.5, 0.0f32 - 3.0);
    let (dx, dy, dz) = (0.05f32, -0.1f32, 0.99f32);
    let b = (ox * dx + oy * dy) + oz * dz;
    let c = ((ox * ox + oy * oy) + oz * oz) - 1.0f32 * 1.0;
    let disc = b * b - c;
    assert!(disc >= 0.0);
    let t = -b - disc.sqrt();
    assert!(t >= 0.0);
    let hit = hit.unwrap();
    assert_eq!(hit.x, (0.1f32 + dx * t).to_bits());
    assert_eq!(hit.y, (0.0f32 + dy * t).to_bits());
    assert_eq!(hit.z, (0.0f32 + dz * t).to_bits());
}
