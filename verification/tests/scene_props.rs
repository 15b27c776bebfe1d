use vortex_panels::scene::{ActiveVorticies, Particles, Scene, SceneObject};
use vortex_panels::template::{parametrize_bytes, replace_all, Parametrized};
use vortex_panels::vec3::Vec3;
use vortex_panels::vortex::{Lifetime, Vortex};

fn v3(x: f32, y: f32, z: f32) -> Vec3 {
    Vec3 { x: x.to_bits(), y: y.to_bits(), z: z.to_bits() }
}

#[test]
fn particles_seeding_and_builders() {
    let p = Particles::new_inside_unit_sphere(10);
    assert_eq!(p.number_of_particles, 10);
    assert_eq!(p.particles.len(), 10);
    assert!(p.resetting_enabled);
    assert!(p.fading_enabled);
    let p = p.with_fading(false).with_resetting(false);
    assert!(!p.fading_enabled);
    assert!(!p.resetting_enabled);
    assert_eq!(p.number_of_particles, 10);

    // Every seeded particle starts at rest with equal lifetime scalars.
    for particle in &p.particles {
        assert_eq!(particle.velocity, v3(0., 0., 0.));
        assert_eq!(particle.lifetime.current, particle.lifetime.max);
    }

    let q = Particles::new_on_unit_sphere(7);
    assert_eq!(q.number_of_particles, 7);
    // A point seeded on the unit sphere has norm close to 1.
    for particle in &q.particles {
        let (x, y, z) = (
            f32::from_bits(particle.position.x),
            f32::from_bits(particle.position.y),
            f32::from_bits(particle.position.z),
        );
        let n = (x * x + y * y + z * z).sqrt();
        assert!((n - 1.0).abs() < 1e-3, "norm {}", n);
    }
}

#[test]
fn active_vorticies_mirror_expansion() {
    let seed = vec![
        Vortex {
            position: v3(0.5, 0., 0.),
            normal: v3(0., 0., 0.),
            vorticity: v3(1., 1., 1.),
            lifetime: Lifetime { current: 5.0f32.to_bits(), max: 10.0f32.to_bits() },
        },
    ];
    let a = ActiveVorticies::new(
        seed.clone(),
        1.0f32.to_bits(),
        2.0f32.to_bits(),
        0.5f32.to_bits(),
        1.0f32.to_bits(),
        3,
    );
    assert_eq!(a.number_of_vorticies, 4);
    assert_eq!(a.vorticies.len(), 4);
    assert_eq!(a.vorticies[0], seed[0]);
    let default = Vortex {
        position: v3(0., 0., 0.),
        normal: v3(0., 0., 0.),
        vorticity: v3(0., 0., 0.),
        lifetime: Lifetime { current: 0, max: 0 },
    };
    for k in 1..4 {
        assert_eq!(a.vorticies[k], default);
    }
    assert!(a.fading_enabled);
    let a = a.with_fading(false);
    assert!(!a.fading_enabled);
}

#[test]
fn active_vorticies_random_seeding() {
    let a = ActiveVorticies::new_random(
        30,
        1.0f32.to_bits(),
        3.0f32.to_bits(),
        0.1f32.to_bits(),
        0.2f32.to_bits(),
        0,
    );
    assert_eq!(a.vorticies.len(), 30);
    for v in &a.vorticies {
        assert_eq!(v.lifetime.current, v.lifetime.max);
        assert_eq!(v.normal, v3(0., 0., 0.));
        let lt = f32::from_bits(v.lifetime.current);
        assert!((1.0..=3.0).contains(&lt), "lifetime {}", lt);
        let (x, y, z) = (
            f32::from_bits(v.vorticity.x),
            f32::from_bits(v.vorticity.y),
            f32::from_bits(v.vorticity.z),
        );
        let n = (x * x + y * y + z * z).sqrt();
        assert!(n <= 0.2 + 1e-3, "vorticity norm {}", n);
    }
}

#[test]
fn scene_registry_keeps_order() {
    let empty = Scene::default();
    assert_eq!(empty.len(), 0);
    let mut scene = Scene::new();
    assert_eq!(scene.len(), 0);
    scene.add(SceneObject::Particles(Particles::new(vec![])));
    scene.add(SceneObject::ActiveVorticies(ActiveVorticies::new(
        vec![],
        0,
        0,
        0,
        0,
        0,
    )));
    assert_eq!(scene.len(), 2);
    assert!(matches!(scene.objects[0], SceneObject::Particles(_)));
    assert!(matches!(scene.objects[1], SceneObject::ActiveVorticies(_)));
}

#[test]
fn parametrize_replaces_placeholders() {
    let text: Vec<u8> = b"vel = $get_velocity; x = $get_velocity;".to_vec();
    let params: Vec<(Vec<u8>, Vec<u8>)> =
        vec![(b"get_velocity".to_vec(), b"cross(w, d)".to_vec())];
    let out = parametrize_bytes(&text, &params);
    assert_eq!(out, b"vel = cross(w, d); x = cross(w, d);".to_vec());
    let out2 = text.parametrize(&params);
    assert_eq!(out2, out);

    // Pairs apply in order: a value may itself contain a later key.
    let chain: Vec<(Vec<u8>, Vec<u8>)> =
        vec![(b"a".to_vec(), b"$b".to_vec()), (b"b".to_vec(), b"3".to_vec())];
    assert_eq!(parametrize_bytes(&b"$a".to_vec(), &chain), b"3".to_vec());

    // Leftmost, non-overlapping replacement.
    assert_eq!(
        replace_all(&b"aaa".to_vec(), &b"aa".to_vec(), &b"b".to_vec()),
        b"ba".to_vec()
    );
    // An empty pattern replaces nothing.
    assert_eq!(
        replace_all(&b"xy".to_vec(), &b"".to_vec(), &b"q".to_vec()),
        b"xy".to_vec()
    );
}
