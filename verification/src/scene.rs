//! The scene registry and the particle / free-vortex systems' data models.
//!
//! A scene is an ordered registry of the objects the render loop draws and
//! steps each tick; the objects' data lives here, the GPU resources and
//! dispatches around them in the rendering back end.

use crate::boundary::BoundaryVorticies;
use crate::gpu::{BoundaryMesh, CubeGeometry, TestSphere};
use crate::softfp::{fp_mul, fp_add};
use crate::util::{random_inside_sphere, random_inside_unit_sphere, random_on_unit_sphere};
use crate::vec3::{zero3, Vec3};
use crate::vortex::{Lifetime, Vortex};
use vstd::prelude::*;

verus! {

/// Bit pattern of 10.0, the lifetime scale of a fresh particle.
pub const TEN_BITS: u32 = 0x4120_0000;

/// Bit pattern of 0.1, the radius of the particle seeding cloud.
pub const TENTH_BITS: u32 = 0x3DCC_CCCD;

/// Bit pattern of 0.7, the x coordinate of the seeding cloud's centre.
pub const SEED_X_BITS: u32 = 0x3F33_3333;

/// Bit pattern of 0.4, the y coordinate of the seeding cloud's centre.
pub const SEED_Y_BITS: u32 = 0x3ECC_CCCD;

/// One smoke particle.
#[derive(Clone, Copy, Debug, PartialEq, Eq, Structural)]
pub struct Particle {
    pub position: Vec3,
    pub lifetime: Lifetime,
    pub velocity: Vec3,
}

/// The particle system's data: the seeded particles and the behaviour
/// switches the compute dispatch reads.
pub struct Particles {
    /// The seeded particle records, in buffer order.
    pub particles: Vec<Particle>,
    pub number_of_particles: usize,
    pub resetting_enabled: bool,
    pub fading_enabled: bool,
}

impl Particles {
    /// A particle system over the given records; resetting and fading both
    /// start enabled.
    pub fn new(particles: Vec<Particle>) -> (r: Particles)
        ensures
            r.particles == particles,
            r.number_of_particles == particles@.len(),
            r.resetting_enabled,
            r.fading_enabled,
    {
        let number_of_particles = particles.len();
        Particles { particles, number_of_particles, resetting_enabled: true, fading_enabled: true }
    }

    /// n random particles seeded inside a small sphere around the seeding
    /// centre.  Whatever the random draws, every particle starts at rest
    /// with its two lifetime scalars equal.
    pub fn new_inside_unit_sphere(n: usize) -> (r: Particles)
        ensures
            r.number_of_particles == n,
            r.particles@.len() == n,
            r.resetting_enabled,
            r.fading_enabled,
            forall|k: int|
                0 <= k < n ==> (#[trigger] r.particles@[k]).velocity == zero3()
                    && r.particles@[k].lifetime.current == r.particles@[k].lifetime.max,
    {
        Particles::new(Particles::get_random_particles_inside_unit_sphere(n))
    }

    /// n random particles seeded on the unit sphere.  Whatever the random
    /// draws, every particle starts at rest with its two lifetime scalars
    /// equal.
    pub fn new_on_unit_sphere(n: usize) -> (r: Particles)
        ensures
            r.number_of_particles == n,
            r.particles@.len() == n,
            r.resetting_enabled,
            r.fading_enabled,
            forall|k: int|
                0 <= k < n ==> (#[trigger] r.particles@[k]).velocity == zero3()
                    && r.particles@[k].lifetime.current == r.particles@[k].lifetime.max,
    {
        Particles::new(Particles::get_random_particles_on_unit_sphere(n))
    }

    /// n particles around the seeding centre: position centre + 0.1 times a
    /// random point of the unit ball, lifetime a random scalar in [0, 10)
    /// for both the remaining and the initial value, velocity zero.
    fn get_random_particles_inside_unit_sphere(n: usize) -> (r: Vec<Particle>)
        ensures
            r@.len() == n,
            forall|k: int|
                0 <= k < n ==> (#[trigger] r@[k]).velocity == zero3() && r@[k].lifetime.current
                    == r@[k].lifetime.max,
    {
        let centre = Vec3 { x: SEED_X_BITS, y: SEED_Y_BITS, z: 0 };
        let mut out: Vec<Particle> = Vec::new();
        let mut i: usize = 0;
        while i < n
            invariant
                i <= n,
                out@.len() == i,
                forall|k: int|
                    0 <= k < i ==> (#[trigger] out@[k]).velocity == zero3()
                        && out@[k].lifetime.current == out@[k].lifetime.max,
            decreases n - i,
        {
            let lt = fp_mul(crate::util::random_word_scalar(), TEN_BITS);
            let position = centre.add(&random_inside_unit_sphere().scale(TENTH_BITS));
            out.push(
                Particle {
                    position,
                    lifetime: Lifetime { current: lt, max: lt },
                    velocity: Vec3::zero(),
                },
            );
            i = i + 1;
        }
        out
    }

    /// n particles on the unit sphere, with the same lifetime seeding.
    fn get_random_particles_on_unit_sphere(n: usize) -> (r: Vec<Particle>)
        ensures
            r@.len() == n,
            forall|k: int|
                0 <= k < n ==> (#[trigger] r@[k]).velocity == zero3() && r@[k].lifetime.current
                    == r@[k].lifetime.max,
    {
        let mut out: Vec<Particle> = Vec::new();
        let mut i: usize = 0;
        while i < n
            invariant
                i <= n,
                out@.len() == i,
                forall|k: int|
                    0 <= k < i ==> (#[trigger] out@[k]).velocity == zero3()
                        && out@[k].lifetime.current == out@[k].lifetime.max,
            decreases n - i,
        {
            let lt = fp_mul(crate::util::random_word_scalar(), TEN_BITS);
            let position = random_on_unit_sphere();
            out.push(
                Particle {
                    position,
                    lifetime: Lifetime { current: lt, max: lt },
                    velocity: Vec3::zero(),
                },
            );
            i = i + 1;
        }
        out
    }

    /// The same system with particle resetting switched as given.
    pub fn with_resetting(self, resetting_enabled: bool) -> (r: Particles)
        ensures
            r == (Particles { resetting_enabled, ..self }),
    {
        Particles { resetting_enabled, ..self }
    }

    /// The same system with distance fading switched as given.
    pub fn with_fading(self, fading_enabled: bool) -> (r: Particles)
        ensures
            r == (Particles { fading_enabled, ..self }),
    {
        Particles { fading_enabled, ..self }
    }
}

/// The free-vortex system's data: the seeded vortices (padded with default
/// records for the mirror copies the compute dispatch fills in) and the
/// seeding parameters, the scalars as binary32 bit patterns.
pub struct ActiveVorticies {
    pub vorticies: Vec<Vortex>,
    pub mirror_number: usize,
    pub number_of_vorticies: usize,
    pub fading_enabled: bool,
    pub min_lifetime: u32,
    pub max_lifetime: u32,
    pub min_vorticity: u32,
    pub max_vorticity: u32,
}

impl ActiveVorticies {
    /// A free-vortex system over the given records, expanded with
    /// mirror_number default records per seeded vortex for the dispatch to
    /// fill.
    pub fn new(
        vorticies: Vec<Vortex>,
        min_lifetime: u32,
        max_lifetime: u32,
        min_vorticity: u32,
        max_vorticity: u32,
        mirror_number: usize,
    ) -> (r: ActiveVorticies)
        requires
            mirror_number < usize::MAX,
            (mirror_number + 1) * vorticies@.len() <= usize::MAX,
        ensures
            r.vorticies@.len() == (mirror_number + 1) * vorticies@.len(),
            forall|i: int|
                0 <= i < vorticies@.len() ==> #[trigger] r.vorticies@[i] == vorticies@[i],
            forall|i: int|
                vorticies@.len() <= i < r.vorticies@.len() ==> #[trigger] r.vorticies@[i]
                    == crate::vortex::vortex_default(),
            r.number_of_vorticies == (mirror_number + 1) * vorticies@.len(),
            r.mirror_number == mirror_number,
            r.fading_enabled,
            r.min_lifetime == min_lifetime,
            r.max_lifetime == max_lifetime,
            r.min_vorticity == min_vorticity,
            r.max_vorticity == max_vorticity,
    {
        let base = vorticies.len();
        proof {
            assert(base <= (mirror_number + 1) * base) by (nonlinear_arith)
                requires
                    base >= 0,
                    mirror_number >= 0,
            ;
        }
        let target = (mirror_number + 1) * base;
        let ghost orig = vorticies@;
        let mut vorticies = vorticies;
        let mut i: usize = base;
        while i < target
            invariant
                base <= i,
                i <= target || i == base,
                base == orig.len(),
                vorticies@.len() == i,
                forall|k: int| 0 <= k < base ==> #[trigger] vorticies@[k] == orig[k],
                forall|k: int|
                    base <= k < i ==> #[trigger] vorticies@[k] == crate::vortex::vortex_default(),
            decreases target - i,
        {
            vorticies.push(Vortex::default());
            i = i + 1;
        }
        let number_of_vorticies = vorticies.len();
        ActiveVorticies {
            vorticies,
            mirror_number,
            number_of_vorticies,
            fading_enabled: true,
            min_lifetime,
            max_lifetime,
            min_vorticity,
            max_vorticity,
        }
    }

    /// A free-vortex system seeded with random vortices.  Whatever the
    /// random draws, every seeded record keeps the default normal and has
    /// its two lifetime scalars equal, and every record beyond the seeded
    /// ones is the default padding the dispatch fills in.
    pub fn new_random(
        number_of_vorticies: usize,
        min_lifetime: u32,
        max_lifetime: u32,
        min_vorticity: u32,
        max_vorticity: u32,
        mirror_number: usize,
    ) -> (r: ActiveVorticies)
        requires
            mirror_number < usize::MAX,
            (mirror_number + 1) * number_of_vorticies <= usize::MAX,
        ensures
            r.vorticies@.len() == (mirror_number + 1) * number_of_vorticies,
            r.number_of_vorticies == (mirror_number + 1) * number_of_vorticies,
            r.mirror_number == mirror_number,
            r.fading_enabled,
            r.min_lifetime == min_lifetime,
            r.max_lifetime == max_lifetime,
            r.min_vorticity == min_vorticity,
            r.max_vorticity == max_vorticity,
            forall|i: int|
                0 <= i < number_of_vorticies ==> (#[trigger] r.vorticies@[i]).normal == zero3()
                    && r.vorticies@[i].lifetime.current == r.vorticies@[i].lifetime.max,
            forall|i: int|
                number_of_vorticies <= i < r.vorticies@.len() ==> #[trigger] r.vorticies@[i]
                    == crate::vortex::vortex_default(),
    {
        let vorticies = ActiveVorticies::get_random_vorticies(
            number_of_vorticies,
            min_lifetime,
            max_lifetime,
            min_vorticity,
            max_vorticity,
        );
        ActiveVorticies::new(
            vorticies,
            min_lifetime,
            max_lifetime,
            min_vorticity,
            max_vorticity,
            mirror_number,
        )
    }

    /// n random vortices: position inside the unit ball, vorticity between
    /// the two vorticity radii, lifetime uniform between the two lifetime
    /// bounds (all bounds binary32 bit patterns).
    fn get_random_vorticies(
        n: usize,
        min_lifetime: u32,
        max_lifetime: u32,
        min_vorticity: u32,
        max_vorticity: u32,
    ) -> (r: Vec<Vortex>)
        ensures
            r@.len() == n,
            forall|k: int|
                0 <= k < n ==> (#[trigger] r@[k]).normal == zero3() && r@[k].lifetime.current
                    == r@[k].lifetime.max,
    {
        let mut out: Vec<Vortex> = Vec::new();
        let mut i: usize = 0;
        while i < n
            invariant
                i <= n,
                out@.len() == i,
                forall|k: int|
                    0 <= k < i ==> (#[trigger] out@[k]).normal == zero3() && out@[k].lifetime.current
                        == out@[k].lifetime.max,
            decreases n - i,
        {
            let u = crate::util::random_word_scalar();
            let lt = fp_add(
                fp_mul(u, crate::softfp::fp_sub(max_lifetime, min_lifetime)),
                min_lifetime,
            );
            let position = random_inside_unit_sphere();
            let vorticity = random_inside_sphere(min_vorticity, max_vorticity);
            out.push(
                Vortex {
                    position,
                    normal: Vec3::zero(),
                    vorticity,
                    lifetime: Lifetime { current: lt, max: lt },
                },
            );
            i = i + 1;
        }
        out
    }

    /// The same system with distance fading switched as given.
    pub fn with_fading(self, fading_enabled: bool) -> (r: ActiveVorticies)
        ensures
            r == (ActiveVorticies { fading_enabled, ..self }),
    {
        ActiveVorticies { fading_enabled, ..self }
    }
}

/// One registered scene object: the registry of variants the render loop
/// draws and steps.
pub enum SceneObject {
    Particles(Particles),
    ActiveVorticies(ActiveVorticies),
    BoundaryVorticies(BoundaryVorticies),
    BoundaryMesh(BoundaryMesh),
    CubeGeometry(CubeGeometry),
    TestSphere(TestSphere),
}

/// The ordered registry of scene objects.
pub struct Scene {
    pub objects: Vec<SceneObject>,
}

impl Scene {
    /// The empty scene.
    pub fn new() -> (r: Scene)
        ensures
            r.objects@.len() == 0,
    {
        Scene { objects: Vec::new() }
    }

    /// Register one more object, behind all earlier ones.
    pub fn add(&mut self, object: SceneObject)
        ensures
            final(self).objects@ == old(self).objects@.push(object),
    {
        self.objects.push(object);
    }

    /// Number of registered objects.
    pub fn len(&self) -> (n: usize)
        ensures
            n == self.objects@.len(),
    {
        self.objects.len()
    }
}

impl Default for Scene {
    /// The empty scene.
    fn default() -> (r: Scene)
        ensures
            r.objects@.len() == 0,
    {
        Scene::new()
    }
}

} // verus!
