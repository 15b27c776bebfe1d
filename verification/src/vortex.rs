//! The vortex record and the control-plane records shared with the GPU
//! execution path.

use crate::vec3::{zero3, Vec3};
use vstd::prelude::*;

verus! {

/// The two lifetime scalars of a vortex: the remaining and the initial
/// lifetime, both binary32 bit patterns.
#[derive(Clone, Copy, Debug, PartialEq, Eq, Structural)]
pub struct Lifetime {
    pub current: u32,
    pub max: u32,
}

/// One vortex: a boundary panel or a free vortex.  A boundary panel's
/// position and normal never change after construction; its vorticity is
/// mutated only by the correction step.
#[derive(Clone, Copy, Debug, PartialEq, Eq, Structural)]
pub struct Vortex {
    pub position: Vec3,
    pub normal: Vec3,
    pub vorticity: Vec3,
    pub lifetime: Lifetime,
}

/// The all-zero vortex record.
pub open spec fn vortex_default() -> Vortex {
    Vortex {
        position: zero3(),
        normal: zero3(),
        vorticity: zero3(),
        lifetime: Lifetime { current: 0, max: 0 },
    }
}

impl Default for Vortex {
    /// The record with every field at +0.0.
    fn default() -> (r: Vortex)
        ensures
            r == vortex_default(),
    {
        Vortex {
            position: Vec3::zero(),
            normal: Vec3::zero(),
            vorticity: Vec3::zero(),
            lifetime: Lifetime { current: 0, max: 0 },
        }
    }
}

/// The small control record shared with the GPU execution path, letting a
/// single dispatch operate on the currently active panel group only.
#[derive(Clone, Copy, Debug, PartialEq, Eq, Structural)]
pub struct BoundaryInfo {
    /// Index of the active panel group.
    pub active_index: i32,
    /// Number of panels of the active group.
    pub active_count: i32,
    /// Number of panel groups.
    pub count: i32,
}

} // verus!
