//! Handle records of the rendering and compute back end.
//!
//! The solver core issues buffer-upload and kernel-dispatch requests to a
//! GPU back end; these records are the data plane it shares with that back
//! end: object names the graphics API handed out, and the flags the draw
//! path reads.  Compiling shaders, binding buffers and dispatching kernels
//! happen in the back end itself, outside this library.

use crate::vec3::Vec3;
use vstd::prelude::*;

verus! {

/// The probe body's state record, as the compute dispatch reads and writes
/// it.
#[derive(Clone, Copy, Debug, PartialEq, Eq, Structural)]
pub struct Cube {
    pub position: Vec3,
    pub velocity: Vec3,
    pub color: Vec3,
}

/// A picking ray in world space.
#[derive(Clone, Copy, Debug, PartialEq, Eq, Structural)]
pub struct Ray {
    pub origin: Vec3,
    pub direction: Vec3,
}

/// A linked vertex/fragment program: its program object name and a label
/// for diagnostics.
#[derive(Clone, Debug, Default)]
pub struct ShaderProgram {
    pub location: u32,
    pub name: String,
}

/// A linked compute program: its program object name.
#[derive(Clone, Copy, Debug, Default)]
pub struct ComputeShaderProgram {
    pub location: u32,
}

/// An uploaded mesh: its vertex-array and index-buffer names and how many
/// indices to draw.
#[derive(Clone, Copy, Debug)]
pub struct Geometry {
    pub vao: u32,
    pub ibo: u32,
    pub index_length: usize,
}

/// A texture object name.
#[derive(Clone, Copy, Debug)]
pub struct Texture {
    pub id: u32,
}

/// The drawable obstacle surface: its program, mesh and hover flag.
pub struct BoundaryMesh {
    pub program: ShaderProgram,
    pub geometry: Geometry,
    pub vao: u32,
    pub hover: bool,
}

/// The object that re-uploads the boundary control record each tick.
pub struct BoundaryInfoStepper {
    pub compute_program: ComputeShaderProgram,
}

/// The movable probe body: its programs, mesh, state buffer and hover flag.
pub struct CubeGeometry {
    pub program: ShaderProgram,
    pub geometry: Geometry,
    pub compute_program: ComputeShaderProgram,
    pub ssbo: u32,
    pub vao: u32,
    pub hover: bool,
}

/// The diagnostic sphere: its programs, mesh and hover flag.
pub struct TestSphere {
    pub program: ShaderProgram,
    pub geometry: Geometry,
    pub compute_program: ComputeShaderProgram,
    pub vao: u32,
    pub hover: bool,
}

} // verus!
