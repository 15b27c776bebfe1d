//! A vortex-panel boundary solver.
//!
//! The library enforces a no-penetration boundary condition against an
//! obstacle surface: it builds the dense influence matrix of a panel group,
//! measures the velocity error that active vortices induce at each panel, and
//! turns that error into a corrective vorticity adjustment through a cached
//! regularized pseudoinverse.
//!
//! Every scalar is an IEEE 754 binary32 number carried as its raw bit
//! pattern (`u32`); the `fp` module explains the convention.

pub mod fp;
pub mod softfp;
pub mod sqrt;
pub mod vec3;
pub mod vortex;
pub mod kernel;
pub mod matrix;
pub mod boundary;
pub mod collider;
pub mod stats;
pub mod template;
pub mod scene;
pub mod extensions;
pub mod gpu;
pub mod util;
