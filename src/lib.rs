//! Camera-relative locomotion controller and camera rig for a single
//! physics-driven avatar, computed in fixed-point integer arithmetic.
//!
//! Units used throughout the crate:
//! - durations are microseconds;
//! - factors and fractions are parts per million (`ONE` is 1.0);
//! - vectors of the physics engine (normals, velocities, forces, impulses,
//!   camera matrix entries) are micro-units;
//! - decoded Euler angles are millidegrees, rotation steps microradians;
//! - mouse deltas are milli-pixels.
use vstd::prelude::*;

pub mod fixed;
pub mod input;
pub mod geometry;
pub mod ground;
pub mod camera;
pub mod locomotion;
pub mod components;

verus! {

} // verus!
