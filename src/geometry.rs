//! Fixed-point vectors exchanged with the physics engine and the scene graph.
use vstd::prelude::*;

verus! {

/// A direction or basis vector in parts per million per axis (a unit axis
/// has one component equal to `1_000_000`).
#[derive(PartialEq, Eq, Structural, Clone, Copy, Debug)]
pub struct Axis {
    pub x: i32,
    pub y: i32,
    pub z: i32,
}

/// A physical vector (such as a velocity) in micro-units per axis.
#[derive(PartialEq, Eq, Structural, Clone, Copy, Debug)]
pub struct Vec3 {
    pub x: i64,
    pub y: i64,
    pub z: i64,
}

/// A force or impulse in micro-units per axis.
#[derive(PartialEq, Eq, Structural, Clone, Copy, Debug)]
pub struct Force {
    pub x: i128,
    pub y: i128,
    pub z: i128,
}

/// The rotation-and-scale part of a world transform, as the images of the
/// three local axes (the columns of its matrix).
#[derive(PartialEq, Eq, Structural, Clone, Copy, Debug)]
pub struct CameraBasis {
    pub right: Axis,
    pub up: Axis,
    pub back: Axis,
}

/// The basis of an untransformed camera.
pub open spec fn identity_basis() -> CameraBasis {
    CameraBasis {
        right: Axis { x: 1_000_000, y: 0, z: 0 },
        up: Axis { x: 0, y: 1_000_000, z: 0 },
        back: Axis { x: 0, y: 0, z: 1_000_000 },
    }
}

impl CameraBasis {
    /// The identity transform.
    pub fn identity() -> (r: CameraBasis)
        ensures
            r == identity_basis(),
    {
        CameraBasis {
            right: Axis { x: 1_000_000, y: 0, z: 0 },
            up: Axis { x: 0, y: 1_000_000, z: 0 },
            back: Axis { x: 0, y: 0, z: 1_000_000 },
        }
    }
}

} // verus!
