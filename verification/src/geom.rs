//! The transform vocabulary of the scene graph.
//!
//! A node's pose is a 2D translation plus a paint-order depth, a planar
//! rotation and a non-uniform 2D scale.  Translations and scales are in
//! milli units (`fixed::MILLI` is 1.0).  A child node's transform is local:
//! its effective pose is the parent pose composed with it.

use vstd::prelude::*;

verus! {

/// A point in the plane, in milli units.
#[derive(Clone, Copy, PartialEq, Eq, Structural, Debug)]
pub struct Point {
    pub x: i64,
    pub y: i64,
}

/// A planar rotation, kept in the exact form the pipeline computed it in;
/// the host turns it into an angle or a quaternion when rendering.
#[derive(Clone, Copy, PartialEq, Eq, Structural, Debug)]
pub enum Rotation {
    /// The heading toward a target: the angle `atan2(dy, dx) - pi/2`, which
    /// turns the unit "pointing up" pose to point along `(dx, dy)`.  The
    /// offset is in milli units and is never the zero vector: the solver
    /// uses `Angle { micro: 0 }` as its documented fallback when the target
    /// coincides with the anchor.
    Toward { dx: i64, dy: i64 },
    /// A plain counterclockwise angle in micro-radians.
    Angle { micro: i64 },
}

/// A node-local transform: translation (with paint-order depth `z`),
/// rotation, and non-uniform scale, all in milli units.
#[derive(Clone, Copy, PartialEq, Eq, Structural, Debug)]
pub struct Transform {
    pub x: i64,
    pub y: i64,
    pub z: i64,
    pub rot: Rotation,
    pub sx: i64,
    pub sy: i64,
}
} // verus!
