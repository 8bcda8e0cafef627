//! The scene graph: arm, shoulder disc, palm and four fingers.
//!
//! Each visual element is an outline-colored outer shape wrapping a
//! fill-colored inner shape; the inner transform is local to the outer
//! node.  Fingers are children of the palm, so their transforms are
//! palm-relative, and each finger keeps its immutable rest position
//! (`base_x`, `base_y`) from which every gesture offset is computed.
//! Topology is fixed at construction; only transform fields and the
//! visibility flags change afterwards.

use vstd::prelude::*;

verus! {

use crate::geom::{Rotation, Transform};

/// Outline thickness, in milli units (10.0 world units).
pub const OUTLINE_WIDTH: i64 = 10_000;

/// Width of the arm rod, in milli units.
pub const ARM_WIDTH: i64 = 60_000;

/// Radius of the palm disc fill, in milli units.
pub const PALM_RADIUS: i64 = 40_000;

/// Radius of a finger disc fill, in milli units.
pub const FINGER_RADIUS: i64 = 25_000;

/// Outer scale of the palm disc: fill radius plus outline.
pub const PALM_BASE_SCALE: i64 = PALM_RADIUS + OUTLINE_WIDTH;

/// Outer scale of a finger disc: fill radius plus outline.
pub const FINGER_BASE_SCALE: i64 = FINGER_RADIUS + OUTLINE_WIDTH;

/// Outer scale of the shoulder disc: half the outlined arm width,
/// `(ARM_WIDTH + OUTLINE_WIDTH) / 2`.
pub const BOTTOM_RADIUS: i64 = 35_000;

/// Width of the arm rod including its outline: the x scale the pose solver
/// gives the arm's outer node.
pub const ARM_OUTER_WIDTH: i64 = ARM_WIDTH + OUTLINE_WIDTH;

/// Rest scale of a finger relative to its palm parent, on the milli grid:
/// `FINGER_BASE_SCALE / PALM_BASE_SCALE` (0.7).
pub const FINGER_TO_PALM_SCALE: i64 = 700;

/// Palm fill scale relative to the palm outer node, on the milli grid:
/// `PALM_RADIUS / PALM_BASE_SCALE` (0.8).
pub const PALM_INNER_SCALE: i64 = 800;

/// Fill-to-outer scale of the finger and shoulder discs, on the milli
/// grid: `25 / 35` and `((ARM_WIDTH - OUTLINE_WIDTH) / 2) / BOTTOM_RADIUS`
/// are the same ratio (0.714).
pub const DISC_INNER_SCALE: i64 = 714;

/// Paint depth of the arm outline, in milli units.
pub const ARM_Z: i64 = 1_000;

/// Paint depth of the palm outline, in milli units: strictly above the
/// arm outline, so the rod always terminates under the palm disc.
pub const PALM_Z: i64 = 1_100;

/// Paint depth of the shoulder outline: behind everything else.
pub const BOTTOM_Z: i64 = 500;

/// Local depth of every inner (fill) node: in front of its own outline.
pub const INNER_Z: i64 = 1_000;

/// Rest local depth of a finger outline: behind the palm outline.
pub const FINGER_REST_Z: i64 = -100;

/// The band the finger outline depth stays in while the gesture offsets
/// move it: the rest depth shifted by at most the largest clench rise (30)
/// or the largest splay drop (15).
pub const FINGER_Z_LOW: i64 = -115;

/// Upper end of the finger outline depth band.
pub const FINGER_Z_HIGH: i64 = -70;

/// Bound on the arm's outer scale components; the pose solver stays far
/// below it, and it keeps the inner-scale arithmetic inside `i64`.
pub const SCALE_LIMIT: i64 = 4_000_000_000_000;

/// One visual element: the outline-colored outer node and the fill-colored
/// inner node it wraps.  The inner transform is local to the outer node.
#[derive(Clone, Copy, PartialEq, Eq, Structural, Debug)]
pub struct Outlined {
    pub outer: Transform,
    pub inner: Transform,
}

/// One finger: its position in the hand, its immutable rest position
/// relative to the palm (milli units), and its two nodes.
#[derive(Clone, Copy, PartialEq, Eq, Structural, Debug)]
pub struct FingerNode {
    pub index: usize,
    pub base_x: i64,
    pub base_y: i64,
    pub node: Outlined,
}

/// The whole paw.  The three visibility flags belong to the arm, palm and
/// shoulder roots; the fingers inherit the palm's.
#[derive(Debug)]
pub struct Scene {
    pub arm: Outlined,
    pub bottom: Outlined,
    pub palm: Outlined,
    pub fingers: Vec<FingerNode>,
    pub arm_visible: bool,
    pub palm_visible: bool,
    pub bottom_visible: bool,
}

/// Rest x of finger `i`, in milli units relative to the palm: the fixed
/// per-finger polar placement `r * sin(theta)` for `theta` of -56, -22, 22
/// and 56 degrees and `r` of 36, 43, 43 and 36 world units, divided by the
/// palm scale and put on the milli grid.
pub open spec fn finger_rest_x(i: int) -> int {
    if i == 0 {
        -597
    } else if i == 1 {
        -322
    } else if i == 2 {
        322
    } else {
        597
    }
}

/// Rest y of finger `i`: the matching `r * cos(theta)` over the palm scale.
pub open spec fn finger_rest_y(i: int) -> int {
    if i == 1 || i == 2 {
        797
    } else {
        403
    }
}

impl Scene {
    /// Structural well-formedness: the fixed topology, the immutable rest
    /// data within its bounds, and the paint-depth discipline that the
    /// layering invariant is derived from.
    pub open spec fn wf(self) -> bool {
        &&& self.fingers@.len() == 4
        &&& forall|i: int|
            0 <= i < 4 ==> {
                let f = #[trigger] self.fingers@[i];
                &&& f.index == i
                &&& -2000 <= f.base_x <= 2000
                &&& -2000 <= f.base_y <= 2000
                &&& FINGER_Z_LOW <= f.node.outer.z <= FINGER_Z_HIGH
                &&& f.node.inner.z == INNER_Z
            }
        &&& self.arm.outer.z == ARM_Z
        &&& self.palm.outer.z == PALM_Z
        &&& self.bottom.outer.z == BOTTOM_Z
        &&& self.palm.inner.z == INNER_Z
        &&& -SCALE_LIMIT <= self.arm.outer.sx <= SCALE_LIMIT
        &&& -SCALE_LIMIT <= self.arm.outer.sy <= SCALE_LIMIT
    }

    /// The outline layering invariant, over effective paint depths:
    /// shoulder outline behind finger outlines, finger outlines behind the
    /// palm outline, finger fills in front of the palm outline but behind
    /// the palm fill.
    pub open spec fn layering_ok(self) -> bool {
        forall|i: int|
            0 <= i < 4 ==> {
                let f = (#[trigger] self.fingers@[i]).node;
                &&& self.bottom.outer.z < self.palm.outer.z + f.outer.z
                &&& self.palm.outer.z + f.outer.z < self.palm.outer.z
                &&& self.palm.outer.z < self.palm.outer.z + f.outer.z + f.inner.z
                &&& self.palm.outer.z + f.outer.z + f.inner.z < self.palm.outer.z + self.palm.inner.z
            }
    }
}

/// Every well-formed scene satisfies the outline layering invariant: the
/// paint-depth discipline in `wf` pins the shoulder, palm and fill depths
/// and confines the finger depths to a band strictly between them.
pub proof fn lemma_wf_implies_layering(s: Scene)
    requires
        s.wf(),
    ensures
        s.layering_ok(),
{
}

impl Scene {
    /// Builds the paw in its neutral rest pose: openness factor zero, all
    /// elements visible, the arm a zero-length rod at the origin.
    pub fn new() -> (s: Scene)
        ensures
            s.wf(),
            s.layering_ok(),
            s.arm.outer == (Transform {
                x: 0,
                y: 0,
                z: ARM_Z,
                rot: Rotation::Angle { micro: 0 },
                sx: ARM_OUTER_WIDTH,
                sy: 0,
            }),
            s.arm.inner == (Transform {
                x: 0,
                y: 0,
                z: INNER_Z,
                rot: Rotation::Angle { micro: 0 },
                sx: DISC_INNER_SCALE,
                sy: 1000,
            }),
            s.bottom.outer == (Transform {
                x: 0,
                y: 0,
                z: BOTTOM_Z,
                rot: Rotation::Angle { micro: 0 },
                sx: BOTTOM_RADIUS,
                sy: BOTTOM_RADIUS,
            }),
            s.bottom.inner == (Transform {
                x: 0,
                y: 0,
                z: INNER_Z,
                rot: Rotation::Angle { micro: 0 },
                sx: DISC_INNER_SCALE,
                sy: DISC_INNER_SCALE,
            }),
            s.palm.outer == (Transform {
                x: 0,
                y: 0,
                z: PALM_Z,
                rot: Rotation::Angle { micro: 0 },
                sx: PALM_BASE_SCALE,
                sy: PALM_BASE_SCALE,
            }),
            s.palm.inner == (Transform {
                x: 0,
                y: 0,
                z: INNER_Z,
                rot: Rotation::Angle { micro: 0 },
                sx: PALM_INNER_SCALE,
                sy: PALM_INNER_SCALE,
            }),
            forall|i: int|
                0 <= i < 4 ==> {
                    let f = #[trigger] s.fingers@[i];
                    &&& f.base_x == finger_rest_x(i)
                    &&& f.base_y == finger_rest_y(i)
                    &&& f.node.outer == (Transform {
                        x: f.base_x,
                        y: f.base_y,
                        z: FINGER_REST_Z,
                        rot: Rotation::Angle { micro: 0 },
                        sx: FINGER_TO_PALM_SCALE,
                        sy: FINGER_TO_PALM_SCALE,
                    })
                    &&& f.node.inner == (Transform {
                        x: 0,
                        y: 0,
                        z: INNER_Z,
                        rot: Rotation::Angle { micro: 0 },
                        sx: DISC_INNER_SCALE,
                        sy: DISC_INNER_SCALE,
                    })
                },
            s.arm_visible && s.palm_visible && s.bottom_visible,
    {
        let no_rot = Rotation::Angle { micro: 0 };
        let arm = Outlined {
            outer: Transform {
                x: 0,
                y: 0,
                z: ARM_Z,
                rot: no_rot,
                sx: ARM_OUTER_WIDTH,
                sy: 0,
            },
            inner: Transform { x: 0, y: 0, z: INNER_Z, rot: no_rot, sx: DISC_INNER_SCALE, sy: 1000 },
        };
        let bottom = Outlined {
            outer: Transform {
                x: 0,
                y: 0,
                z: BOTTOM_Z,
                rot: no_rot,
                sx: BOTTOM_RADIUS,
                sy: BOTTOM_RADIUS,
            },
            inner: Transform {
                x: 0,
                y: 0,
                z: INNER_Z,
                rot: no_rot,
                sx: DISC_INNER_SCALE,
                sy: DISC_INNER_SCALE,
            },
        };
        let palm = Outlined {
            outer: Transform {
                x: 0,
                y: 0,
                z: PALM_Z,
                rot: no_rot,
                sx: PALM_BASE_SCALE,
                sy: PALM_BASE_SCALE,
            },
            inner: Transform {
                x: 0,
                y: 0,
                z: INNER_Z,
                rot: no_rot,
                sx: PALM_INNER_SCALE,
                sy: PALM_INNER_SCALE,
            },
        };
        let mut fingers: Vec<FingerNode> = Vec::new();
        fingers.push(rest_finger(0, -597, 403));
        fingers.push(rest_finger(1, -322, 797));
        fingers.push(rest_finger(2, 322, 797));
        fingers.push(rest_finger(3, 597, 403));
        Scene {
            arm,
            bottom,
            palm,
            fingers,
            arm_visible: true,
            palm_visible: true,
            bottom_visible: true,
        }
    }
}

/// A finger in its neutral rest pose at the given rest position.
fn rest_finger(index: usize, base_x: i64, base_y: i64) -> (f: FingerNode)
    ensures
        f.index == index,
        f.base_x == base_x,
        f.base_y == base_y,
        f.node.outer == (Transform {
            x: base_x,
            y: base_y,
            z: FINGER_REST_Z,
            rot: Rotation::Angle { micro: 0 },
            sx: FINGER_TO_PALM_SCALE,
            sy: FINGER_TO_PALM_SCALE,
        }),
        f.node.inner == (Transform {
            x: 0,
            y: 0,
            z: INNER_Z,
            rot: Rotation::Angle { micro: 0 },
            sx: DISC_INNER_SCALE,
            sy: DISC_INNER_SCALE,
        }),
{
    let no_rot = Rotation::Angle { micro: 0 };
    FingerNode {
        index,
        base_x,
        base_y,
        node: Outlined {
            outer: Transform {
                x: base_x,
                y: base_y,
                z: FINGER_REST_Z,
                rot: no_rot,
                sx: FINGER_TO_PALM_SCALE,
                sy: FINGER_TO_PALM_SCALE,
            },
            inner: Transform {
                x: 0,
                y: 0,
                z: INNER_Z,
                rot: no_rot,
                sx: DISC_INNER_SCALE,
                sy: DISC_INNER_SCALE,
            },
        },
    }
}

} // verus!
