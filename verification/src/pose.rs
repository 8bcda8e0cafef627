//! The limb pose solver: one 2D target point (the cursor in world
//! coordinates) determines the palm pose, the arm rod's midpoint, heading
//! and stretch, and the shoulder anchor.
//!
//! The shoulder sits at the fixed anchor `(0, -window_height / 2)`, the
//! bottom-center of the overlay.  When the host cannot map the cursor into
//! world coordinates (window not laid out yet), it hands `None` and the
//! whole update is skipped, leaving the previous pose intact.

use vstd::prelude::*;

verus! {

use crate::fixed::{isqrt, mul_div, tdiv};
use crate::geom::{Point, Rotation};
use crate::scene::{Scene, ARM_OUTER_WIDTH, ARM_Z, BOTTOM_Z, PALM_Z, SCALE_LIMIT};

/// Bound on screen coordinates and window sizes, in milli units (half a
/// million world units): far beyond any monitor.  Values the two mapping
/// steps derive from them stay within `LOCAL_LIMIT` and `WORLD_LIMIT`.
pub const COORD_LIMIT: i64 = 500_000_000;

/// Bound on window-local cursor coordinates: the difference of two screen
/// coordinates.
pub const LOCAL_LIMIT: i64 = 1_000_000_000;

/// Bound on world coordinates handed to the solver: a window-local
/// coordinate shifted by half a window.  Small enough that a squared
/// distance from the shoulder anchor fits in an `i64`.
pub const WORLD_LIMIT: i64 = 1_500_000_000;

/// The shoulder anchor's y coordinate: minus half the window height.
pub open spec fn shoulder_y(window_height: int) -> int {
    -(window_height / 2)
}

/// The rotation the solver gives the palm and the arm: the heading from
/// the shoulder anchor toward the target.  When the target coincides with
/// the anchor the heading is undefined (`atan2(0, 0)`); the documented
/// fallback is no rotation at all, the "pointing up" rest heading.
pub open spec fn aim_rotation(dx: int, dy: int) -> Rotation {
    if dx == 0 && dy == 0 {
        Rotation::Angle { micro: 0 }
    } else {
        Rotation::Toward { dx: dx as i64, dy: dy as i64 }
    }
}

/// Cursor position relative to the window: global screen coordinates minus
/// the window's top-left corner.
pub fn window_local(cursor: Point, window_left: i64, window_top: i64) -> (p: Point)
    requires
        -COORD_LIMIT <= cursor.x <= COORD_LIMIT,
        -COORD_LIMIT <= cursor.y <= COORD_LIMIT,
        -COORD_LIMIT <= window_left <= COORD_LIMIT,
        -COORD_LIMIT <= window_top <= COORD_LIMIT,
    ensures
        p.x == cursor.x - window_left,
        p.y == cursor.y - window_top,
        -LOCAL_LIMIT <= p.x <= LOCAL_LIMIT,
        -LOCAL_LIMIT <= p.y <= LOCAL_LIMIT,
{
    Point { x: cursor.x - window_left, y: cursor.y - window_top }
}

/// The default viewport-to-world mapping, for a camera centered on the
/// window: the origin moves to the window center and the y axis flips to
/// point up.  A host whose camera differs supplies its own mapping and
/// hands the solver the result (or `None` where the mapping fails).
pub fn viewport_to_world(local: Point, window_width: i64, window_height: i64) -> (w: Point)
    requires
        0 <= window_width <= COORD_LIMIT,
        0 <= window_height <= COORD_LIMIT,
        -LOCAL_LIMIT <= local.x <= LOCAL_LIMIT,
        -LOCAL_LIMIT <= local.y <= LOCAL_LIMIT,
    ensures
        w.x == local.x - window_width / 2,
        w.y == window_height / 2 - local.y,
        -WORLD_LIMIT <= w.x <= WORLD_LIMIT,
        -WORLD_LIMIT <= w.y <= WORLD_LIMIT,
{
    let half_w = ((window_width as u64) / 2) as i64;
    let half_h = ((window_height as u64) / 2) as i64;
    Point { x: local.x - half_w, y: half_h - local.y }
}

/// Makes the paw follow the cursor: the palm lands on the target, the arm
/// rod stretches from the shoulder anchor to the target (its y scale is
/// the rod's length, the integer square root of the squared distance), and
/// the shoulder disc sits on the anchor.  The palm and the arm always get
/// the same rotation, and the palm paints strictly above the arm, so the
/// rod terminates exactly under the palm disc.
/// A `None` target skips the frame: the scene is left untouched.
pub fn follow_mouse(scene: &mut Scene, world: Option<Point>, window_height: i64)
    requires
        old(scene).wf(),
        0 <= window_height <= COORD_LIMIT,
        world matches Some(p) ==> -WORLD_LIMIT <= p.x <= WORLD_LIMIT && -WORLD_LIMIT <= p.y
            <= WORLD_LIMIT,
    ensures
        final(scene).wf(),
        world is None ==> *final(scene) == *old(scene),
        world matches Some(p) ==> {
            let sy = shoulder_y(window_height as int);
            let dx = p.x as int;
            let dy = p.y - sy;
            let rot = aim_rotation(dx, dy);
            let len = final(scene).arm.outer.sy;
            &&& final(scene).palm.outer.x == p.x
            &&& final(scene).palm.outer.y == p.y
            &&& final(scene).palm.outer.z == PALM_Z
            &&& final(scene).palm.outer.z > final(scene).arm.outer.z
            &&& final(scene).palm.outer.rot == rot
            &&& final(scene).palm.outer.sx == old(scene).palm.outer.sx
            &&& final(scene).palm.outer.sy == old(scene).palm.outer.sy
            &&& final(scene).arm.outer.x == tdiv(p.x as int, 2)
            &&& final(scene).arm.outer.y == tdiv(p.y + sy, 2)
            &&& final(scene).arm.outer.z == ARM_Z
            &&& final(scene).arm.outer.rot == rot
            &&& final(scene).arm.outer.sx == ARM_OUTER_WIDTH
            &&& 0 <= len
            &&& len * len <= dx * dx + dy * dy < (len + 1) * (len + 1)
            &&& final(scene).bottom.outer.x == 0
            &&& final(scene).bottom.outer.y == sy
            &&& final(scene).bottom.outer.z == BOTTOM_Z
            &&& final(scene).bottom.outer.rot == old(scene).bottom.outer.rot
            &&& final(scene).bottom.outer.sx == old(scene).bottom.outer.sx
            &&& final(scene).bottom.outer.sy == old(scene).bottom.outer.sy
            &&& final(scene).arm.inner == old(scene).arm.inner
            &&& final(scene).palm.inner == old(scene).palm.inner
            &&& final(scene).bottom.inner == old(scene).bottom.inner
            &&& final(scene).fingers == old(scene).fingers
            &&& final(scene).arm_visible == old(scene).arm_visible
            &&& final(scene).palm_visible == old(scene).palm_visible
            &&& final(scene).bottom_visible == old(scene).bottom_visible
        },
{
    let p = match world {
        Some(p) => p,
        None => {
            return;
        },
    };
    let half: i64 = ((window_height as u64) / 2) as i64;
    let sy: i64 = -half;
    let dx: i64 = p.x;
    let dy: i64 = p.y - sy;

    let rot = if dx == 0 && dy == 0 {
        Rotation::Angle { micro: 0 }
    } else {
        Rotation::Toward { dx, dy }
    };

    proof {
        assert(0 <= dx * dx <= 2_250_000_000_000_000_000) by (nonlinear_arith)
            requires -1_500_000_000 <= dx <= 1_500_000_000;
        assert(0 <= dy * dy <= 3_062_500_000_000_000_000) by (nonlinear_arith)
            requires -1_750_000_000 <= dy <= 1_750_000_000;
    }
    let d2: i64 = dx * dx + dy * dy;
    let root: u64 = isqrt(d2 as u64);
    proof {
        assert(root <= SCALE_LIMIT) by (nonlinear_arith)
            requires
                root * root <= 5_312_500_000_000_000_000u64,
                SCALE_LIMIT == 4_000_000_000_000i64;
    }
    let len: i64 = root as i64;

    scene.palm.outer.x = p.x;
    scene.palm.outer.y = p.y;
    scene.palm.outer.z = PALM_Z;
    scene.palm.outer.rot = rot;

    scene.arm.outer.x = mul_div(p.x, 1, 2);
    scene.arm.outer.y = mul_div(p.y + sy, 1, 2);
    scene.arm.outer.z = ARM_Z;
    scene.arm.outer.rot = rot;
    scene.arm.outer.sx = ARM_OUTER_WIDTH;
    scene.arm.outer.sy = len;

    scene.bottom.outer.x = 0;
    scene.bottom.outer.y = sy;
    scene.bottom.outer.z = BOTTOM_Z;
}

} // verus!
