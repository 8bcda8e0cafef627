//! Outline-preserving scaling for the arm rod.
//!
//! The arm's outer node is stretched non-uniformly every frame (its y
//! scale is the rod's length), so a fixed inner scale would let the
//! outline thickness wander.  This pass recomputes the inner node's local
//! scale from the outer scale: the inner width is the outer width minus
//! one outline strip on each side, floored at zero, and the full length is
//! kept.  It runs after the pose solver, on the outer scale that solver
//! just wrote.

use vstd::prelude::*;

verus! {

use crate::fixed::{mul_div, tdiv, lemma_tdiv_pos_bounds};
use crate::scene::{Scene, OUTLINE_WIDTH};
use vstd::arithmetic::div_mod::lemma_multiply_divide_lt;

/// The inner (fill) width for an outer width `w`: the outer width minus
/// the two outline strips, floored at zero so a degenerate rod never turns
/// the fill inside out.
pub open spec fn inset_width(w: int) -> int {
    if w - 2 * OUTLINE_WIDTH >= 0 {
        w - 2 * OUTLINE_WIDTH
    } else {
        0
    }
}

/// The inner node's local x scale on the milli grid: the inner/outer width
/// ratio `inset_width(w) / w`.
pub open spec fn inner_width_ratio(w: int) -> int {
    tdiv(inset_width(w) * 1000, w)
}

/// The outline-preserving scale law.  For an outer width above the two
/// outline strips, the exact width ratio `inset_width(w) / w` is strictly
/// between zero and one; at or below them it clamps to zero, never
/// negative.  The milli-grid ratio the pass writes stays in `[0, 1000)`.
pub proof fn lemma_outline_ratio_law(w: int)
    ensures
        w > 2 * OUTLINE_WIDTH ==> 0 < inset_width(w) < w,
        w <= 2 * OUTLINE_WIDTH ==> inset_width(w) == 0,
        w > 0 ==> 0 <= inner_width_ratio(w) < 1000,
{
    if w > 0 {
        lemma_tdiv_pos_bounds(inset_width(w) * 1000, w);
        assert(inset_width(w) * 1000 < w * 1000) by (nonlinear_arith)
            requires 0 <= inset_width(w) < w;
        lemma_multiply_divide_lt(inset_width(w) * 1000, w, 1000);
    }
}

/// Recomputes the arm's inner scale from its outer scale, so the outline
/// keeps its constant width under the rod's non-uniform stretch.  Applies
/// only when both outer components are strictly positive; a degenerate
/// scale skips the node untouched (no division by zero).
pub fn update_inner_arm(scene: &mut Scene)
    requires
        old(scene).wf(),
    ensures
        final(scene).wf(),
        old(scene).arm.outer.sx > 0 && old(scene).arm.outer.sy > 0 ==> {
            &&& final(scene).arm.inner.sx == inner_width_ratio(old(scene).arm.outer.sx as int)
            &&& final(scene).arm.inner.sy == 1000
            &&& final(scene).arm.inner.x == old(scene).arm.inner.x
            &&& final(scene).arm.inner.y == old(scene).arm.inner.y
            &&& final(scene).arm.inner.z == old(scene).arm.inner.z
            &&& final(scene).arm.inner.rot == old(scene).arm.inner.rot
        },
        !(old(scene).arm.outer.sx > 0 && old(scene).arm.outer.sy > 0) ==> *final(scene) == *old(
            scene,
        ),
        final(scene).arm.outer == old(scene).arm.outer,
        final(scene).palm == old(scene).palm,
        final(scene).bottom == old(scene).bottom,
        final(scene).fingers == old(scene).fingers,
        final(scene).arm_visible == old(scene).arm_visible,
        final(scene).palm_visible == old(scene).palm_visible,
        final(scene).bottom_visible == old(scene).bottom_visible,
{
    let w = scene.arm.outer.sx;
    let l = scene.arm.outer.sy;
    if w > 0 && l > 0 {
        let raw = w - 2 * OUTLINE_WIDTH;
        let inset = if raw >= 0 {
            raw
        } else {
            0
        };
        // The length axis keeps the full extent: `max(l, 0) / l` is one.
        scene.arm.inner.sx = mul_div(inset, 1000, w);
        scene.arm.inner.sy = 1000;
    }
}

} // verus!
