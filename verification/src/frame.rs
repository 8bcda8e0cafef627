//! The frame driver: one cooperative update per rendered frame.
//!
//! The host samples its input sources once (cursor, buttons, clock) and
//! hands the snapshot over; the driver then runs the four passes in their
//! fixed order — limb pose solver, outline-preserving scaling, shape
//! animator, gesture recognizer — and returns the discrete actions the
//! recognizer asks of the host.  All mutation happens here, on the single
//! frame thread; the host performs the actions and renders the scene.

use vstd::prelude::*;

verus! {

use crate::animate::{
    animate_paw, openness_step, openness_target, palm_scale_x, palm_scale_y, posed_finger,
    PawAnimState, SMOOTHING_RATE,
};
use crate::geom::Point;
use crate::gesture::{
    handle_shortcuts, shortcuts_exits, shortcuts_next, shortcuts_toggles, GestureState,
    ShortcutActions,
};
use crate::outline::{inner_width_ratio, update_inner_arm};
use crate::pose::{aim_rotation, follow_mouse, shoulder_y, COORD_LIMIT, WORLD_LIMIT};
use crate::scene::{lemma_wf_implies_layering, Scene, ARM_OUTER_WIDTH, ARM_Z, BOTTOM_Z, PALM_Z};

/// Reads one button out of the sampled pressed-button list: index 1 is
/// the left button, index 2 the right, and an out-of-range index reads as
/// not pressed — that is no error, just an absent button.
pub fn button_pressed(buttons: &Vec<bool>, index: usize) -> (b: bool)
    ensures
        b == (index < buttons@.len() && buttons@[index as int]),
{
    if index < buttons.len() {
        buttons[index]
    } else {
        false
    }
}

/// One frame's sampled input: the cursor already mapped into world
/// coordinates by the host's viewport mapping (`None` when the mapping
/// fails and the pose update is to be skipped), the overlay height, the
/// two button states, the frame clock and the elapsed time.
#[derive(Clone, Copy, Debug)]
pub struct FrameInput {
    pub cursor_world: Option<Point>,
    pub window_height: i64,
    pub left: bool,
    pub right: bool,
    pub now_ms: i64,
    pub dt_ms: i64,
}

/// Runs one frame: pose, outline fix-up, animation, gesture recognition,
/// in that order, on the one sampled snapshot.  The contract restates
/// what each pass leaves behind: the solver's placement of palm, arm and
/// shoulder (skipped when the cursor is unmappable), the arm fill's
/// recomputed inset, the palm squash and finger poses at the freshly
/// stepped openness factor, the recognizer's transition and the actions
/// handed back to the host.
pub fn frame(
    scene: &mut Scene,
    anim: &mut PawAnimState,
    gesture: &mut GestureState,
    input: FrameInput,
) -> (acts: ShortcutActions)
    requires
        old(scene).wf(),
        old(anim).wf(),
        old(gesture).wf(),
        0 <= input.window_height <= COORD_LIMIT,
        input.cursor_world matches Some(p) ==> -WORLD_LIMIT <= p.x <= WORLD_LIMIT && -WORLD_LIMIT
            <= p.y <= WORLD_LIMIT,
        0 <= input.dt_ms,
        SMOOTHING_RATE * input.dt_ms < 1000,
        0 <= input.now_ms,
        old(gesture).chord_start_ms matches Some(s) ==> s <= input.now_ms,
    ensures
        final(scene).wf(),
        final(scene).layering_ok(),
        final(anim).wf(),
        final(gesture).wf(),
        final(anim).factor == openness_step(
            old(anim).factor as int,
            openness_target(input.left, input.right),
            input.dt_ms as int,
        ),
        *final(gesture) == shortcuts_next(
            *old(gesture),
            input.left,
            input.right,
            input.now_ms as int,
        ),
        acts.exit_requested == shortcuts_exits(
            *old(gesture),
            input.left,
            input.right,
            input.now_ms as int,
        ),
        input.cursor_world matches Some(p) ==> {
            let sy = shoulder_y(input.window_height as int);
            let dx = p.x as int;
            let dy = p.y - sy;
            let len = final(scene).arm.outer.sy;
            &&& final(scene).palm.outer.x == p.x
            &&& final(scene).palm.outer.y == p.y
            &&& final(scene).palm.outer.z == PALM_Z
            &&& final(scene).palm.outer.z > final(scene).arm.outer.z
            &&& final(scene).palm.outer.rot == aim_rotation(dx, dy)
            &&& final(scene).arm.outer.x == crate::fixed::tdiv(p.x as int, 2)
            &&& final(scene).arm.outer.y == crate::fixed::tdiv(p.y + sy, 2)
            &&& final(scene).arm.outer.z == ARM_Z
            &&& final(scene).arm.outer.rot == aim_rotation(dx, dy)
            &&& final(scene).arm.outer.sx == ARM_OUTER_WIDTH
            &&& 0 <= len
            &&& len * len <= dx * dx + dy * dy < (len + 1) * (len + 1)
            &&& final(scene).bottom.outer.x == 0
            &&& final(scene).bottom.outer.y == sy
            &&& final(scene).bottom.outer.z == BOTTOM_Z
        },
        input.cursor_world is None ==> {
            &&& final(scene).palm.outer.x == old(scene).palm.outer.x
            &&& final(scene).palm.outer.y == old(scene).palm.outer.y
            &&& final(scene).palm.outer.z == old(scene).palm.outer.z
            &&& final(scene).palm.outer.rot == old(scene).palm.outer.rot
            &&& final(scene).arm.outer == old(scene).arm.outer
            &&& final(scene).bottom.outer == old(scene).bottom.outer
        },
        final(scene).arm.outer.sx > 0 && final(scene).arm.outer.sy > 0 ==> {
            &&& final(scene).arm.inner.sx == inner_width_ratio(final(scene).arm.outer.sx as int)
            &&& final(scene).arm.inner.sy == 1000
        },
        !(final(scene).arm.outer.sx > 0 && final(scene).arm.outer.sy > 0)
            ==> final(scene).arm.inner == old(scene).arm.inner,
        final(scene).palm.outer.sx == palm_scale_x(final(anim).factor as int),
        final(scene).palm.outer.sy == palm_scale_y(final(anim).factor as int),
        final(scene).fingers@.len() == 4,
        forall|i: int|
            0 <= i < 4 ==> final(scene).fingers@[i] == posed_finger(
                old(scene).fingers@[i],
                final(anim).factor as int,
            ),
        final(scene).palm.inner == old(scene).palm.inner,
        final(scene).bottom.inner == old(scene).bottom.inner,
        shortcuts_toggles(*old(gesture), input.left, input.right, input.now_ms as int) ==> {
            &&& acts.os_cursor_visible == Some(final(gesture).is_hidden)
            &&& final(scene).arm_visible == !final(gesture).is_hidden
            &&& final(scene).palm_visible == !final(gesture).is_hidden
            &&& final(scene).bottom_visible == !final(gesture).is_hidden
        },
        !shortcuts_toggles(*old(gesture), input.left, input.right, input.now_ms as int) ==> {
            &&& acts.os_cursor_visible is None
            &&& final(scene).arm_visible == old(scene).arm_visible
            &&& final(scene).palm_visible == old(scene).palm_visible
            &&& final(scene).bottom_visible == old(scene).bottom_visible
        },
{
    follow_mouse(scene, input.cursor_world, input.window_height);
    update_inner_arm(scene);
    animate_paw(scene, anim, input.left, input.right, input.dt_ms);
    let acts = handle_shortcuts(gesture, scene, input.left, input.right, input.now_ms);
    proof {
        lemma_wf_implies_layering(*scene);
    }
    acts
}

} // verus!
