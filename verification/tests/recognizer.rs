//! Tests of the long-press gesture recognizer and the frame driver: the
//! toggle and exit branches around the threshold, the exactly-once
//! toggle, the visibility round trip, and one end-to-end frame.

use cat_paw::frame::{button_pressed, frame, FrameInput};
use cat_paw::animate::PawAnimState;
use cat_paw::geom::{Point, Rotation};
use cat_paw::gesture::{handle_shortcuts, GestureState};
use cat_paw::scene::Scene;

#[test]
fn short_chord_toggles_exactly_once() {
    let mut scene = Scene::new();
    let mut gesture = GestureState::new();

    // Both buttons go down in the same frame: the chord starts.
    let acts = handle_shortcuts(&mut gesture, &mut scene, true, true, 0);
    assert!(!acts.exit_requested);
    assert_eq!(acts.os_cursor_visible, None);
    assert_eq!(gesture.chord_start_ms, Some(0));

    // Held below the threshold: nothing fires.
    let acts = handle_shortcuts(&mut gesture, &mut scene, true, true, 500);
    assert!(!acts.exit_requested);
    assert_eq!(acts.os_cursor_visible, None);
    assert!(!gesture.is_hidden);

    // Released after one second: one toggle, the paw hides and the OS
    // cursor is asked to show.
    let acts = handle_shortcuts(&mut gesture, &mut scene, false, false, 1_000);
    assert!(!acts.exit_requested);
    assert_eq!(acts.os_cursor_visible, Some(true));
    assert!(gesture.is_hidden);
    assert_eq!(gesture.chord_start_ms, None);
    assert!(!scene.arm_visible);
    assert!(!scene.palm_visible);
    assert!(!scene.bottom_visible);

    // Staying released toggles nothing further.
    let acts = handle_shortcuts(&mut gesture, &mut scene, false, false, 1_100);
    assert_eq!(acts.os_cursor_visible, None);
    assert!(gesture.is_hidden);
}

#[test]
fn long_hold_exits_and_release_does_not_toggle() {
    let mut scene = Scene::new();
    let mut gesture = GestureState::new();

    handle_shortcuts(&mut gesture, &mut scene, true, true, 0);

    // Still below the threshold while held: no exit yet.
    let acts = handle_shortcuts(&mut gesture, &mut scene, true, true, 1_999);
    assert!(!acts.exit_requested);

    // Past the threshold: exit fires, and keeps firing each held frame.
    let acts = handle_shortcuts(&mut gesture, &mut scene, true, true, 2_250);
    assert!(acts.exit_requested);
    let acts = handle_shortcuts(&mut gesture, &mut scene, true, true, 2_400);
    assert!(acts.exit_requested);

    // Released at 2.5 s: a hold-to-exit, not a tap-to-toggle.
    let acts = handle_shortcuts(&mut gesture, &mut scene, false, false, 2_500);
    assert!(!acts.exit_requested);
    assert_eq!(acts.os_cursor_visible, None);
    assert!(!gesture.is_hidden);
    assert!(scene.arm_visible);
    assert_eq!(gesture.chord_start_ms, None);
}

#[test]
fn threshold_is_strict_on_both_sides() {
    let mut scene = Scene::new();
    let mut gesture = GestureState::new();

    handle_shortcuts(&mut gesture, &mut scene, true, true, 1_000);
    // Held for exactly the threshold: not yet past it, no exit.
    let acts = handle_shortcuts(&mut gesture, &mut scene, true, true, 3_000);
    assert!(!acts.exit_requested);
    // Released at exactly the threshold: not below it, no toggle either.
    let acts = handle_shortcuts(&mut gesture, &mut scene, false, false, 3_000);
    assert_eq!(acts.os_cursor_visible, None);
    assert!(!gesture.is_hidden);
}

#[test]
fn visibility_round_trip_restores_state() {
    let mut scene = Scene::new();
    let mut gesture = GestureState::new();

    // First tap: hide.
    handle_shortcuts(&mut gesture, &mut scene, true, true, 0);
    let acts1 = handle_shortcuts(&mut gesture, &mut scene, false, false, 800);
    assert_eq!(acts1.os_cursor_visible, Some(true));
    assert!(gesture.is_hidden);

    // Second tap: show again; everything is back where it began.
    handle_shortcuts(&mut gesture, &mut scene, true, true, 5_000);
    let acts2 = handle_shortcuts(&mut gesture, &mut scene, false, false, 5_900);
    assert!(!gesture.is_hidden);
    assert_eq!(acts2.os_cursor_visible, Some(false));
    assert!(scene.arm_visible);
    assert!(scene.palm_visible);
    assert!(scene.bottom_visible);
    assert_eq!(gesture.chord_start_ms, None);
}

#[test]
fn out_of_range_button_reads_released() {
    let buttons = vec![false, true, true];
    assert!(button_pressed(&buttons, 1));
    assert!(button_pressed(&buttons, 2));
    assert!(!button_pressed(&buttons, 0));
    // Indices past the sampled list are not errors: they read released.
    assert!(!button_pressed(&buttons, 3));
    assert!(!button_pressed(&vec![], 1));
}

#[test]
fn frame_at_anchor_is_calm() {
    let mut scene = Scene::new();
    let mut anim = PawAnimState::new();
    let mut gesture = GestureState::new();

    // Cursor exactly on the shoulder anchor, no buttons: a zero-length
    // rod with the fallback heading, the neutral pose, no actions.
    let acts = frame(
        &mut scene,
        &mut anim,
        &mut gesture,
        FrameInput {
            cursor_world: Some(Point { x: 0, y: -500_000 }),
            window_height: 1_000_000,
            left: false,
            right: false,
            now_ms: 0,
            dt_ms: 16,
        },
    );
    assert!(!acts.exit_requested);
    assert_eq!(acts.os_cursor_visible, None);
    assert_eq!(anim.factor, 0);
    assert_eq!(scene.arm.outer.sx, 70_000);
    assert_eq!(scene.arm.outer.sy, 0);
    assert_eq!(scene.arm.outer.rot, Rotation::Angle { micro: 0 });
    assert_eq!(scene.palm.outer.sx, 50_000);
    assert_eq!(scene.palm.outer.sy, 50_000);
    assert_eq!(scene.fingers[0].node.outer.x, -597);
}

#[test]
fn frame_pipeline_full_pass() {
    let mut scene = Scene::new();
    let mut anim = PawAnimState::new();
    let mut gesture = GestureState::new();

    // A real target with the left button held: the pose and the first
    // clench step land in the same frame.
    let acts = frame(
        &mut scene,
        &mut anim,
        &mut gesture,
        FrameInput {
            cursor_world: Some(Point { x: 300_000, y: -100_000 }),
            window_height: 1_000_000,
            left: true,
            right: false,
            now_ms: 0,
            dt_ms: 16,
        },
    );
    assert!(!acts.exit_requested);
    assert_eq!(anim.factor, -240_000);
    assert_eq!(scene.arm.outer.sy, 500_000);
    assert_eq!(scene.arm.inner.sx, 714);
    assert_eq!(scene.arm.inner.sy, 1_000);
    assert_eq!(scene.palm.outer.x, 300_000);
    // Palm squash at factor -0.24: x widens to 50000 * 1.006, y narrows
    // to 50000 * 0.988.
    assert_eq!(scene.palm.outer.sx, 50_300);
    assert_eq!(scene.palm.outer.sy, 49_400);
    // Finger 0 moves inward by 0.3 * 0.24 of its rest offset.
    assert_eq!(scene.fingers[0].node.outer.x, -555);
    assert_eq!(scene.fingers[0].node.outer.y, 374);
    assert_eq!(scene.fingers[0].node.outer.rot, Rotation::Angle { micro: 48_000 });
}
