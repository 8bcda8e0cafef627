//! The long-press gesture recognizer: a debounced two-button chord with
//! duration-based branching.
//!
//! The state machine is idle until both buttons are down in the same
//! sampled frame, which starts a chord.  While the chord holds, every
//! frame past the threshold asks the host to exit (repeatedly, until the
//! process ends).  When the chord breaks before the threshold, the overlay
//! visibility toggles exactly once, and the OS cursor is shown exactly
//! when the paw is hidden; a break at or past the threshold toggles
//! nothing, so a hold-to-exit is never mistaken for a tap-to-toggle.

use vstd::prelude::*;

verus! {

use crate::scene::Scene;

/// Chord duration at which the branch flips, in milliseconds: a release
/// strictly before it toggles visibility, a hold strictly past it
/// requests exit.
pub const LONG_PRESS_MS: i64 = 2_000;

/// The recognizer's whole mutable state: whether the overlay is hidden,
/// and when the running chord started (`None` while idle).
#[derive(Clone, Copy, PartialEq, Eq, Debug)]
pub struct GestureState {
    pub is_hidden: bool,
    pub chord_start_ms: Option<i64>,
}

impl GestureState {
    /// A recorded chord start is a valid past sample of the frame clock.
    pub open spec fn wf(self) -> bool {
        self.chord_start_ms matches Some(s) ==> 0 <= s
    }

    /// The startup state: overlay shown, no chord running.
    pub fn new() -> (g: GestureState)
        ensures
            !g.is_hidden,
            g.chord_start_ms is None,
            g.wf(),
    {
        GestureState { is_hidden: false, chord_start_ms: None }
    }
}

/// What the recognizer asks of the host this frame: a process exit, and a
/// change of the OS cursor's visibility (`None` when it is to stay as it
/// is).
#[derive(Clone, Copy, PartialEq, Eq, Debug)]
pub struct ShortcutActions {
    pub exit_requested: bool,
    pub os_cursor_visible: Option<bool>,
}

/// The recognizer's state transition for one sampled frame.
pub open spec fn shortcuts_next(g: GestureState, left: bool, right: bool, now_ms: int) -> GestureState {
    if left && right {
        match g.chord_start_ms {
            None => GestureState { is_hidden: g.is_hidden, chord_start_ms: Some(now_ms as i64) },
            Some(_) => g,
        }
    } else {
        match g.chord_start_ms {
            None => g,
            Some(s) => GestureState {
                is_hidden: if now_ms - s < LONG_PRESS_MS {
                    !g.is_hidden
                } else {
                    g.is_hidden
                },
                chord_start_ms: None,
            },
        }
    }
}

/// Whether this frame toggles visibility: the chord breaks strictly
/// before the threshold.
pub open spec fn shortcuts_toggles(g: GestureState, left: bool, right: bool, now_ms: int) -> bool {
    if left && right {
        false
    } else {
        match g.chord_start_ms {
            None => false,
            Some(s) => now_ms - s < LONG_PRESS_MS,
        }
    }
}

/// Whether this frame requests exit: the chord still holds strictly past
/// the threshold.
pub open spec fn shortcuts_exits(g: GestureState, left: bool, right: bool, now_ms: int) -> bool {
    left && right && match g.chord_start_ms {
        None => false,
        Some(s) => now_ms - s > LONG_PRESS_MS,
    }
}

/// Discrete actions fire only out of a running chord: an idle recognizer
/// neither toggles nor exits, whatever the buttons do this frame.  With
/// the transition clearing the chord on every release, a single release
/// toggles at most once.
pub proof fn lemma_idle_fires_nothing(g: GestureState, left: bool, right: bool, now_ms: int)
    requires
        g.chord_start_ms is None,
    ensures
        !shortcuts_toggles(g, left, right, now_ms),
        !shortcuts_exits(g, left, right, now_ms),
{
}

/// Round trip: two press-and-short-release cycles return `is_hidden` to
/// where it began.  Both releases toggle; after the first the paw is
/// hidden exactly when it was shown before, and after the second the flag
/// (and with it the overlay's visibility and the OS cursor visibility the
/// host is asked for, both of which follow `is_hidden`) is restored, with
/// the recognizer idle again.
pub proof fn lemma_visibility_round_trip(
    g: GestureState,
    press1: int,
    release1: int,
    press2: int,
    release2: int,
)
    requires
        g.chord_start_ms is None,
        0 <= press1,
        press1 <= release1 < press1 + LONG_PRESS_MS,
        release1 <= press2,
        press2 <= release2 < press2 + LONG_PRESS_MS,
        release2 <= 0x7fff_ffff_ffff_ffff,
    ensures
        ({
            let held1 = shortcuts_next(g, true, true, press1);
            let idle1 = shortcuts_next(held1, false, false, release1);
            let held2 = shortcuts_next(idle1, true, true, press2);
            let idle2 = shortcuts_next(held2, false, false, release2);
            &&& shortcuts_toggles(held1, false, false, release1)
            &&& shortcuts_toggles(held2, false, false, release2)
            &&& idle1.is_hidden == !g.is_hidden
            &&& idle2.is_hidden == g.is_hidden
            &&& idle2.chord_start_ms is None
        }),
{
}

/// Runs the recognizer for one frame on the sampled buttons and clock.
/// The state follows `shortcuts_next`; an exit request follows
/// `shortcuts_exits`; and exactly on a toggle frame the overlay's
/// visibility flags flip to follow the new hidden flag while the host is
/// asked to show the OS cursor exactly when the paw is hidden.  On every
/// other frame the scene is untouched and no cursor change is requested.
pub fn handle_shortcuts(
    gesture: &mut GestureState,
    scene: &mut Scene,
    left: bool,
    right: bool,
    now_ms: i64,
) -> (acts: ShortcutActions)
    requires
        old(gesture).wf(),
        old(scene).wf(),
        0 <= now_ms,
        old(gesture).chord_start_ms matches Some(s) ==> s <= now_ms,
    ensures
        final(gesture).wf(),
        final(scene).wf(),
        *final(gesture) == shortcuts_next(*old(gesture), left, right, now_ms as int),
        acts.exit_requested == shortcuts_exits(*old(gesture), left, right, now_ms as int),
        shortcuts_toggles(*old(gesture), left, right, now_ms as int) ==> {
            &&& acts.os_cursor_visible == Some(final(gesture).is_hidden)
            &&& final(scene).arm_visible == !final(gesture).is_hidden
            &&& final(scene).palm_visible == !final(gesture).is_hidden
            &&& final(scene).bottom_visible == !final(gesture).is_hidden
            &&& final(scene).arm == old(scene).arm
            &&& final(scene).palm == old(scene).palm
            &&& final(scene).bottom == old(scene).bottom
            &&& final(scene).fingers == old(scene).fingers
        },
        !shortcuts_toggles(*old(gesture), left, right, now_ms as int) ==> {
            &&& *final(scene) == *old(scene)
            &&& acts.os_cursor_visible is None
        },
{
    let both = left && right;
    let mut acts = ShortcutActions { exit_requested: false, os_cursor_visible: None };

    if both {
        match gesture.chord_start_ms {
            None => {
                gesture.chord_start_ms = Some(now_ms);
            },
            Some(start) => {
                // Long hold: ask for exit, every frame past the threshold.
                if now_ms - start > LONG_PRESS_MS {
                    acts.exit_requested = true;
                }
            },
        }
    } else {
        match gesture.chord_start_ms {
            None => {},
            Some(start) => {
                let duration = now_ms - start;
                // Short chord: toggle on the release, once.
                if duration < LONG_PRESS_MS {
                    gesture.is_hidden = !gesture.is_hidden;
                    // The OS cursor shows exactly when the paw hides.
                    acts.os_cursor_visible = Some(gesture.is_hidden);
                    let shown = !gesture.is_hidden;
                    scene.arm_visible = shown;
                    scene.palm_visible = shown;
                    scene.bottom_visible = shown;
                }
                gesture.chord_start_ms = None;
            },
        }
    }
    acts
}

} // verus!
