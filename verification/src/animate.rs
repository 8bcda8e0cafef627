//! The gesture-driven shape animator.
//!
//! A single scalar state, the openness factor, runs in micro units over
//! `[-1, +1]`: -1 is a full clench, +1 a full spread, 0 the neutral rest.
//! Each frame the factor takes one first-order smoothing step toward a
//! target chosen from the sampled buttons, and the palm squash and the
//! four finger poses are recomputed from the new factor alone, always
//! relative to each finger's immutable rest position.

use vstd::prelude::*;

verus! {

use crate::fixed::{
    mul_div, mul3_div, tdiv, lemma_tdiv_neg, lemma_tdiv_zero, lemma_tdiv_scale_contracts,
    lemma_tdiv_ordered, lemma_tdiv_pos_bounds, MICRO,
};
use crate::geom::{Rotation, Transform};
use crate::scene::{
    Outlined, FingerNode, Scene, FINGER_REST_Z, FINGER_TO_PALM_SCALE, FINGER_Z_HIGH, FINGER_Z_LOW,
    PALM_BASE_SCALE,
};

/// The animator's whole mutable state: the openness factor, in micro
/// units.  It starts at the neutral rest and stays inside `[-1, +1]` for
/// every frame the smoothing step accepts.
pub struct PawAnimState {
    pub factor: i64,
}

impl PawAnimState {
    /// The factor stays inside the closed unit interval, in micro units.
    pub open spec fn wf(self) -> bool {
        -MICRO <= self.factor <= MICRO
    }

    /// The neutral rest state.
    pub fn new() -> (s: PawAnimState)
        ensures
            s.factor == 0,
            s.wf(),
    {
        PawAnimState { factor: 0 }
    }
}

/// Smoothing rate toward the target, per second of frame time.
pub const SMOOTHING_RATE: i64 = 15;

/// The openness target the buttons select, in micro units: the left
/// button clenches, the right opens, and the left wins when both are held
/// (it is checked first); neither gives the neutral rest.
pub open spec fn openness_target(left: bool, right: bool) -> int {
    if left {
        -1_000_000
    } else if right {
        1_000_000
    } else {
        0
    }
}

/// One first-order smoothing step over `dt_ms` milliseconds: the factor
/// moves toward the target by the fraction `SMOOTHING_RATE * dt_ms / 1000`
/// of the remaining distance, rounded toward zero.  There is no clamp: the
/// step is stable only while that fraction stays below one, which the
/// animator requires of its callers.
pub open spec fn openness_step(factor: int, target: int, dt_ms: int) -> int {
    factor + tdiv((target - factor) * (SMOOTHING_RATE * dt_ms), 1000)
}

/// Monotone convergence of the smoothing step: while the per-frame
/// fraction stays below one, the factor never crosses its target and the
/// remaining distance never grows, so repeated steps toward a constant
/// target approach it from one side without oscillating.
pub proof fn lemma_openness_step_monotone(factor: int, target: int, dt_ms: int)
    requires
        0 <= dt_ms,
        SMOOTHING_RATE * dt_ms < 1000,
    ensures
        factor <= target ==> factor <= openness_step(factor, target, dt_ms) <= target,
        factor >= target ==> target <= openness_step(factor, target, dt_ms) <= factor,
{
    let k = SMOOTHING_RATE * dt_ms;
    let d = target - factor;
    if d > 0 {
        lemma_tdiv_scale_contracts(d, k, 1000);
    } else if d < 0 {
        lemma_tdiv_scale_contracts(-d, k, 1000);
        assert(-((-d) * k) == d * k) by (nonlinear_arith);
        lemma_tdiv_neg((-d) * k, 1000);
    } else {
        assert(d * k == 0) by (nonlinear_arith)
            requires d == 0;
        lemma_tdiv_zero(1000);
    }
}

/// The openness factor after a number of frames of the same target and
/// elapsed time: the smoothing step iterated.
pub open spec fn openness_after(factor: int, target: int, dt_ms: int, frames: nat) -> int
    decreases frames,
{
    if frames == 0 {
        factor
    } else {
        openness_step(openness_after(factor, target, dt_ms, (frames - 1) as nat), target, dt_ms)
    }
}

/// Monotone convergence over a whole run: for a constant target and a
/// fixed frame time inside the stability region, the openness trajectory
/// is monotone frame over frame and never crosses the target — it
/// approaches from one side, without oscillation.
pub proof fn lemma_openness_converges_monotonically(
    factor: int,
    target: int,
    dt_ms: int,
    frames: nat,
)
    requires
        0 <= dt_ms,
        SMOOTHING_RATE * dt_ms < 1000,
    ensures
        factor <= target ==> factor <= openness_after(factor, target, dt_ms, frames)
            <= openness_after(factor, target, dt_ms, frames + 1) <= target,
        factor >= target ==> target <= openness_after(factor, target, dt_ms, frames + 1)
            <= openness_after(factor, target, dt_ms, frames) <= factor,
    decreases frames,
{
    if frames == 0 {
        lemma_openness_step_monotone(factor, target, dt_ms);
    } else {
        lemma_openness_converges_monotonically(factor, target, dt_ms, (frames - 1) as nat);
        lemma_openness_step_monotone(
            openness_after(factor, target, dt_ms, frames),
            target,
            dt_ms,
        );
    }
}

/// The clench-branch rotation coefficient of finger `i`, in milli-radians
/// per unit of blend: the outer fingers (0, 3) curl more than the inner
/// ones (1, 2), in mirrored directions.
pub open spec fn clench_rot_coeff(i: int) -> int {
    if i == 0 {
        200
    } else if i == 1 {
        80
    } else if i == 2 {
        -80
    } else if i == 3 {
        -200
    } else {
        0
    }
}

/// The open-branch rotation coefficient of finger `i`: the mirror-
/// symmetric splay, with the opposite sign convention from clenching.
pub open spec fn open_rot_coeff(i: int) -> int {
    if i == 0 {
        -120
    } else if i == 1 {
        -50
    } else if i == 2 {
        50
    } else if i == 3 {
        120
    } else {
        0
    }
}

/// A gesture offset on one coordinate: the rest value times a per-mille
/// coefficient times a micro blend amount, rounded toward zero.
pub open spec fn pose_offset(base: int, coeff: int, t: int) -> int {
    tdiv(base * coeff * t, 1_000_000_000)
}

/// A finger's rotation at the given openness factor, in micro-radians:
/// the blend amount is the factor's magnitude, and the branch picks the
/// curl or the splay coefficient.
pub open spec fn finger_rot_micro(i: int, factor: int) -> int {
    if factor < 0 {
        tdiv(clench_rot_coeff(i) * -factor, 1000)
    } else {
        tdiv(open_rot_coeff(i) * factor, 1000)
    }
}

/// A finger's x translation: clenching moves it inward along its own rest
/// direction (coefficient -0.3 per unit of blend); opening spreads it
/// outward (0.15), exaggerated horizontally by 1.3, hence 0.195 on x.
pub open spec fn finger_x(base_x: int, factor: int) -> int {
    if factor < 0 {
        base_x + pose_offset(base_x, -300, -factor)
    } else {
        base_x + pose_offset(base_x, 195, factor)
    }
}

/// A finger's y translation: inward by 0.3 of the rest offset when
/// clenching, outward by 0.15 when opening.
pub open spec fn finger_y(base_y: int, factor: int) -> int {
    if factor < 0 {
        base_y + pose_offset(base_y, -300, -factor)
    } else {
        base_y + pose_offset(base_y, 150, factor)
    }
}

/// A finger's paint depth: the rest depth takes the same per-branch
/// fraction as the planar offsets, so it stays in the band between the
/// shoulder and palm outlines.
pub open spec fn finger_z(factor: int) -> int {
    if factor < 0 {
        FINGER_REST_Z + pose_offset(FINGER_REST_Z as int, -300, -factor)
    } else {
        FINGER_REST_Z + pose_offset(FINGER_REST_Z as int, 150, factor)
    }
}

/// A finger's uniform scale: shrinking by 0.1 of the rest ratio at full
/// clench, growing by 0.08 at full spread.
pub open spec fn finger_scale(factor: int) -> int {
    if factor < 0 {
        FINGER_TO_PALM_SCALE + pose_offset(FINGER_TO_PALM_SCALE as int, -100, -factor)
    } else {
        FINGER_TO_PALM_SCALE + pose_offset(FINGER_TO_PALM_SCALE as int, 80, factor)
    }
}

/// The palm's x scale: a mild squash opposite to the stretch on y,
/// -0.025 of the base scale per unit of factor.
pub open spec fn palm_scale_x(factor: int) -> int {
    PALM_BASE_SCALE + pose_offset(PALM_BASE_SCALE as int, -25, factor)
}

/// The palm's y scale: +0.05 of the base scale per unit of factor.
pub open spec fn palm_scale_y(factor: int) -> int {
    PALM_BASE_SCALE + pose_offset(PALM_BASE_SCALE as int, 50, factor)
}

/// A finger node posed at the given openness factor: the rest data is
/// kept, the outer transform takes the blended translation, scale and
/// rotation, and the inner fill is untouched.
pub open spec fn posed_finger(f: FingerNode, factor: int) -> FingerNode {
    FingerNode {
        index: f.index,
        base_x: f.base_x,
        base_y: f.base_y,
        node: Outlined {
            outer: Transform {
                x: finger_x(f.base_x as int, factor) as i64,
                y: finger_y(f.base_y as int, factor) as i64,
                z: finger_z(factor) as i64,
                rot: Rotation::Angle { micro: finger_rot_micro(f.index as int, factor) as i64 },
                sx: finger_scale(factor) as i64,
                sy: finger_scale(factor) as i64,
            },
            inner: f.node.inner,
        },
    }
}

/// The finger rotation formulas are antisymmetric across the mirror pairs
/// (0, 3) and (1, 2): at any openness factor, in either branch, the outer
/// fingers turn by exactly opposite angles, and so do the inner ones.
pub proof fn lemma_finger_rotation_antisymmetric(factor: int)
    ensures
        finger_rot_micro(0, factor) == -finger_rot_micro(3, factor),
        finger_rot_micro(1, factor) == -finger_rot_micro(2, factor),
{
    if factor < 0 {
        assert(-200 * -factor == -(200 * -factor)) by (nonlinear_arith);
        assert(-80 * -factor == -(80 * -factor)) by (nonlinear_arith);
        lemma_tdiv_neg(200 * -factor, 1000);
        lemma_tdiv_neg(80 * -factor, 1000);
    } else {
        assert(120 * factor == -(-120 * factor)) by (nonlinear_arith);
        assert(50 * factor == -(-50 * factor)) by (nonlinear_arith);
        lemma_tdiv_neg(-120 * factor, 1000);
        lemma_tdiv_neg(-50 * factor, 1000);
    }
}

/// The neutral pose is a fixed point: at openness factor zero every
/// gesture offset vanishes exactly, so each finger sits on its rest
/// position with the rest scale and depth and no rotation, and the palm
/// keeps its base scale on both axes.
pub proof fn lemma_neutral_pose_fixed_point(base_x: int, base_y: int, i: int)
    ensures
        finger_x(base_x, 0) == base_x,
        finger_y(base_y, 0) == base_y,
        finger_z(0) == FINGER_REST_Z,
        finger_scale(0) == FINGER_TO_PALM_SCALE,
        finger_rot_micro(i, 0) == 0,
        palm_scale_x(0) == PALM_BASE_SCALE,
        palm_scale_y(0) == PALM_BASE_SCALE,
{
    lemma_tdiv_zero(1_000_000_000);
    lemma_tdiv_zero(1000);
}

/// The finger depth keeps to its band: for any factor in the unit
/// interval, the blended depth stays between the shoulder and palm
/// outlines.
proof fn lemma_finger_z_band(factor: int)
    requires
        -1_000_000 <= factor <= 1_000_000,
    ensures
        FINGER_Z_LOW <= finger_z(factor) <= FINGER_Z_HIGH,
{
    if factor < 0 {
        let t = -factor;
        assert(FINGER_REST_Z * -300 * t == 30000 * t) by (nonlinear_arith);
        lemma_tdiv_pos_bounds(30000 * t, 1_000_000_000);
        lemma_tdiv_ordered(30000 * t, 30_000_000_000, 1_000_000_000);
        assert(tdiv(30_000_000_000, 1_000_000_000) == 30);
    } else {
        assert(FINGER_REST_Z * 150 * factor == -(15000 * factor)) by (nonlinear_arith);
        lemma_tdiv_neg(15000 * factor, 1_000_000_000);
        lemma_tdiv_pos_bounds(15000 * factor, 1_000_000_000);
        lemma_tdiv_ordered(15000 * factor, 15_000_000_000, 1_000_000_000);
        assert(tdiv(15_000_000_000, 1_000_000_000) == 15);
    }
}

/// Advances the openness factor one smoothing step toward the target the
/// buttons select, then poses the palm and the four fingers from the new
/// factor.  Only the palm's outer scale and the fingers' outer transforms
/// change; the rest data, the fills and every other node are untouched.
/// The `dt_ms` bound is the stability region of the unclamped smoothing
/// step: the per-frame fraction `SMOOTHING_RATE * dt_ms / 1000` must stay
/// below one, else the factor could overshoot its band.
pub fn animate_paw(scene: &mut Scene, anim: &mut PawAnimState, left: bool, right: bool, dt_ms: i64)
    requires
        old(scene).wf(),
        old(anim).wf(),
        0 <= dt_ms,
        SMOOTHING_RATE * dt_ms < 1000,
    ensures
        final(scene).wf(),
        final(anim).wf(),
        final(anim).factor == openness_step(
            old(anim).factor as int,
            openness_target(left, right),
            dt_ms as int,
        ),
        final(scene).palm.outer.sx == palm_scale_x(final(anim).factor as int),
        final(scene).palm.outer.sy == palm_scale_y(final(anim).factor as int),
        final(scene).palm.outer.x == old(scene).palm.outer.x,
        final(scene).palm.outer.y == old(scene).palm.outer.y,
        final(scene).palm.outer.z == old(scene).palm.outer.z,
        final(scene).palm.outer.rot == old(scene).palm.outer.rot,
        final(scene).palm.inner == old(scene).palm.inner,
        final(scene).fingers@.len() == 4,
        forall|i: int|
            0 <= i < 4 ==> final(scene).fingers@[i] == posed_finger(
                old(scene).fingers@[i],
                final(anim).factor as int,
            ),
        final(scene).arm == old(scene).arm,
        final(scene).bottom == old(scene).bottom,
        final(scene).arm_visible == old(scene).arm_visible,
        final(scene).palm_visible == old(scene).palm_visible,
        final(scene).bottom_visible == old(scene).bottom_visible,
{
    let mut target: i64 = 0;
    if left {
        target = -1_000_000;
    } else if right {
        target = 1_000_000;
    }

    let k: i64 = SMOOTHING_RATE * dt_ms;
    proof {
        assert(-0x4000_0000_0000_0000 <= (target - anim.factor) * k <= 0x4000_0000_0000_0000)
            by (nonlinear_arith)
            requires
                -2_000_000 <= target - anim.factor <= 2_000_000,
                0 <= k < 1000;
    }
    let step: i64 = mul_div(target - anim.factor, k, 1000);
    proof {
        lemma_openness_step_monotone(
            anim.factor as int,
            openness_target(left, right),
            dt_ms as int,
        );
    }
    anim.factor = anim.factor + step;
    let factor = anim.factor;

    scene.palm.outer.sx = PALM_BASE_SCALE + mul3_div(PALM_BASE_SCALE, -25, factor, 1_000_000_000);
    scene.palm.outer.sy = PALM_BASE_SCALE + mul3_div(PALM_BASE_SCALE, 50, factor, 1_000_000_000);

    let ghost old_fingers = scene.fingers@;
    let mut posed: Vec<FingerNode> = Vec::new();
    let mut i: usize = 0;
    while i < 4
        invariant
            old_fingers == scene.fingers@,
            scene.fingers@.len() == 4,
            forall|j: int|
                0 <= j < 4 ==> {
                    let f = #[trigger] scene.fingers@[j];
                    &&& f.index == j
                    &&& -2000 <= f.base_x <= 2000
                    &&& -2000 <= f.base_y <= 2000
                },
            -MICRO <= factor <= MICRO,
            i <= 4,
            posed@.len() == i,
            forall|j: int|
                0 <= j < i ==> posed@[j] == posed_finger(scene.fingers@[j], factor as int),
        decreases 4 - i,
    {
        let f = scene.fingers[i];
        let t: i64 = if factor < 0 {
            -factor
        } else {
            factor
        };

        let (trans_coeff_x, trans_coeff_y, scale_coeff): (i64, i64, i64) = if factor < 0 {
            (-300, -300, -100)
        } else {
            (195, 150, 80)
        };
        let rot_coeff: i64 = if factor < 0 {
            match f.index {
                0 => 200,
                1 => 80,
                2 => -80,
                3 => -200,
                _ => 0,
            }
        } else {
            match f.index {
                0 => -120,
                1 => -50,
                2 => 50,
                3 => 120,
                _ => 0,
            }
        };

        proof {
            assert(-0x4000_0000_0000_0000 <= f.base_x * trans_coeff_x <= 0x4000_0000_0000_0000
                && -0x4000_0000_0000_0000 <= f.base_x * trans_coeff_x * t
                    <= 0x4000_0000_0000_0000) by (nonlinear_arith)
                requires
                    -2000 <= f.base_x <= 2000,
                    -300 <= trans_coeff_x <= 300,
                    0 <= t <= 1_000_000;
            assert(-0x4000_0000_0000_0000 <= f.base_y * trans_coeff_y <= 0x4000_0000_0000_0000
                && -0x4000_0000_0000_0000 <= f.base_y * trans_coeff_y * t
                    <= 0x4000_0000_0000_0000) by (nonlinear_arith)
                requires
                    -2000 <= f.base_y <= 2000,
                    -300 <= trans_coeff_y <= 300,
                    0 <= t <= 1_000_000;
            assert(-0x4000_0000_0000_0000 <= FINGER_REST_Z * trans_coeff_y
                <= 0x4000_0000_0000_0000 && -0x4000_0000_0000_0000 <= FINGER_REST_Z
                * trans_coeff_y * t <= 0x4000_0000_0000_0000) by (nonlinear_arith)
                requires
                    -300 <= trans_coeff_y <= 300,
                    0 <= t <= 1_000_000,
                    FINGER_REST_Z == -100i64;
            assert(-0x4000_0000_0000_0000 <= FINGER_TO_PALM_SCALE * scale_coeff
                <= 0x4000_0000_0000_0000 && -0x4000_0000_0000_0000 <= FINGER_TO_PALM_SCALE
                * scale_coeff * t <= 0x4000_0000_0000_0000) by (nonlinear_arith)
                requires
                    -300 <= scale_coeff <= 300,
                    0 <= t <= 1_000_000,
                    FINGER_TO_PALM_SCALE == 700i64;
            assert(-0x4000_0000_0000_0000 <= rot_coeff * t <= 0x4000_0000_0000_0000)
                by (nonlinear_arith)
                requires
                    -300 <= rot_coeff <= 300,
                    0 <= t <= 1_000_000;
        }
        let x = f.base_x + mul3_div(f.base_x, trans_coeff_x, t, 1_000_000_000);
        let y = f.base_y + mul3_div(f.base_y, trans_coeff_y, t, 1_000_000_000);
        let z = FINGER_REST_Z + mul3_div(FINGER_REST_Z, trans_coeff_y, t, 1_000_000_000);
        let s = FINGER_TO_PALM_SCALE + mul3_div(
            FINGER_TO_PALM_SCALE,
            scale_coeff,
            t,
            1_000_000_000,
        );
        let angle = mul_div(rot_coeff, t, 1000);

        let node = Outlined {
            outer: Transform {
                x,
                y,
                z,
                rot: Rotation::Angle { micro: angle },
                sx: s,
                sy: s,
            },
            inner: f.node.inner,
        };
        posed.push(FingerNode { index: f.index, base_x: f.base_x, base_y: f.base_y, node });
        i = i + 1;
    }
    scene.fingers = posed;
    proof {
        lemma_finger_z_band(factor as int);
    }
}

} // verus!
