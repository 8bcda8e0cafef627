//! Tests of the gesture-driven shape animator: the neutral fixed point,
//! the full clench and full spread poses, the mirror-symmetric finger
//! rotations, and the monotone smoothing of the openness factor.

use cat_paw::animate::{animate_paw, PawAnimState};
use cat_paw::geom::Rotation;
use cat_paw::scene::Scene;

#[test]
fn neutral_pose_is_fixed_point() {
    let mut scene = Scene::new();
    let mut anim = PawAnimState::new();
    animate_paw(&mut scene, &mut anim, false, false, 16);
    assert_eq!(anim.factor, 0);
    // Each finger sits exactly on its rest position with the rest scale.
    let rests = [(-597, 403), (-322, 797), (322, 797), (597, 403)];
    for i in 0..4 {
        let f = &scene.fingers[i];
        assert_eq!(f.node.outer.x, rests[i].0);
        assert_eq!(f.node.outer.y, rests[i].1);
        assert_eq!(f.node.outer.z, -100);
        assert_eq!(f.node.outer.sx, 700);
        assert_eq!(f.node.outer.sy, 700);
        assert_eq!(f.node.outer.rot, Rotation::Angle { micro: 0 });
    }
    assert_eq!(scene.palm.outer.sx, 50_000);
    assert_eq!(scene.palm.outer.sy, 50_000);
}

#[test]
fn full_clench_pose() {
    let mut scene = Scene::new();
    // A zero-length step holds the factor where it is.
    let mut anim = PawAnimState { factor: -1_000_000 };
    animate_paw(&mut scene, &mut anim, true, false, 0);
    assert_eq!(anim.factor, -1_000_000);

    // Translation moves 0.3 of the rest offset inward, on the milli grid.
    assert_eq!(scene.fingers[0].node.outer.x, -418);
    assert_eq!(scene.fingers[0].node.outer.y, 283);
    assert_eq!(scene.fingers[1].node.outer.x, -226);
    assert_eq!(scene.fingers[1].node.outer.y, 558);
    assert_eq!(scene.fingers[2].node.outer.x, 226);
    assert_eq!(scene.fingers[2].node.outer.y, 558);
    assert_eq!(scene.fingers[3].node.outer.x, 418);
    assert_eq!(scene.fingers[3].node.outer.y, 283);

    for i in 0..4 {
        // Scale shrinks by 0.1; depth rises by 0.3 of the rest depth.
        assert_eq!(scene.fingers[i].node.outer.sx, 630);
        assert_eq!(scene.fingers[i].node.outer.sy, 630);
        assert_eq!(scene.fingers[i].node.outer.z, -70);
        // The rest data is untouched.
        assert_eq!(scene.fingers[i].index, i);
    }

    // Curl rotations: outer fingers curl 0.2 rad, inner 0.08, mirrored.
    assert_eq!(scene.fingers[0].node.outer.rot, Rotation::Angle { micro: 200_000 });
    assert_eq!(scene.fingers[1].node.outer.rot, Rotation::Angle { micro: 80_000 });
    assert_eq!(scene.fingers[2].node.outer.rot, Rotation::Angle { micro: -80_000 });
    assert_eq!(scene.fingers[3].node.outer.rot, Rotation::Angle { micro: -200_000 });

    // Palm squash at full clench: x grows by 0.025, y shrinks by 0.05.
    assert_eq!(scene.palm.outer.sx, 51_250);
    assert_eq!(scene.palm.outer.sy, 47_500);
}

#[test]
fn full_spread_pose() {
    let mut scene = Scene::new();
    let mut anim = PawAnimState { factor: 1_000_000 };
    animate_paw(&mut scene, &mut anim, false, true, 0);
    assert_eq!(anim.factor, 1_000_000);

    // Spread: 0.15 of the rest offset outward, x exaggerated by 1.3.
    assert_eq!(scene.fingers[0].node.outer.x, -713);
    assert_eq!(scene.fingers[0].node.outer.y, 463);
    assert_eq!(scene.fingers[1].node.outer.x, -384);
    assert_eq!(scene.fingers[1].node.outer.y, 916);
    assert_eq!(scene.fingers[2].node.outer.x, 384);
    assert_eq!(scene.fingers[2].node.outer.y, 916);
    assert_eq!(scene.fingers[3].node.outer.x, 713);
    assert_eq!(scene.fingers[3].node.outer.y, 463);

    for i in 0..4 {
        // Scale grows by 0.08; depth drops by 0.15 of the rest depth.
        assert_eq!(scene.fingers[i].node.outer.sx, 756);
        assert_eq!(scene.fingers[i].node.outer.sy, 756);
        assert_eq!(scene.fingers[i].node.outer.z, -115);
    }

    // Splay rotations: opposite sign convention from the curl.
    assert_eq!(scene.fingers[0].node.outer.rot, Rotation::Angle { micro: -120_000 });
    assert_eq!(scene.fingers[1].node.outer.rot, Rotation::Angle { micro: -50_000 });
    assert_eq!(scene.fingers[2].node.outer.rot, Rotation::Angle { micro: 50_000 });
    assert_eq!(scene.fingers[3].node.outer.rot, Rotation::Angle { micro: 120_000 });

    assert_eq!(scene.palm.outer.sx, 48_750);
    assert_eq!(scene.palm.outer.sy, 52_500);
}

#[test]
fn finger_rotations_antisymmetric_both_branches() {
    // At any factor the pairs (0,3) and (1,2) rotate by opposite angles.
    for factor in [-1_000_000, -350_001, -1, 0, 1, 499_999, 1_000_000] {
        let mut scene = Scene::new();
        let mut anim = PawAnimState { factor };
        animate_paw(&mut scene, &mut anim, false, false, 0);
        let angle = |i: usize| match scene.fingers[i].node.outer.rot {
            Rotation::Angle { micro } => micro,
            Rotation::Toward { .. } => panic!("finger rotation is a plain angle"),
        };
        assert_eq!(angle(0), -angle(3));
        assert_eq!(angle(1), -angle(2));
    }
}

#[test]
fn openness_first_steps_exact() {
    let mut scene = Scene::new();
    let mut anim = PawAnimState::new();
    // One 16 ms step toward the clench target moves 24 percent of the way.
    animate_paw(&mut scene, &mut anim, true, false, 16);
    assert_eq!(anim.factor, -240_000);
    animate_paw(&mut scene, &mut anim, true, false, 16);
    assert_eq!(anim.factor, -422_400);
}

#[test]
fn openness_converges_monotonically() {
    let mut scene = Scene::new();
    let mut anim = PawAnimState::new();
    let mut prev = anim.factor;
    for _ in 0..100 {
        animate_paw(&mut scene, &mut anim, true, false, 16);
        // Never oscillates: moves toward -1 and never crosses it.
        assert!(anim.factor <= prev);
        assert!(anim.factor >= -1_000_000);
        prev = anim.factor;
    }
    assert!(anim.factor <= -999_990);

    // Releasing the button sends it monotonically back to rest.
    for _ in 0..100 {
        animate_paw(&mut scene, &mut anim, false, false, 16);
        assert!(anim.factor >= prev);
        assert!(anim.factor <= 0);
        prev = anim.factor;
    }
    assert!(anim.factor >= -10);
}

#[test]
fn left_button_wins_over_right() {
    let mut scene = Scene::new();
    let mut anim = PawAnimState::new();
    // Both buttons held: the clench target wins (left is checked first).
    animate_paw(&mut scene, &mut anim, true, true, 16);
    assert_eq!(anim.factor, -240_000);
}
