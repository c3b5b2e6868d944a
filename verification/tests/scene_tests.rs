use dandelions::affine_matrix::Vec3;
use dandelions::color::Color;
use dandelions::kinect_tracker::TrackingSnapshot;
use dandelions::scene::Scene;
use dandelions::state::DandelionState;

fn idle_state() -> DandelionState {
    DandelionState { started: true, affection: 0, scene_3: false, scene_5: false }
}

#[test]
fn fresh_scene_is_fully_initialised() {
    let scene = Scene::new();
    let ident = dandelions::affine_matrix::AffineMatrix::ident();
    assert_eq!(scene.dandelion_seed1.rotation, ident);
    assert_eq!(scene.dancing_dandelion1.rotation, ident);
    assert_eq!(scene.ground.rotation, ident);
    assert_eq!(scene.dandelion_seed1.theta, 0);
    assert_eq!(scene.dandelion_seed1.theta_delta, 0);
    assert!(!scene.dandelion_seed1.fancy);
    assert_eq!(scene.dandelion_seed2, scene.dandelion_seed1);
    assert_eq!(scene.dancing_dandelion2, scene.dancing_dandelion1);
    assert_eq!(
        (scene.ground.translation.m30, scene.ground.translation.m31,
            scene.ground.translation.m32),
        (0, -10_000, -20_000)
    );
    assert_eq!(scene.ground_2, scene.ground);
    assert_eq!(scene.ground_mirror.scale.m00, -10_000);
    assert_eq!(scene.ground_mirror_2, scene.ground_mirror);
}

#[test]
fn one_update_moves_a_tenth_toward_the_body() {
    // Seed at the origin, body one unit along X: after one step the
    // translation's X entry is exactly one tenth.
    let mut scene = Scene::new();
    scene.dandelion_seed1.translation.set_translate(0, 0, 0);
    let mut rng = rand::rngs::OsRng::default();
    Scene::update_dandelion(
        &mut scene.dandelion_seed1,
        &mut rng,
        Vec3 { x: 10_000, y: 0, z: 0 },
        Vec3 { x: 10_000, y: 2_000, z: 0 },
        Color::from_gray(10_000, 10_000),
        0,
    );
    assert_eq!(scene.dandelion_seed1.translation.m30, 1_000);
    assert_eq!(scene.dandelion_seed1.translation.m31, 0);
    assert_eq!(scene.dandelion_seed1.translation.m32, 0);
}

#[test]
fn ground_tiles_are_distinct_and_in_band() {
    let mut scene = Scene::new();
    for &elapsed in &[0i64, 73_333, 160_000, 320_000, 1_234_567] {
        scene.update_ground(5_000, elapsed);
        let xs = [
            scene.ground.translation.m30,
            scene.ground_mirror.translation.m30,
            scene.ground_2.translation.m30,
            scene.ground_mirror_2.translation.m30,
        ];
        for i in 0..4 {
            assert!(-160_000 <= xs[i] && xs[i] < 160_000, "tile {} at {}", i, xs[i]);
            for j in 0..i {
                assert_ne!(xs[i], xs[j], "tiles {} and {} collide at time {}", i, j, elapsed);
            }
        }
    }
}

#[test]
fn ground_tiles_scroll_with_time() {
    let mut scene = Scene::new();
    scene.update_ground(5_000, 0);
    let x0 = scene.ground.translation.m30;
    // Half speed: twenty fixed seconds move the tile ten units.
    scene.update_ground(5_000, 200_000);
    let x1 = scene.ground.translation.m30;
    assert_eq!(x1 - x0, 100_000);
    assert_eq!(scene.ground.color, Color::from_gray(5_000, 10_000));
}

#[test]
fn swap_policy_exchanges_full_state() {
    let mut scene = Scene::new();
    // Seed 1 sits at body 2, seed 2 sits at body 1, both mismatches well
    // beyond the one-unit slack.
    scene.dandelion_seed1.translation.set_translate(-50_000, 0, 0);
    scene.dandelion_seed2.translation.set_translate(50_000, 0, 0);
    scene.dandelion_seed1.theta = 111;
    scene.dandelion_seed2.theta = 222;
    scene.dandelion_seed1.theta_delta = 11;
    scene.dandelion_seed2.theta_delta = 22;
    let before1 = scene.dandelion_seed1;
    let before2 = scene.dandelion_seed2;
    let mut tracking = TrackingSnapshot::origin();
    tracking.body1_base = Vec3 { x: 50_000, y: 0, z: 0 };
    tracking.body2_base = Vec3 { x: -50_000, y: 0, z: 0 };
    scene.check_dandelions(&tracking);
    assert_eq!(scene.dandelion_seed1, before2);
    assert_eq!(scene.dandelion_seed2, before1);
}

#[test]
fn swap_policy_holds_within_slack() {
    // Mismatched ownership but both seeds within the one-unit slack of
    // their own body: no swap.
    let mut scene = Scene::new();
    scene.dandelion_seed1.translation.set_translate(-3_000, 0, 0);
    scene.dandelion_seed2.translation.set_translate(3_000, 0, 0);
    let before1 = scene.dandelion_seed1;
    let before2 = scene.dandelion_seed2;
    let mut tracking = TrackingSnapshot::origin();
    tracking.body1_base = Vec3 { x: 3_000, y: 0, z: 0 };
    tracking.body2_base = Vec3 { x: -3_000, y: 0, z: 0 };
    scene.check_dandelions(&tracking);
    assert_eq!(scene.dandelion_seed1, before1);
    assert_eq!(scene.dandelion_seed2, before2);
}

#[test]
fn dance_poses_both_dancers() {
    let mut scene = Scene::new();
    scene.dandelion_dance(10_000, 123_456);
    assert!(scene.dancing_dandelion1.fancy);
    assert!(scene.dancing_dandelion2.fancy);
    let c = scene.dancing_dandelion1.color;
    assert_eq!((c.r, c.g, c.b, c.a), (10_000, 8_500, 4_500, 10_000));
    // The two dancers mirror each other, so their poses differ.
    assert_ne!(
        scene.dancing_dandelion1.translation,
        scene.dancing_dandelion2.translation
    );
    // Restartable: the pose is a pure function of the elapsed time.
    let first = scene.dancing_dandelion1.translation;
    scene.dandelion_dance(10_000, 999_999);
    scene.dandelion_dance(10_000, 123_456);
    assert_eq!(scene.dancing_dandelion1.translation, first);
}

#[test]
fn update_runs_a_frame_and_brightens() {
    let mut scene = Scene::new();
    let mut tracking = TrackingSnapshot::origin();
    tracking.body1_base = Vec3 { x: 10_000, y: 0, z: -20_000 };
    tracking.body1_head = Vec3 { x: 10_000, y: 2_000, z: -20_000 };
    tracking.body2_base = Vec3 { x: -10_000, y: 0, z: -20_000 };
    tracking.body2_head = Vec3 { x: -10_000, y: 2_000, z: -20_000 };
    for i in 0..10 {
        scene.update(idle_state(), &tracking, i * 170);
    }
    assert_eq!(scene.axes.brightness, 1_000);
    assert_eq!(scene.axes.dancing_brightness, 0);
    assert!(!scene.dandelion_seed1.fancy);
    assert_eq!(scene.dandelion_seed1.color, Color::from_gray(1_000, 10_000));
    // Ten smoothing steps pull the seed most of the way from its start
    // toward body 1 on X.
    let x = scene.dandelion_seed1.translation.m30;
    assert!(0 < x && x < 10_000, "x was {}", x);
}

#[test]
fn update_crossfades_into_the_dance() {
    let mut scene = Scene::new();
    let tracking = TrackingSnapshot::origin();
    let state = DandelionState { started: true, affection: 0, scene_3: true, scene_5: false };
    for i in 0..10 {
        scene.update(state, &tracking, i * 170);
    }
    // From darkness the dance axis rises while brightness stays at zero.
    assert_eq!(scene.axes.dancing_brightness, 1_000);
    assert_eq!(scene.axes.brightness, 0);
    assert!(scene.dancing_dandelion1.fancy);
    assert!(scene.dancing_dandelion2.fancy);
    assert!(!scene.dandelion_seed1.fancy);
}

#[test]
fn update_raises_drift_when_wanted() {
    let mut scene = Scene::new();
    let tracking = TrackingSnapshot::origin();
    let on = DandelionState { started: true, affection: 0, scene_3: false, scene_5: true };
    for i in 0..50 {
        scene.update(on, &tracking, i * 170);
    }
    assert_eq!(scene.axes.drift_strength, 50);
    let off = DandelionState { started: true, affection: 0, scene_3: false, scene_5: false };
    for i in 0..20 {
        scene.update(off, &tracking, i * 170);
    }
    assert_eq!(scene.axes.drift_strength, 30);
}

#[test]
fn camera_nudges_by_a_hundredth() {
    let mut scene = Scene::new();
    scene.nudge_camera(1, -1);
    assert_eq!(scene.camera_pos, Vec3 { x: -100, y: 0, z: -100 });
    let v = scene.view_matrix();
    assert_eq!((v.m30, v.m31, v.m32), (100, 0, 100));
}

#[test]
fn draw_order_follows_depth() {
    let mut scene = Scene::new();
    scene.dandelion_seed1.translation.set_translate(0, 0, -30_000);
    scene.dandelion_seed2.translation.set_translate(0, 0, -10_000);
    assert!(scene.ambient_draw_first());
    scene.dandelion_seed1.translation.set_translate(0, 0, -5_000);
    assert!(!scene.ambient_draw_first());
}

#[test]
fn dist_sq_is_exact() {
    let a = Vec3 { x: 3_000, y: -4_000, z: 0 };
    let b = Vec3 { x: 0, y: 0, z: 12_000 };
    // 0.3^2 + 0.4^2 + 1.2^2 = 1.69 square units, in squared fixed units.
    assert_eq!(dandelions::scene::dist_sq(a, b), 169_000_000);
}
