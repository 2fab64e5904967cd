use tickwork::easing::EasingFunction;
use tickwork::fixed::FRAC_SCALE;
use tickwork::path::{follow_path, CameraPathFollower, QuatFixed, Transform, Vec3Fixed};

fn pose(x: i64, y: i64, z: i64) -> Transform {
    Transform {
        translation: Vec3Fixed { x, y, z },
        rotation: QuatFixed { x: 0, y: 0, z: 0, w: 1000 },
    }
}

#[test]
fn single_node_follower_starts_counting_down_immediately() {
    let follower = CameraPathFollower::to_transform(pose(1000, 2000, 3000), 1000);
    assert_eq!(follower.iter_transforms().len(), 1);
    assert_eq!(follower.get_current_length(), 1000);
    assert_eq!(follower.get_current_curve(), EasingFunction::EaseInOut);
    assert_eq!(*follower.get_current_target(), pose(1000, 2000, 3000));
    assert_eq!(follower.timer.duration_ms, 1000);
    assert_eq!(follower.timer.elapsed_ms, 0);
}

#[test]
fn push_onto_nonempty_queue_keeps_the_active_timer() {
    let mut follower = CameraPathFollower::to_transform(pose(1, 2, 3), 1000);
    follower.push_node(pose(4, 5, 6), 2000, EasingFunction::Linear);
    assert_eq!(follower.iter_transforms().len(), 2);
    assert_eq!(follower.timer.duration_ms, 1000);
    assert_eq!(follower.get_current_length(), 1000);
}

#[test]
fn two_segments_drain_in_order_and_detach_only_after_both() {
    let a_target = pose(1000, 0, 0);
    let b_target = pose(5000, 5000, 0);
    let mut follower = CameraPathFollower::default();
    follower.push_node(a_target, 1000, EasingFunction::EaseInOut);
    follower.push_node(b_target, 2000, EasingFunction::EaseInOut);

    let mut camera = pose(0, 0, 0);

    // The tick that completes A lands exactly on A's target, and B's
    // timer starts fresh: B has not advanced yet.
    let detach = follow_path(&mut follower, &mut camera, 1000, FRAC_SCALE);
    assert!(!detach);
    assert_eq!(camera, a_target);
    assert_eq!(follower.iter_transforms().len(), 1);
    assert_eq!(follower.timer.duration_ms, 2000);
    assert_eq!(follower.timer.elapsed_ms, 0);

    // B runs its full duration before the follower disappears.
    let detach = follow_path(&mut follower, &mut camera, 1999, FRAC_SCALE);
    assert!(!detach);
    assert_eq!(follower.iter_transforms().len(), 1);

    let detach = follow_path(&mut follower, &mut camera, 1, FRAC_SCALE);
    assert!(detach);
    assert_eq!(camera, b_target);
    assert_eq!(follower.iter_transforms().len(), 0);
}

#[test]
fn interpolation_follows_the_eased_fraction() {
    let target = pose(1000, 0, 0);
    let mut follower = CameraPathFollower::to_transform(target, 1000);
    let mut camera = pose(0, 0, 0);

    // Progress is read before the tick: the first frame writes the pose
    // at fraction zero.
    follow_path(&mut follower, &mut camera, 500, FRAC_SCALE);
    assert_eq!(camera.translation.x, 0);

    // At fraction 500 the eased progress is 500: halfway there.
    follow_path(&mut follower, &mut camera, 250, FRAC_SCALE);
    assert_eq!(camera.translation.x, 500);

    // At fraction 750 the eased progress is 843.
    follow_path(&mut follower, &mut camera, 249, FRAC_SCALE);
    assert_eq!(camera.translation.x, 500 + (500 * 843) / 1000);

    // The completing tick lands exactly on the target.
    let detach = follow_path(&mut follower, &mut camera, 1, FRAC_SCALE);
    assert!(detach);
    assert_eq!(camera, target);
}

#[test]
fn time_dilation_scales_the_frame_delta() {
    let mut follower = CameraPathFollower::to_transform(pose(1, 0, 0), 1000);
    let mut camera = pose(0, 0, 0);
    // At one tenth speed, a 1000 ms frame advances the timer by 100 ms.
    let detach = follow_path(&mut follower, &mut camera, 1000, 100);
    assert!(!detach);
    assert_eq!(follower.timer.elapsed_ms, 100);
}

#[test]
fn disabled_follower_does_nothing() {
    let mut follower = CameraPathFollower::to_transform(pose(9, 9, 9), 100);
    follower.should_run = false;
    let mut camera = pose(0, 0, 0);
    let detach = follow_path(&mut follower, &mut camera, 100000, FRAC_SCALE);
    assert!(!detach);
    assert_eq!(camera, pose(0, 0, 0));
    assert_eq!(follower.iter_transforms().len(), 1);
}

#[test]
fn rotation_components_land_exactly_on_the_target() {
    let target = Transform {
        translation: Vec3Fixed { x: 0, y: 0, z: 0 },
        rotation: QuatFixed { x: 500, y: -500, z: 250, w: 750 },
    };
    let mut follower = CameraPathFollower::to_transform(target, 100);
    let mut camera = pose(0, 0, 0);
    let detach = follow_path(&mut follower, &mut camera, 100, FRAC_SCALE);
    assert!(detach);
    assert_eq!(camera.rotation, target.rotation);
}
