use skybox_viewer::camera::CameraController;
use skybox_viewer::camera::FULL_TURN_MILLIDEG;
use skybox_viewer::camera::Rotation;

// Sensitivity of 0.035 degrees per device unit, held in millidegrees.
const SENSITIVITY: i64 = 35;
// Pitch limit of 88 degrees, in millidegrees.
const ROTATION_LOCK: i64 = 88000;

#[test]
fn horizontal_delta_turns_yaw_only() {
    let mut c = CameraController::new(SENSITIVITY, ROTATION_LOCK);
    let r = c.update(100, 0);
    // 100 units at 0.035 degrees per unit: 3.5 degrees of yaw.
    assert_eq!(r, Rotation { yaw: 3500, pitch: 0 });
}

#[test]
fn pitch_saturates_at_limit_and_stops() {
    let mut c = CameraController::new(SENSITIVITY, ROTATION_LOCK);
    let r = c.update(0, 3000);
    assert_eq!(r.pitch, 88000);
    // Further positive-pitch input does not push past the limit.
    let r2 = c.update(0, 3000);
    assert_eq!(r2.pitch, 88000);
    let r3 = c.update(0, 1);
    assert_eq!(r3.pitch, 88000);
    assert_eq!(r3.yaw, 0);
}

#[test]
fn pitch_saturates_at_negative_limit() {
    let mut c = CameraController::new(SENSITIVITY, ROTATION_LOCK);
    let r = c.update(0, -3000);
    assert_eq!(r.pitch, -88000);
    let r2 = c.update(0, -1);
    assert_eq!(r2.pitch, -88000);
}

#[test]
fn pitch_stays_within_limit_over_any_update_sequence() {
    let deltas: [(i64, i64); 12] = [
        (100, 0),
        (0, 3000),
        (-250, -9000),
        (7, 7),
        (0, i64::MAX),
        (i64::MIN, i64::MIN),
        (12345, -67890),
        (0, 2514),
        (-1, 1),
        (99999, -99999),
        (0, 0),
        (3, -3),
    ];
    let mut c = CameraController::new(SENSITIVITY, ROTATION_LOCK);
    for (dx, dy) in deltas {
        let r = c.update(dx, dy);
        assert!(-ROTATION_LOCK <= r.pitch && r.pitch <= ROTATION_LOCK);
        assert!(0 <= r.yaw && r.yaw < FULL_TURN_MILLIDEG);
    }
}

#[test]
fn pitch_stays_within_limit_over_generated_delta_sequences() {
    // A small linear congruential generator stands in for random input.
    let mut state: u64 = 0x2545F4914F6CDD1D;
    let mut next = move || {
        state = state.wrapping_mul(6364136223846793005).wrapping_add(1442695040888963407);
        state
    };
    let mut c = CameraController::new(SENSITIVITY, ROTATION_LOCK);
    for _ in 0..1000 {
        let dx = next() as i64;
        let dy = next() as i64;
        let r = c.update(dx, dy);
        assert!(-ROTATION_LOCK <= r.pitch && r.pitch <= ROTATION_LOCK);
        assert!(0 <= r.yaw && r.yaw < FULL_TURN_MILLIDEG);
    }
}

#[test]
fn yaw_wraps_around_a_full_turn() {
    let mut c = CameraController::new(SENSITIVITY, ROTATION_LOCK);
    // 11000 units at 35 millidegrees each: 385 degrees, which wraps to 25.
    let r = c.update(11000, 0);
    assert_eq!(r.yaw, 25000);
}

#[test]
fn negative_yaw_wraps_to_the_other_side() {
    let mut c = CameraController::new(SENSITIVITY, ROTATION_LOCK);
    // -3.5 degrees of turn is the same orientation as 356.5 degrees.
    let r = c.update(-100, 0);
    assert_eq!(r.yaw, 356500);
}

#[test]
fn pitch_unaffected_by_yaw_and_kept_between_frames() {
    let mut c = CameraController::new(SENSITIVITY, ROTATION_LOCK);
    c.update(0, 100);
    let r = c.update(200, 0);
    assert_eq!(r.pitch, 3500);
    assert_eq!(r.yaw, 7000);
}

#[test]
fn extreme_deltas_stay_in_range() {
    let mut c = CameraController::new(1, 88000);
    let r = c.update(i64::MAX, i64::MIN);
    assert!(0 <= r.yaw && r.yaw < FULL_TURN_MILLIDEG);
    assert_eq!(r.pitch, -88000);
}
