//! The three steering policies on concrete poses.

use planar_steering::angle::Angle;
use planar_steering::config::Dt;
use planar_steering::errors::SteerError;
use planar_steering::heading::heading_of;
use planar_steering::steering::{
    limited_rotate_next, limited_rotate_target, player_controlled, snap_next, snap_to_target,
    InputSnapshot, PlayerParams, Pose,
};
use planar_steering::vec2::Vec2;

fn pose(x: i64, y: i64, orientation_units: i64) -> Pose {
    Pose { position: Vec2 { x, y }, orientation: Angle::from_signed_units(orientation_units) }
}

fn tick() -> Dt {
    Dt::new(1, 60)
}

#[test]
fn player_thrust_advances_along_forward() {
    // 500 units per second at one tick of 1/60 s: 500/60 units forward.
    let params = PlayerParams { movement_speed: 500_000_000, rotation_speed: 3_600_000 };
    let input = InputSnapshot { turn_left: false, turn_right: false, thrust: true };
    let r = player_controlled(pose(0, 0, 0), params, input, tick());
    assert_eq!(r.orientation.units, 0);
    assert_eq!((r.position.x, r.position.y), (0, 8_333_333));
}

#[test]
fn player_thrust_respects_heading() {
    // Facing east (a quarter turn clockwise), thrust moves along +x.
    let params = PlayerParams { movement_speed: 500_000_000, rotation_speed: 3_600_000 };
    let input = InputSnapshot { turn_left: false, turn_right: false, thrust: true };
    let r = player_controlled(pose(0, 0, -900_000), params, input, tick());
    assert_eq!(r.orientation.units, 2_700_000);
    assert_eq!((r.position.x, r.position.y), (8_333_333, 0));
}

#[test]
fn player_turn_left_advances_orientation() {
    // One full turn per second (2 pi radians per second) for 1/60 s: 6 degrees.
    let params = PlayerParams { movement_speed: 500_000_000, rotation_speed: 3_600_000 };
    let input = InputSnapshot { turn_left: true, turn_right: false, thrust: false };
    let r = player_controlled(pose(0, 0, 0), params, input, tick());
    assert_eq!(r.orientation.units, 60_000);
    assert_eq!((r.position.x, r.position.y), (0, 0));
}

#[test]
fn player_turn_right_is_opposite() {
    let params = PlayerParams { movement_speed: 500_000_000, rotation_speed: 3_600_000 };
    let input = InputSnapshot { turn_left: false, turn_right: true, thrust: false };
    let r = player_controlled(pose(0, 0, 0), params, input, tick());
    assert_eq!(r.orientation.units, 3_540_000);
}

#[test]
fn player_both_turns_cancel() {
    let params = PlayerParams { movement_speed: 500_000_000, rotation_speed: 3_600_000 };
    let input = InputSnapshot { turn_left: true, turn_right: true, thrust: false };
    let r = player_controlled(pose(0, 0, 123_456), params, input, tick());
    assert_eq!(r.orientation.units, 123_456);
}

#[test]
fn player_full_turn_per_tick_is_identity() {
    // Sixty turns per second at 1/60 s per tick is a whole turn each tick.
    let params = PlayerParams { movement_speed: 0, rotation_speed: 216_000_000 };
    let input = InputSnapshot { turn_left: true, turn_right: false, thrust: false };
    let r = player_controlled(pose(0, 0, 700_000), params, input, tick());
    assert_eq!(r.orientation.units, 700_000);
}

#[test]
fn snap_faces_target_exactly() {
    // Target up-right on the exact diagonal; prior orientation arbitrary.
    let r = snap_next(pose(0, 0, 1_234_567), Vec2 { x: 3_000_000, y: 3_000_000 });
    assert_eq!(r.forward().units, 450_000);
    assert_eq!(r.orientation.units, 3_150_000);
    assert_eq!((r.position.x, r.position.y), (0, 0));
}

#[test]
fn snap_faces_target_from_any_orientation() {
    let target = Vec2 { x: -2_000_000, y: 0 };
    let expected = heading_of(-2_000_000, 0).units;
    for orient in [0i64, 500_000, 1_800_000, 2_700_000, 3_599_999] {
        let r = snap_next(pose(0, 0, orient), target);
        assert_eq!(r.forward().units, expected);
    }
}

#[test]
fn snap_coincident_positions_degenerate() {
    let p = pose(7, -9, 0);
    let r = snap_to_target(p, Vec2 { x: 7, y: -9 });
    assert_eq!(r, Err(SteerError::DegenerateDirection));
}

#[test]
fn limited_rotate_converges_without_overshoot() {
    // 37 degrees to the target, 10 degrees of budget per tick: three ticks
    // consume 30 degrees, the fourth consumes the remaining 7 and clamps,
    // the fifth holds at zero.
    let target = Vec2 { x: 1_000_000, y: 0 };
    let target_heading = Angle::from_units(0);
    // Forward heading 37 degrees: orientation is 37 - 90 degrees.
    let mut p = pose(0, 0, -530_000);
    let speed: i64 = 6_000_000;  // 100 degrees per second: 10 degrees per tick
    let mut remaining: Vec<i64> = Vec::new();
    for _ in 0..5 {
        p = limited_rotate_next(p, target, speed, tick());
        remaining.push(p.forward().delta_to(target_heading));
    }
    assert_eq!(remaining, vec![-270_000, -170_000, -70_000, 0, 0]);
    assert_eq!(p.forward().units, 0);
}

#[test]
fn limited_rotate_direction_sign() {
    let speed: i64 = 6_000_000;
    // Target to the left of forward: counterclockwise.
    let left = limited_rotate_next(pose(0, 0, 0), Vec2 { x: -1_000_000, y: 1 }, speed, tick());
    assert_eq!(left.orientation.units, 100_000);
    // Target to the right of forward: clockwise.
    let right = limited_rotate_next(pose(0, 0, 0), Vec2 { x: 1_000_000, y: 1 }, speed, tick());
    assert_eq!(right.orientation.units, 3_500_000);
}

#[test]
fn limited_rotate_holds_when_aligned() {
    // Target dead ahead: no rotation at all.
    let r = limited_rotate_next(pose(0, 0, 0), Vec2 { x: 0, y: 5_000_000 }, 6_000_000, tick());
    assert_eq!(r.orientation.units, 0);
}

#[test]
fn limited_rotate_coincident_positions_degenerate() {
    let p = pose(100, 200, 0);
    let r = limited_rotate_target(p, Vec2 { x: 100, y: 200 }, 6_000_000, tick());
    assert_eq!(r, Err(SteerError::DegenerateDirection));
}

#[test]
fn limited_rotate_target_ok_matches_next() {
    let p = pose(0, 0, 0);
    let target = Vec2 { x: -1_000_000, y: 1 };
    let direct = limited_rotate_next(p, target, 6_000_000, tick());
    assert_eq!(limited_rotate_target(p, target, 6_000_000, tick()), Ok(direct));
}
