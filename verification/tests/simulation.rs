//! The arena clamp and the full per-tick simulation step.

use planar_steering::angle::Angle;
use planar_steering::config::Dt;
use planar_steering::errors::SteerError;
use planar_steering::sim::{simulation_step, Body, BodyKind, RotateParams, SimConfig};
use planar_steering::steering::{InputSnapshot, PlayerParams, Pose};
use planar_steering::vec2::{arena_clamp, Vec2};

fn pose(x: i64, y: i64, orientation_units: i64) -> Pose {
    Pose { position: Vec2 { x, y }, orientation: Angle::from_signed_units(orientation_units) }
}

fn player(x: i64, y: i64, orientation_units: i64) -> Body {
    Body {
        kind: BodyKind::Player(
            PlayerParams { movement_speed: 500_000_000, rotation_speed: 3_600_000 },
        ),
        pose: pose(x, y, orientation_units),
    }
}

fn snapper(x: i64, y: i64) -> Body {
    Body { kind: BodyKind::SnapToPlayer, pose: pose(x, y, 0) }
}

fn rotator(x: i64, y: i64) -> Body {
    Body {
        kind: BodyKind::RotateToPlayer(RotateParams { rotation_speed: 6_000_000 }),
        pose: pose(x, y, 0),
    }
}

fn config() -> SimConfig {
    SimConfig::new(Dt::new(1, 60), Vec2 { x: 600_000_000, y: 320_000_000 })
}

fn idle() -> InputSnapshot {
    InputSnapshot { turn_left: false, turn_right: false, thrust: false }
}

fn thrust() -> InputSnapshot {
    InputSnapshot { turn_left: false, turn_right: false, thrust: true }
}

#[test]
fn clamp_confines_to_half_extent() {
    let half = Vec2 { x: 600_000_000, y: 320_000_000 };
    let cases = [
        (700_000_000i64, -400_000_000i64, 600_000_000i64, -320_000_000i64),
        (0, 0, 0, 0),
        (-600_000_000, 320_000_000, -600_000_000, 320_000_000),
        (i64::MAX, i64::MIN, 600_000_000, -320_000_000),
    ];
    for (x, y, ex, ey) in cases {
        let r = arena_clamp(Vec2 { x, y }, half);
        assert_eq!((r.x, r.y), (ex, ey));
        assert!(r.x.abs() <= half.x && r.y.abs() <= half.y);
    }
}

#[test]
fn clamp_is_idempotent() {
    let half = Vec2 { x: 600_000_000, y: 320_000_000 };
    for p in [
        Vec2 { x: 700_000_000, y: -400_000_000 },
        Vec2 { x: 1, y: 2 },
        Vec2 { x: -900_000_000_000, y: 900_000_000_000 },
    ] {
        let once = arena_clamp(p, half);
        assert_eq!(arena_clamp(once, half), once);
    }
}

#[test]
fn step_clamps_player_to_arena() {
    // Player on the top edge thrusting north stays on the edge.
    let mut bodies = vec![player(0, 320_000_000, 0)];
    let r = simulation_step(&mut bodies, thrust(), &config());
    assert_eq!(r, Ok(()));
    assert_eq!((bodies[0].pose.position.x, bodies[0].pose.position.y), (0, 320_000_000));
}

#[test]
fn step_moves_player_inside_arena() {
    let mut bodies = vec![player(0, 0, 0)];
    let r = simulation_step(&mut bodies, thrust(), &config());
    assert_eq!(r, Ok(()));
    assert_eq!((bodies[0].pose.position.x, bodies[0].pose.position.y), (0, 8_333_333));
    assert_eq!(bodies[0].pose.orientation.units, 0);
}

#[test]
fn step_seekers_observe_pre_step_player_pose() {
    // The snapper sits due west of the player's pre-step position; the
    // player thrusts north this same tick.  The snapper must end facing
    // east toward where the player stood before the tick.
    let mut bodies = vec![player(0, 0, 0), snapper(-3_000_000, 0)];
    let r = simulation_step(&mut bodies, thrust(), &config());
    assert_eq!(r, Ok(()));
    assert_eq!((bodies[0].pose.position.x, bodies[0].pose.position.y), (0, 8_333_333));
    assert_eq!(bodies[1].pose.forward().units, 0);
}

#[test]
fn step_rotator_turns_toward_player() {
    // Rotator due west of the player, forward north: the target is a
    // quarter turn clockwise, so one tick turns 10 degrees clockwise.
    let mut bodies = vec![player(0, 0, 0), rotator(-3_000_000, 0)];
    let r = simulation_step(&mut bodies, idle(), &config());
    assert_eq!(r, Ok(()));
    assert_eq!(bodies[1].pose.orientation.units, 3_500_000);
    // The rotator does not translate.
    assert_eq!((bodies[1].pose.position.x, bodies[1].pose.position.y), (-3_000_000, 0));
}

#[test]
fn step_inert_bodies_untouched() {
    let wall = Body { kind: BodyKind::Inert, pose: pose(42, 43, 44) };
    let mut bodies = vec![player(0, 0, 0), wall];
    let r = simulation_step(&mut bodies, thrust(), &config());
    assert_eq!(r, Ok(()));
    assert_eq!(bodies[1], wall);
}

#[test]
fn step_missing_player_fails() {
    let mut bodies = vec![snapper(1, 2)];
    let before = bodies.clone();
    let r = simulation_step(&mut bodies, idle(), &config());
    assert_eq!(r, Err(SteerError::MissingOrMultiplePlayer));
    assert_eq!(bodies, before);
}

#[test]
fn step_two_players_fail() {
    let mut bodies = vec![player(0, 0, 0), player(1, 1, 0)];
    let before = bodies.clone();
    let r = simulation_step(&mut bodies, idle(), &config());
    assert_eq!(r, Err(SteerError::MissingOrMultiplePlayer));
    assert_eq!(bodies, before);
}

#[test]
fn step_invalid_dt_fails() {
    let mut bodies = vec![player(0, 0, 0)];
    let negative = SimConfig::new(Dt::new(-1, 60), Vec2 { x: 600_000_000, y: 320_000_000 });
    assert_eq!(
        simulation_step(&mut bodies, idle(), &negative),
        Err(SteerError::InvalidDeltaTime),
    );
    let zero_den = SimConfig::new(Dt::new(1, 0), Vec2 { x: 600_000_000, y: 320_000_000 });
    assert_eq!(
        simulation_step(&mut bodies, idle(), &zero_den),
        Err(SteerError::InvalidDeltaTime),
    );
    assert_eq!(bodies, vec![player(0, 0, 0)]);
}

#[test]
fn step_invalid_dt_reported_before_missing_player() {
    let mut bodies: Vec<Body> = Vec::new();
    let negative = SimConfig::new(Dt::new(-1, 60), Vec2 { x: 600_000_000, y: 320_000_000 });
    assert_eq!(
        simulation_step(&mut bodies, idle(), &negative),
        Err(SteerError::InvalidDeltaTime),
    );
}

#[test]
fn step_coincident_seeker_degenerate() {
    let mut bodies = vec![player(5, 6, 0), snapper(5, 6)];
    let before = bodies.clone();
    let r = simulation_step(&mut bodies, idle(), &config());
    assert_eq!(r, Err(SteerError::DegenerateDirection));
    assert_eq!(bodies, before);
}

#[test]
fn step_coincident_rotator_degenerate() {
    let mut bodies = vec![player(5, 6, 0), rotator(5, 6)];
    let r = simulation_step(&mut bodies, idle(), &config());
    assert_eq!(r, Err(SteerError::DegenerateDirection));
}

#[test]
fn step_whole_scene_ticks() {
    // A full scene: ship on the bottom edge, one snapping enemy on the
    // left quarter, one rotating enemy on the right quarter.
    let mut bodies = vec![
        player(0, 40_000_000 - 320_000_000, 0),
        snapper(-300_000_000, 0),
        rotator(300_000_000, 0),
    ];
    let r = simulation_step(&mut bodies, idle(), &config());
    assert_eq!(r, Ok(()));
    // Idle player holds pose.
    assert_eq!(bodies[0].pose, pose(0, -280_000_000, 0));
    // The snapper faces the player at once.
    let to_player = planar_steering::heading::heading_of(300_000_000, -280_000_000);
    assert_eq!(bodies[1].pose.forward().units, to_player.units);
    // The rotator has turned its 10-degree budget counterclockwise, the
    // player being down-left of it.
    assert_eq!(bodies[2].pose.orientation.units, 100_000);
}
