//! Per-body steering policies: player input, instantaneous snap toward a
//! target, and rate-limited rotation toward a target.
//!
//! A body's local forward axis is its positive-`y` axis, so the forward
//! heading of an orientation is the orientation a quarter turn ahead; this
//! one convention is applied uniformly.  Policies consume a pose and
//! per-kind parameters and produce the next pose; they are deterministic
//! pure functions and never panic.

use vstd::arithmetic::div_mod::{
    lemma_div_by_multiple, lemma_div_is_ordered, lemma_div_is_ordered_by_denominator,
    lemma_div_pos_is_pos,
};
use vstd::arithmetic::mul::lemma_mul_upper_bound;
use vstd::math::abs;
use vstd::prelude::*;

use crate::angle::{shortest_delta, wrap, Angle, FULL_TURN, HALF_TURN, QUARTER_TURN};
use crate::arc::rotation_arc;
use crate::config::{Dt, MAX_DT_NUM};
use crate::errors::SteerError;
use crate::heading::{heading_of, spec_heading};
use crate::limiter::{angle_limiter, spec_angle_limiter};
use crate::trig::{cos_units, sin_units, spec_cos, spec_sin, SCALE};
use crate::vec2::{Vec2, MAX_COORD};

verus! {

/// Largest linear speed the library accepts, in micro-units per second
/// (one million world units per second).
pub const MAX_LINEAR_SPEED: i64 = 1_000_000_000_000;

/// Largest angular speed the library accepts, in angle units per second
/// (one thousand turns per second).
pub const MAX_ANGULAR_SPEED: i64 = 3_600_000_000;

/// Largest distance a body can travel in one tick, in micro-units.
pub const MAX_TICK_TRAVEL: i64 = 1_000_000_000_000_000_000;

/// The player's discrete input for one tick, refreshed by the host from
/// raw input device state.
#[derive(Clone, Copy, Debug, PartialEq, Eq, Structural)]
pub struct InputSnapshot {
    /// Turn counterclockwise this tick.
    pub turn_left: bool,
    /// Turn clockwise this tick.
    pub turn_right: bool,
    /// Move along the forward direction this tick.
    pub thrust: bool,
}

/// The player's kind-specific parameters.
#[derive(Clone, Copy, Debug, PartialEq, Eq, Structural)]
pub struct PlayerParams {
    /// Linear speed, in micro-units per second.
    pub movement_speed: i64,
    /// Angular speed, in angle units per second.
    pub rotation_speed: i64,
}

impl PlayerParams {
    /// Both speeds are non-negative and within the accepted bounds.
    pub open spec fn wf(self) -> bool {
        &&& 0 <= self.movement_speed <= MAX_LINEAR_SPEED
        &&& 0 <= self.rotation_speed <= MAX_ANGULAR_SPEED
    }
}

/// Position and orientation of a body at a point in time.
#[derive(Clone, Copy, Debug, PartialEq, Eq, Structural)]
pub struct Pose {
    /// World position, in micro-units.
    pub position: Vec2,
    /// Orientation: the rotation about the plane normal from the world
    /// frame to the body frame.
    pub orientation: Angle,
}

impl Pose {
    /// Position within world bounds and orientation normalized.
    pub open spec fn wf(self) -> bool {
        &&& self.position.wf()
        &&& self.orientation.wf()
    }

    /// The heading of the body's forward direction: the orientation
    /// applied to the local forward axis (positive `y`).
    pub open spec fn forward_heading(self) -> int {
        wrap(self.orientation.units + QUARTER_TURN)
    }

    /// The heading of the body's forward direction.
    pub fn forward(self) -> (h: Angle)
        requires
            self.wf(),
        ensures
            h.wf(),
            h.units == self.forward_heading(),
    {
        self.orientation.add_signed(QUARTER_TURN)
    }
}

/// The player's net turn direction this tick: `+1` for left only, `-1`
/// for right only, `0` otherwise.
pub open spec fn spec_turn_factor(input: InputSnapshot) -> int {
    (if input.turn_left {
        1int
    } else {
        0int
    }) + (if input.turn_right {
        -1int
    } else {
        0int
    })
}

/// Angle units turned in one tick at the given angular speed, reduced
/// modulo a full turn.
pub open spec fn spec_tick_angle(rotation_speed: int, dt: Dt) -> int {
    ((rotation_speed * dt.num) / (dt.den as int)) % (FULL_TURN as int)
}

/// Angle units of turn budget in one tick at the given angular speed,
/// capped at a half turn, beyond which a shortest-path turn never goes.
pub open spec fn spec_step_cap(rotation_speed: int, dt: Dt) -> int {
    let r = (rotation_speed * dt.num) / (dt.den as int);
    if r > HALF_TURN {
        HALF_TURN as int
    } else {
        r
    }
}

/// Displacement along one axis in one tick: the direction component
/// (scaled by `SCALE`) times speed times the tick length, truncated
/// toward zero.
pub open spec fn spec_scaled_disp(comp: int, speed: int, dt: Dt) -> int {
    if comp < 0 {
        -(((-comp) * speed * dt.num) / (dt.den * SCALE))
    } else {
        (comp * speed * dt.num) / (dt.den * SCALE)
    }
}

fn tick_angle(rotation_speed: i64, dt: Dt) -> (r: i64)
    requires
        0 <= rotation_speed <= MAX_ANGULAR_SPEED,
        dt.valid(),
        dt.num <= MAX_DT_NUM,
    ensures
        r == spec_tick_angle(rotation_speed as int, dt),
        0 <= r < FULL_TURN,
{
    proof {
        lemma_mul_upper_bound(
            rotation_speed as int,
            MAX_ANGULAR_SPEED as int,
            dt.num as int,
            MAX_DT_NUM as int,
        );
        lemma_div_pos_is_pos(rotation_speed * dt.num, dt.den as int);
        lemma_div_is_ordered(rotation_speed * dt.num, MAX_ANGULAR_SPEED * MAX_DT_NUM, dt.den as int);
    }
    let prod: u64 = (rotation_speed as u64) * (dt.num as u64);
    let q: u64 = prod / (dt.den as u64);
    let m: u64 = q % (FULL_TURN as u64);
    m as i64
}

fn step_cap(rotation_speed: i64, dt: Dt) -> (r: i64)
    requires
        0 <= rotation_speed <= MAX_ANGULAR_SPEED,
        dt.valid(),
        dt.num <= MAX_DT_NUM,
    ensures
        r == spec_step_cap(rotation_speed as int, dt),
        0 <= r <= HALF_TURN,
{
    proof {
        lemma_mul_upper_bound(
            rotation_speed as int,
            MAX_ANGULAR_SPEED as int,
            dt.num as int,
            MAX_DT_NUM as int,
        );
        lemma_div_pos_is_pos(rotation_speed * dt.num, dt.den as int);
    }
    let prod: u64 = (rotation_speed as u64) * (dt.num as u64);
    let q: u64 = prod / (dt.den as u64);
    if q > (HALF_TURN as u64) {
        HALF_TURN
    } else {
        q as i64
    }
}

fn scaled_disp(comp: i64, speed: i64, dt: Dt) -> (r: i64)
    requires
        -SCALE <= comp <= SCALE,
        0 <= speed <= MAX_LINEAR_SPEED,
        dt.valid(),
        dt.num <= MAX_DT_NUM,
    ensures
        r == spec_scaled_disp(comp as int, speed as int, dt),
        -MAX_TICK_TRAVEL <= r <= MAX_TICK_TRAVEL,
{
    let mag: i64 = if comp < 0 {
        -comp
    } else {
        comp
    };
    proof {
        lemma_mul_upper_bound(mag as int, SCALE as int, speed as int, MAX_LINEAR_SPEED as int);
        lemma_mul_upper_bound(
            mag * speed,
            SCALE * MAX_LINEAR_SPEED,
            dt.num as int,
            MAX_DT_NUM as int,
        );
        assert(dt.den * SCALE >= SCALE);
        lemma_div_is_ordered_by_denominator(mag * speed * dt.num, SCALE as int, dt.den * SCALE);
        lemma_div_is_ordered(
            mag * speed * dt.num,
            SCALE * MAX_LINEAR_SPEED * MAX_DT_NUM,
            SCALE as int,
        );
        lemma_div_by_multiple(MAX_TICK_TRAVEL as int, SCALE as int);
        assert(MAX_TICK_TRAVEL * SCALE == SCALE * MAX_LINEAR_SPEED * MAX_DT_NUM);
        lemma_div_pos_is_pos(mag * speed * dt.num, dt.den * SCALE);
    }
    let num: u128 = (mag as u128) * (speed as u128) * (dt.num as u128);
    let div: u128 = (dt.den as u128) * (SCALE as u128);
    let q: u128 = num / div;
    if comp < 0 {
        -(q as i64)
    } else {
        q as i64
    }
}

/// The player's next pose: the net turn input times the angular speed
/// times the tick length is composed onto the orientation, then thrust
/// moves the body along the updated forward direction by the linear speed
/// times the tick length.
pub open spec fn spec_player_next(pose: Pose, params: PlayerParams, input: InputSnapshot, dt: Dt) -> Pose {
    let tick = spec_tick_angle(params.rotation_speed as int, dt);
    let o2 = wrap(pose.orientation.units + spec_turn_factor(input) * tick);
    let fh = wrap(o2 + QUARTER_TURN);
    let p2 = if input.thrust {
        Vec2 {
            x: (pose.position.x + spec_scaled_disp(
                spec_cos(fh),
                params.movement_speed as int,
                dt,
            )) as i64,
            y: (pose.position.y + spec_scaled_disp(
                spec_sin(fh),
                params.movement_speed as int,
                dt,
            )) as i64,
        }
    } else {
        pose.position
    };
    Pose { position: p2, orientation: Angle { units: o2 as i64 } }
}

/// One tick of player-controlled steering.  Rotation is applied first;
/// the forward direction for thrust is recomputed from the updated
/// orientation.  There are no degenerate cases.
pub fn player_controlled(pose: Pose, params: PlayerParams, input: InputSnapshot, dt: Dt) -> (r:
    Pose)
    requires
        pose.wf(),
        params.wf(),
        dt.valid(),
        dt.num <= MAX_DT_NUM,
    ensures
        r == spec_player_next(pose, params, input, dt),
        r.orientation.wf(),
        -MAX_COORD - MAX_TICK_TRAVEL <= r.position.x <= MAX_COORD + MAX_TICK_TRAVEL,
        -MAX_COORD - MAX_TICK_TRAVEL <= r.position.y <= MAX_COORD + MAX_TICK_TRAVEL,
        !input.thrust ==> r.position == pose.position,
        input.turn_left == input.turn_right ==> r.orientation == pose.orientation,
{
    let tick = tick_angle(params.rotation_speed, dt);
    proof {
        vstd::arithmetic::mul::lemma_mul_basics(tick as int);
        vstd::arithmetic::mul::lemma_mul_unary_negation(1, tick as int);
    }
    let o2: Angle = if input.turn_left && !input.turn_right {
        pose.orientation.add_signed(tick)
    } else if input.turn_right && !input.turn_left {
        pose.orientation.add_signed(-tick)
    } else {
        pose.orientation
    };
    let p2: Vec2 = if input.thrust {
        let fh = o2.add_signed(QUARTER_TURN);
        let fx = cos_units(fh);
        let fy = sin_units(fh);
        let dx = scaled_disp(fx, params.movement_speed, dt);
        let dy = scaled_disp(fy, params.movement_speed, dt);
        Vec2 { x: pose.position.x + dx, y: pose.position.y + dy }
    } else {
        pose.position
    };
    Pose { position: p2, orientation: o2 }
}

/// The next pose under instantaneous snap steering: the shortest-path
/// rotation from the current forward direction to the direction of the
/// target is applied in full.
pub open spec fn spec_snap_next(pose: Pose, target: Vec2) -> Pose {
    let h = spec_heading(target.x - pose.position.x, target.y - pose.position.y);
    let d = shortest_delta(pose.forward_heading(), h);
    Pose {
        position: pose.position,
        orientation: Angle { units: wrap(pose.orientation.units + d) as i64 },
    }
}

/// One tick of snap steering toward a non-coincident target position:
/// afterwards the body's forward direction is exactly the direction of
/// the target, regardless of the prior orientation.
pub fn snap_next(pose: Pose, target: Vec2) -> (r: Pose)
    requires
        pose.wf(),
        target.wf(),
        pose.position != target,
    ensures
        r == spec_snap_next(pose, target),
        r.wf(),
        r.position == pose.position,
        r.forward_heading() == spec_heading(target.x - pose.position.x, target.y - pose.position.y),
{
    let h = heading_of(target.x - pose.position.x, target.y - pose.position.y);
    let fh = pose.forward();
    let rot = rotation_arc(fh, h);
    let o2 = pose.orientation.add_signed(rot.units);
    Pose { position: pose.position, orientation: o2 }
}

/// One tick of snap steering, failing fast when the body's position
/// exactly coincides with the target's, where the target direction is
/// undefined.
pub fn snap_to_target(pose: Pose, target: Vec2) -> (r: Result<Pose, SteerError>)
    requires
        pose.wf(),
        target.wf(),
    ensures
        pose.position == target <==> r is Err,
        r is Err ==> r == Err::<Pose, SteerError>(SteerError::DegenerateDirection),
        pose.position != target ==> (r matches Ok(p) && p == spec_snap_next(pose, target)),
{
    if pose.position == target {
        Err(SteerError::DegenerateDirection)
    } else {
        Ok(snap_next(pose, target))
    }
}

/// The next pose under rate-limited steering: the shortest turn toward
/// the direction of the target, clamped to the angular speed times the
/// tick length.
pub open spec fn spec_limited_rotate_next(pose: Pose, target: Vec2, rotation_speed: int, dt: Dt) -> Pose {
    let h = spec_heading(target.x - pose.position.x, target.y - pose.position.y);
    let a = spec_angle_limiter(pose.forward_heading(), h, spec_step_cap(rotation_speed, dt));
    Pose {
        position: pose.position,
        orientation: Angle { units: wrap(pose.orientation.units + a) as i64 },
    }
}

/// One tick of rate-limited rotation toward a non-coincident target
/// position.  The remaining angle to the target shrinks by exactly the
/// per-tick budget, or to zero when it fits in the budget, so repeated
/// ticks converge without overshoot or oscillation; a target exactly
/// astern leaves the pose unchanged, the lateral sign there being
/// undefined.
pub fn limited_rotate_next(pose: Pose, target: Vec2, rotation_speed: i64, dt: Dt) -> (r: Pose)
    requires
        pose.wf(),
        target.wf(),
        pose.position != target,
        0 <= rotation_speed <= MAX_ANGULAR_SPEED,
        dt.valid(),
        dt.num <= MAX_DT_NUM,
    ensures
        r == spec_limited_rotate_next(pose, target, rotation_speed as int, dt),
        r.wf(),
        r.position == pose.position,
        ({
            let h = spec_heading(target.x - pose.position.x, target.y - pose.position.y);
            let d = shortest_delta(pose.forward_heading(), h);
            let m = spec_step_cap(rotation_speed as int, dt);
            let d2 = shortest_delta(r.forward_heading(), h);
            &&& abs(d2) <= abs(d)
            &&& (d != HALF_TURN && abs(d) <= m ==> d2 == 0)
            &&& (d != HALF_TURN && abs(d) > m ==> abs(d2) == abs(d) - m)
            &&& (d == HALF_TURN ==> d2 == d)
            &&& (d == 0 ==> d2 == 0)
        }),
{
    let h = heading_of(target.x - pose.position.x, target.y - pose.position.y);
    let fh = pose.forward();
    let cap = step_cap(rotation_speed, dt);
    let a = angle_limiter(fh, h, cap);
    let o2 = pose.orientation.add_signed(a);
    proof {
        let hh = h.units as int;
        let d = shortest_delta(fh.units as int, hh);
        let aa = spec_angle_limiter(fh.units as int, hh, cap as int);
        assert(wrap(wrap(pose.orientation.units + aa) + QUARTER_TURN) == wrap(
            fh.units + aa,
        ));
        if d != HALF_TURN {
            crate::limiter::lemma_limiter_converges(fh.units as int, hh, cap as int);
        }
    }
    Pose { position: pose.position, orientation: o2 }
}

/// One tick of rate-limited rotation, failing fast when the body's
/// position exactly coincides with the target's, where the target
/// direction is undefined.
pub fn limited_rotate_target(pose: Pose, target: Vec2, rotation_speed: i64, dt: Dt) -> (r: Result<
    Pose,
    SteerError,
>)
    requires
        pose.wf(),
        target.wf(),
        0 <= rotation_speed <= MAX_ANGULAR_SPEED,
        dt.valid(),
        dt.num <= MAX_DT_NUM,
    ensures
        pose.position == target <==> r is Err,
        r is Err ==> r == Err::<Pose, SteerError>(SteerError::DegenerateDirection),
        pose.position != target ==> (r matches Ok(p) && p == spec_limited_rotate_next(
            pose,
            target,
            rotation_speed as int,
            dt,
        )),
{
    if pose.position == target {
        Err(SteerError::DegenerateDirection)
    } else {
        Ok(limited_rotate_next(pose, target, rotation_speed, dt))
    }
}

} // verus!
