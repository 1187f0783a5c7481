//! One fixed simulation tick over the whole body table.
//!
//! The step is single-threaded and two-phase: it first validates the tick
//! length, the player count and the player-seeking bodies' positions, then
//! updates every body against the pre-step snapshot of the player's pose.
//! On any failure the table is left exactly as it was.

use vstd::prelude::*;

use crate::config::{Dt, MAX_DT_NUM};
use crate::errors::SteerError;
use crate::steering::{
    limited_rotate_next, player_controlled, spec_limited_rotate_next, spec_player_next,
    spec_snap_next, snap_next, InputSnapshot, PlayerParams, Pose, MAX_ANGULAR_SPEED,
};
use crate::vec2::{arena_clamp, spec_arena_clamp, Vec2};

verus! {

/// Parameters of a body that rotates toward the player at a limited rate.
#[derive(Clone, Copy, Debug, PartialEq, Eq, Structural)]
pub struct RotateParams {
    /// Angular speed, in angle units per second.
    pub rotation_speed: i64,
}

impl RotateParams {
    /// The angular speed is non-negative and within the accepted bound.
    pub open spec fn wf(self) -> bool {
        0 <= self.rotation_speed <= MAX_ANGULAR_SPEED
    }
}

/// The steering policy of a body, with its kind-specific parameters.
#[derive(Clone, Copy, Debug, PartialEq, Eq, Structural)]
pub enum BodyKind {
    /// Steered by the player's input and clamped to the arena.
    Player(PlayerParams),
    /// Snaps instantly to face the player.
    SnapToPlayer,
    /// Rotates toward the player at a limited rate.
    RotateToPlayer(RotateParams),
    /// Takes no part in the update (scenery such as walls).
    Inert,
}

/// A body of the simulation: its steering kind and its current pose.
#[derive(Clone, Copy, Debug, PartialEq, Eq, Structural)]
pub struct Body {
    /// Which steering policy applies, with its parameters.
    pub kind: BodyKind,
    /// The body's pose, updated once per tick.
    pub pose: Pose,
}

impl Body {
    /// The pose and the kind-specific parameters are within bounds.
    pub open spec fn wf(self) -> bool {
        &&& self.pose.wf()
        &&& match self.kind {
            BodyKind::Player(p) => p.wf(),
            BodyKind::RotateToPlayer(p) => p.wf(),
            _ => true,
        }
    }

    /// The body is the player-controlled craft.
    pub open spec fn is_player(self) -> bool {
        self.kind is Player
    }

    /// The body steers against the player's position.
    pub open spec fn seeks_player(self) -> bool {
        self.kind is SnapToPlayer || self.kind is RotateToPlayer
    }
}

/// Fixed tick length and arena half-extent, set once for a session and
/// passed explicitly to every step.
#[derive(Clone, Copy, Debug, PartialEq, Eq, Structural)]
pub struct SimConfig {
    /// The fixed tick length.
    pub dt: Dt,
    /// Half-extent of the centered rectangular arena, in micro-units.
    pub half_extent: Vec2,
}

impl SimConfig {
    /// The tick numerator is within bounds and the half-extent is a
    /// non-negative in-world rectangle.
    pub open spec fn wf(self) -> bool {
        &&& self.dt.num <= MAX_DT_NUM
        &&& self.half_extent.wf()
        &&& 0 <= self.half_extent.x
        &&& 0 <= self.half_extent.y
    }

    /// Builds a session configuration.
    pub fn new(dt: Dt, half_extent: Vec2) -> (r: SimConfig)
        ensures
            r.dt == dt,
            r.half_extent == half_extent,
    {
        SimConfig { dt, half_extent }
    }
}

/// The next state of one body, steering against the player's pre-step
/// position: the player is steered by the input and then clamped to the
/// arena, seekers run their policy, and inert bodies are untouched.
pub open spec fn spec_step_body(b: Body, player_pos: Vec2, input: InputSnapshot, cfg: SimConfig) -> Body {
    match b.kind {
        BodyKind::Player(p) => Body {
            kind: b.kind,
            pose: Pose {
                position: spec_arena_clamp(
                    spec_player_next(b.pose, p, input, cfg.dt).position,
                    cfg.half_extent,
                ),
                orientation: spec_player_next(b.pose, p, input, cfg.dt).orientation,
            },
        },
        BodyKind::SnapToPlayer => Body { kind: b.kind, pose: spec_snap_next(b.pose, player_pos) },
        BodyKind::RotateToPlayer(p) => Body {
            kind: b.kind,
            pose: spec_limited_rotate_next(b.pose, player_pos, p.rotation_speed as int, cfg.dt),
        },
        BodyKind::Inert => b,
    }
}

/// How many bodies of a table are player-tagged.
pub open spec fn count_players(s: Seq<Body>) -> int
    decreases s.len(),
{
    if s.len() == 0 {
        0
    } else {
        count_players(s.drop_last()) + if s.last().is_player() {
            1int
        } else {
            0int
        }
    }
}

/// Some player-seeking body's position exactly coincides with the given
/// player position, leaving its target direction undefined.
pub open spec fn spec_degenerate(s: Seq<Body>, player_pos: Vec2) -> bool {
    exists|i: int| 0 <= i < s.len() && s[i].seeks_player() && s[i].pose.position == player_pos
}

proof fn lemma_count_players_push(s: Seq<Body>, i: int)
    requires
        0 <= i < s.len(),
    ensures
        count_players(s.take(i + 1)) == count_players(s.take(i)) + if s[i].is_player() {
            1int
        } else {
            0int
        },
{
    assert(s.take(i + 1).drop_last() =~= s.take(i));
    assert(s.take(i + 1).last() == s[i]);
}

proof fn lemma_count_players_mono(s: Seq<Body>, k: int, m: int)
    requires
        0 <= k <= m <= s.len(),
    ensures
        count_players(s.take(k)) <= count_players(s.take(m)),
    decreases m - k,
{
    if k < m {
        lemma_count_players_mono(s, k, m - 1);
        lemma_count_players_push(s, m - 1);
    }
}

proof fn lemma_count_players_nonneg(s: Seq<Body>)
    ensures
        count_players(s) >= 0,
    decreases s.len(),
{
    if s.len() > 0 {
        lemma_count_players_nonneg(s.drop_last());
    }
}

/// A table with exactly one player-tagged body has it at a single index.
pub proof fn lemma_single_player_unique(s: Seq<Body>, i: int, j: int)
    requires
        count_players(s) == 1,
        0 <= i < s.len(),
        0 <= j < s.len(),
        s[i].is_player(),
        s[j].is_player(),
    ensures
        i == j,
{
    if i != j {
        let a = if i < j {
            i
        } else {
            j
        };
        let b = if i < j {
            j
        } else {
            i
        };
        lemma_count_players_nonneg(s.take(a));
        lemma_count_players_push(s, a);
        lemma_count_players_mono(s, a + 1, b);
        lemma_count_players_push(s, b);
        lemma_count_players_mono(s, b + 1, s.len() as int);
        assert(s.take(s.len() as int) =~= s);
    }
}

/// One fixed tick.  Exactly one player body is steered by the input and
/// then clamped to the arena; every snap or rotate body steers against
/// the player's pose as it stood before this tick; inert bodies are
/// untouched.  On a failure the table is left exactly as it was: an
/// invalid tick length, a missing or duplicated player, or a
/// player-seeking body exactly coincident with the player are reported
/// in that order of precedence.
pub fn simulation_step(bodies: &mut Vec<Body>, input: InputSnapshot, cfg: &SimConfig) -> (r:
    Result<(), SteerError>)
    requires
        forall|i: int| 0 <= i < old(bodies)@.len() ==> old(bodies)@[i].wf(),
        cfg.wf(),
    ensures
        r == Err::<(), SteerError>(SteerError::InvalidDeltaTime) <==> !cfg.dt.valid(),
        r == Err::<(), SteerError>(SteerError::MissingOrMultiplePlayer) <==> (cfg.dt.valid()
            && count_players(old(bodies)@) != 1),
        r == Err::<(), SteerError>(SteerError::DegenerateDirection) <==> (cfg.dt.valid()
            && count_players(old(bodies)@) == 1 && (exists|p: int|
            0 <= p < old(bodies)@.len() && old(bodies)@[p].is_player() && spec_degenerate(
                old(bodies)@,
                old(bodies)@[p].pose.position,
            ))),
        r is Err ==> final(bodies)@ == old(bodies)@,
        r is Ok ==> ({
            &&& cfg.dt.valid()
            &&& count_players(old(bodies)@) == 1
            &&& final(bodies)@.len() == old(bodies)@.len()
            &&& exists|p: int|
                0 <= p < old(bodies)@.len() && old(bodies)@[p].is_player() && !spec_degenerate(
                    old(bodies)@,
                    old(bodies)@[p].pose.position,
                ) && (forall|i: int|
                    0 <= i < final(bodies)@.len() ==> final(bodies)@[i] == spec_step_body(
                        old(bodies)@[i],
                        old(bodies)@[p].pose.position,
                        input,
                        *cfg,
                    ))
            &&& forall|i: int| 0 <= i < final(bodies)@.len() ==> final(bodies)@[i].wf()
            &&& forall|i: int|
                0 <= i < final(bodies)@.len() && final(bodies)@[i].is_player() ==> ({
                    &&& -cfg.half_extent.x <= final(bodies)@[i].pose.position.x
                        <= cfg.half_extent.x
                    &&& -cfg.half_extent.y <= final(bodies)@[i].pose.position.y
                        <= cfg.half_extent.y
                })
        }),
{
    if !cfg.dt.is_valid() {
        return Err(SteerError::InvalidDeltaTime);
    }
    let n = bodies.len();
    let mut count: usize = 0;
    let mut player_idx: usize = 0;
    let mut i: usize = 0;
    while i < n
        invariant
            n == bodies@.len(),
            i <= n,
            count == count_players(bodies@.take(i as int)),
            count <= i,
            count >= 1 ==> player_idx < i && bodies@[player_idx as int].is_player(),
        decreases n - i,
    {
        proof {
            lemma_count_players_push(bodies@, i as int);
        }
        match bodies[i].kind {
            BodyKind::Player(_) => {
                player_idx = i;
                count = count + 1;
            },
            _ => {},
        }
        i = i + 1;
    }
    proof {
        assert(bodies@.take(n as int) =~= bodies@);
    }
    if count != 1 {
        return Err(SteerError::MissingOrMultiplePlayer);
    }
    let player_pos = bodies[player_idx].pose.position;
    let mut degen: bool = false;
    let mut i: usize = 0;
    while i < n
        invariant
            n == bodies@.len(),
            i <= n,
            degen == exists|j: int|
                0 <= j < i && bodies@[j].seeks_player() && bodies@[j].pose.position == player_pos,
        decreases n - i,
    {
        match bodies[i].kind {
            BodyKind::SnapToPlayer | BodyKind::RotateToPlayer(_) => {
                if bodies[i].pose.position == player_pos {
                    degen = true;
                }
            },
            _ => {},
        }
        i = i + 1;
    }
    if degen {
        return Err(SteerError::DegenerateDirection);
    }
    proof {
        assert forall|p: int|
            0 <= p < bodies@.len() && bodies@[p].is_player() implies !spec_degenerate(
            bodies@,
            bodies@[p].pose.position,
        ) by {
            lemma_single_player_unique(bodies@, p, player_idx as int);
        }
    }
    let ghost orig = bodies@;
    let mut updated: Vec<Body> = Vec::new();
    let mut i: usize = 0;
    while i < n
        invariant
            n == bodies@.len(),
            bodies@ == orig,
            i <= n,
            updated@.len() == i as int,
            cfg.wf(),
            cfg.dt.valid(),
            player_idx < n,
            player_pos == orig[player_idx as int].pose.position,
            forall|j: int| 0 <= j < n ==> orig[j].wf(),
            forall|j: int|
                0 <= j < n && orig[j].seeks_player() ==> orig[j].pose.position != player_pos,
            forall|j: int|
                0 <= j < i ==> updated@[j] == spec_step_body(orig[j], player_pos, input, *cfg)
                    && updated@[j].wf(),
        decreases n - i,
    {
        let b = bodies[i];
        let nb: Body = match b.kind {
            BodyKind::Player(p) => {
                let moved = player_controlled(b.pose, p, input, cfg.dt);
                Body {
                    kind: b.kind,
                    pose: Pose {
                        position: arena_clamp(moved.position, cfg.half_extent),
                        orientation: moved.orientation,
                    },
                }
            },
            BodyKind::SnapToPlayer => Body { kind: b.kind, pose: snap_next(b.pose, player_pos) },
            BodyKind::RotateToPlayer(p) => Body {
                kind: b.kind,
                pose: limited_rotate_next(b.pose, player_pos, p.rotation_speed, cfg.dt),
            },
            BodyKind::Inert => b,
        };
        updated.push(nb);
        i = i + 1;
    }
    *bodies = updated;
    Ok(())
}

} // verus!
