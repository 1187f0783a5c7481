//! Positions in the plane, in exact micro-units.
//!
//! One world unit is `1_000_000` micro-units, matching the scale of the
//! fixed-point trigonometry, so a unit-length direction vector spans exactly
//! one world unit.

use vstd::prelude::*;

verus! {

/// Largest coordinate magnitude the library accepts, in micro-units
/// (one billion world units).  Keeping coordinates within this bound lets
/// every intermediate product of the steering arithmetic fit its machine
/// integer.
pub const MAX_COORD: i64 = 1_000_000_000_000_000;

/// A position or displacement in the plane, in micro-units.
#[derive(Clone, Copy, Debug, PartialEq, Eq, Structural)]
pub struct Vec2 {
    /// Horizontal coordinate, in micro-units.
    pub x: i64,
    /// Vertical coordinate, in micro-units.
    pub y: i64,
}

impl Vec2 {
    /// Both coordinates are within the accepted world bound.
    pub open spec fn wf(self) -> bool {
        &&& -MAX_COORD <= self.x <= MAX_COORD
        &&& -MAX_COORD <= self.y <= MAX_COORD
    }

    /// Builds a position from micro-unit coordinates.
    pub fn new(x: i64, y: i64) -> (r: Vec2)
        ensures
            r.x == x,
            r.y == y,
    {
        Vec2 { x, y }
    }
}

/// One coordinate confined to `[-half, half]`.
pub open spec fn spec_clamp_coord(v: int, half: int) -> int {
    if v < -half {
        -half
    } else if v > half {
        half
    } else {
        v
    }
}

/// A position confined componentwise to the centered rectangle with the
/// given half-extent.
pub open spec fn spec_arena_clamp(p: Vec2, half_extent: Vec2) -> Vec2 {
    Vec2 {
        x: spec_clamp_coord(p.x as int, half_extent.x as int) as i64,
        y: spec_clamp_coord(p.y as int, half_extent.y as int) as i64,
    }
}

/// Confines a position componentwise to the centered rectangle with the
/// given half-extent.
pub fn arena_clamp(p: Vec2, half_extent: Vec2) -> (r: Vec2)
    requires
        0 <= half_extent.x,
        0 <= half_extent.y,
    ensures
        r == spec_arena_clamp(p, half_extent),
        -half_extent.x <= r.x <= half_extent.x,
        -half_extent.y <= r.y <= half_extent.y,
{
    let x = if p.x < -half_extent.x {
        -half_extent.x
    } else if p.x > half_extent.x {
        half_extent.x
    } else {
        p.x
    };
    let y = if p.y < -half_extent.y {
        -half_extent.y
    } else if p.y > half_extent.y {
        half_extent.y
    } else {
        p.y
    };
    Vec2 { x, y }
}

/// Idempotence law for the arena clamp: clamping twice equals clamping
/// once, and the result always lies within the half-extent rectangle.
pub proof fn lemma_arena_clamp_idempotent(p: Vec2, half_extent: Vec2)
    requires
        0 <= half_extent.x,
        0 <= half_extent.y,
    ensures
        spec_arena_clamp(spec_arena_clamp(p, half_extent), half_extent) == spec_arena_clamp(
            p,
            half_extent,
        ),
        -half_extent.x <= spec_arena_clamp(p, half_extent).x <= half_extent.x,
        -half_extent.y <= spec_arena_clamp(p, half_extent).y <= half_extent.y,
{
}

} // verus!
