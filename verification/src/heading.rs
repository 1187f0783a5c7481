//! The heading of a nonzero displacement: an exact-integer two-argument
//! arctangent over angle units.
//!
//! Magnitudes are first halved together until both fit below a fixed
//! reduction limit, then the first-octant arctangent uses the quadratic
//! approximation `atan(z) = z * (EIGHTH_TURN + ATAN_ADJ * (1 - z))` for
//! `z` in `[0, 1]`, which is exact on the axes and the diagonals, and the
//! octant and quadrant symmetries assemble the full circle.

use vstd::arithmetic::div_mod::lemma_div_pos_is_pos;
use vstd::arithmetic::mul::{
    lemma_mul_nonnegative, lemma_mul_strictly_positive, lemma_mul_upper_bound,
};
use vstd::prelude::*;

use crate::angle::{wrap, Angle, EIGHTH_TURN, FULL_TURN, HALF_TURN, QUARTER_TURN};
use crate::errors::SteerError;
use crate::vec2::{Vec2, MAX_COORD};

verus! {

/// Largest magnitude the octant arctangent takes directly; larger inputs
/// are halved pairwise first, which leaves the direction unchanged up to
/// the scale of the reduction.
pub const REDUCE_LIMIT: u64 = 2_147_483_648;

/// Linear-correction coefficient of the octant arctangent, in angle units
/// (about 0.273 radians).
pub const ATAN_ADJ: i64 = 156_400;

/// Largest coordinate difference the heading accepts: the span of the
/// accepted world.
pub const MAX_SPAN: i64 = 2 * MAX_COORD;

/// The first-octant arctangent of `n / d`, in angle units, for
/// `0 <= n <= d`, capped at `EIGHTH_TURN`.
pub open spec fn spec_atan_octant(n: nat, d: nat) -> int {
    let t = (n * EIGHTH_TURN) / (d as int) + (ATAN_ADJ * n * (d - n)) / ((d * d) as int);
    if t > EIGHTH_TURN {
        EIGHTH_TURN as int
    } else {
        t
    }
}

/// The heading of the vector `(ax, ay)` with both components
/// non-negative, in `[0, QUARTER_TURN]`, by octant symmetry.
pub open spec fn spec_quadrant_heading(ax: nat, ay: nat) -> int {
    if ay <= ax {
        if ax == 0 {
            0
        } else {
            spec_atan_octant(ay, ax)
        }
    } else {
        QUARTER_TURN - spec_atan_octant(ax, ay)
    }
}

/// The first-quadrant heading after pairwise halving below the reduction
/// limit.
pub open spec fn spec_base_heading(ax: nat, ay: nat) -> int
    decreases ax + ay,
{
    if ax >= REDUCE_LIMIT || ay >= REDUCE_LIMIT {
        spec_base_heading(ax / 2, ay / 2)
    } else {
        spec_quadrant_heading(ax, ay)
    }
}

/// The heading of the displacement `(dx, dy)`, normalized to
/// `[0, FULL_TURN)`, by quadrant symmetry from the first-quadrant heading
/// of the componentwise magnitudes.
pub open spec fn spec_heading(dx: int, dy: int) -> int {
    let ax = (if dx < 0 {
        -dx
    } else {
        dx
    }) as nat;
    let ay = (if dy < 0 {
        -dy
    } else {
        dy
    }) as nat;
    let base = spec_base_heading(ax, ay);
    if dx >= 0 && dy >= 0 {
        base
    } else if dx < 0 && dy >= 0 {
        HALF_TURN - base
    } else if dx < 0 && dy < 0 {
        HALF_TURN + base
    } else {
        wrap(FULL_TURN - base)
    }
}

/// The octant arctangent stays within `[0, EIGHTH_TURN]`.
pub proof fn lemma_atan_octant_range(n: nat, d: nat)
    requires
        n <= d,
        1 <= d,
    ensures
        0 <= spec_atan_octant(n, d) <= EIGHTH_TURN,
{
    lemma_mul_nonnegative(n as int, EIGHTH_TURN as int);
    lemma_div_pos_is_pos((n * EIGHTH_TURN) as int, d as int);
    lemma_mul_nonnegative(ATAN_ADJ as int, n as int);
    lemma_mul_nonnegative((ATAN_ADJ * n) as int, (d - n) as int);
    lemma_mul_strictly_positive(d as int, d as int);
    lemma_div_pos_is_pos(ATAN_ADJ * n * (d - n), (d * d) as int);
}

/// The first-quadrant heading stays within `[0, QUARTER_TURN]`.
pub proof fn lemma_quadrant_heading_range(ax: nat, ay: nat)
    ensures
        0 <= spec_quadrant_heading(ax, ay) <= QUARTER_TURN,
{
    if ay <= ax {
        if ax != 0 {
            lemma_atan_octant_range(ay, ax);
        }
    } else {
        lemma_atan_octant_range(ax, ay);
    }
}

/// The reduced first-quadrant heading stays within `[0, QUARTER_TURN]`.
pub proof fn lemma_base_heading_range(ax: nat, ay: nat)
    ensures
        0 <= spec_base_heading(ax, ay) <= QUARTER_TURN,
    decreases ax + ay,
{
    if ax >= REDUCE_LIMIT || ay >= REDUCE_LIMIT {
        lemma_base_heading_range(ax / 2, ay / 2);
    } else {
        lemma_quadrant_heading_range(ax, ay);
    }
}

/// Quadrant soundness: a displacement's heading is normalized and lies in
/// the closed quadrant its component signs select (the fourth quadrant
/// closes onto heading zero).
pub proof fn lemma_heading_quadrant(dx: int, dy: int)
    ensures
        0 <= spec_heading(dx, dy) < FULL_TURN,
        dx >= 0 && dy >= 0 ==> 0 <= spec_heading(dx, dy) <= QUARTER_TURN,
        dx < 0 && dy >= 0 ==> QUARTER_TURN <= spec_heading(dx, dy) <= HALF_TURN,
        dx < 0 && dy < 0 ==> HALF_TURN <= spec_heading(dx, dy) <= HALF_TURN + QUARTER_TURN,
        dx >= 0 && dy < 0 ==> (HALF_TURN + QUARTER_TURN <= spec_heading(dx, dy) < FULL_TURN
            || spec_heading(dx, dy) == 0),
{
    let ax = (if dx < 0 {
        -dx
    } else {
        dx
    }) as nat;
    let ay = (if dy < 0 {
        -dy
    } else {
        dy
    }) as nat;
    lemma_base_heading_range(ax, ay);
}

fn atan_octant(n: u64, d: u64) -> (r: i64)
    requires
        n <= d,
        1 <= d,
        d < REDUCE_LIMIT,
    ensures
        r == spec_atan_octant(n as nat, d as nat),
        0 <= r <= EIGHTH_TURN,
{
    proof {
        lemma_atan_octant_range(n as nat, d as nat);
        lemma_mul_upper_bound(
            ATAN_ADJ * n,
            ATAN_ADJ * (REDUCE_LIMIT - 1),
            (d - n) as int,
            (REDUCE_LIMIT - 1) as int,
        );
        lemma_mul_upper_bound(d as int, (REDUCE_LIMIT - 1) as int, d as int, (REDUCE_LIMIT
            - 1) as int);
        lemma_mul_strictly_positive(d as int, d as int);
        lemma_mul_nonnegative(n as int, EIGHTH_TURN as int);
        lemma_div_pos_is_pos((n * EIGHTH_TURN) as int, d as int);
        lemma_mul_nonnegative(ATAN_ADJ as int, n as int);
        lemma_mul_nonnegative((ATAN_ADJ * n) as int, (d - n) as int);
        lemma_div_pos_is_pos(ATAN_ADJ * n * (d - n), (d * d) as int);
    }
    let t1: u64 = (n * (EIGHTH_TURN as u64)) / d;
    let t2: u128 = ((ATAN_ADJ as u128) * (n as u128) * ((d - n) as u128)) / ((d as u128) * (d
        as u128));
    let t: u128 = (t1 as u128) + t2;
    if t > (EIGHTH_TURN as u128) {
        EIGHTH_TURN
    } else {
        t as i64
    }
}

fn quadrant_heading(ax: u64, ay: u64) -> (r: i64)
    requires
        ax < REDUCE_LIMIT,
        ay < REDUCE_LIMIT,
    ensures
        r == spec_quadrant_heading(ax as nat, ay as nat),
        0 <= r <= QUARTER_TURN,
{
    if ay <= ax {
        if ax == 0 {
            0
        } else {
            atan_octant(ay, ax)
        }
    } else {
        QUARTER_TURN - atan_octant(ax, ay)
    }
}

/// The heading of the nonzero displacement `(dx, dy)`, as a normalized
/// angle.
pub fn heading_of(dx: i64, dy: i64) -> (h: Angle)
    requires
        -MAX_SPAN <= dx <= MAX_SPAN,
        -MAX_SPAN <= dy <= MAX_SPAN,
        !(dx == 0 && dy == 0),
    ensures
        h.wf(),
        h.units == spec_heading(dx as int, dy as int),
{
    let ax0: u64 = if dx < 0 {
        (-dx) as u64
    } else {
        dx as u64
    };
    let ay0: u64 = if dy < 0 {
        (-dy) as u64
    } else {
        dy as u64
    };
    let mut ax = ax0;
    let mut ay = ay0;
    while ax >= REDUCE_LIMIT || ay >= REDUCE_LIMIT
        invariant
            spec_base_heading(ax as nat, ay as nat) == spec_base_heading(ax0 as nat, ay0 as nat),
        decreases ax + ay,
    {
        ax = ax / 2;
        ay = ay / 2;
    }
    let base: i64 = quadrant_heading(ax, ay);
    if dx >= 0 && dy >= 0 {
        Angle { units: base }
    } else if dx < 0 && dy >= 0 {
        Angle { units: HALF_TURN - base }
    } else if dx < 0 && dy < 0 {
        Angle { units: HALF_TURN + base }
    } else {
        let u = FULL_TURN - base;
        Angle { units: if u == FULL_TURN { 0 } else { u } }
    }
}

/// The direction from one position toward another, failing fast on
/// exactly coincident positions, where the normalized difference vector
/// is undefined.
pub fn direction_from_to(from: Vec2, to: Vec2) -> (r: Result<Angle, SteerError>)
    requires
        from.wf(),
        to.wf(),
    ensures
        from == to <==> r is Err,
        r is Err ==> r == Err::<Angle, SteerError>(SteerError::DegenerateDirection),
        from != to ==> (r matches Ok(h) && h.wf() && h.units == spec_heading(
            to.x - from.x,
            to.y - from.y,
        )),
{
    if from.x == to.x && from.y == to.y {
        Err(SteerError::DegenerateDirection)
    } else {
        Ok(heading_of(to.x - from.x, to.y - from.y))
    }
}

} // verus!
