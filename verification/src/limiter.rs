//! Rate limiting of a turn toward a target direction.
//!
//! The limiter turns by the full shortest arc when it fits in the per-tick
//! budget and by the budget otherwise, never rotating past the target.  The
//! turn direction comes from the sign of the shortest arc, which matches the
//! sign of the target's component along the body's lateral axis; when that
//! component is exactly zero (the target dead ahead or dead astern) no
//! rotation is applied this tick.

use vstd::arithmetic::mul::{lemma_mul_basics, lemma_mul_is_distributive_add_other_way};
use vstd::math::{abs, max};
use vstd::prelude::*;

use crate::angle::{shortest_delta, wrap, Angle, FULL_TURN, HALF_TURN};

verus! {

/// The signed rotation the rate limiter applies when facing `facing`,
/// steering toward `target`, with at most `max_step` units of turn
/// available this tick.  Both headings must be normalized and `max_step`
/// non-negative.
pub open spec fn spec_angle_limiter(facing: int, target: int, max_step: int) -> int {
    let d = shortest_delta(facing, target);
    if d == 0 || d == HALF_TURN {
        0
    } else if d > 0 {
        if d <= max_step {
            d
        } else {
            max_step
        }
    } else {
        if -d <= max_step {
            d
        } else {
            -max_step
        }
    }
}

/// Clamps the shortest turn toward `target` to at most `max_step` units,
/// preserving the turn direction and never overshooting the target.
/// Returns exactly zero when already aligned (and when the target is
/// exactly astern, where the lateral sign is undefined).
pub fn angle_limiter(facing: Angle, target: Angle, max_step: i64) -> (r: i64)
    requires
        facing.wf(),
        target.wf(),
        0 <= max_step,
    ensures
        r == spec_angle_limiter(facing.units as int, target.units as int, max_step as int),
        -max_step <= r <= max_step,
        ({
            let d = shortest_delta(facing.units as int, target.units as int);
            &&& (d >= 0 ==> 0 <= r <= d)
            &&& (d < 0 ==> d <= r <= 0)
        }),
        facing == target ==> r == 0,
{
    let d = facing.delta_to(target);
    if d == 0 || d == HALF_TURN {
        0
    } else if d > 0 {
        if d <= max_step {
            d
        } else {
            max_step
        }
    } else {
        if -d <= max_step {
            d
        } else {
            -max_step
        }
    }
}

/// Convergence law for the rate limiter: outside the exactly-astern case,
/// one limited turn reduces the remaining angle to the target by exactly
/// `max_step` (or to zero when the remainder fits in the budget), so the
/// remaining angle decreases monotonically tick after tick until it reaches
/// zero, then holds at zero.
pub proof fn lemma_limiter_converges(facing: int, target: int, max_step: int)
    requires
        0 <= facing < FULL_TURN,
        0 <= target < FULL_TURN,
        0 <= max_step,
        shortest_delta(facing, target) != HALF_TURN,
    ensures
        ({
            let d = shortest_delta(facing, target);
            let turned = wrap(facing + spec_angle_limiter(facing, target, max_step));
            let d2 = shortest_delta(turned, target);
            &&& abs(d2) <= abs(d)
            &&& (abs(d) <= max_step ==> d2 == 0)
            &&& (abs(d) > max_step ==> abs(d2) == abs(d) - max_step)
            &&& (d == 0 ==> d2 == 0)
        }),
{
    let d = shortest_delta(facing, target);
    let r = spec_angle_limiter(facing, target, max_step);
    let turned = wrap(facing + r);
    assert(0 <= turned < FULL_TURN);
    assert(shortest_delta(turned, target) == d - r);
}

/// The facing after `n` rate-limited ticks toward a fixed target
/// direction, each tick with the same turn budget.
pub open spec fn spec_limited_facing(facing: int, target: int, max_step: int, n: nat) -> int
    decreases n,
{
    if n == 0 {
        facing
    } else {
        let prev = spec_limited_facing(facing, target, max_step, (n - 1) as nat);
        wrap(prev + spec_angle_limiter(prev, target, max_step))
    }
}

/// Repeated-tick convergence law: outside the exactly-astern case, after
/// `n` rate-limited ticks the remaining angle to the target is exactly
/// the initial angle less `n` turn budgets, floored at zero — the
/// remaining angle decreases monotonically until it reaches zero, then
/// holds at zero, with no overshoot and no oscillation.
pub proof fn lemma_limiter_repeated_converges(facing: int, target: int, max_step: int, n: nat)
    requires
        0 <= facing < FULL_TURN,
        0 <= target < FULL_TURN,
        0 <= max_step,
        shortest_delta(facing, target) != HALF_TURN,
    ensures
        0 <= spec_limited_facing(facing, target, max_step, n) < FULL_TURN,
        shortest_delta(spec_limited_facing(facing, target, max_step, n), target) != HALF_TURN,
        abs(shortest_delta(spec_limited_facing(facing, target, max_step, n), target)) == max(
            0,
            abs(shortest_delta(facing, target)) - n * max_step,
        ),
    decreases n,
{
    if n == 0 {
        lemma_mul_basics(max_step);
    } else {
        lemma_limiter_repeated_converges(facing, target, max_step, (n - 1) as nat);
        let prev = spec_limited_facing(facing, target, max_step, (n - 1) as nat);
        lemma_limiter_converges(prev, target, max_step);
        lemma_mul_is_distributive_add_other_way(max_step, (n - 1) as int, 1);
        lemma_mul_basics(max_step);
        assert(n * max_step == (n - 1) * max_step + max_step);
    }
}

} // verus!
