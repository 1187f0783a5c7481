//! Shortest-path rotation between two directions.
//!
//! In the exact angle representation the two singularities of
//! rotation-between-vectors (parallel and antiparallel directions) are exact
//! equalities rather than epsilon thresholds: identical headings yield the
//! identity rotation, and exactly opposite headings yield the exact
//! 180-degree rotation about the plane normal.

use vstd::prelude::*;

use crate::angle::{opposite, shortest_delta, wrap, Angle, Rotation, FULL_TURN, HALF_TURN};

verus! {

/// The shortest rotation about the plane normal taking heading `from` onto
/// heading `to`.  Identical headings give the identity; exactly opposite
/// headings give the exact 180-degree rotation.
pub fn rotation_arc(from: Angle, to: Angle) -> (r: Rotation)
    requires
        from.wf(),
        to.wf(),
    ensures
        r.wf(),
        r.units == shortest_delta(from.units as int, to.units as int),
        from == to ==> r.is_identity(),
        to.units == opposite(from.units as int) ==> r.is_half_turn(),
        wrap(from.units + r.units) == to.units,
{
    let d = from.delta_to(to);
    if d == 0 {
        Rotation::identity()
    } else if d == HALF_TURN {
        Rotation::half_turn()
    } else {
        Rotation { units: d }
    }
}

/// Aligned-singularity law: the arc between a direction and itself is the
/// identity rotation.
pub proof fn lemma_rotation_arc_identity(a: int)
    requires
        0 <= a < FULL_TURN,
    ensures
        shortest_delta(a, a) == 0,
{
}

/// Opposite-singularity law: the arc between a direction and its exact
/// opposite is the exact 180-degree rotation about the plane normal.
pub proof fn lemma_rotation_arc_opposite(a: int)
    requires
        0 <= a < FULL_TURN,
    ensures
        shortest_delta(a, opposite(a)) == HALF_TURN,
{
}

/// Round-trip law: applying the arc rotation from `a` to `b` onto `a`
/// yields exactly `b`, for all normalized headings.
pub proof fn lemma_rotation_arc_round_trip(a: int, b: int)
    requires
        0 <= a < FULL_TURN,
        0 <= b < FULL_TURN,
    ensures
        wrap(a + shortest_delta(a, b)) == b,
{
}

} // verus!
