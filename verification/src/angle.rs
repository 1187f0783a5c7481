//! Angles about the plane normal, as exact integer unit counts.
//!
//! One unit is 1/10,000 of a degree, so a full turn is 3,600,000 units.
//! An `Angle` is a normalized heading or orientation in `[0, FULL_TURN)`;
//! a `Rotation` is a signed shortest-path turn in `(-HALF_TURN, HALF_TURN]`.

use vstd::prelude::*;

verus! {

/// Units in a full turn (one unit is 1/10,000 of a degree).
pub const FULL_TURN: i64 = 3_600_000;

/// Units in half a turn (180 degrees).
pub const HALF_TURN: i64 = 1_800_000;

/// Units in a quarter turn (90 degrees).
pub const QUARTER_TURN: i64 = 900_000;

/// Units in an eighth of a turn (45 degrees).
pub const EIGHTH_TURN: i64 = 450_000;

/// Brings a value within one turn of the normalized range back into
/// `[0, FULL_TURN)`.  Intended for `u` in `(-FULL_TURN, 2 * FULL_TURN)`.
pub open spec fn wrap(u: int) -> int {
    if u < 0 {
        u + FULL_TURN
    } else if u >= FULL_TURN {
        u - FULL_TURN
    } else {
        u
    }
}

/// The signed shortest rotation, in `(-HALF_TURN, HALF_TURN]`, that takes
/// heading `from` onto heading `to`.  Both arguments must be normalized.
pub open spec fn shortest_delta(from: int, to: int) -> int {
    let d = wrap(to - from);
    if d > HALF_TURN {
        d - FULL_TURN
    } else {
        d
    }
}

/// The heading exactly opposite a normalized heading.
pub open spec fn opposite(u: int) -> int {
    wrap(u + HALF_TURN)
}

/// A normalized orientation or direction in the plane.
#[derive(Clone, Copy, Debug, PartialEq, Eq, Structural)]
pub struct Angle {
    /// Unit count, normalized to `[0, FULL_TURN)`.
    pub units: i64,
}

impl Angle {
    /// The unit count is normalized.
    pub open spec fn wf(self) -> bool {
        0 <= self.units < FULL_TURN
    }

    /// The zero angle.
    pub fn zero() -> (r: Angle)
        ensures
            r.wf(),
            r.units == 0,
    {
        Angle { units: 0 }
    }

    /// Builds an angle from an already-normalized unit count.
    pub fn from_units(units: i64) -> (r: Angle)
        requires
            0 <= units < FULL_TURN,
        ensures
            r.wf(),
            r.units == units,
    {
        Angle { units }
    }

    /// Builds an angle from a signed unit count within one turn of zero.
    pub fn from_signed_units(units: i64) -> (r: Angle)
        requires
            -FULL_TURN < units < FULL_TURN,
        ensures
            r.wf(),
            r.units == wrap(units as int),
    {
        if units < 0 {
            Angle { units: units + FULL_TURN }
        } else {
            Angle { units }
        }
    }

    /// Adds a signed turn within one full turn of zero, renormalizing.
    pub fn add_signed(self, delta: i64) -> (r: Angle)
        requires
            self.wf(),
            -FULL_TURN < delta < FULL_TURN,
        ensures
            r.wf(),
            r.units == wrap(self.units + delta),
    {
        let s = self.units + delta;
        if s < 0 {
            Angle { units: s + FULL_TURN }
        } else if s >= FULL_TURN {
            Angle { units: s - FULL_TURN }
        } else {
            Angle { units: s }
        }
    }

    /// The signed shortest rotation from `self` to `other`, in
    /// `(-HALF_TURN, HALF_TURN]`.
    pub fn delta_to(self, other: Angle) -> (d: i64)
        requires
            self.wf(),
            other.wf(),
        ensures
            d == shortest_delta(self.units as int, other.units as int),
            -HALF_TURN < d <= HALF_TURN,
    {
        let mut d = other.units - self.units;
        if d < 0 {
            d = d + FULL_TURN;
        }
        if d > HALF_TURN {
            d = d - FULL_TURN;
        }
        d
    }

    /// The opposite heading.
    pub fn opposite(self) -> (r: Angle)
        requires
            self.wf(),
        ensures
            r.wf(),
            r.units == opposite(self.units as int),
    {
        self.add_signed(HALF_TURN)
    }
}

/// A rotation about the plane normal, as a signed shortest-path angle.
#[derive(Clone, Copy, Debug, PartialEq, Eq, Structural)]
pub struct Rotation {
    /// Signed unit count in `(-HALF_TURN, HALF_TURN]`.
    pub units: i64,
}

impl Rotation {
    /// The unit count lies in the shortest-path range.
    pub open spec fn wf(self) -> bool {
        -HALF_TURN < self.units <= HALF_TURN
    }

    /// The rotation is the identity.
    pub open spec fn is_identity(self) -> bool {
        self.units == 0
    }

    /// The rotation is the exact 180-degree turn about the plane normal.
    pub open spec fn is_half_turn(self) -> bool {
        self.units == HALF_TURN
    }

    /// The identity rotation.
    pub fn identity() -> (r: Rotation)
        ensures
            r.wf(),
            r.is_identity(),
    {
        Rotation { units: 0 }
    }

    /// The exact 180-degree rotation about the plane normal.
    pub fn half_turn() -> (r: Rotation)
        ensures
            r.wf(),
            r.is_half_turn(),
    {
        Rotation { units: HALF_TURN }
    }

    /// Applies the rotation to a heading.
    pub fn apply(self, a: Angle) -> (r: Angle)
        requires
            self.wf(),
            a.wf(),
        ensures
            r.wf(),
            r.units == wrap(a.units + self.units),
    {
        a.add_signed(self.units)
    }
}

} // verus!
