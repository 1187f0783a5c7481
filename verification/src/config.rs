//! The fixed tick length, as an exact rational number of seconds.

use vstd::prelude::*;

verus! {

/// Largest tick-length numerator the library accepts, so that per-tick
/// products of speed and time fit their machine integers.
pub const MAX_DT_NUM: i64 = 1_000_000;

/// The elapsed simulation time of one fixed tick: `num / den` seconds.
/// The host supplies it; the core is agnostic to wall-clock time.
#[derive(Clone, Copy, Debug, PartialEq, Eq, Structural)]
pub struct Dt {
    /// Numerator, in seconds.
    pub num: i64,
    /// Denominator; a valid tick length has a positive denominator.
    pub den: i64,
}

impl Dt {
    /// The tick length is a well-defined, non-negative amount of time.
    pub open spec fn valid(self) -> bool {
        0 <= self.num && 1 <= self.den
    }

    /// Builds a tick length of `num / den` seconds.
    pub fn new(num: i64, den: i64) -> (r: Dt)
        ensures
            r.num == num,
            r.den == den,
    {
        Dt { num, den }
    }

    /// Whether the tick length is a well-defined, non-negative amount of
    /// time.
    pub fn is_valid(&self) -> (b: bool)
        ensures
            b == self.valid(),
    {
        self.num >= 0 && self.den >= 1
    }
}

} // verus!
