//! Failures a steering computation can signal.

use vstd::prelude::*;

verus! {

/// A failed steering computation.  All computations are deterministic pure
/// functions of their inputs; a failed step is surfaced to the host, which
/// decides whether to skip the tick or end the session.
#[derive(Clone, Copy, Debug, PartialEq, Eq, Structural)]
pub enum SteerError {
    /// A direction was requested between two exactly coincident positions,
    /// where the normalized difference vector is undefined.
    DegenerateDirection,
    /// The body table did not contain exactly one player-tagged body when a
    /// step requiring player input ran.
    MissingOrMultiplePlayer,
    /// The supplied tick length was negative or had a non-positive
    /// denominator.
    InvalidDeltaTime,
}

} // verus!
