//! A fixed-timestep 2D kinematic steering library.
//!
//! A small set of mobile bodies (one player-controlled craft and several
//! autonomous bodies) update position and orientation once per simulation
//! tick according to per-body steering policies, then the player is clamped
//! to a rectangular arena.
//!
//! All quantities are exact integers: orientations and directions are angles
//! in units of 1/10,000 of a degree (a full turn is 3,600,000 units),
//! positions are in micro-units, and the tick length is a rational number of
//! seconds.  Rotation between directions, rate limiting, and the per-tick
//! update are therefore exact modular arithmetic, and the near-parallel and
//! near-antiparallel singularities of rotation-between-vectors become exact
//! equalities.

pub mod angle;
pub mod arc;
pub mod config;
pub mod errors;
pub mod heading;
pub mod limiter;
pub mod sim;
pub mod steering;
pub mod trig;
pub mod vec2;
