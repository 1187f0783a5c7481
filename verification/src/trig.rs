//! Fixed-point trigonometry on exact angle units.
//!
//! The sine is Bhaskara I's rational approximation, scaled to angle units
//! and to the `SCALE` fixed-point range.  It is this library's definition
//! of the sine of an angle-unit count: an exact integer function, accurate
//! to about 0.2% of `SCALE` against the real sine and exactly right at 0,
//! 30, 90, 150, 180 degrees and their reflections, which keeps the
//! cardinal and principal directions exact.

use vstd::arithmetic::div_mod::{lemma_div_by_multiple, lemma_div_is_ordered, lemma_div_pos_is_pos};
use vstd::prelude::*;

use crate::angle::{wrap, Angle, HALF_TURN, QUARTER_TURN};
use crate::vec2::Vec2;

verus! {

/// Fixed-point scale: the sine and cosine of a heading are integers in
/// `[-SCALE, SCALE]`, and `SCALE` micro-units make one world unit.
pub const SCALE: i64 = 1_000_000;

/// Denominator offset of the sine curve, in the angle-unit scale:
/// `40500 * (HALF_TURN / 180)^2`.
pub const SIN_CURVE_DEN: i64 = 4_050_000_000_000;

/// The sine curve on `[0, HALF_TURN]`: Bhaskara I's approximation
/// `4 x (180 - x) / (40500 - x (180 - x))` with `x` in degrees, rewritten
/// over angle units and scaled by `SCALE`.
pub open spec fn spec_sin_half(u: int) -> int {
    let p = u * (HALF_TURN - u);
    (4 * p * SCALE) / (SIN_CURVE_DEN - p)
}

/// The sine of a normalized angle, scaled by `SCALE`: the half-turn curve
/// on `[0, HALF_TURN]`, and its negated reflection beyond.
pub open spec fn spec_sin(u: int) -> int {
    if u <= HALF_TURN {
        spec_sin_half(u)
    } else {
        -spec_sin_half(u - HALF_TURN)
    }
}

/// The cosine of a normalized angle, scaled by `SCALE`: the sine a quarter
/// turn ahead.
pub open spec fn spec_cos(u: int) -> int {
    spec_sin(wrap(u + QUARTER_TURN))
}

proof fn lemma_sin_curve_input_bound(u: int)
    by (nonlinear_arith)
    requires
        0 <= u <= 1_800_000,
    ensures
        0 <= u * (1_800_000 - u) <= 810_000_000_000,
{
}

/// The half-turn sine curve stays within `[0, SCALE]`.
pub proof fn lemma_sin_half_bounds(u: int)
    requires
        0 <= u <= HALF_TURN,
    ensures
        0 <= spec_sin_half(u) <= SCALE,
{
    lemma_sin_curve_input_bound(u);
    let p = u * (HALF_TURN - u);
    let num = 4 * p * SCALE;
    let den = SIN_CURVE_DEN - p;
    lemma_div_pos_is_pos(num, den);
    lemma_div_is_ordered(num, SCALE * den, den);
    lemma_div_by_multiple(SCALE as int, den);
    assert((SCALE * den) / den == SCALE);
}

fn sin_half(u: i64) -> (r: i64)
    requires
        0 <= u <= HALF_TURN,
    ensures
        r == spec_sin_half(u as int),
        0 <= r <= SCALE,
{
    proof {
        lemma_sin_curve_input_bound(u as int);
        lemma_sin_half_bounds(u as int);
    }
    let p: u64 = (u as u64) * ((HALF_TURN - u) as u64);
    let num: u64 = 4 * p * (SCALE as u64);
    let den: u64 = (SIN_CURVE_DEN as u64) - p;
    let q: u64 = num / den;
    q as i64
}

/// The sine of a heading, as a fixed-point integer scaled by `SCALE`.
pub fn sin_units(a: Angle) -> (r: i64)
    requires
        a.wf(),
    ensures
        r == spec_sin(a.units as int),
        -SCALE <= r <= SCALE,
{
    proof {
        if a.units > HALF_TURN {
            lemma_sin_half_bounds(a.units - HALF_TURN);
        }
    }
    if a.units <= HALF_TURN {
        sin_half(a.units)
    } else {
        -sin_half(a.units - HALF_TURN)
    }
}

/// The cosine of a heading, as a fixed-point integer scaled by `SCALE`.
pub fn cos_units(a: Angle) -> (r: i64)
    requires
        a.wf(),
    ensures
        r == spec_cos(a.units as int),
        -SCALE <= r <= SCALE,
{
    sin_units(a.add_signed(QUARTER_TURN))
}

/// The unit vector of a heading, in micro-units: one world unit long,
/// componentwise the fixed-point cosine and sine.
pub fn unit_vector(h: Angle) -> (v: Vec2)
    requires
        h.wf(),
    ensures
        v.x == spec_cos(h.units as int),
        v.y == spec_sin(h.units as int),
        -SCALE <= v.x <= SCALE,
        -SCALE <= v.y <= SCALE,
{
    Vec2 { x: cos_units(h), y: sin_units(h) }
}

} // verus!
