//! Fixed-point sine and cosine over millidegree headings.
//!
//! The half-wave uses Bhaskara I's rational approximation, which in these
//! units is exact at every quarter turn and stays within one length unit
//! (`SCALE`) everywhere, so thrust vectors never exceed unit length.

use vstd::prelude::*;
use vstd::arithmetic::div_mod::{lemma_div_is_ordered, lemma_div_multiples_vanish};
use crate::{FULL_TURN, HALF_TURN, QUARTER_TURN, SCALE};

verus! {

/// Denominator base of the half-wave approximation.
pub const SIN_DENOM: i64 = 5 * QUARTER_TURN * QUARTER_TURN;

/// Bhaskara's approximation of `SCALE * sin(a)` for `a` in the first half
/// turn, in millidegrees.
pub open spec fn half_wave(a: int) -> int {
    let q = a * (HALF_TURN - a);
    4 * q * SCALE / (SIN_DENOM - q)
}

/// `SCALE * sin(a)` for a heading `a` within one full turn.
pub open spec fn sin_spec(a: int) -> int {
    if a < HALF_TURN {
        half_wave(a)
    } else {
        -half_wave(a - HALF_TURN)
    }
}

/// `SCALE * cos(a)` for a heading `a` within one full turn: the sine a
/// quarter turn ahead.
pub open spec fn cos_spec(a: int) -> int {
    if a + QUARTER_TURN < FULL_TURN {
        sin_spec(a + QUARTER_TURN)
    } else {
        sin_spec(a + QUARTER_TURN - FULL_TURN)
    }
}

/// The product `a * (HALF_TURN - a)` stays within the parabola's peak.
proof fn lemma_wave_product_bounds(a: int)
    by (nonlinear_arith)
    requires
        0 <= a <= HALF_TURN,
    ensures
        0 <= a * (HALF_TURN - a) <= QUARTER_TURN * QUARTER_TURN,
{
}

/// The half wave is bounded by `SCALE`.
pub proof fn lemma_half_wave_bounds(a: int)
    requires
        0 <= a <= HALF_TURN,
    ensures
        0 <= half_wave(a) <= SCALE,
{
    lemma_wave_product_bounds(a);
    let q = a * (HALF_TURN - a);
    let num = 4 * q * SCALE;
    let den = SIN_DENOM - q;
    assert(den > 0);
    assert(num >= 0);
    assert(num <= SCALE * den);
    lemma_div_is_ordered(0, num, den);
    lemma_div_is_ordered(num, SCALE * den, den);
    lemma_div_multiples_vanish(SCALE as int, den);
}

/// The sine of any well-formed heading lies within one unit length.
pub proof fn lemma_sin_bounds(a: int)
    requires
        0 <= a < FULL_TURN,
    ensures
        -SCALE <= sin_spec(a) <= SCALE,
{
    if a < HALF_TURN {
        lemma_half_wave_bounds(a);
    } else {
        lemma_half_wave_bounds(a - HALF_TURN);
    }
}

/// The cosine of any well-formed heading lies within one unit length.
pub proof fn lemma_cos_bounds(a: int)
    requires
        0 <= a < FULL_TURN,
    ensures
        -SCALE <= cos_spec(a) <= SCALE,
{
    if a + QUARTER_TURN < FULL_TURN {
        lemma_sin_bounds(a + QUARTER_TURN);
    } else {
        lemma_sin_bounds(a + QUARTER_TURN - FULL_TURN);
    }
}

/// Compute the half wave for `a` in the first half turn.
fn half_wave_md(a: i64) -> (r: i64)
    requires
        0 <= a <= HALF_TURN,
    ensures
        r == half_wave(a as int),
        0 <= r <= SCALE,
{
    proof {
        lemma_wave_product_bounds(a as int);
        lemma_half_wave_bounds(a as int);
    }
    let q: i64 = a * (HALF_TURN - a);
    let num: i64 = 4 * q * SCALE;
    let den: i64 = SIN_DENOM - q;
    num / den
}

/// Fixed-point sine of a heading within one full turn.
pub fn sin_md(a: i64) -> (r: i64)
    requires
        0 <= a < FULL_TURN,
    ensures
        r == sin_spec(a as int),
        -SCALE <= r <= SCALE,
{
    if a < HALF_TURN {
        half_wave_md(a)
    } else {
        -half_wave_md(a - HALF_TURN)
    }
}

/// Fixed-point cosine of a heading within one full turn.
pub fn cos_md(a: i64) -> (r: i64)
    requires
        0 <= a < FULL_TURN,
    ensures
        r == cos_spec(a as int),
        -SCALE <= r <= SCALE,
{
    let shifted: i64 = if a + QUARTER_TURN < FULL_TURN {
        a + QUARTER_TURN
    } else {
        a + QUARTER_TURN - FULL_TURN
    };
    sin_md(shifted)
}

} // verus!
