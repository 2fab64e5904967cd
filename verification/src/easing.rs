//! Easing curves: fixed nonlinear remappings of normalized progress.
//!
//! A preset maps a progress fraction `t` in `[0, FRAC_SCALE]` to a shaped
//! progress fraction in the same range. `Instant` snaps to completion for
//! any positive progress. Every other preset is a unit cubic Bezier segment
//! from (0,0) to (1,1) whose inner control points sit at progress 0 and
//! progress 1; sampling the curve parametrically reads only the progress
//! component, which those presets therefore share — they differ only in the
//! time component, which progress sampling never consults. Every preset is
//! monotonic and exact at both endpoints.

use vstd::prelude::*;

verus! {

use crate::fixed::FRAC_SCALE;
use vstd::arithmetic::div_mod::{lemma_div_is_ordered, lemma_div_multiples_vanish};
use vstd::arithmetic::mul::lemma_mul_is_commutative;

/// The closed set of easing presets.
#[derive(Clone, Copy, PartialEq, Eq, Structural, Debug)]
pub enum EasingFunction {
    Instant,
    Linear,
    EaseIn,
    EaseOut,
    EaseInOut,
}

/// The shared cubic progress polynomial, before scaling down:
/// `3*t^2*FRAC_SCALE - 2*t^3`, the Bernstein form of a Bezier whose inner
/// control points carry progress values 0 and `FRAC_SCALE`.
pub open spec fn cubic_progress_numerator(t: int) -> int {
    3 * t * t * (FRAC_SCALE as int) - 2 * t * t * t
}

/// The shaped progress of the cubic presets, in `[0, FRAC_SCALE]`.
pub open spec fn cubic_progress(t: int) -> int {
    cubic_progress_numerator(t) / ((FRAC_SCALE as int) * (FRAC_SCALE as int))
}

/// What a preset returns for progress `t` in `[0, FRAC_SCALE]`.
pub open spec fn ease_spec(curve: EasingFunction, t: int) -> int {
    match curve {
        EasingFunction::Instant => if t > 0 {
            FRAC_SCALE as int
        } else {
            0
        },
        _ => cubic_progress(t),
    }
}

/// The numerator stays within `[0, FRAC_SCALE^3]` on the unit interval.
proof fn lemma_cubic_numerator_bounds(t: int)
    requires
        0 <= t <= FRAC_SCALE,
    ensures
        0 <= cubic_progress_numerator(t),
        cubic_progress_numerator(t) <= (FRAC_SCALE as int) * (FRAC_SCALE as int) * (
        FRAC_SCALE as int),
{
    let s = FRAC_SCALE as int;
    assert(0 <= 3 * t * t * s - 2 * t * t * t) by (nonlinear_arith)
        requires
            0 <= t <= s,
    ;
    assert(3 * t * t * s - 2 * t * t * t <= s * s * s) by (nonlinear_arith)
        requires
            0 <= t <= s,
    ;
}

/// The shaped progress of the cubic presets lies in `[0, FRAC_SCALE]`.
pub proof fn lemma_cubic_progress_range(t: int)
    requires
        0 <= t <= FRAC_SCALE,
    ensures
        0 <= cubic_progress(t) <= FRAC_SCALE,
{
    let s = FRAC_SCALE as int;
    lemma_cubic_numerator_bounds(t);
    lemma_div_is_ordered(0, cubic_progress_numerator(t), s * s);
    lemma_div_is_ordered(cubic_progress_numerator(t), s * s * s, s * s);
    lemma_mul_is_commutative(s, s * s);
    lemma_div_multiples_vanish(s, s * s);
}

/// Applies an easing preset to a progress fraction.
pub fn ease(curve: EasingFunction, t: u64) -> (y: u64)
    requires
        t <= FRAC_SCALE,
    ensures
        y == ease_spec(curve, t as int),
        y <= FRAC_SCALE,
{
    match curve {
        EasingFunction::Instant => {
            if t > 0 {
                FRAC_SCALE
            } else {
                0
            }
        },
        _ => {
            proof {
                let ti = t as int;
                let s = FRAC_SCALE as int;
                lemma_cubic_numerator_bounds(ti);
                lemma_cubic_progress_range(ti);
                assert(ti * ti <= 1000000) by (nonlinear_arith)
                    requires
                        0 <= ti <= 1000,
                ;
                assert(2 * (ti * ti) * ti <= 3 * (ti * ti) * s && 3 * (ti * ti) * s - 2 * (ti * ti)
                    * ti == 3 * ti * ti * s - 2 * ti * ti * ti) by (nonlinear_arith)
                    requires
                        0 <= ti <= s,
                ;
            }
            let tt: u64 = t * t;
            let numerator: u64 = 3 * tt * FRAC_SCALE - 2 * tt * t;
            numerator / (FRAC_SCALE * FRAC_SCALE)
        },
    }
}

/// Easing monotonicity law: every preset is non-decreasing on the unit
/// interval.
pub proof fn lemma_ease_monotone(curve: EasingFunction, t1: int, t2: int)
    requires
        0 <= t1 <= t2 <= FRAC_SCALE,
    ensures
        ease_spec(curve, t1) <= ease_spec(curve, t2),
{
    match curve {
        EasingFunction::Instant => {
        },
        _ => {
            let s = FRAC_SCALE as int;
            assert(3 * t1 * t1 * s - 2 * t1 * t1 * t1 <= 3 * t2 * t2 * s - 2 * t2 * t2 * t2)
                by (nonlinear_arith)
                requires
                    0 <= t1 <= t2 <= s,
            ;
            lemma_div_is_ordered(
                cubic_progress_numerator(t1),
                cubic_progress_numerator(t2),
                s * s,
            );
        },
    }
}

/// Easing endpoint law: every preset maps 0 to 0 and `FRAC_SCALE` to
/// `FRAC_SCALE` exactly.
pub proof fn lemma_ease_endpoints(curve: EasingFunction)
    ensures
        ease_spec(curve, 0) == 0,
        ease_spec(curve, FRAC_SCALE as int) == FRAC_SCALE,
{
    let s = FRAC_SCALE as int;
    assert(3 * s * s * s - 2 * s * s * s == s * (s * s)) by (nonlinear_arith);
    lemma_div_multiples_vanish(s, s * s);
}

} // verus!
