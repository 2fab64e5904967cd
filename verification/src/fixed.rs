//! Fixed-point fractions and linear interpolation.
//!
//! Progress fractions and interpolated scalars are integers scaled by
//! [`FRAC_SCALE`]: the value `FRAC_SCALE` stands for 1.0 (fully elapsed,
//! full volume, full opacity). Interpolation is exact at both endpoints,
//! which the transition engines rely on to land precisely on their targets.

use vstd::prelude::*;

verus! {

use vstd::arithmetic::div_mod::{lemma_div_is_ordered, lemma_div_multiples_vanish};
use vstd::arithmetic::mul::{lemma_mul_inequality, lemma_mul_is_commutative};

/// One whole unit of progress: fractions range over `[0, FRAC_SCALE]`.
pub const FRAC_SCALE: u64 = 1000;

/// Linear interpolation from `a` to `b` by `frac / FRAC_SCALE`.
pub open spec fn lerp_fixed(a: int, b: int, frac: int) -> int {
    if b >= a {
        a + (b - a) * frac / (FRAC_SCALE as int)
    } else {
        a - (a - b) * frac / (FRAC_SCALE as int)
    }
}

/// Interpolation at fraction 0 is exactly the start value.
pub proof fn lemma_lerp_at_start(a: int, b: int)
    ensures
        lerp_fixed(a, b, 0) == a,
{
}

/// Interpolation at fraction `FRAC_SCALE` is exactly the end value.
pub proof fn lemma_lerp_at_end(a: int, b: int)
    ensures
        lerp_fixed(a, b, FRAC_SCALE as int) == b,
{
    if b >= a {
        lemma_mul_is_commutative(b - a, FRAC_SCALE as int);
        lemma_div_multiples_vanish(b - a, FRAC_SCALE as int);
    } else {
        lemma_mul_is_commutative(a - b, FRAC_SCALE as int);
        lemma_div_multiples_vanish(a - b, FRAC_SCALE as int);
    }
}

/// The interpolated value always lies between the two endpoints.
pub proof fn lemma_lerp_bounds(a: int, b: int, frac: int)
    requires
        0 <= frac <= FRAC_SCALE,
    ensures
        a <= b ==> a <= lerp_fixed(a, b, frac) <= b,
        b <= a ==> b <= lerp_fixed(a, b, frac) <= a,
{
    if b >= a {
        lemma_scaled_step_bounds(b - a, frac);
    } else {
        lemma_scaled_step_bounds(a - b, frac);
    }
}

/// `d * frac / FRAC_SCALE` lies in `[0, d]` for a fraction in range.
pub proof fn lemma_scaled_step_bounds(d: int, frac: int)
    requires
        d >= 0,
        0 <= frac <= FRAC_SCALE,
    ensures
        0 <= d * frac / (FRAC_SCALE as int) <= d,
{
    let s = FRAC_SCALE as int;
    lemma_mul_inequality(frac, s, d);
    lemma_mul_is_commutative(frac, d);
    lemma_mul_is_commutative(s, d);
    lemma_div_is_ordered(d * frac, d * s, s);
    lemma_mul_is_commutative(d, s);
    lemma_div_multiples_vanish(d, s);
    lemma_div_is_ordered(0, d * frac, s);
}

/// Linear interpolation between unsigned scalars (volumes, opacities).
pub fn lerp_u64(a: u64, b: u64, frac: u64) -> (r: u64)
    requires
        frac <= FRAC_SCALE,
    ensures
        r == lerp_fixed(a as int, b as int, frac as int),
{
    proof {
        lemma_lerp_bounds(a as int, b as int, frac as int);
    }
    if b >= a {
        let diff: u128 = (b - a) as u128;
        proof {
            lemma_mul_inequality(frac as int, FRAC_SCALE as int, diff as int);
            lemma_mul_is_commutative(frac as int, diff as int);
        }
        let step: u128 = diff * (frac as u128) / (FRAC_SCALE as u128);
        a + (step as u64)
    } else {
        let diff: u128 = (a - b) as u128;
        proof {
            lemma_mul_inequality(frac as int, FRAC_SCALE as int, diff as int);
            lemma_mul_is_commutative(frac as int, diff as int);
        }
        let step: u128 = diff * (frac as u128) / (FRAC_SCALE as u128);
        a - (step as u64)
    }
}

/// Linear interpolation between signed fixed-point coordinates.
pub fn lerp_i64(a: i64, b: i64, frac: u64) -> (r: i64)
    requires
        frac <= FRAC_SCALE,
    ensures
        r == lerp_fixed(a as int, b as int, frac as int),
{
    proof {
        lemma_lerp_bounds(a as int, b as int, frac as int);
    }
    if b >= a {
        let diff: u128 = (b as i128 - a as i128) as u128;
        proof {
            lemma_mul_inequality(frac as int, FRAC_SCALE as int, diff as int);
            lemma_mul_is_commutative(frac as int, diff as int);
        }
        let step: u128 = diff * (frac as u128) / (FRAC_SCALE as u128);
        ((a as i128) + (step as i128)) as i64
    } else {
        let diff: u128 = (a as i128 - b as i128) as u128;
        proof {
            lemma_mul_inequality(frac as int, FRAC_SCALE as int, diff as int);
            lemma_mul_is_commutative(frac as int, diff as int);
        }
        let step: u128 = diff * (frac as u128) / (FRAC_SCALE as u128);
        ((a as i128) - (step as i128)) as i64
    }
}

} // verus!
