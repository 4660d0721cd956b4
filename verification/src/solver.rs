//! The coefficient solver: a pure map from the three tuning parameters
//! (period, damping, response) to the three derived filter coefficients
//!
//! ```text
//! k0 = damping / (pi * period)
//! k1 = 1 / (2 * pi * period)^2
//! k2 = response * damping / (2 * pi * period)
//! ```
//!
//! evaluated in fixed point, rounding toward zero at each operation.

use vstd::prelude::*;

use crate::fixed_point::{fits_fx, fx_div, fx_div_value, fx_mul, fx_mul_value, FX_SCALE};

verus! {

/// Pi, scaled by `FX_SCALE` and rounded to the nearest raw unit.
pub const FX_PI: i64 = 13493037705;

/// Two pi, scaled by `FX_SCALE` and rounded to the nearest raw unit.
pub const FX_TWO_PI: i64 = 26986075409;

/// The three derived filter coefficients, cached by a filter instance and
/// recomputed whenever a tuning parameter changes.
#[derive(Clone, Copy, Debug, PartialEq, Eq, Structural)]
pub struct Coefficients {
    pub k0: i64,
    pub k1: i64,
    pub k2: i64,
}

/// Pi times the period, in fixed point.
pub open spec fn pi_period_value(period: int) -> int {
    fx_mul_value(FX_PI as int, period)
}

/// Two pi times the period, in fixed point.
pub open spec fn two_pi_period_value(period: int) -> int {
    fx_mul_value(FX_TWO_PI as int, period)
}

/// The exact value of the first coefficient: damping / (pi * period).
pub open spec fn k0_value(period: int, damping: int) -> int {
    fx_div_value(damping, pi_period_value(period))
}

/// The exact value of the second coefficient: 1 / (2 * pi * period)^2.
pub open spec fn k1_value(period: int) -> int {
    fx_div_value(
        FX_SCALE as int,
        fx_mul_value(two_pi_period_value(period), two_pi_period_value(period)),
    )
}

/// The exact value of the third coefficient:
/// response * damping / (2 * pi * period).
pub open spec fn k2_value(period: int, damping: int, response: int) -> int {
    fx_div_value(fx_mul_value(response, damping), two_pi_period_value(period))
}

/// The tuning parameters a filter accepts: the period is positive, the
/// damping non-negative, and every intermediate of the coefficient formulas
/// is representable. The divisors being at least one raw unit is the
/// fixed-point reading of the `period > 0` precondition: a period so small
/// that `pi * period` rounds to zero would divide by zero, as the formulas do.
pub open spec fn solve_in_range(period: int, damping: int, response: int) -> bool {
    &&& period >= 1
    &&& damping >= 0
    &&& pi_period_value(period) >= 1
    &&& fits_fx(pi_period_value(period))
    &&& fits_fx(k0_value(period, damping))
    &&& two_pi_period_value(period) >= 1
    &&& fits_fx(two_pi_period_value(period))
    &&& fx_mul_value(two_pi_period_value(period), two_pi_period_value(period)) >= 1
    &&& fits_fx(fx_mul_value(two_pi_period_value(period), two_pi_period_value(period)))
    &&& fits_fx(k1_value(period))
    &&& fits_fx(fx_mul_value(response, damping))
    &&& fits_fx(k2_value(period, damping, response))
}

/// Whether `k` holds exactly the coefficients derived from the given tuning
/// parameters.
pub open spec fn is_coefficients_for(
    k: Coefficients,
    period: int,
    damping: int,
    response: int,
) -> bool {
    &&& k.k0 == k0_value(period, damping)
    &&& k.k1 == k1_value(period)
    &&& k.k2 == k2_value(period, damping, response)
}

/// Derives the three filter coefficients from the tuning parameters.
pub fn solve_coefficients(period: i64, damping: i64, response: i64) -> (k: Coefficients)
    requires
        solve_in_range(period as int, damping as int, response as int),
    ensures
        is_coefficients_for(k, period as int, damping as int, response as int),
{
    let pi_p = fx_mul(FX_PI, period);
    let k0 = fx_div(damping, pi_p);
    let two_pi_p = fx_mul(FX_TWO_PI, period);
    let two_pi_p_sq = fx_mul(two_pi_p, two_pi_p);
    let k1 = fx_div(FX_SCALE, two_pi_p_sq);
    let rd = fx_mul(response, damping);
    let k2 = fx_div(rd, two_pi_p);
    Coefficients { k0, k1, k2 }
}

/// The solver is deterministic: any two coefficient triples derived from the
/// same tuning parameters are equal.
pub proof fn lemma_solver_deterministic(
    ka: Coefficients,
    kb: Coefficients,
    period: int,
    damping: int,
    response: int,
)
    requires
        is_coefficients_for(ka, period, damping, response),
        is_coefficients_for(kb, period, damping, response),
    ensures
        ka == kb,
{
}

} // verus!
