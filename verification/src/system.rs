//! The filter state machine: it owns the tuning parameters, the derived
//! coefficients and the running state (previous input, output, output rate),
//! and advances the state once per tick by the integration step
//!
//! ```text
//! xd        = (x - xp) / d                        estimated target rate
//! k1_stable = max(k1, 1.1 * (d^2 + 0.5 * d * k0)) stability safeguard
//! xp        = x
//! y         = y + d * yd
//! yd        = yd + d * (x + k2 * xd - y - k0 * yd) / k1_stable
//! ```
//!
//! in fixed point, with `y` updated before the rate so that the rate update
//! reads the new output. The `k1_stable` bound trades accuracy for stability
//! when the time step is large relative to the period.

use vstd::prelude::*;

use vstd::arithmetic::div_mod::{
    lemma_div_is_ordered, lemma_div_multiples_vanish, lemma_div_pos_is_pos,
};

use crate::fixed_point::{
    fits_fx, fx_div, fx_div_value, fx_half, fx_mul, fx_mul_value, lemma_fx_mul_zero, qdiv,
    FX_SCALE,
};
use crate::solver::{is_coefficients_for, solve_coefficients, solve_in_range, Coefficients};

verus! {

/// The stability safeguard's 1.1 margin, scaled by `FX_SCALE` and rounded to
/// the nearest raw unit.
pub const FX_STABILITY_MARGIN: i64 = 4724464026;

/// The finite-difference estimate of the target's rate of change.
pub open spec fn target_rate_value(x: int, xp: int, d: int) -> int {
    fx_div_value(x - xp, d)
}

/// The lower bound that the stability safeguard places on `k1`:
/// `1.1 * (d^2 + 0.5 * d * k0)`.
pub open spec fn stability_floor_value(k0: int, d: int) -> int {
    fx_mul_value(
        FX_STABILITY_MARGIN as int,
        fx_mul_value(d, d) + qdiv(fx_mul_value(d, k0), 2),
    )
}

/// The stabilized second coefficient actually used by the step.
pub open spec fn k1_stable_value(k0: int, k1: int, d: int) -> int {
    if k1 >= stability_floor_value(k0, d) {
        k1
    } else {
        stability_floor_value(k0, d)
    }
}

/// The output after one step: the old output advanced by the old rate.
pub open spec fn next_output_value(y: int, yd: int, d: int) -> int {
    y + fx_mul_value(d, yd)
}

/// The numerator of the rate correction: the spring-damper acceleration term
/// `x + k2 * xd - y_new - k0 * yd`, evaluated against the new output.
pub open spec fn accel_numerator_value(
    k0: int,
    k2: int,
    x: int,
    xp: int,
    y: int,
    yd: int,
    d: int,
) -> int {
    x + fx_mul_value(k2, target_rate_value(x, xp, d)) - next_output_value(y, yd, d)
        - fx_mul_value(k0, yd)
}

/// The output rate after one step.
pub open spec fn next_rate_value(
    k0: int,
    k1: int,
    k2: int,
    x: int,
    xp: int,
    y: int,
    yd: int,
    d: int,
) -> int {
    yd + fx_div_value(
        fx_mul_value(d, accel_numerator_value(k0, k2, x, xp, y, yd, d)),
        k1_stable_value(k0, k1, d),
    )
}

/// The machine-limit conditions of one step: the time delta is positive (a
/// zero delta would divide by zero in the rate estimate), the stabilized
/// divisor is at least one raw unit, and every intermediate the step computes
/// is representable.
pub open spec fn step_in_range(
    k0: int,
    k1: int,
    k2: int,
    x: int,
    xp: int,
    y: int,
    yd: int,
    d: int,
) -> bool {
    &&& d >= 1
    &&& fits_fx(x - xp)
    &&& fits_fx(target_rate_value(x, xp, d))
    &&& fits_fx(fx_mul_value(d, d))
    &&& fits_fx(fx_mul_value(d, k0))
    &&& fits_fx(fx_mul_value(d, d) + qdiv(fx_mul_value(d, k0), 2))
    &&& fits_fx(stability_floor_value(k0, d))
    &&& k1_stable_value(k0, k1, d) >= 1
    &&& fits_fx(fx_mul_value(d, yd))
    &&& fits_fx(next_output_value(y, yd, d))
    &&& fits_fx(fx_mul_value(k2, target_rate_value(x, xp, d)))
    &&& fits_fx(x + fx_mul_value(k2, target_rate_value(x, xp, d)))
    &&& fits_fx(x + fx_mul_value(k2, target_rate_value(x, xp, d)) - next_output_value(y, yd, d))
    &&& fits_fx(fx_mul_value(k0, yd))
    &&& fits_fx(accel_numerator_value(k0, k2, x, xp, y, yd, d))
    &&& fits_fx(fx_mul_value(d, accel_numerator_value(k0, k2, x, xp, y, yd, d)))
    &&& fits_fx(
        fx_div_value(
            fx_mul_value(d, accel_numerator_value(k0, k2, x, xp, y, yd, d)),
            k1_stable_value(k0, k1, d),
        ),
    )
    &&& fits_fx(next_rate_value(k0, k1, k2, x, xp, y, yd, d))
}

/// One integration step on a scalar channel. Returns the new
/// (previous input, output, output rate) triple.
pub fn interpolation_step(
    k0: i64,
    k1: i64,
    k2: i64,
    x: i64,
    xp: i64,
    y: i64,
    yd: i64,
    d: i64,
) -> (r: (i64, i64, i64))
    requires
        step_in_range(
            k0 as int,
            k1 as int,
            k2 as int,
            x as int,
            xp as int,
            y as int,
            yd as int,
            d as int,
        ),
    ensures
        r.0 == x,
        r.1 == next_output_value(y as int, yd as int, d as int),
        r.2 == next_rate_value(
            k0 as int,
            k1 as int,
            k2 as int,
            x as int,
            xp as int,
            y as int,
            yd as int,
            d as int,
        ),
{
    let xd = fx_div(x - xp, d);
    let dd = fx_mul(d, d);
    let dk0 = fx_mul(d, k0);
    let half_dk0 = fx_half(dk0);
    let margin = fx_mul(FX_STABILITY_MARGIN, dd + half_dk0);
    let k1_stable = if k1 >= margin {
        k1
    } else {
        margin
    };
    let dyd = fx_mul(d, yd);
    let ny = y + dyd;
    let k2xd = fx_mul(k2, xd);
    let anticipated = x + k2xd;
    let offset = anticipated - ny;
    let k0yd = fx_mul(k0, yd);
    let numerator = offset - k0yd;
    let d_num = fx_mul(d, numerator);
    let correction = fx_div(d_num, k1_stable);
    let nyd = yd + correction;
    (x, ny, nyd)
}

/// A second-order filter over scalar values.
pub struct SecondOrderSystemScalar {
    pub period: i64,
    pub damping: i64,
    pub response: i64,
    pub xp: i64,
    pub y: i64,
    pub yd: i64,
    pub k: Coefficients,
}

impl SecondOrderSystemScalar {
    /// The cached coefficients are exactly those derived from the current
    /// tuning parameters; stale coefficients would be a correctness bug.
    pub open spec fn wf(self) -> bool {
        &&& solve_in_range(self.period as int, self.damping as int, self.response as int)
        &&& is_coefficients_for(
            self.k,
            self.period as int,
            self.damping as int,
            self.response as int,
        )
    }

    /// Constructs a filter: derives the coefficients and zero-initializes the
    /// running state.
    pub fn new(period: i64, damping: i64, response: i64) -> (s: Self)
        requires
            solve_in_range(period as int, damping as int, response as int),
        ensures
            s.wf(),
            s.period == period,
            s.damping == damping,
            s.response == response,
            s.xp == 0,
            s.y == 0,
            s.yd == 0,
    {
        let k = solve_coefficients(period, damping, response);
        SecondOrderSystemScalar { period, damping, response, xp: 0, y: 0, yd: 0, k }
    }

    /// Re-derives the cached coefficients from the current tuning parameters.
    fn update_k(&mut self)
        requires
            solve_in_range(
                old(self).period as int,
                old(self).damping as int,
                old(self).response as int,
            ),
        ensures
            final(self).wf(),
            final(self).period == old(self).period,
            final(self).damping == old(self).damping,
            final(self).response == old(self).response,
            final(self).xp == old(self).xp,
            final(self).y == old(self).y,
            final(self).yd == old(self).yd,
    {
        self.k = solve_coefficients(self.period, self.damping, self.response);
    }

    /// Overwrites the period and immediately re-derives the coefficients.
    pub fn update_period(&mut self, period: i64)
        requires
            solve_in_range(period as int, old(self).damping as int, old(self).response as int),
        ensures
            final(self).wf(),
            final(self).period == period,
            final(self).damping == old(self).damping,
            final(self).response == old(self).response,
            final(self).xp == old(self).xp,
            final(self).y == old(self).y,
            final(self).yd == old(self).yd,
    {
        self.period = period;
        self.update_k();
    }

    /// Overwrites the damping ratio and immediately re-derives the
    /// coefficients.
    pub fn update_damping(&mut self, damping: i64)
        requires
            solve_in_range(old(self).period as int, damping as int, old(self).response as int),
        ensures
            final(self).wf(),
            final(self).period == old(self).period,
            final(self).damping == damping,
            final(self).response == old(self).response,
            final(self).xp == old(self).xp,
            final(self).y == old(self).y,
            final(self).yd == old(self).yd,
    {
        self.damping = damping;
        self.update_k();
    }

    /// Overwrites the response gain and immediately re-derives the
    /// coefficients.
    pub fn update_response(&mut self, response: i64)
        requires
            solve_in_range(old(self).period as int, old(self).damping as int, response as int),
        ensures
            final(self).wf(),
            final(self).period == old(self).period,
            final(self).damping == old(self).damping,
            final(self).response == response,
            final(self).xp == old(self).xp,
            final(self).y == old(self).y,
            final(self).yd == old(self).yd,
    {
        self.response = response;
        self.update_k();
    }

    /// Seeds the running state from an observed previous/current/rate triple,
    /// used once before the first update to avoid a startup transient.
    pub fn update_initial_values(&mut self, previous: i64, current: i64, current_rate: i64)
        ensures
            final(self).xp == previous,
            final(self).y == current,
            final(self).yd == current_rate,
            final(self).period == old(self).period,
            final(self).damping == old(self).damping,
            final(self).response == old(self).response,
            final(self).k == old(self).k,
    {
        self.xp = previous;
        self.y = current;
        self.yd = current_rate;
    }

    /// Advances the filter by one tick: records the input, integrates the
    /// output forward by the current rate, corrects the rate toward the
    /// target, and returns the new output.
    pub fn update(&mut self, input: i64, delta: i64) -> (out: i64)
        requires
            step_in_range(
                old(self).k.k0 as int,
                old(self).k.k1 as int,
                old(self).k.k2 as int,
                input as int,
                old(self).xp as int,
                old(self).y as int,
                old(self).yd as int,
                delta as int,
            ),
        ensures
            final(self).xp == input,
            final(self).y == next_output_value(old(self).y as int, old(self).yd as int, delta as int),
            final(self).yd == next_rate_value(
                old(self).k.k0 as int,
                old(self).k.k1 as int,
                old(self).k.k2 as int,
                input as int,
                old(self).xp as int,
                old(self).y as int,
                old(self).yd as int,
                delta as int,
            ),
            out == final(self).y,
            final(self).period == old(self).period,
            final(self).damping == old(self).damping,
            final(self).response == old(self).response,
            final(self).k == old(self).k,
    {
        let r = interpolation_step(
            self.k.k0,
            self.k.k1,
            self.k.k2,
            input,
            self.xp,
            self.y,
            self.yd,
            delta,
        );
        self.xp = r.0;
        self.y = r.1;
        self.yd = r.2;
        self.y
    }
}

/// A fixed-point 2D vector channel.
#[derive(Clone, Copy, Debug, PartialEq, Eq, Structural)]
pub struct FxVec2 {
    pub x: i64,
    pub y: i64,
}

/// A fixed-point 3D vector channel.
#[derive(Clone, Copy, Debug, PartialEq, Eq, Structural)]
pub struct FxVec3 {
    pub x: i64,
    pub y: i64,
    pub z: i64,
}

/// A second-order filter over 2D vectors: the scalar step applied to each
/// component, with the stability safeguard shared by both (it depends only on
/// the coefficients and the delta).
pub struct SecondOrderSystemVector2 {
    pub period: i64,
    pub damping: i64,
    pub response: i64,
    pub xp: FxVec2,
    pub y: FxVec2,
    pub yd: FxVec2,
    pub k: Coefficients,
}

impl SecondOrderSystemVector2 {
    /// The cached coefficients are exactly those derived from the current
    /// tuning parameters.
    pub open spec fn wf(self) -> bool {
        &&& solve_in_range(self.period as int, self.damping as int, self.response as int)
        &&& is_coefficients_for(
            self.k,
            self.period as int,
            self.damping as int,
            self.response as int,
        )
    }

    /// Constructs a filter: derives the coefficients and zero-initializes the
    /// running state.
    pub fn new(period: i64, damping: i64, response: i64) -> (s: Self)
        requires
            solve_in_range(period as int, damping as int, response as int),
        ensures
            s.wf(),
            s.period == period,
            s.damping == damping,
            s.response == response,
            s.xp == (FxVec2 { x: 0, y: 0 }),
            s.y == (FxVec2 { x: 0, y: 0 }),
            s.yd == (FxVec2 { x: 0, y: 0 }),
    {
        let k = solve_coefficients(period, damping, response);
        SecondOrderSystemVector2 {
            period,
            damping,
            response,
            xp: FxVec2 { x: 0, y: 0 },
            y: FxVec2 { x: 0, y: 0 },
            yd: FxVec2 { x: 0, y: 0 },
            k,
        }
    }

    /// Re-derives the cached coefficients from the current tuning parameters.
    fn update_k(&mut self)
        requires
            solve_in_range(
                old(self).period as int,
                old(self).damping as int,
                old(self).response as int,
            ),
        ensures
            final(self).wf(),
            final(self).period == old(self).period,
            final(self).damping == old(self).damping,
            final(self).response == old(self).response,
            final(self).xp == old(self).xp,
            final(self).y == old(self).y,
            final(self).yd == old(self).yd,
    {
        self.k = solve_coefficients(self.period, self.damping, self.response);
    }

    /// Overwrites the period and immediately re-derives the coefficients.
    pub fn update_period(&mut self, period: i64)
        requires
            solve_in_range(period as int, old(self).damping as int, old(self).response as int),
        ensures
            final(self).wf(),
            final(self).period == period,
            final(self).damping == old(self).damping,
            final(self).response == old(self).response,
            final(self).xp == old(self).xp,
            final(self).y == old(self).y,
            final(self).yd == old(self).yd,
    {
        self.period = period;
        self.update_k();
    }

    /// Overwrites the damping ratio and immediately re-derives the
    /// coefficients.
    pub fn update_damping(&mut self, damping: i64)
        requires
            solve_in_range(old(self).period as int, damping as int, old(self).response as int),
        ensures
            final(self).wf(),
            final(self).period == old(self).period,
            final(self).damping == damping,
            final(self).response == old(self).response,
            final(self).xp == old(self).xp,
            final(self).y == old(self).y,
            final(self).yd == old(self).yd,
    {
        self.damping = damping;
        self.update_k();
    }

    /// Overwrites the response gain and immediately re-derives the
    /// coefficients.
    pub fn update_response(&mut self, response: i64)
        requires
            solve_in_range(old(self).period as int, old(self).damping as int, response as int),
        ensures
            final(self).wf(),
            final(self).period == old(self).period,
            final(self).damping == old(self).damping,
            final(self).response == response,
            final(self).xp == old(self).xp,
            final(self).y == old(self).y,
            final(self).yd == old(self).yd,
    {
        self.response = response;
        self.update_k();
    }

    /// Seeds the running state from an observed previous/current/rate triple.
    pub fn update_initial_values(&mut self, previous: FxVec2, current: FxVec2, current_rate: FxVec2)
        ensures
            final(self).xp == previous,
            final(self).y == current,
            final(self).yd == current_rate,
            final(self).period == old(self).period,
            final(self).damping == old(self).damping,
            final(self).response == old(self).response,
            final(self).k == old(self).k,
    {
        self.xp = previous;
        self.y = current;
        self.yd = current_rate;
    }

    /// Advances the filter by one tick, componentwise, and returns the new
    /// output vector.
    pub fn update(&mut self, input: FxVec2, delta: i64) -> (out: FxVec2)
        requires
            step_in_range(
                old(self).k.k0 as int,
                old(self).k.k1 as int,
                old(self).k.k2 as int,
                input.x as int,
                old(self).xp.x as int,
                old(self).y.x as int,
                old(self).yd.x as int,
                delta as int,
            ),
            step_in_range(
                old(self).k.k0 as int,
                old(self).k.k1 as int,
                old(self).k.k2 as int,
                input.y as int,
                old(self).xp.y as int,
                old(self).y.y as int,
                old(self).yd.y as int,
                delta as int,
            ),
        ensures
            final(self).xp == input,
            final(self).y.x == next_output_value(
                old(self).y.x as int,
                old(self).yd.x as int,
                delta as int,
            ),
            final(self).y.y == next_output_value(
                old(self).y.y as int,
                old(self).yd.y as int,
                delta as int,
            ),
            final(self).yd.x == next_rate_value(
                old(self).k.k0 as int,
                old(self).k.k1 as int,
                old(self).k.k2 as int,
                input.x as int,
                old(self).xp.x as int,
                old(self).y.x as int,
                old(self).yd.x as int,
                delta as int,
            ),
            final(self).yd.y == next_rate_value(
                old(self).k.k0 as int,
                old(self).k.k1 as int,
                old(self).k.k2 as int,
                input.y as int,
                old(self).xp.y as int,
                old(self).y.y as int,
                old(self).yd.y as int,
                delta as int,
            ),
            out == final(self).y,
            final(self).period == old(self).period,
            final(self).damping == old(self).damping,
            final(self).response == old(self).response,
            final(self).k == old(self).k,
    {
        let rx = interpolation_step(
            self.k.k0,
            self.k.k1,
            self.k.k2,
            input.x,
            self.xp.x,
            self.y.x,
            self.yd.x,
            delta,
        );
        let ry = interpolation_step(
            self.k.k0,
            self.k.k1,
            self.k.k2,
            input.y,
            self.xp.y,
            self.y.y,
            self.yd.y,
            delta,
        );
        self.xp = FxVec2 { x: rx.0, y: ry.0 };
        self.y = FxVec2 { x: rx.1, y: ry.1 };
        self.yd = FxVec2 { x: rx.2, y: ry.2 };
        self.y
    }
}

/// A second-order filter over 3D vectors: the scalar step applied to each
/// component.
pub struct SecondOrderSystemVector3 {
    pub period: i64,
    pub damping: i64,
    pub response: i64,
    pub xp: FxVec3,
    pub y: FxVec3,
    pub yd: FxVec3,
    pub k: Coefficients,
}

impl SecondOrderSystemVector3 {
    /// The cached coefficients are exactly those derived from the current
    /// tuning parameters.
    pub open spec fn wf(self) -> bool {
        &&& solve_in_range(self.period as int, self.damping as int, self.response as int)
        &&& is_coefficients_for(
            self.k,
            self.period as int,
            self.damping as int,
            self.response as int,
        )
    }

    /// Constructs a filter: derives the coefficients and zero-initializes the
    /// running state.
    pub fn new(period: i64, damping: i64, response: i64) -> (s: Self)
        requires
            solve_in_range(period as int, damping as int, response as int),
        ensures
            s.wf(),
            s.period == period,
            s.damping == damping,
            s.response == response,
            s.xp == (FxVec3 { x: 0, y: 0, z: 0 }),
            s.y == (FxVec3 { x: 0, y: 0, z: 0 }),
            s.yd == (FxVec3 { x: 0, y: 0, z: 0 }),
    {
        let k = solve_coefficients(period, damping, response);
        SecondOrderSystemVector3 {
            period,
            damping,
            response,
            xp: FxVec3 { x: 0, y: 0, z: 0 },
            y: FxVec3 { x: 0, y: 0, z: 0 },
            yd: FxVec3 { x: 0, y: 0, z: 0 },
            k,
        }
    }

    /// Re-derives the cached coefficients from the current tuning parameters.
    fn update_k(&mut self)
        requires
            solve_in_range(
                old(self).period as int,
                old(self).damping as int,
                old(self).response as int,
            ),
        ensures
            final(self).wf(),
            final(self).period == old(self).period,
            final(self).damping == old(self).damping,
            final(self).response == old(self).response,
            final(self).xp == old(self).xp,
            final(self).y == old(self).y,
            final(self).yd == old(self).yd,
    {
        self.k = solve_coefficients(self.period, self.damping, self.response);
    }

    /// Overwrites the period and immediately re-derives the coefficients.
    pub fn update_period(&mut self, period: i64)
        requires
            solve_in_range(period as int, old(self).damping as int, old(self).response as int),
        ensures
            final(self).wf(),
            final(self).period == period,
            final(self).damping == old(self).damping,
            final(self).response == old(self).response,
            final(self).xp == old(self).xp,
            final(self).y == old(self).y,
            final(self).yd == old(self).yd,
    {
        self.period = period;
        self.update_k();
    }

    /// Overwrites the damping ratio and immediately re-derives the
    /// coefficients.
    pub fn update_damping(&mut self, damping: i64)
        requires
            solve_in_range(old(self).period as int, damping as int, old(self).response as int),
        ensures
            final(self).wf(),
            final(self).period == old(self).period,
            final(self).damping == damping,
            final(self).response == old(self).response,
            final(self).xp == old(self).xp,
            final(self).y == old(self).y,
            final(self).yd == old(self).yd,
    {
        self.damping = damping;
        self.update_k();
    }

    /// Overwrites the response gain and immediately re-derives the
    /// coefficients.
    pub fn update_response(&mut self, response: i64)
        requires
            solve_in_range(old(self).period as int, old(self).damping as int, response as int),
        ensures
            final(self).wf(),
            final(self).period == old(self).period,
            final(self).damping == old(self).damping,
            final(self).response == response,
            final(self).xp == old(self).xp,
            final(self).y == old(self).y,
            final(self).yd == old(self).yd,
    {
        self.response = response;
        self.update_k();
    }

    /// Seeds the running state from an observed previous/current/rate triple.
    pub fn update_initial_values(&mut self, previous: FxVec3, current: FxVec3, current_rate: FxVec3)
        ensures
            final(self).xp == previous,
            final(self).y == current,
            final(self).yd == current_rate,
            final(self).period == old(self).period,
            final(self).damping == old(self).damping,
            final(self).response == old(self).response,
            final(self).k == old(self).k,
    {
        self.xp = previous;
        self.y = current;
        self.yd = current_rate;
    }

    /// Advances the filter by one tick, componentwise, and returns the new
    /// output vector.
    pub fn update(&mut self, input: FxVec3, delta: i64) -> (out: FxVec3)
        requires
            step_in_range(
                old(self).k.k0 as int,
                old(self).k.k1 as int,
                old(self).k.k2 as int,
                input.x as int,
                old(self).xp.x as int,
                old(self).y.x as int,
                old(self).yd.x as int,
                delta as int,
            ),
            step_in_range(
                old(self).k.k0 as int,
                old(self).k.k1 as int,
                old(self).k.k2 as int,
                input.y as int,
                old(self).xp.y as int,
                old(self).y.y as int,
                old(self).yd.y as int,
                delta as int,
            ),
            step_in_range(
                old(self).k.k0 as int,
                old(self).k.k1 as int,
                old(self).k.k2 as int,
                input.z as int,
                old(self).xp.z as int,
                old(self).y.z as int,
                old(self).yd.z as int,
                delta as int,
            ),
        ensures
            final(self).xp == input,
            final(self).y.x == next_output_value(
                old(self).y.x as int,
                old(self).yd.x as int,
                delta as int,
            ),
            final(self).y.y == next_output_value(
                old(self).y.y as int,
                old(self).yd.y as int,
                delta as int,
            ),
            final(self).y.z == next_output_value(
                old(self).y.z as int,
                old(self).yd.z as int,
                delta as int,
            ),
            final(self).yd.x == next_rate_value(
                old(self).k.k0 as int,
                old(self).k.k1 as int,
                old(self).k.k2 as int,
                input.x as int,
                old(self).xp.x as int,
                old(self).y.x as int,
                old(self).yd.x as int,
                delta as int,
            ),
            final(self).yd.y == next_rate_value(
                old(self).k.k0 as int,
                old(self).k.k1 as int,
                old(self).k.k2 as int,
                input.y as int,
                old(self).xp.y as int,
                old(self).y.y as int,
                old(self).yd.y as int,
                delta as int,
            ),
            final(self).yd.z == next_rate_value(
                old(self).k.k0 as int,
                old(self).k.k1 as int,
                old(self).k.k2 as int,
                input.z as int,
                old(self).xp.z as int,
                old(self).y.z as int,
                old(self).yd.z as int,
                delta as int,
            ),
            out == final(self).y,
            final(self).period == old(self).period,
            final(self).damping == old(self).damping,
            final(self).response == old(self).response,
            final(self).k == old(self).k,
    {
        let rx = interpolation_step(
            self.k.k0,
            self.k.k1,
            self.k.k2,
            input.x,
            self.xp.x,
            self.y.x,
            self.yd.x,
            delta,
        );
        let ry = interpolation_step(
            self.k.k0,
            self.k.k1,
            self.k.k2,
            input.y,
            self.xp.y,
            self.y.y,
            self.yd.y,
            delta,
        );
        let rz = interpolation_step(
            self.k.k0,
            self.k.k1,
            self.k.k2,
            input.z,
            self.xp.z,
            self.y.z,
            self.yd.z,
            delta,
        );
        self.xp = FxVec3 { x: rx.0, y: ry.0, z: rz.0 };
        self.y = FxVec3 { x: rx.1, y: ry.1, z: rz.1 };
        self.yd = FxVec3 { x: rx.2, y: ry.2, z: rz.2 };
        self.y
    }
}

/// The stability safeguard only ever raises the divisor of the rate
/// correction: it never falls below the configured `k1`, and with a
/// non-negative first coefficient it also dominates the squared time step,
/// which is the clamp that keeps a single step's correction from growing
/// with the step.
pub proof fn lemma_stability_floor_dominates(k0: int, k1: int, d: int)
    requires
        d >= 0,
        k0 >= 0,
    ensures
        k1_stable_value(k0, k1, d) >= k1,
        k1_stable_value(k0, k1, d) >= fx_mul_value(d, d),
{
    let s = FX_SCALE as int;
    assert(d * d >= 0) by (nonlinear_arith)
        requires
            d >= 0,
    ;
    assert(d * k0 >= 0) by (nonlinear_arith)
        requires
            d >= 0,
            k0 >= 0,
    ;
    lemma_div_pos_is_pos(d * d, s);
    lemma_div_pos_is_pos(d * k0, s);
    let dd = fx_mul_value(d, d);
    let half = qdiv(fx_mul_value(d, k0), 2);
    lemma_div_pos_is_pos(fx_mul_value(d, k0), 2);
    assert((FX_STABILITY_MARGIN as int) * (dd + half) >= s * (dd + half)) by (nonlinear_arith)
        requires
            FX_STABILITY_MARGIN as int >= s,
            dd + half >= 0,
    ;
    lemma_div_is_ordered(s * (dd + half), (FX_STABILITY_MARGIN as int) * (dd + half), s);
    lemma_div_multiples_vanish(dd + half, s);
    assert(stability_floor_value(k0, d) >= dd + half);
}

/// Seeding with the current value as both previous input and output, and a
/// zero rate, makes the first update of a constant target a fixed point: the
/// output comes back unchanged and the rate stays zero, so there is no
/// startup transient.
pub proof fn lemma_zero_rate_seed_no_transient(k0: int, k1: int, k2: int, target: int, d: int)
    requires
        d >= 1,
        k1_stable_value(k0, k1, d) >= 1,
    ensures
        next_output_value(target, 0, d) == target,
        next_rate_value(k0, k1, k2, target, target, target, 0, d) == 0,
{
    lemma_fx_mul_zero(d);
    lemma_fx_mul_zero(k2);
    lemma_fx_mul_zero(k0);
    assert(target_rate_value(target, target, d) == 0);
    assert(accel_numerator_value(k0, k2, target, target, target, 0, d) == 0);
}

} // verus!
