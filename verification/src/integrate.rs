//! A reference model of the external integrator's velocity update.
//!
//! The integrator itself is the host's: the library only submits commands.
//! This model — velocity plus force times step length, unit mass — is what
//! the closed-loop laws of the force-matching servo are stated against, and
//! what a host without a physics engine can run directly.

use crate::math::{lemma_scale_squared, lemma_tdiv_cancel, tdiv, MAX_COORD, SCALE};
use vstd::arithmetic::div_mod::{
    lemma_div_by_self, lemma_div_is_ordered, lemma_div_pos_is_pos,
};
use vstd::prelude::*;

verus! {

/// Greatest force magnitude the model accepts, in squared-subunit scale.
pub const MAX_FORCE: i64 = 4_000_000_000_000_000;

/// The velocity after one step under `force`: `v + force * dt`, with the
/// product carried from squared-subunit force scale back to subunit
/// velocity scale.
pub open spec fn spec_integrate_velocity(v: int, force: int, dt: int) -> int {
    v + tdiv(force * dt, SCALE * SCALE)
}

/// Advances one velocity component by one step of `force` over `dt`.
pub fn integrate_velocity(v: i64, force: i64, dt: i64) -> (r: i64)
    requires
        -MAX_COORD <= v <= MAX_COORD,
        -MAX_FORCE <= force <= MAX_FORCE,
        0 < dt <= SCALE,
    ensures
        r == spec_integrate_velocity(v as int, force as int, dt as int),
{
    proof {
        lemma_scale_squared();
        assert((0 <= force ==> 0 <= force * dt <= 4_000_000_000_000_000_000) && (force <= 0 ==> 0
            <= (-force) * dt <= 4_000_000_000_000_000_000) && ((-force) * dt == -(force * dt)))
            by (nonlinear_arith)
            requires
                -4_000_000_000_000_000 <= force <= 4_000_000_000_000_000,
                0 < dt <= 1000;
        crate::math::lemma_tdiv_sign(force * dt, 1_000_000);
    }
    if force >= 0 {
        v + (force * dt) / 1_000_000
    } else {
        v - (((-force) * dt) / 1_000_000)
    }
}

/// Integrating the velocity-matching force `(goal - v) * SCALE` moves the
/// velocity by the gap's share of the step: the two scale factors cancel.
pub proof fn lemma_servo_integrates(v: int, goal: int, dt: int)
    requires
        0 < dt <= SCALE,
    ensures
        spec_integrate_velocity(v, (goal - v) * SCALE, dt) == v + tdiv(
            (goal - v) * dt,
            SCALE as int,
        ),
{
    let b = (goal - v) * dt;
    assert(((goal - v) * SCALE) * dt == b * SCALE) by (nonlinear_arith)
        requires b == (goal - v) * dt;
    if b >= 0 {
        vstd::arithmetic::div_mod::lemma_div_denominator(b * SCALE, SCALE as int, SCALE as int);
        lemma_tdiv_cancel(b, SCALE as int);
        assert(b * SCALE >= 0) by (nonlinear_arith)
            requires b >= 0, SCALE >= 1;
    } else {
        assert(-(b * SCALE) == (-b) * SCALE && b * SCALE < 0) by (nonlinear_arith)
            requires b < 0, SCALE >= 1;
        vstd::arithmetic::div_mod::lemma_div_denominator((-b) * SCALE, SCALE as int, SCALE as int);
        lemma_tdiv_cancel(-b, SCALE as int);
    }
}

/// The velocity servo never overshoots: one integrated step of the
/// velocity-matching force lands between the current velocity and the goal.
pub proof fn lemma_servo_no_overshoot(v: int, goal: int, dt: int)
    requires
        0 < dt <= SCALE,
    ensures
        v <= goal ==> v <= spec_integrate_velocity(v, (goal - v) * SCALE, dt) <= goal,
        goal <= v ==> goal <= spec_integrate_velocity(v, (goal - v) * SCALE, dt) <= v,
{
    lemma_servo_integrates(v, goal, dt);
    let b = (goal - v) * dt;
    if v <= goal {
        assert(0 <= b <= (goal - v) * SCALE) by (nonlinear_arith)
            requires 0 <= goal - v, 0 < dt <= SCALE, b == (goal - v) * dt;
        lemma_div_pos_is_pos(b, SCALE as int);
        lemma_div_is_ordered(b, (goal - v) * SCALE, SCALE as int);
        lemma_tdiv_cancel(goal - v, SCALE as int);
    } else {
        assert((goal - v) * SCALE <= b <= 0 && -b <= (v - goal) * SCALE && -((goal - v) * SCALE)
            == (v - goal) * SCALE) by (nonlinear_arith)
            requires goal - v < 0, 0 < dt <= SCALE, b == (goal - v) * dt;
        lemma_div_pos_is_pos(-b, SCALE as int);
        lemma_div_is_ordered(-b, (v - goal) * SCALE, SCALE as int);
        lemma_tdiv_cancel(v - goal, SCALE as int);
    }
}

/// The velocity after `n` resolve-and-integrate cycles of the
/// velocity-matching servo toward a fixed goal.
pub open spec fn spec_servo_iterate(v: int, goal: int, dt: int, n: nat) -> int
    decreases n,
{
    if n == 0 {
        v
    } else {
        let prev = spec_servo_iterate(v, goal, dt, (n - 1) as nat);
        spec_integrate_velocity(prev, (goal - prev) * SCALE, dt)
    }
}

/// Intent held over any number of steps: starting at or below the goal, the
/// velocity climbs monotonically toward it and never passes it.
pub proof fn lemma_servo_iterate_approaches(v: int, goal: int, dt: int, n: nat)
    requires
        0 < dt <= SCALE,
        v <= goal,
    ensures
        v <= spec_servo_iterate(v, goal, dt, n) <= goal,
        spec_servo_iterate(v, goal, dt, n) <= spec_servo_iterate(v, goal, dt, n + 1),
    decreases n,
{
    if n == 0 {
        lemma_servo_no_overshoot(v, goal, dt);
    } else {
        lemma_servo_iterate_approaches(v, goal, dt, (n - 1) as nat);
        let prev = spec_servo_iterate(v, goal, dt, (n - 1) as nat);
        lemma_servo_no_overshoot(prev, goal, dt);
        let cur = spec_servo_iterate(v, goal, dt, n);
        lemma_servo_no_overshoot(cur, goal, dt);
    }
}

/// Each step closes the gap to the goal by exactly the truncated share
/// `gap * dt / SCALE`; while that share is at least one subunit — the gap
/// times the step length still reaches `SCALE` — the approach is strict.
pub proof fn lemma_servo_progress(v: int, goal: int, dt: int)
    requires
        0 < dt <= SCALE,
    ensures
        goal - spec_integrate_velocity(v, (goal - v) * SCALE, dt) == (goal - v) - tdiv(
            (goal - v) * dt,
            SCALE as int,
        ),
        (goal - v) * dt >= SCALE ==> tdiv((goal - v) * dt, SCALE as int) >= 1,
{
    lemma_servo_integrates(v, goal, dt);
    let b = (goal - v) * dt;
    if b >= SCALE {
        lemma_div_is_ordered(SCALE as int, b, SCALE as int);
        lemma_div_by_self(SCALE as int);
    }
}

} // verus!
