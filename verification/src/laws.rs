//! Cross-cutting laws of the locomotion core, stated and proved once.
//!
//! Each law here relates several of the per-step functions: what a single
//! direction resolves to, what a diagonal resolves to, what a body at rest
//! on flat ground is commanded, and how the force-matching servo closes on
//! its goal velocity.

use crate::controller::{spec_vertical_force, ControllerConfig};
use crate::input::InputState;
use crate::integrate::{
    lemma_servo_iterate_approaches, lemma_servo_no_overshoot, lemma_servo_progress,
    spec_integrate_velocity, spec_servo_iterate,
};
use crate::math::{
    lemma_scale_squared, lemma_sqrt_floor_unique, lemma_tdiv_cancel, lemma_tdiv_zero, spec_len2,
    spec_normalize, tdiv, Vec3, SCALE,
};
use crate::movement::{
    lemma_goal_speed_bound, spec_direction_sum, spec_force_matching, spec_goal_velocity,
    spec_resolve_direction, spec_speed,
};
use crate::suspension::{lemma_suspension_equilibrium, GroundSample};
use crate::transform::Transform;
use crate::turning::{spec_turn_command, PointerDelta};
use vstd::arithmetic::div_mod::{
    lemma_div_pos_is_pos, lemma_fundamental_div_mod, lemma_mod_division_less_than_divisor,
};
use vstd::prelude::*;

verus! {

/// Exactly one of the four horizontal direction flags is raised.
pub open spec fn single_direction(s: InputState) -> bool {
    ||| (s.forward && !s.backward && !s.left && !s.right)
    ||| (!s.forward && s.backward && !s.left && !s.right)
    ||| (!s.forward && !s.backward && s.left && !s.right)
    ||| (!s.forward && !s.backward && !s.left && s.right)
}

/// Negating none or both components of a pair preserves its squared length.
proof fn lemma_sign_len2(a: int, b: int, x: int, z: int)
    requires
        (a == x && b == z) || (a == -x && b == -z),
    ensures
        a * a + b * b == x * x + z * z,
{
    assert(a * a + b * b == x * x + z * z) by (nonlinear_arith)
        requires (a == x && b == z) || (a == -x && b == -z);
}

/// With a single direction held — and no vertical intent — the resolved
/// direction is the unit basis contribution itself: normalization leaves a
/// vector that is already unit length untouched, so the horizontal
/// direction has unit length before speed scaling.
pub proof fn lemma_single_direction_unit(t: Transform, s: InputState, fly: bool)
    requires
        t.wf(),
        single_direction(s),
        fly ==> s.up == s.down,
    ensures
        spec_resolve_direction(t, s, fly) == spec_direction_sum(t, s, fly),
        spec_len2(
            spec_resolve_direction(t, s, fly).0,
            spec_resolve_direction(t, s, fly).1,
            spec_resolve_direction(t, s, fly).2,
        ) == SCALE * SCALE,
{
    let ds = spec_direction_sum(t, s, fly);
    assert(ds.1 == 0);
    if s.forward {
        lemma_sign_len2(ds.0, ds.2, t.forward.x as int, t.forward.z as int);
    } else if s.backward {
        lemma_sign_len2(ds.0, ds.2, t.forward.x as int, t.forward.z as int);
    } else if s.left {
        lemma_sign_len2(ds.0, ds.2, t.local_x.x as int, t.local_x.z as int);
    } else {
        lemma_sign_len2(ds.0, ds.2, t.local_x.x as int, t.local_x.z as int);
    }
    assert(t.forward.y * t.forward.y == 0 && t.local_x.y * t.local_x.y == 0) by (nonlinear_arith)
        requires t.forward.y == 0, t.local_x.y == 0;
    assert(spec_len2(ds.0, ds.1, ds.2) == SCALE * SCALE);
    lemma_scale_squared();
    assert(1000 * 1000 <= 1_000_000 < 1001 * 1001) by (nonlinear_arith);
    lemma_sqrt_floor_unique(1_000_000 as nat, 1000 as nat);
    lemma_tdiv_cancel(ds.0, SCALE as int);
    lemma_tdiv_cancel(ds.1, SCALE as int);
    lemma_tdiv_cancel(ds.2, SCALE as int);
    assert(ds.0 * SCALE == ds.0 * 1000 && ds.1 * SCALE == ds.1 * 1000 && ds.2 * SCALE == ds.2
        * 1000);
    lemma_sign_len2(
        spec_resolve_direction(t, s, fly).0,
        spec_resolve_direction(t, s, fly).2,
        ds.0,
        ds.2,
    );
}

/// Squared length of the truncated normalization of a vector of squared
/// length exactly two million: within a third of a percent of unit.
proof fn lemma_diag_norm_len2(x: int, z: int)
    requires
        x * x + z * z == 2_000_000,
    ensures
        996_303 <= tdiv(x * 1000, 1414) * tdiv(x * 1000, 1414) + tdiv(z * 1000, 1414) * tdiv(
            z * 1000,
            1414,
        ) <= 1_000_302,
{
    let px = if x >= 0 { x } else { -x };
    let pz = if z >= 0 { z } else { -z };
    let qx = tdiv(x * 1000, 1414);
    let qz = tdiv(z * 1000, 1414);
    let ux = (px * 1000) / 1414;
    let uz = (pz * 1000) / 1414;
    assert(qx * qx == ux * ux && px * px == x * x) by (nonlinear_arith)
        requires
            (x >= 0 && px == x && qx == (px * 1000) / 1414 && ux == (px * 1000) / 1414) || (x < 0
                && px == -x && qx == -((px * 1000) / 1414) && ux == (px * 1000) / 1414);
    assert(qz * qz == uz * uz && pz * pz == z * z) by (nonlinear_arith)
        requires
            (z >= 0 && pz == z && qz == (pz * 1000) / 1414 && uz == (pz * 1000) / 1414) || (z < 0
                && pz == -z && qz == -((pz * 1000) / 1414) && uz == (pz * 1000) / 1414);
    assert(px <= 1414 && pz <= 1414) by (nonlinear_arith)
        requires px * px + pz * pz == 2_000_000, px >= 0, pz >= 0;
    lemma_fundamental_div_mod(px * 1000, 1414);
    lemma_fundamental_div_mod(pz * 1000, 1414);
    lemma_mod_division_less_than_divisor(px * 1000, 1414);
    lemma_mod_division_less_than_divisor(pz * 1000, 1414);
    lemma_div_pos_is_pos(px * 1000, 1414);
    lemma_div_pos_is_pos(pz * 1000, 1414);
    assert(1414 * ux <= px * 1000 && px * 1000 <= 1414 * ux + 1413);
    assert(ux <= 1000 && uz <= 1000);
    assert(1_999_396 * (ux * ux) <= 1_000_000 * (px * px)) by (nonlinear_arith)
        requires 0 <= 1414 * ux, 1414 * ux <= px * 1000;
    assert(1_999_396 * (uz * uz) <= 1_000_000 * (pz * pz)) by (nonlinear_arith)
        requires 0 <= 1414 * uz, 1414 * uz <= pz * 1000;
    assert(1_000_000 * (px * px) <= 1_999_396 * (ux * ux) + 3_995_964 * ux + 1_996_569)
        by (nonlinear_arith)
        requires 0 <= px * 1000, px * 1000 <= 1414 * ux + 1413, 0 <= ux;
    assert(1_000_000 * (pz * pz) <= 1_999_396 * (uz * uz) + 3_995_964 * uz + 1_996_569)
        by (nonlinear_arith)
        requires 0 <= pz * 1000, pz * 1000 <= 1414 * uz + 1413, 0 <= uz;
    assert(1_999_396 * (ux * ux + uz * uz) == 1_999_396 * (ux * ux) + 1_999_396 * (uz * uz))
        by (nonlinear_arith);
    assert(1_000_000 * (px * px) + 1_000_000 * (pz * pz) == 2_000_000_000_000)
        by (nonlinear_arith)
        requires px * px + pz * pz == 2_000_000;
    assert(ux * ux + uz * uz <= 1_000_302);
    assert(996_303 <= ux * ux + uz * uz);
}

/// Forward and right held together resolve to the normalized diagonal: the
/// raw contribution sum has squared length twice unit — not the resolved
/// direction, which normalization brings back to within a third of a
/// percent of the single-direction magnitude.
pub proof fn lemma_diagonal_direction(t: Transform, s: InputState, fly: bool)
    requires
        t.wf(),
        s.forward && s.right && !s.backward && !s.left,
        fly ==> s.up == s.down,
    ensures
        spec_len2(
            spec_direction_sum(t, s, fly).0,
            spec_direction_sum(t, s, fly).1,
            spec_direction_sum(t, s, fly).2,
        ) == 2 * (SCALE * SCALE),
        spec_resolve_direction(t, s, fly) == spec_normalize(
            spec_direction_sum(t, s, fly).0,
            spec_direction_sum(t, s, fly).1,
            spec_direction_sum(t, s, fly).2,
        ),
        (SCALE - 2) * (SCALE - 2) <= spec_len2(
            spec_resolve_direction(t, s, fly).0,
            spec_resolve_direction(t, s, fly).1,
            spec_resolve_direction(t, s, fly).2,
        ),
        spec_len2(
            spec_resolve_direction(t, s, fly).0,
            spec_resolve_direction(t, s, fly).1,
            spec_resolve_direction(t, s, fly).2,
        ) <= (SCALE + 1) * (SCALE + 1),
{
    let f = t.forward;
    let lx = t.local_x;
    let ds = spec_direction_sum(t, s, fly);
    assert(ds.0 == -f.x - lx.x && ds.1 == 0 && ds.2 == -f.z - lx.z);
    assert(ds.0 * ds.0 + ds.1 * ds.1 + ds.2 * ds.2 == 2 * (SCALE * SCALE)) by (nonlinear_arith)
        requires
            ds.0 == -f.x - lx.x,
            ds.1 == 0,
            ds.2 == -f.z - lx.z,
            f.y == 0,
            lx.y == 0,
            f.x * f.x + f.y * f.y + f.z * f.z == SCALE * SCALE,
            lx.x * lx.x + lx.y * lx.y + lx.z * lx.z == SCALE * SCALE,
            f.x * lx.x + f.y * lx.y + f.z * lx.z == 0;
    lemma_scale_squared();
    assert(1414 * 1414 <= 2_000_000 < 1415 * 1415) by (nonlinear_arith);
    lemma_sqrt_floor_unique(2_000_000 as nat, 1414 as nat);
    let d = spec_resolve_direction(t, s, fly);
    assert(d.0 == tdiv(ds.0 * SCALE, 1414) && d.1 == tdiv(ds.1 * SCALE, 1414) && d.2 == tdiv(
        ds.2 * SCALE,
        1414,
    ));
    assert(ds.0 * SCALE == ds.0 * 1000 && ds.1 * SCALE == 0 && ds.2 * SCALE == ds.2 * 1000);
    lemma_tdiv_zero(1414);
    lemma_diag_norm_len2(ds.0, ds.2);
    assert((SCALE - 2) * (SCALE - 2) == 996_004 && (SCALE + 1) * (SCALE + 1) == 1_002_001)
        by (nonlinear_arith)
        requires SCALE == 1000;
}

/// A body at rest on flat ground draws no command: probe at exactly the
/// ride height, zero velocity and no intent leave every axis of the
/// force-matching command at zero, and an empty pointer stream leaves the
/// yaw rate at zero — equilibrium.
pub proof fn lemma_rest_equilibrium(t: Transform, cfg: ControllerConfig, ground: GroundSample)
    requires
        t.wf(),
        cfg.valid(),
        !cfg.fly,
        ground.hit,
        ground.distance == cfg.ride_height,
    ensures
        spec_force_matching(t, InputState::spec_empty(), cfg, Vec3 { x: 0, y: 0, z: 0 }, true).0
            == 0,
        spec_force_matching(t, InputState::spec_empty(), cfg, Vec3 { x: 0, y: 0, z: 0 }, true).2
            == 0,
        spec_vertical_force(t, InputState::spec_empty(), cfg, Vec3 { x: 0, y: 0, z: 0 }, ground)
            == 0,
        spec_turn_command(Seq::<PointerDelta>::empty()) == 0,
{
    let s = InputState::spec_empty();
    let ds = spec_direction_sum(t, s, cfg.fly);
    assert(ds == (0int, 0int, 0int));
    assert(spec_len2(0, 0, 0) == 0) by (nonlinear_arith);
    let speed = spec_speed(cfg, s);
    assert(0 * speed == 0) by (nonlinear_arith);
    lemma_tdiv_zero(SCALE as int);
    let g = spec_goal_velocity(t, s, cfg);
    assert(g == (0int, 0int, 0int));
    assert((0 - 0) * SCALE == 0) by (nonlinear_arith);
    lemma_suspension_equilibrium(cfg);
}

/// Jump intent while the probe found no ground grants no vertical impulse,
/// under every strategy: the force command's vertical term stays zero, the
/// velocity command keeps the integrator's vertical velocity, and the
/// kinematic command carries no impulse.
pub proof fn lemma_airborne_jump_no_vertical(
    t: Transform,
    s: InputState,
    cfg: ControllerConfig,
    linvel: Vec3,
    ground: GroundSample,
)
    requires
        cfg.valid(),
        !cfg.fly,
        s.jump,
        !ground.hit,
    ensures
        spec_force_matching(t, s, cfg, linvel, false).1 == 0,
        spec_vertical_force(t, s, cfg, linvel, ground) == 0,
        crate::movement::spec_direct_velocity(t, s, cfg, linvel, false).1 == linvel.y,
        crate::movement::spec_kinematic_impulse(t, s, cfg, false) is None,
{
}

/// The force-matching servo closes on its goal: the goal never exceeds the
/// configured speed, one integrated step moves each horizontal velocity
/// component toward its goal without overshoot — so a velocity within the
/// speed limit stays within it — and the remaining gap shrinks by exactly
/// the truncated share `gap * dt / SCALE`, strictly so while that share is
/// at least one subunit.
pub proof fn lemma_force_matching_approach(
    t: Transform,
    s: InputState,
    cfg: ControllerConfig,
    linvel: Vec3,
    grounded: bool,
    dt: int,
)
    requires
        t.wf(),
        cfg.valid(),
        0 < dt <= SCALE,
    ensures
        ({
            let g = spec_goal_velocity(t, s, cfg);
            let fm = spec_force_matching(t, s, cfg, linvel, grounded);
            let vx2 = spec_integrate_velocity(linvel.x as int, fm.0, dt);
            let vz2 = spec_integrate_velocity(linvel.z as int, fm.2, dt);
            &&& -spec_speed(cfg, s) <= g.0 <= spec_speed(cfg, s)
            &&& -spec_speed(cfg, s) <= g.2 <= spec_speed(cfg, s)
            &&& (linvel.x <= g.0 ==> linvel.x <= vx2 <= g.0)
            &&& (g.0 <= linvel.x ==> g.0 <= vx2 <= linvel.x)
            &&& (linvel.z <= g.2 ==> linvel.z <= vz2 <= g.2)
            &&& (g.2 <= linvel.z ==> g.2 <= vz2 <= linvel.z)
            &&& (-spec_speed(cfg, s) <= linvel.x <= spec_speed(cfg, s) ==> -spec_speed(cfg, s)
                <= vx2 <= spec_speed(cfg, s))
            &&& (-spec_speed(cfg, s) <= linvel.z <= spec_speed(cfg, s) ==> -spec_speed(cfg, s)
                <= vz2 <= spec_speed(cfg, s))
            &&& g.0 - vx2 == (g.0 - linvel.x) - tdiv((g.0 - linvel.x) * dt, SCALE as int)
            &&& g.2 - vz2 == (g.2 - linvel.z) - tdiv((g.2 - linvel.z) * dt, SCALE as int)
            &&& ((g.0 - linvel.x) * dt >= SCALE ==> g.0 - vx2 < g.0 - linvel.x)
        }),
{
    let g = spec_goal_velocity(t, s, cfg);
    lemma_goal_speed_bound(t, s, cfg);
    lemma_servo_no_overshoot(linvel.x as int, g.0, dt);
    lemma_servo_no_overshoot(linvel.z as int, g.2, dt);
    lemma_servo_progress(linvel.x as int, g.0, dt);
    lemma_servo_progress(linvel.z as int, g.2, dt);
}

/// Intent held over any number of steps under force matching: with the same
/// pose basis and intent, each step's corrective force is the servo's, so a
/// horizontal velocity component starting at or below its goal climbs
/// monotonically toward it, never passes it, and stays within the
/// configured speed.
pub proof fn lemma_held_intent_converges(
    t: Transform,
    s: InputState,
    cfg: ControllerConfig,
    v0: int,
    dt: int,
    n: nat,
)
    requires
        t.wf(),
        cfg.valid(),
        0 < dt <= SCALE,
        v0 <= spec_goal_velocity(t, s, cfg).2,
    ensures
        ({
            let goal = spec_goal_velocity(t, s, cfg).2;
            let vn = spec_servo_iterate(v0, goal, dt, n);
            &&& v0 <= vn <= goal
            &&& vn <= spec_servo_iterate(v0, goal, dt, n + 1)
            &&& vn <= spec_speed(cfg, s)
        }),
{
    let goal = spec_goal_velocity(t, s, cfg).2;
    lemma_servo_iterate_approaches(v0, goal, dt, n);
    lemma_goal_speed_bound(t, s, cfg);
}

} // verus!
