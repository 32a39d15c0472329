//! The movement resolver: per-step conversion of intent into a motion
//! command.
//!
//! Direction intent is the vector sum of unit contributions from the active
//! flags — forward along the body's facing (minus `forward`), backward
//! opposite, strafing along minus `local_x` for right and plus for left, and,
//! in fly mode, straight up and down — normalized before speed scaling so a
//! diagonal is no faster than a single axis. Three interchangeable
//! strategies turn that direction into a command: overwrite the velocity,
//! request a per-step displacement, or emit a velocity-matching force.

use crate::controller::{ControllerConfig, MAX_PARAM};
use crate::input::InputState;
use crate::math::{
    lemma_normalize_bounds, lemma_tdiv_le_bound, mul_scale, normalize_or_zero, spec_normalize,
    tdiv, Vec3, MAX_COORD, SCALE,
};
use crate::transform::{lemma_unit_component_bounds, Transform};
use vstd::prelude::*;

verus! {

/// Fixed upward force a jump contributes under the force-matching strategy,
/// in squared-subunit scale.
pub const JUMP_FORCE: i64 = 20_000_000;

/// How the resolver hands motion to the integrator.
#[derive(Clone, Copy, Debug, PartialEq, Eq, Structural)]
pub enum MovementStrategy {
    /// Overwrite linear velocity each step.
    DirectVelocity,
    /// Hand the integrator a per-step translation, plus a jump impulse.
    KinematicDisplacement,
    /// Emit a one-step corrective force toward the goal velocity; the
    /// canonical strategy, paired with the spring suspension.
    ForceMatching,
}

/// One step's motion, in the strategy's own currency.
#[derive(Clone, Copy, Debug)]
pub enum MotionCommand {
    /// Linear velocity to overwrite, subunit scale.
    SetVelocity(Vec3),
    /// Translation to apply this step, and an optional jump impulse to add
    /// to the velocity, both subunit scale.
    Translate(Vec3, Option<Vec3>),
    /// Force to apply this step, squared-subunit scale.
    ApplyForce(Vec3),
}

/// Sum of the unit direction contributions of the active flags, before
/// normalization. Vertical contributions exist only in fly mode.
pub open spec fn spec_direction_sum(t: Transform, s: InputState, fly: bool) -> (int, int, int) {
    (
        (if s.forward { -t.forward.x } else { 0 }) + (if s.backward { t.forward.x } else { 0 })
            + (if s.right { -t.local_x.x } else { 0 }) + (if s.left { t.local_x.x } else { 0 }),
        if fly {
            (if s.up { SCALE as int } else { 0 }) + (if s.down { -SCALE as int } else { 0 })
        } else {
            0
        },
        (if s.forward { -t.forward.z } else { 0 }) + (if s.backward { t.forward.z } else { 0 })
            + (if s.right { -t.local_x.z } else { 0 }) + (if s.left { t.local_x.z } else { 0 }),
    )
}

/// The direction the body should move: the normalized contribution sum.
pub open spec fn spec_resolve_direction(t: Transform, s: InputState, fly: bool) -> (
    int,
    int,
    int,
) {
    let d = spec_direction_sum(t, s, fly);
    spec_normalize(d.0, d.1, d.2)
}

/// The speed the active flags call for.
pub open spec fn spec_speed(cfg: ControllerConfig, s: InputState) -> int {
    if s.run {
        cfg.run_speed as int
    } else {
        cfg.walk_speed as int
    }
}

/// Goal horizontal velocity: direction times speed. The vertical component
/// is the direction's share of the speed in fly mode, and zero otherwise
/// (each strategy decides what owns the vertical axis).
pub open spec fn spec_goal_velocity(t: Transform, s: InputState, cfg: ControllerConfig) -> (
    int,
    int,
    int,
) {
    let d = spec_resolve_direction(t, s, cfg.fly);
    let speed = spec_speed(cfg, s);
    (
        tdiv(d.0 * speed, SCALE as int),
        if cfg.fly {
            tdiv(d.1 * speed, SCALE as int)
        } else {
            0
        },
        tdiv(d.2 * speed, SCALE as int),
    )
}

/// The force-matching command: a one-step corrective force equal to the
/// velocity error, scaled to force units. The vertical term is the fly-mode
/// servo, or the fixed jump force on a grounded jump, or zero — the
/// suspension adds its share separately.
pub open spec fn spec_force_matching(
    t: Transform,
    s: InputState,
    cfg: ControllerConfig,
    linvel: Vec3,
    grounded: bool,
) -> (int, int, int) {
    let g = spec_goal_velocity(t, s, cfg);
    (
        (g.0 - linvel.x) * SCALE,
        if cfg.fly {
            (g.1 - linvel.y) * SCALE
        } else if s.jump && grounded {
            JUMP_FORCE as int
        } else {
            0
        },
        (g.2 - linvel.z) * SCALE,
    )
}

/// The direct-velocity command: horizontal velocity overwritten with the
/// goal; vertical set to the jump speed on a grounded jump, to the goal's
/// vertical share in fly mode, and otherwise left at the integrator's value
/// so gravity still applies.
pub open spec fn spec_direct_velocity(
    t: Transform,
    s: InputState,
    cfg: ControllerConfig,
    linvel: Vec3,
    grounded: bool,
) -> (int, int, int) {
    let g = spec_goal_velocity(t, s, cfg);
    (
        g.0,
        if cfg.fly {
            g.1
        } else if s.jump && grounded {
            cfg.jump_speed as int
        } else {
            linvel.y as int
        },
        g.2,
    )
}

/// The kinematic per-step translation: goal velocity times the step length,
/// while grounded (fly mode bypasses the gating); zero while airborne.
pub open spec fn spec_kinematic_delta(
    t: Transform,
    s: InputState,
    cfg: ControllerConfig,
    grounded: bool,
    dt: int,
) -> (int, int, int) {
    let g = spec_goal_velocity(t, s, cfg);
    if grounded || cfg.fly {
        (tdiv(g.0 * dt, SCALE as int), tdiv(g.1 * dt, SCALE as int), tdiv(g.2 * dt, SCALE as int))
    } else {
        (0, 0, 0)
    }
}

/// The kinematic jump: an instantaneous upward-plus-forward velocity
/// impulse, granted only on a grounded jump outside fly mode.
pub open spec fn spec_kinematic_impulse(
    t: Transform,
    s: InputState,
    cfg: ControllerConfig,
    grounded: bool,
) -> Option<(int, int, int)> {
    let g = spec_goal_velocity(t, s, cfg);
    if s.jump && grounded && !cfg.fly {
        Some((g.0, cfg.jump_speed as int, g.2))
    } else {
        None
    }
}

/// The goal velocity never exceeds the configured speed: every component of
/// the direction is at most a unit, so its share of the speed is at most
/// the speed.
pub proof fn lemma_goal_speed_bound(t: Transform, s: InputState, cfg: ControllerConfig)
    requires
        cfg.valid(),
    ensures
        -spec_speed(cfg, s) <= spec_goal_velocity(t, s, cfg).0 <= spec_speed(cfg, s),
        -spec_speed(cfg, s) <= spec_goal_velocity(t, s, cfg).1 <= spec_speed(cfg, s),
        -spec_speed(cfg, s) <= spec_goal_velocity(t, s, cfg).2 <= spec_speed(cfg, s),
{
    let ds = spec_direction_sum(t, s, cfg.fly);
    let d = spec_resolve_direction(t, s, cfg.fly);
    let speed = spec_speed(cfg, s);
    lemma_normalize_bounds(ds.0, ds.1, ds.2);
    assert(-(speed * SCALE) <= d.0 * speed <= speed * SCALE && -(speed * SCALE) <= d.1 * speed
        <= speed * SCALE && -(speed * SCALE) <= d.2 * speed <= speed * SCALE)
        by (nonlinear_arith)
        requires
            -SCALE <= d.0 <= SCALE,
            -SCALE <= d.1 <= SCALE,
            -SCALE <= d.2 <= SCALE,
            0 <= speed;
    lemma_tdiv_le_bound(d.0 * speed, SCALE as int, speed);
    lemma_tdiv_le_bound(d.1 * speed, SCALE as int, speed);
    lemma_tdiv_le_bound(d.2 * speed, SCALE as int, speed);
}

/// Sums the unit contributions of the active direction flags.
pub fn direction_sum(t: &Transform, s: &InputState, fly: bool) -> (r: Vec3)
    requires
        t.wf(),
    ensures
        (r.x as int, r.y as int, r.z as int) == spec_direction_sum(*t, *s, fly),
        r.bounded(2 * SCALE as int),
{
    proof {
        lemma_unit_component_bounds(t.forward);
        lemma_unit_component_bounds(t.local_x);
    }
    let mut x: i64 = 0;
    let mut y: i64 = 0;
    let mut z: i64 = 0;
    if s.forward {
        x = x - t.forward.x;
        z = z - t.forward.z;
    }
    if s.backward {
        x = x + t.forward.x;
        z = z + t.forward.z;
    }
    if s.right {
        x = x - t.local_x.x;
        z = z - t.local_x.z;
    }
    if s.left {
        x = x + t.local_x.x;
        z = z + t.local_x.z;
    }
    if fly {
        if s.up {
            y = y + SCALE;
        }
        if s.down {
            y = y - SCALE;
        }
    }
    Vec3 { x, y, z }
}

/// Normalizes the contribution sum: the direction of this step's movement,
/// unit length up to truncation, or zero with no (or cancelling) intent.
pub fn resolve_direction(t: &Transform, s: &InputState, fly: bool) -> (r: Vec3)
    requires
        t.wf(),
    ensures
        (r.x as int, r.y as int, r.z as int) == spec_resolve_direction(*t, *s, fly),
        r.bounded(SCALE as int),
{
    let sum = direction_sum(t, s, fly);
    normalize_or_zero(sum)
}

/// The goal velocity this step's intent asks for.
fn goal_velocity(t: &Transform, s: &InputState, cfg: &ControllerConfig) -> (r: Vec3)
    requires
        t.wf(),
        cfg.valid(),
    ensures
        (r.x as int, r.y as int, r.z as int) == spec_goal_velocity(*t, *s, *cfg),
        r.bounded(MAX_PARAM as int),
{
    let d = resolve_direction(t, s, cfg.fly);
    let speed = if s.run {
        cfg.run_speed
    } else {
        cfg.walk_speed
    };
    let gx = mul_scale(d.x, speed);
    let gy = if cfg.fly {
        mul_scale(d.y, speed)
    } else {
        0
    };
    let gz = mul_scale(d.z, speed);
    Vec3 { x: gx, y: gy, z: gz }
}

/// Resolves intent under the force-matching strategy.
pub fn force_matching(
    t: &Transform,
    s: &InputState,
    cfg: &ControllerConfig,
    linvel: Vec3,
    grounded: bool,
) -> (r: Vec3)
    requires
        t.wf(),
        cfg.valid(),
        linvel.bounded(MAX_COORD as int),
    ensures
        (r.x as int, r.y as int, r.z as int) == spec_force_matching(*t, *s, *cfg, linvel, grounded),
{
    let g = goal_velocity(t, s, cfg);
    let fx = (g.x - linvel.x) * SCALE;
    let fz = (g.z - linvel.z) * SCALE;
    let fy = if cfg.fly {
        (g.y - linvel.y) * SCALE
    } else if s.jump && grounded {
        JUMP_FORCE
    } else {
        0
    };
    Vec3 { x: fx, y: fy, z: fz }
}

/// Resolves intent under the direct-velocity strategy.
pub fn direct_velocity(
    t: &Transform,
    s: &InputState,
    cfg: &ControllerConfig,
    linvel: Vec3,
    grounded: bool,
) -> (r: Vec3)
    requires
        t.wf(),
        cfg.valid(),
        linvel.bounded(MAX_COORD as int),
    ensures
        (r.x as int, r.y as int, r.z as int) == spec_direct_velocity(*t, *s, *cfg, linvel, grounded),
{
    let g = goal_velocity(t, s, cfg);
    let vy = if cfg.fly {
        g.y
    } else if s.jump && grounded {
        cfg.jump_speed
    } else {
        linvel.y
    };
    Vec3 { x: g.x, y: vy, z: g.z }
}

/// Resolves intent under the kinematic-displacement strategy: a per-step
/// translation and, on a grounded jump, a velocity impulse.
pub fn kinematic_displacement(
    t: &Transform,
    s: &InputState,
    cfg: &ControllerConfig,
    grounded: bool,
    dt: i64,
) -> (r: (Vec3, Option<Vec3>))
    requires
        t.wf(),
        cfg.valid(),
        0 < dt <= SCALE,
    ensures
        (r.0.x as int, r.0.y as int, r.0.z as int) == spec_kinematic_delta(
            *t,
            *s,
            *cfg,
            grounded,
            dt as int,
        ),
        match spec_kinematic_impulse(*t, *s, *cfg, grounded) {
            Some(i) => r.1 matches Some(v) && (v.x as int, v.y as int, v.z as int) == i,
            None => r.1 is None,
        },
{
    let g = goal_velocity(t, s, cfg);
    let delta = if grounded || cfg.fly {
        Vec3 { x: mul_scale(g.x, dt), y: mul_scale(g.y, dt), z: mul_scale(g.z, dt) }
    } else {
        Vec3 { x: 0, y: 0, z: 0 }
    };
    let impulse = if s.jump && grounded && !cfg.fly {
        Some(Vec3 { x: g.x, y: cfg.jump_speed, z: g.z })
    } else {
        None
    };
    (delta, impulse)
}

/// Resolves this step's intent under the controller's strategy. The caller
/// owns the read-and-clear protocol: it clears the intent buffer after this
/// resolve, and the suspension adds its vertical force separately under the
/// force-matching strategy.
pub fn input_to_movement(
    strategy: MovementStrategy,
    t: &Transform,
    s: &InputState,
    cfg: &ControllerConfig,
    linvel: Vec3,
    grounded: bool,
    dt: i64,
) -> (r: MotionCommand)
    requires
        t.wf(),
        cfg.valid(),
        linvel.bounded(MAX_COORD as int),
        0 < dt <= SCALE,
    ensures
        strategy is DirectVelocity ==> (r matches MotionCommand::SetVelocity(v) && (
        v.x as int,
        v.y as int,
        v.z as int,
        ) == spec_direct_velocity(*t, *s, *cfg, linvel, grounded)),
        strategy is KinematicDisplacement ==> (r matches MotionCommand::Translate(d, i) && (
        d.x as int,
        d.y as int,
        d.z as int,
        ) == spec_kinematic_delta(*t, *s, *cfg, grounded, dt as int) && (match
        spec_kinematic_impulse(*t, *s, *cfg, grounded) {
            Some(si) => i matches Some(v) && (v.x as int, v.y as int, v.z as int) == si,
            None => i is None,
        })),
        strategy is ForceMatching ==> (r matches MotionCommand::ApplyForce(f) && (
        f.x as int,
        f.y as int,
        f.z as int,
        ) == spec_force_matching(*t, *s, *cfg, linvel, grounded)),
{
    match strategy {
        MovementStrategy::DirectVelocity => MotionCommand::SetVelocity(
            direct_velocity(t, s, cfg, linvel, grounded),
        ),
        MovementStrategy::KinematicDisplacement => {
            let (delta, impulse) = kinematic_displacement(t, s, cfg, grounded, dt);
            MotionCommand::Translate(delta, impulse)
        },
        MovementStrategy::ForceMatching => MotionCommand::ApplyForce(
            force_matching(t, s, cfg, linvel, grounded),
        ),
    }
}

} // verus!
