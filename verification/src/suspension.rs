//! The ground probe's spring-damper suspension.
//!
//! Each step the host casts a ray straight down from the body origin,
//! excluding the body's own collider, out to the configured maximum
//! distance, and reports the result as a `GroundSample`. A hit within reach
//! is the grounded signal. While grounded and not jumping, the suspension
//! owns the vertical force: stiffness times height error minus damping times
//! vertical velocity, which floats the body at the ride height over uneven
//! terrain. With no hit the vertical force is zero — free fall — and on a
//! jump step the term is withheld so the spring cannot cancel the jump.

use crate::controller::ControllerConfig;
use crate::math::MAX_COORD;
use vstd::prelude::*;

verus! {

/// Result of this step's downward ray probe. Recomputed every step.
#[derive(Clone, Copy, Debug, PartialEq, Eq, Structural)]
pub struct GroundSample {
    /// Whether the ray struck a surface within the probe's reach.
    pub hit: bool,
    /// Distance to the struck surface, meaningful only when `hit`.
    pub distance: i64,
}

impl GroundSample {
    /// A sample the probe may report: a hit lies within the probe's reach.
    pub open spec fn wf(self, cfg: ControllerConfig) -> bool {
        self.hit ==> 0 <= self.distance <= cfg.max_probe_distance
    }

    /// The probe found nothing within reach.
    pub fn airborne() -> (r: GroundSample)
        ensures
            !r.hit,
            r.distance == 0,
    {
        GroundSample { hit: false, distance: 0 }
    }

    /// The probe struck a surface `distance` subunits below the origin.
    pub fn hit_at(distance: i64) -> (r: GroundSample)
        requires
            0 <= distance,
        ensures
            r.hit,
            r.distance == distance,
    {
        GroundSample { hit: true, distance }
    }
}

/// The spring share of the suspension: stiffness times height error.
pub open spec fn spec_spring_term(strength: int, ride_height: int, distance: int) -> int {
    strength * (ride_height - distance)
}

/// The full suspension force at a hit: spring share minus damping times
/// vertical velocity, in squared-subunit scale.
pub open spec fn spec_spring_force(cfg: ControllerConfig, distance: int, vertical_velocity: int) -> int {
    spec_spring_term(cfg.spring_strength as int, cfg.ride_height as int, distance)
        - cfg.spring_damping * vertical_velocity
}

/// The vertical force the suspension claims this step: withheld entirely on
/// a jump step (`None`), zero when airborne, and the spring-damper force at
/// a hit.
pub fn suspension_force(
    cfg: &ControllerConfig,
    sample: GroundSample,
    vertical_velocity: i64,
    jump: bool,
) -> (r: Option<i64>)
    requires
        cfg.valid(),
        sample.wf(*cfg),
        -MAX_COORD <= vertical_velocity <= MAX_COORD,
    ensures
        jump ==> r is None,
        !jump && !sample.hit ==> r == Some(0i64),
        !jump && sample.hit ==> (r matches Some(f) && f == spec_spring_force(
            *cfg,
            sample.distance as int,
            vertical_velocity as int,
        )),
{
    if jump {
        None
    } else if sample.hit {
        proof {
            assert(-1_000_000_000_000 <= cfg.spring_strength * (cfg.ride_height - sample.distance)
                <= 1_000_000_000_000 && -1_000_000_000_000_000 <= cfg.spring_damping
                * vertical_velocity <= 1_000_000_000_000_000) by (nonlinear_arith)
                requires
                    0 <= cfg.spring_strength <= 1_000_000,
                    0 <= cfg.spring_damping <= 1_000_000,
                    0 <= cfg.ride_height <= 1_000_000,
                    0 <= sample.distance <= 1_000_000,
                    -1_000_000_000 <= vertical_velocity <= 1_000_000_000;
        }
        let delta = cfg.ride_height - sample.distance;
        Some(cfg.spring_strength * delta - cfg.spring_damping * vertical_velocity)
    } else {
        Some(0)
    }
}

/// A body resting exactly at the ride height draws no suspension force:
/// zero height error and zero vertical velocity leave the spring at rest.
pub proof fn lemma_suspension_equilibrium(cfg: ControllerConfig)
    requires
        cfg.valid(),
    ensures
        spec_spring_force(cfg, cfg.ride_height as int, 0) == 0,
{
    assert(cfg.spring_strength * (cfg.ride_height - cfg.ride_height) == 0 && cfg.spring_damping
        * 0 == 0) by (nonlinear_arith);
}

/// With no vertical motion, the suspension pushes up below the ride height
/// and pulls down above it. A zero spring stiffness — suspension switched
/// off — is left out: it yields no force either way.
pub proof fn lemma_suspension_sign(cfg: ControllerConfig, distance: int)
    requires
        cfg.valid(),
        1 <= cfg.spring_strength,
    ensures
        distance < cfg.ride_height ==> spec_spring_force(cfg, distance, 0) > 0,
        distance > cfg.ride_height ==> spec_spring_force(cfg, distance, 0) < 0,
        distance == cfg.ride_height ==> spec_spring_force(cfg, distance, 0) == 0,
{
    assert((distance < cfg.ride_height ==> cfg.spring_strength * (cfg.ride_height - distance)
        > 0) && (distance > cfg.ride_height ==> cfg.spring_strength * (cfg.ride_height
        - distance) < 0) && (distance == cfg.ride_height ==> cfg.spring_strength
        * (cfg.ride_height - distance) == 0) && cfg.spring_damping * 0 == 0)
        by (nonlinear_arith)
        requires 1 <= cfg.spring_strength;
}

/// The spring share scales linearly with the stiffness: a stiffness scaled
/// by `m` scales the force by `m`, at every distance.
pub proof fn lemma_suspension_linear_in_strength(
    strength: int,
    m: int,
    ride_height: int,
    distance: int,
)
    ensures
        spec_spring_term(m * strength, ride_height, distance) == m * spec_spring_term(
            strength,
            ride_height,
            distance,
        ),
{
    assert((m * strength) * (ride_height - distance) == m * (strength * (ride_height - distance)))
        by (nonlinear_arith);
}

} // verus!
