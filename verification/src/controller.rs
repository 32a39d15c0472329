//! Per-body controller state: tunable parameters, the intent buffer, and the
//! per-step orchestration.
//!
//! `step` runs the resolve phases of one simulation step in their fixed
//! order — movement resolve, suspension, turning, camera — and clears the
//! intent buffer, so no intent is applied twice. Its contract states who
//! owns the vertical force each step: the fly-mode servo, this step's jump,
//! the suspension while grounded, or nobody while airborne — never two at
//! once.

use crate::camera::{move_camera, spec_camera_position, spec_camera_target, CameraPose};
use crate::input::{InputMap, InputState};
use crate::math::{Vec3, SCALE};
use crate::movement::{
    input_to_movement, spec_direct_velocity, spec_force_matching, spec_goal_velocity,
    spec_kinematic_delta, spec_kinematic_impulse, MotionCommand, MovementStrategy, JUMP_FORCE,
};
use crate::suspension::{spec_spring_force, suspension_force, GroundSample};
use crate::transform::{BodyState, Transform};
use crate::turning::{input_to_turning, spec_turn_command, PointerDelta, MAX_POINTER_DELTA};
use vstd::prelude::*;

verus! {

/// Greatest value, in subunits, a tunable parameter may carry.
pub const MAX_PARAM: i64 = 1_000_000;

/// Tunable locomotion parameters, fixed at spawn but for `fly`, which the
/// toggle-fly action flips at runtime.
#[derive(Clone, Copy, Debug, PartialEq, Eq, Structural)]
pub struct ControllerConfig {
    /// Horizontal speed while walking, subunits per second.
    pub walk_speed: i64,
    /// Horizontal speed while the run action is held, subunits per second.
    pub run_speed: i64,
    /// Vertical speed or impulse a jump grants, subunits per second.
    pub jump_speed: i64,
    /// Free-flight mode: the vertical axes act on the direction, and ground
    /// coupling is suppressed entirely — the host keeps gravity off while it
    /// is on. Toggled at runtime by the toggle-fly action.
    pub fly: bool,
    /// Standoff the suspension spring holds between body origin and ground.
    pub ride_height: i64,
    /// Farthest distance the downward ray probe travels.
    pub max_probe_distance: i64,
    /// Spring stiffness of the suspension, per unit of height error.
    pub spring_strength: i64,
    /// Damping of the suspension, per unit of vertical velocity.
    pub spring_damping: i64,
}

impl ControllerConfig {
    /// A well-formed configuration: positive speeds, nonnegative suspension
    /// parameters, ride height within the probe's reach, all in range.
    pub open spec fn valid(self) -> bool {
        &&& 0 < self.walk_speed <= MAX_PARAM
        &&& 0 < self.run_speed <= MAX_PARAM
        &&& 0 <= self.jump_speed <= MAX_PARAM
        &&& 0 <= self.ride_height
        &&& self.ride_height <= self.max_probe_distance
        &&& self.max_probe_distance <= MAX_PARAM
        &&& 0 <= self.spring_strength <= MAX_PARAM
        &&& 0 <= self.spring_damping <= MAX_PARAM
    }

    /// Validates a configuration at construction: `None` exactly on a
    /// malformed one (nonpositive speed, negative ride height or suspension
    /// parameter, probe shorter than the ride height, or a value out of
    /// range), so the per-step functions never see one.
    pub fn new(
        walk_speed: i64,
        run_speed: i64,
        jump_speed: i64,
        fly: bool,
        ride_height: i64,
        max_probe_distance: i64,
        spring_strength: i64,
        spring_damping: i64,
    ) -> (r: Option<ControllerConfig>)
        ensures
            ({
                let c = ControllerConfig {
                    walk_speed,
                    run_speed,
                    jump_speed,
                    fly,
                    ride_height,
                    max_probe_distance,
                    spring_strength,
                    spring_damping,
                };
                if c.valid() {
                    r == Some(c)
                } else {
                    r is None
                }
            }),
    {
        let c = ControllerConfig {
            walk_speed,
            run_speed,
            jump_speed,
            fly,
            ride_height,
            max_probe_distance,
            spring_strength,
            spring_damping,
        };
        if 0 < walk_speed && walk_speed <= MAX_PARAM && 0 < run_speed && run_speed <= MAX_PARAM
            && 0 <= jump_speed && jump_speed <= MAX_PARAM && 0 <= ride_height
            && ride_height <= max_probe_distance && max_probe_distance <= MAX_PARAM
            && 0 <= spring_strength && spring_strength <= MAX_PARAM && 0 <= spring_damping
            && spring_damping <= MAX_PARAM {
            Some(c)
        } else {
            None
        }
    }

    /// The stock tuning: walk 5, run 9, jump 6, ride height 0.75, probe 1.5,
    /// spring strength 10 and damping 1, in world units.
    pub open spec fn spec_standard() -> ControllerConfig {
        ControllerConfig {
            walk_speed: 5_000,
            run_speed: 9_000,
            jump_speed: 6_000,
            fly: false,
            ride_height: 750,
            max_probe_distance: 1_500,
            spring_strength: 10_000,
            spring_damping: 1_000,
        }
    }

    pub fn standard() -> (r: ControllerConfig)
        ensures
            r == ControllerConfig::spec_standard(),
            r.valid(),
    {
        ControllerConfig {
            walk_speed: 5_000,
            run_speed: 9_000,
            jump_speed: 6_000,
            fly: false,
            ride_height: 750,
            max_probe_distance: 1_500,
            spring_strength: 10_000,
            spring_damping: 1_000,
        }
    }
}

impl Default for ControllerConfig {
    fn default() -> (r: ControllerConfig)
        ensures
            r == ControllerConfig::spec_standard(),
            r.valid(),
    {
        ControllerConfig::standard()
    }
}

/// Per-body controller: key bindings, tuning, the chosen movement strategy,
/// the single-tick intent buffer, and the last ground sample taken.
#[derive(Clone, Copy, Debug)]
pub struct CharacterInput {
    pub input_map: InputMap,
    pub config: ControllerConfig,
    pub strategy: MovementStrategy,
    pub input_state: InputState,
    pub ground: GroundSample,
}

impl CharacterInput {
    pub open spec fn wf(self) -> bool {
        self.config.valid()
    }
}

impl Default for CharacterInput {
    /// The stock controller: standard bindings and tuning, the
    /// force-matching strategy, an empty intent buffer, airborne.
    fn default() -> (r: CharacterInput)
        ensures
            r.input_map == InputMap::spec_standard(),
            r.config == ControllerConfig::spec_standard(),
            r.strategy == MovementStrategy::ForceMatching,
            r.input_state == InputState::spec_empty(),
            !r.ground.hit,
            r.wf(),
    {
        CharacterInput {
            input_map: InputMap::standard(),
            config: ControllerConfig::standard(),
            strategy: MovementStrategy::ForceMatching,
            input_state: InputState::empty(),
            ground: GroundSample::airborne(),
        }
    }
}

/// The commands one step hands back to the host.
#[derive(Clone, Copy, Debug)]
pub struct StepOutput {
    /// Motion for the integrator, in the strategy's currency.
    pub movement: MotionCommand,
    /// Yaw angular velocity to overwrite this step, subunit scale.
    pub yaw_angular_velocity: i64,
    /// The camera pose for the render sink.
    pub camera: CameraPose,
}

/// The vertical force of one force-matching step, and its single owner:
/// the fly-mode servo in fly mode; the jump force on a grounded jump; the
/// suspension while grounded without a jump; nobody while airborne.
pub open spec fn spec_vertical_force(
    t: Transform,
    s: InputState,
    cfg: ControllerConfig,
    linvel: Vec3,
    ground: GroundSample,
) -> int {
    if cfg.fly {
        (spec_goal_velocity(t, s, cfg).1 - linvel.y) * SCALE
    } else if s.jump && ground.hit {
        JUMP_FORCE as int
    } else if ground.hit {
        spec_spring_force(cfg, ground.distance as int, linvel.y as int)
    } else {
        0
    }
}

/// Runs the resolve phases of one simulation step, in order: movement
/// resolve, suspension, turning, camera; then clears the intent buffer.
/// The host polls input beforehand (`handle_input`), probes the ground,
/// applies the returned commands, and lets the integrator advance the body.
pub fn step(
    character: &mut CharacterInput,
    body: &BodyState,
    ground: GroundSample,
    pointer: &Vec<PointerDelta>,
    dt: i64,
) -> (out: StepOutput)
    requires
        old(character).wf(),
        body.wf(),
        ground.wf(old(character).config),
        0 < dt <= SCALE,
        pointer@.len() <= 1_000_000,
        forall|i: int|
            0 <= i < pointer@.len() ==> -MAX_POINTER_DELTA <= #[trigger] pointer@[i].x
                <= MAX_POINTER_DELTA,
    ensures
        final(character).input_state == InputState::spec_empty(),
        final(character).input_map == old(character).input_map,
        final(character).config == old(character).config,
        final(character).strategy == old(character).strategy,
        final(character).ground == ground,
        out.yaw_angular_velocity == spec_turn_command(pointer@),
        (out.camera.position.x as int, out.camera.position.y as int, out.camera.position.z as int)
            == spec_camera_position(body.transform),
        (out.camera.target.x as int, out.camera.target.y as int, out.camera.target.z as int)
            == spec_camera_target(body.transform),
        old(character).strategy is DirectVelocity ==> (out.movement matches
        MotionCommand::SetVelocity(v) && (v.x as int, v.y as int, v.z as int)
            == spec_direct_velocity(
            body.transform,
            old(character).input_state,
            old(character).config,
            body.linvel,
            ground.hit,
        )),
        old(character).strategy is KinematicDisplacement ==> (out.movement matches
        MotionCommand::Translate(d, i) && (d.x as int, d.y as int, d.z as int)
            == spec_kinematic_delta(
            body.transform,
            old(character).input_state,
            old(character).config,
            ground.hit,
            dt as int,
        ) && (match spec_kinematic_impulse(
            body.transform,
            old(character).input_state,
            old(character).config,
            ground.hit,
        ) {
            Some(si) => i matches Some(v) && (v.x as int, v.y as int, v.z as int) == si,
            None => i is None,
        })),
        old(character).strategy is ForceMatching ==> (out.movement matches
        MotionCommand::ApplyForce(f) && f.x as int == spec_force_matching(
            body.transform,
            old(character).input_state,
            old(character).config,
            body.linvel,
            ground.hit,
        ).0 && f.z as int == spec_force_matching(
            body.transform,
            old(character).input_state,
            old(character).config,
            body.linvel,
            ground.hit,
        ).2 && f.y as int == spec_vertical_force(
            body.transform,
            old(character).input_state,
            old(character).config,
            body.linvel,
            ground,
        )),
{
    let cfg = character.config;
    let state = character.input_state;
    let movement = input_to_movement(
        character.strategy,
        &body.transform,
        &state,
        &cfg,
        body.linvel,
        ground.hit,
        dt,
    );
    let movement = if let MotionCommand::ApplyForce(f) = movement {
        let fy = if cfg.fly {
            f.y
        } else {
            match suspension_force(&cfg, ground, body.linvel.y, state.jump) {
                Option::None => f.y,
                Option::Some(v) => v,
            }
        };
        MotionCommand::ApplyForce(Vec3 { x: f.x, y: fy, z: f.z })
    } else {
        movement
    };
    let yaw_angular_velocity = input_to_turning(pointer);
    let camera = move_camera(&body.transform);
    character.ground = ground;
    character.input_state.clear();
    StepOutput { movement, yaw_angular_velocity, camera }
}

} // verus!
