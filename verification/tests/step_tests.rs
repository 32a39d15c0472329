//! Whole steps: the read-and-clear cycle, vertical-force ownership, the
//! camera pose, equilibrium at rest, and the servo's approach to the goal
//! speed.

use locomotion::controller::{step, CharacterInput, ControllerConfig};
use locomotion::input::{handle_input, InputState, KeyCode, RawInput};
use locomotion::integrate::integrate_velocity;
use locomotion::math::Vec3;
use locomotion::movement::{MotionCommand, MovementStrategy, JUMP_FORCE};
use locomotion::suspension::GroundSample;
use locomotion::transform::{BodyState, Transform};
use locomotion::turning::PointerDelta;

fn body_at_rest() -> BodyState {
    BodyState {
        transform: Transform::from_translation(Vec3 { x: 0, y: 750, z: 0 }).unwrap(),
        linvel: Vec3 { x: 0, y: 0, z: 0 },
        angvel: Vec3 { x: 0, y: 0, z: 0 },
    }
}

fn full_intent() -> InputState {
    InputState {
        forward: true,
        backward: true,
        left: true,
        right: true,
        run: true,
        jump: true,
        up: true,
        down: true,
    }
}

const DT: i64 = 100;

#[test]
fn step_clears_intent_whatever_it_held() {
    let mut character = CharacterInput::default();
    character.input_state = full_intent();
    let body = body_at_rest();
    step(&mut character, &body, GroundSample::airborne(), &vec![], DT);
    assert_eq!(character.input_state, InputState::empty());
}

#[test]
fn step_keeps_bindings_config_and_strategy() {
    let mut character = CharacterInput::default();
    let map = character.input_map;
    let cfg = character.config;
    let body = body_at_rest();
    step(&mut character, &body, GroundSample::hit_at(700), &vec![], DT);
    assert_eq!(character.input_map, map);
    assert_eq!(character.config, cfg);
    assert!(matches!(character.strategy, MovementStrategy::ForceMatching));
    assert_eq!(character.ground, GroundSample::hit_at(700));
}

#[test]
fn rest_on_flat_ground_is_equilibrium() {
    let mut character = CharacterInput::default();
    let body = body_at_rest();
    let ground = GroundSample::hit_at(character.config.ride_height);
    let out = step(&mut character, &body, ground, &vec![], DT);
    match out.movement {
        MotionCommand::ApplyForce(f) => assert_eq!(f, Vec3 { x: 0, y: 0, z: 0 }),
        _ => panic!("force-matching step must apply a force"),
    }
    assert_eq!(out.yaw_angular_velocity, 0);
}

#[test]
fn grounded_jump_owns_the_vertical_force() {
    let mut character = CharacterInput::default();
    character.input_state.jump = true;
    let body = body_at_rest();
    let ground = GroundSample::hit_at(character.config.ride_height);
    let out = step(&mut character, &body, ground, &vec![], DT);
    match out.movement {
        MotionCommand::ApplyForce(f) => assert_eq!(f.y, JUMP_FORCE),
        _ => panic!("force-matching step must apply a force"),
    }
}

#[test]
fn airborne_jump_grants_no_vertical_impulse() {
    let mut character = CharacterInput::default();
    character.input_state.jump = true;
    let body = body_at_rest();
    let out = step(&mut character, &body, GroundSample::airborne(), &vec![], DT);
    match out.movement {
        MotionCommand::ApplyForce(f) => assert_eq!(f.y, 0),
        _ => panic!("force-matching step must apply a force"),
    }
}

#[test]
fn grounded_without_jump_leaves_vertical_to_suspension() {
    let mut character = CharacterInput::default();
    let body = body_at_rest();
    // compressed by 0.05 units
    let ground = GroundSample::hit_at(700);
    let out = step(&mut character, &body, ground, &vec![], DT);
    match out.movement {
        MotionCommand::ApplyForce(f) => assert_eq!(f.y, character.config.spring_strength * 50),
        _ => panic!("force-matching step must apply a force"),
    }
}

#[test]
fn camera_trails_and_looks_ahead() {
    let mut character = CharacterInput::default();
    let body = body_at_rest();
    let out = step(&mut character, &body, GroundSample::airborne(), &vec![], DT);
    // forward is minus-Z: the camera sits five units behind the facing, one up
    assert_eq!(out.camera.position, Vec3 { x: 0, y: 1_750, z: -5_000 });
    assert_eq!(out.camera.target, Vec3 { x: 0, y: 750, z: 5_000 });
}

#[test]
fn camera_pose_is_deterministic() {
    let body = body_at_rest();
    let mut c1 = CharacterInput::default();
    let mut c2 = CharacterInput::default();
    c2.input_state = full_intent();
    let ground = GroundSample::hit_at(900);
    let out1 = step(&mut c1, &body, ground, &vec![PointerDelta { x: 4, y: 4 }], DT);
    let out2 = step(&mut c2, &body, GroundSample::airborne(), &vec![], DT);
    assert_eq!(out1.camera, out2.camera);
}

#[test]
fn step_turns_by_the_pointer_sum() {
    let mut character = CharacterInput::default();
    let body = body_at_rest();
    let samples = vec![PointerDelta { x: -1_200, y: 7 }, PointerDelta { x: -800, y: -3 }];
    let out = step(&mut character, &body, GroundSample::airborne(), &samples, DT);
    assert_eq!(out.yaw_angular_velocity, 2_000);
}

#[test]
fn forward_approaches_walk_speed_and_never_exceeds_it() {
    let mut character = CharacterInput::default();
    let walk = character.config.walk_speed;
    let map = character.input_map;
    let mut transform = Transform::from_translation(Vec3 { x: 0, y: 750, z: 0 }).unwrap();
    let mut vel = Vec3 { x: 0, y: 0, z: 0 };
    let mut previous_vz = 0;
    for _ in 0..200 {
        let mut fly = false;
        handle_input(
            &mut character.input_state,
            &map,
            &mut fly,
            &RawInput { pressed: vec![KeyCode::W], just_pressed: vec![] },
        );
        let body = BodyState { transform, linvel: vel, angvel: Vec3 { x: 0, y: 0, z: 0 } };
        let ground = GroundSample::hit_at(character.config.ride_height);
        let out = step(&mut character, &body, ground, &vec![], DT);
        let f = match out.movement {
            MotionCommand::ApplyForce(f) => f,
            _ => panic!("force-matching step must apply a force"),
        };
        vel = Vec3 {
            x: integrate_velocity(vel.x, f.x, DT),
            y: integrate_velocity(vel.y, f.y, DT),
            z: integrate_velocity(vel.z, f.z, DT),
        };
        transform = Transform::new(
            Vec3 {
                x: transform.translation.x,
                y: transform.translation.y,
                z: transform.translation.z + vel.z * DT / 1_000,
            },
            transform.forward,
            transform.local_x,
        )
        .unwrap();
        assert!(vel.z <= walk, "overshoot: {} > {}", vel.z, walk);
        assert!(vel.z >= previous_vz, "not monotone: {} < {}", vel.z, previous_vz);
        previous_vz = vel.z;
        assert_eq!(vel.x, 0);
        assert_eq!(vel.y, 0);
    }
    // the truncated servo stalls within SCALE / DT subunits of the goal
    assert!(walk - vel.z <= 10, "too far from goal: {}", walk - vel.z);
}

#[test]
fn direct_velocity_strategy_sets_velocity() {
    let mut character = CharacterInput::default();
    character.strategy = MovementStrategy::DirectVelocity;
    character.input_state.forward = true;
    let mut body = body_at_rest();
    body.linvel = Vec3 { x: 40, y: -2_500, z: 70 };
    let ground = GroundSample::hit_at(character.config.ride_height);
    let out = step(&mut character, &body, ground, &vec![], DT);
    match out.movement {
        // walking along plus-Z at walk speed; falling continues
        MotionCommand::SetVelocity(v) => assert_eq!(v, Vec3 { x: 0, y: -2_500, z: 5_000 }),
        _ => panic!("direct-velocity step must set the velocity"),
    }
}

#[test]
fn direct_velocity_jump_overwrites_vertical_when_grounded() {
    let mut character = CharacterInput::default();
    character.strategy = MovementStrategy::DirectVelocity;
    character.input_state.jump = true;
    let body = body_at_rest();
    let ground = GroundSample::hit_at(character.config.ride_height);
    let out = step(&mut character, &body, ground, &vec![], DT);
    match out.movement {
        MotionCommand::SetVelocity(v) => assert_eq!(v.y, character.config.jump_speed),
        _ => panic!("direct-velocity step must set the velocity"),
    }
    // airborne: no jump, vertical left to the integrator
    character.input_state.jump = true;
    let out = step(&mut character, &body, GroundSample::airborne(), &vec![], DT);
    match out.movement {
        MotionCommand::SetVelocity(v) => assert_eq!(v.y, 0),
        _ => panic!("direct-velocity step must set the velocity"),
    }
}

#[test]
fn kinematic_strategy_translates_while_grounded() {
    let mut character = CharacterInput::default();
    character.strategy = MovementStrategy::KinematicDisplacement;
    character.input_state.forward = true;
    let body = body_at_rest();
    let ground = GroundSample::hit_at(character.config.ride_height);
    let out = step(&mut character, &body, ground, &vec![], DT);
    match out.movement {
        MotionCommand::Translate(d, impulse) => {
            // walk speed over a tenth of a second: half a unit
            assert_eq!(d, Vec3 { x: 0, y: 0, z: 500 });
            assert!(impulse.is_none());
        },
        _ => panic!("kinematic step must translate"),
    }
}

#[test]
fn kinematic_strategy_suppressed_while_airborne() {
    let mut character = CharacterInput::default();
    character.strategy = MovementStrategy::KinematicDisplacement;
    character.input_state.forward = true;
    character.input_state.jump = true;
    let body = body_at_rest();
    let out = step(&mut character, &body, GroundSample::airborne(), &vec![], DT);
    match out.movement {
        MotionCommand::Translate(d, impulse) => {
            assert_eq!(d, Vec3 { x: 0, y: 0, z: 0 });
            assert!(impulse.is_none());
        },
        _ => panic!("kinematic step must translate"),
    }
}

#[test]
fn kinematic_jump_grants_upward_and_forward_impulse() {
    let mut character = CharacterInput::default();
    character.strategy = MovementStrategy::KinematicDisplacement;
    character.input_state.forward = true;
    character.input_state.jump = true;
    let body = body_at_rest();
    let ground = GroundSample::hit_at(character.config.ride_height);
    let out = step(&mut character, &body, ground, &vec![], DT);
    match out.movement {
        MotionCommand::Translate(_, impulse) => {
            assert_eq!(impulse, Some(Vec3 { x: 0, y: 6_000, z: 5_000 }));
        },
        _ => panic!("kinematic step must translate"),
    }
}

#[test]
fn fly_mode_suppresses_suspension_and_serves_vertical() {
    let mut character = CharacterInput::default();
    character.config.fly = true;
    character.input_state.up = true;
    let body = body_at_rest();
    // grounded and compressed: the spring would push, but fly owns the axis
    let ground = GroundSample::hit_at(500);
    let out = step(&mut character, &body, ground, &vec![], DT);
    match out.movement {
        // goal velocity straight up at walk speed, from rest
        MotionCommand::ApplyForce(f) => {
            assert_eq!(f, Vec3 { x: 0, y: 5_000_000, z: 0 });
        },
        _ => panic!("force-matching step must apply a force"),
    }
}
