//! Configuration validation at construction, the stock defaults, pose
//! validation, the loading gate, and the integrator model.

use locomotion::controller::{CharacterInput, ControllerConfig};
use locomotion::input::InputState;
use locomotion::integrate::integrate_velocity;
use locomotion::loading::{check_assets_ready, AppState, LoadState};
use locomotion::math::Vec3;
use locomotion::movement::MovementStrategy;
use locomotion::transform::Transform;

#[test]
fn config_accepts_the_stock_tuning() {
    let c = ControllerConfig::new(5_000, 9_000, 6_000, false, 750, 1_500, 10_000, 1_000);
    assert_eq!(c, Some(ControllerConfig::standard()));
}

#[test]
fn config_rejects_zero_walk_speed() {
    assert_eq!(ControllerConfig::new(0, 9_000, 6_000, false, 750, 1_500, 10_000, 1_000), None);
}

#[test]
fn config_rejects_negative_ride_height() {
    assert_eq!(ControllerConfig::new(5_000, 9_000, 6_000, false, -1, 1_500, 10_000, 1_000), None);
}

#[test]
fn config_rejects_probe_shorter_than_ride_height() {
    assert_eq!(ControllerConfig::new(5_000, 9_000, 6_000, false, 1_600, 1_500, 10_000, 1_000), None);
}

#[test]
fn config_rejects_out_of_range_parameters() {
    assert_eq!(
        ControllerConfig::new(5_000, 9_000, 6_000, false, 750, 1_500, 1_000_001, 1_000),
        None
    );
    assert_eq!(ControllerConfig::new(5_000, 9_000, -1, false, 750, 1_500, 10_000, 1_000), None);
}

#[test]
fn stock_controller_defaults() {
    let c = CharacterInput::default();
    assert_eq!(c.config.walk_speed, 5_000);
    assert_eq!(c.config.run_speed, 9_000);
    assert_eq!(c.config.jump_speed, 6_000);
    assert!(!c.config.fly);
    assert_eq!(c.input_state, InputState::empty());
    assert!(matches!(c.strategy, MovementStrategy::ForceMatching));
    assert!(!c.ground.hit);
}

#[test]
fn transform_rejects_a_skewed_basis() {
    let origin = Vec3 { x: 0, y: 0, z: 0 };
    // not unit length
    assert!(Transform::new(origin, Vec3 { x: 0, y: 0, z: -999 }, Vec3 { x: 1_000, y: 0, z: 0 })
        .is_none());
    // not horizontal
    assert!(Transform::new(origin, Vec3 { x: 0, y: 1_000, z: 0 }, Vec3 { x: 1_000, y: 0, z: 0 })
        .is_none());
    // not orthogonal
    assert!(Transform::new(origin, Vec3 { x: 0, y: 0, z: -1_000 }, Vec3 { x: 0, y: 0, z: 1_000 })
        .is_none());
}

#[test]
fn transform_accepts_a_yawed_basis() {
    // a 3-4-5 yaw: (600, 0, -800) and (800, 0, 600) are unit and orthogonal
    let t = Transform::new(
        Vec3 { x: 10, y: 20, z: 30 },
        Vec3 { x: 600, y: 0, z: -800 },
        Vec3 { x: 800, y: 0, z: 600 },
    );
    assert!(t.is_some());
}

#[test]
fn loading_enters_game_only_when_loaded() {
    assert_eq!(check_assets_ready(LoadState::Loaded), Some(AppState::InGame));
    assert_eq!(check_assets_ready(LoadState::Loading), None);
    assert_eq!(check_assets_ready(LoadState::NotLoaded), None);
    assert_eq!(check_assets_ready(LoadState::Failed), None);
    assert_eq!(check_assets_ready(LoadState::Unloaded), None);
}

#[test]
fn integrator_model_is_exact() {
    // one full second of one unit of force moves the velocity one unit
    assert_eq!(integrate_velocity(0, 1_000_000, 1_000), 1_000);
    // a tenth of a second: a tenth of the change
    assert_eq!(integrate_velocity(500, 1_000_000, 100), 600);
    // truncation is toward zero for both signs
    assert_eq!(integrate_velocity(0, 9_999, 100), 0);
    assert_eq!(integrate_velocity(0, -9_999, 100), 0);
    assert_eq!(integrate_velocity(-200, -2_000_000, 500), -1_200);
}
