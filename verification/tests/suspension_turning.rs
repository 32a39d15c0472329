//! The spring suspension's rest point, sign, linearity and jump gating, and
//! the turn controller's accumulation, inversion and clamping.

use locomotion::controller::ControllerConfig;
use locomotion::suspension::{suspension_force, GroundSample};
use locomotion::turning::{input_to_turning, PointerDelta, TURN_CLAMP};

fn cfg_with_spring(strength: i64, damping: i64) -> ControllerConfig {
    let mut c = ControllerConfig::standard();
    c.spring_strength = strength;
    c.spring_damping = damping;
    c
}

#[test]
fn suspension_rests_at_ride_height() {
    let cfg = ControllerConfig::standard();
    let sample = GroundSample::hit_at(cfg.ride_height);
    assert_eq!(suspension_force(&cfg, sample, 0, false), Some(0));
}

#[test]
fn suspension_pushes_up_below_ride_height() {
    let cfg = ControllerConfig::standard();
    // probe at 0.5 units, ride height 0.75: compressed by 0.25
    let f = suspension_force(&cfg, GroundSample::hit_at(500), 0, false).unwrap();
    assert_eq!(f, cfg.spring_strength * 250);
    assert!(f > 0);
}

#[test]
fn suspension_pulls_down_above_ride_height() {
    let cfg = ControllerConfig::standard();
    let f = suspension_force(&cfg, GroundSample::hit_at(1_000), 0, false).unwrap();
    assert_eq!(f, cfg.spring_strength * -250);
    assert!(f < 0);
}

#[test]
fn suspension_scales_linearly_with_strength() {
    let one = cfg_with_spring(4_000, 0);
    let two = cfg_with_spring(8_000, 0);
    let sample = GroundSample::hit_at(600);
    let f1 = suspension_force(&one, sample, 0, false).unwrap();
    let f2 = suspension_force(&two, sample, 0, false).unwrap();
    assert_eq!(f2, 2 * f1);
}

#[test]
fn suspension_damps_vertical_velocity() {
    let cfg = cfg_with_spring(10_000, 2_000);
    // at the ride height, moving up at 1.5 units per second: pure damping
    let f = suspension_force(&cfg, GroundSample::hit_at(cfg.ride_height), 1_500, false).unwrap();
    assert_eq!(f, -(2_000 * 1_500));
}

#[test]
fn suspension_zero_when_airborne() {
    let cfg = ControllerConfig::standard();
    assert_eq!(suspension_force(&cfg, GroundSample::airborne(), -3_000, false), Some(0));
}

#[test]
fn suspension_withheld_on_jump_step() {
    let cfg = ControllerConfig::standard();
    assert_eq!(suspension_force(&cfg, GroundSample::hit_at(cfg.ride_height), 0, true), None);
    assert_eq!(suspension_force(&cfg, GroundSample::airborne(), 0, true), None);
}

#[test]
fn turning_is_clamped_for_huge_deltas() {
    // accumulated (inverted) delta of plus ten thousand units: clamped to ten
    let samples = vec![PointerDelta { x: -10_000_000, y: 0 }];
    assert_eq!(input_to_turning(&samples), TURN_CLAMP);
    let samples = vec![PointerDelta { x: 10_000_000, y: 0 }];
    assert_eq!(input_to_turning(&samples), -TURN_CLAMP);
}

#[test]
fn turning_inverts_and_sums_samples() {
    let samples = vec![
        PointerDelta { x: 2_000, y: 50 },
        PointerDelta { x: -500, y: -20 },
        PointerDelta { x: 1_500, y: 0 },
    ];
    assert_eq!(input_to_turning(&samples), -3_000);
}

#[test]
fn turning_snaps_to_zero_without_motion() {
    assert_eq!(input_to_turning(&vec![]), 0);
}

#[test]
fn turning_within_clamp_passes_through() {
    let samples = vec![PointerDelta { x: -9_999, y: 0 }];
    assert_eq!(input_to_turning(&samples), 9_999);
}
