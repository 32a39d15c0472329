//! Direction resolution: unit single directions, normalized diagonals,
//! cancelling opposites.

use locomotion::input::InputState;
use locomotion::math::{isqrt, normalize_or_zero, Vec3, SCALE};
use locomotion::movement::resolve_direction;
use locomotion::transform::Transform;

fn origin_transform() -> Transform {
    Transform::from_translation(Vec3 { x: 0, y: 0, z: 0 }).unwrap()
}

fn len2(v: Vec3) -> i64 {
    v.x * v.x + v.y * v.y + v.z * v.z
}

fn held(forward: bool, backward: bool, left: bool, right: bool) -> InputState {
    InputState { forward, backward, left, right, run: false, jump: false, up: false, down: false }
}

#[test]
fn single_direction_forward_is_unit() {
    let t = origin_transform();
    let d = resolve_direction(&t, &held(true, false, false, false), false);
    // forward key moves along minus `forward`: facing minus-Z means plus-Z here
    assert_eq!(d, Vec3 { x: 0, y: 0, z: SCALE });
    assert_eq!(len2(d), SCALE * SCALE);
}

#[test]
fn single_direction_each_axis_is_unit() {
    let t = origin_transform();
    let cases = [
        held(true, false, false, false),
        held(false, true, false, false),
        held(false, false, true, false),
        held(false, false, false, true),
    ];
    for s in cases {
        let d = resolve_direction(&t, &s, false);
        assert_eq!(len2(d), SCALE * SCALE);
    }
}

#[test]
fn diagonal_equals_normalized_sum() {
    let t = origin_transform();
    let d = resolve_direction(&t, &held(true, false, false, true), false);
    // sum is (-1000, 0, 1000); its length is isqrt(2_000_000) = 1414
    assert_eq!(isqrt(2_000_000), 1414);
    assert_eq!(d, Vec3 { x: -707, y: 0, z: 707 });
}

#[test]
fn diagonal_magnitude_matches_single_direction() {
    let t = origin_transform();
    let d = resolve_direction(&t, &held(true, false, false, true), false);
    let l2 = len2(d);
    // within truncation of unit: not the raw diagonal's 2_000_000
    assert!(l2 >= (SCALE - 2) * (SCALE - 2), "diagonal too short: {l2}");
    assert!(l2 <= (SCALE + 1) * (SCALE + 1), "diagonal too long: {l2}");
}

#[test]
fn opposite_directions_cancel() {
    let t = origin_transform();
    let d = resolve_direction(&t, &held(true, true, false, false), false);
    assert_eq!(d, Vec3 { x: 0, y: 0, z: 0 });
    let d = resolve_direction(&t, &held(true, true, true, true), false);
    assert_eq!(d, Vec3 { x: 0, y: 0, z: 0 });
}

#[test]
fn no_input_resolves_to_zero() {
    let t = origin_transform();
    let d = resolve_direction(&t, &held(false, false, false, false), false);
    assert_eq!(d, Vec3 { x: 0, y: 0, z: 0 });
}

#[test]
fn vertical_intent_needs_fly_mode() {
    let t = origin_transform();
    let mut s = held(false, false, false, false);
    s.up = true;
    assert_eq!(resolve_direction(&t, &s, false), Vec3 { x: 0, y: 0, z: 0 });
    assert_eq!(resolve_direction(&t, &s, true), Vec3 { x: 0, y: SCALE, z: 0 });
}

#[test]
fn fly_diagonal_up_forward() {
    let t = origin_transform();
    let mut s = held(true, false, false, false);
    s.up = true;
    let d = resolve_direction(&t, &s, true);
    // sum (0, 1000, 1000), normalized to (0, 707, 707)
    assert_eq!(d, Vec3 { x: 0, y: 707, z: 707 });
}

#[test]
fn normalize_keeps_zero() {
    let v = normalize_or_zero(Vec3 { x: 0, y: 0, z: 0 });
    assert_eq!(v, Vec3 { x: 0, y: 0, z: 0 });
}

#[test]
fn normalize_scales_down_long_vectors() {
    let v = normalize_or_zero(Vec3 { x: 2000, y: 0, z: 0 });
    assert_eq!(v, Vec3 { x: SCALE, y: 0, z: 0 });
}

#[test]
fn vector_arithmetic_is_componentwise() {
    let a = Vec3 { x: 3, y: -4, z: 5 };
    let b = Vec3 { x: -1, y: 2, z: 10 };
    assert_eq!(a.add(b), Vec3 { x: 2, y: -2, z: 15 });
    assert_eq!(a.sub(b), Vec3 { x: 4, y: -6, z: -5 });
    assert_eq!(a.neg(), Vec3 { x: -3, y: 4, z: -5 });
    assert_eq!(Vec3::zero(), Vec3 { x: 0, y: 0, z: 0 });
}

#[test]
fn isqrt_exact_values() {
    assert_eq!(isqrt(0), 0);
    assert_eq!(isqrt(1), 1);
    assert_eq!(isqrt(3), 1);
    assert_eq!(isqrt(4), 2);
    assert_eq!(isqrt(999_999), 999);
    assert_eq!(isqrt(1_000_000), 1000);
    assert_eq!(isqrt(2_000_000), 1414);
    assert_eq!(isqrt(3_000_000), 1732);
}
