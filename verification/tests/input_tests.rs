//! Polling: level-triggered and edge-triggered flags, the fly toggle, and
//! the read-and-clear protocol of the intent buffer.

use locomotion::input::{handle_input, key_set_contains, InputMap, InputState, KeyCode, RawInput};

fn raw(pressed: Vec<KeyCode>, just_pressed: Vec<KeyCode>) -> RawInput {
    RawInput { pressed, just_pressed }
}

#[test]
fn key_set_contains_finds_members() {
    let keys = vec![KeyCode::W, KeyCode::Space];
    assert!(key_set_contains(&keys, KeyCode::W));
    assert!(key_set_contains(&keys, KeyCode::Space));
    assert!(!key_set_contains(&keys, KeyCode::A));
    assert!(!key_set_contains(&vec![], KeyCode::A));
}

#[test]
fn standard_bindings() {
    let m = InputMap::standard();
    assert_eq!(m.key_forward, KeyCode::W);
    assert_eq!(m.key_backward, KeyCode::S);
    assert_eq!(m.key_left, KeyCode::A);
    assert_eq!(m.key_right, KeyCode::D);
    assert_eq!(m.key_run, KeyCode::LShift);
    assert_eq!(m.key_jump, KeyCode::Space);
    assert_eq!(m.key_fly_up, KeyCode::E);
    assert_eq!(m.key_fly_down, KeyCode::Q);
    assert_eq!(m.key_toggle_fly, KeyCode::F);
}

#[test]
fn level_triggered_flags_follow_held_keys() {
    let map = InputMap::standard();
    let mut state = InputState::empty();
    let mut fly = false;
    let input = raw(vec![KeyCode::W, KeyCode::D, KeyCode::LShift], vec![]);
    handle_input(&mut state, &map, &mut fly, &input);
    assert!(state.forward);
    assert!(state.right);
    assert!(state.run);
    assert!(!state.backward);
    assert!(!state.left);
    assert!(!state.jump);
    assert!(!fly);
}

#[test]
fn jump_is_edge_triggered() {
    let map = InputMap::standard();
    let mut state = InputState::empty();
    let mut fly = false;
    // space held but not newly pressed: no jump intent
    handle_input(&mut state, &map, &mut fly, &raw(vec![KeyCode::Space], vec![]));
    assert!(!state.jump);
    // the tick it goes down: jump intent
    handle_input(&mut state, &map, &mut fly, &raw(vec![KeyCode::Space], vec![KeyCode::Space]));
    assert!(state.jump);
}

#[test]
fn toggle_fly_flips_on_the_down_tick_only() {
    let map = InputMap::standard();
    let mut state = InputState::empty();
    let mut fly = false;
    handle_input(&mut state, &map, &mut fly, &raw(vec![KeyCode::F], vec![KeyCode::F]));
    assert!(fly);
    // still held: no second flip
    handle_input(&mut state, &map, &mut fly, &raw(vec![KeyCode::F], vec![]));
    assert!(fly);
    // pressed anew: flips back
    handle_input(&mut state, &map, &mut fly, &raw(vec![KeyCode::F], vec![KeyCode::F]));
    assert!(!fly);
}

#[test]
fn flags_stay_raised_until_cleared() {
    let map = InputMap::standard();
    let mut state = InputState::empty();
    let mut fly = false;
    handle_input(&mut state, &map, &mut fly, &raw(vec![KeyCode::W], vec![]));
    // a later poll without the key does not lower the flag
    handle_input(&mut state, &map, &mut fly, &raw(vec![], vec![]));
    assert!(state.forward);
    state.clear();
    assert_eq!(state, InputState::empty());
}

#[test]
fn up_down_flags_poll_like_the_rest() {
    let map = InputMap::standard();
    let mut state = InputState::empty();
    let mut fly = false;
    handle_input(&mut state, &map, &mut fly, &raw(vec![KeyCode::E, KeyCode::Q], vec![]));
    assert!(state.up);
    assert!(state.down);
}
