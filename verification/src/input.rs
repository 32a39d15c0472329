//! Logical actions, key bindings and the single-tick intent buffer.
//!
//! `handle_input` runs in the poll phase of a step: it raises a flag in
//! `InputState` when the bound key is down. Most actions are level-triggered
//! (true for every tick the key is held); `jump` and the fly toggle are
//! edge-triggered (they react to the set of keys that went down this tick).
//! The resolve phase reads the buffer and clears it, so no intent survives
//! into the next step.

use vstd::prelude::*;

verus! {

/// A raw key on the host's keyboard, named by the engraving.
#[derive(Clone, Copy, Debug, PartialEq, Eq, Structural)]
pub enum KeyCode {
    W,
    A,
    S,
    D,
    E,
    Q,
    F,
    LShift,
    Space,
}

/// Binding of each logical action to a raw key. Fixed at controller spawn.
#[derive(Clone, Copy, Debug, PartialEq, Eq, Structural)]
pub struct InputMap {
    pub key_forward: KeyCode,
    pub key_backward: KeyCode,
    pub key_left: KeyCode,
    pub key_right: KeyCode,
    pub key_run: KeyCode,
    pub key_jump: KeyCode,
    pub key_fly_up: KeyCode,
    pub key_fly_down: KeyCode,
    pub key_toggle_fly: KeyCode,
}

impl InputMap {
    /// The stock binding: WASD to move, left shift to run, space to jump,
    /// E and Q to fly up and down, F to toggle fly.
    pub fn standard() -> (r: InputMap)
        ensures
            r == InputMap::spec_standard(),
    {
        InputMap {
            key_forward: KeyCode::W,
            key_backward: KeyCode::S,
            key_left: KeyCode::A,
            key_right: KeyCode::D,
            key_run: KeyCode::LShift,
            key_jump: KeyCode::Space,
            key_fly_up: KeyCode::E,
            key_fly_down: KeyCode::Q,
            key_toggle_fly: KeyCode::F,
        }
    }

    pub open spec fn spec_standard() -> InputMap {
        InputMap {
            key_forward: KeyCode::W,
            key_backward: KeyCode::S,
            key_left: KeyCode::A,
            key_right: KeyCode::D,
            key_run: KeyCode::LShift,
            key_jump: KeyCode::Space,
            key_fly_up: KeyCode::E,
            key_fly_down: KeyCode::Q,
            key_toggle_fly: KeyCode::F,
        }
    }
}

impl Default for InputMap {
    fn default() -> (r: InputMap)
        ensures
            r == InputMap::spec_standard(),
    {
        InputMap::standard()
    }
}

/// Movement intent for exactly one simulation step.
#[derive(Clone, Copy, Debug, PartialEq, Eq, Structural)]
pub struct InputState {
    pub forward: bool,
    pub backward: bool,
    pub left: bool,
    pub right: bool,
    pub run: bool,
    pub jump: bool,
    pub up: bool,
    pub down: bool,
}

impl InputState {
    /// The buffer with every flag lowered.
    pub open spec fn spec_empty() -> InputState {
        InputState {
            forward: false,
            backward: false,
            left: false,
            right: false,
            run: false,
            jump: false,
            up: false,
            down: false,
        }
    }

    pub fn empty() -> (r: InputState)
        ensures
            r == InputState::spec_empty(),
    {
        InputState {
            forward: false,
            backward: false,
            left: false,
            right: false,
            run: false,
            jump: false,
            up: false,
            down: false,
        }
    }

    /// Lowers every flag: the read-and-clear half of the resolve phase.
    pub fn clear(&mut self)
        ensures
            *final(self) == InputState::spec_empty(),
    {
        *self = InputState::empty();
    }
}

impl Default for InputState {
    fn default() -> (r: InputState)
        ensures
            r == InputState::spec_empty(),
    {
        InputState::empty()
    }
}

/// The keys the host saw this tick: all that are down, and those that went
/// down since the previous tick.
pub struct RawInput {
    pub pressed: Vec<KeyCode>,
    pub just_pressed: Vec<KeyCode>,
}

/// Whether `key` occurs in `keys`.
pub fn key_set_contains(keys: &Vec<KeyCode>, key: KeyCode) -> (r: bool)
    ensures
        r == keys@.contains(key),
{
    let n = keys.len();
    let mut i: usize = 0;
    while i < n
        invariant
            n == keys@.len(),
            i <= n,
            forall|j: int| 0 <= j < i ==> keys@[j] != key,
        decreases n - i,
    {
        if keys[i] == key {
            return true;
        }
        i = i + 1;
    }
    false
}

/// Raises each intent flag whose bound key is active this tick, and flips the
/// fly mode on the tick its key goes down. Flags already raised stay raised
/// until the resolve phase clears them; nothing here lowers one.
pub fn handle_input(
    input_state: &mut InputState,
    input_map: &InputMap,
    fly: &mut bool,
    input: &RawInput,
)
    ensures
        final(input_state).forward == (old(input_state).forward || input.pressed@.contains(
            input_map.key_forward,
        )),
        final(input_state).backward == (old(input_state).backward || input.pressed@.contains(
            input_map.key_backward,
        )),
        final(input_state).left == (old(input_state).left || input.pressed@.contains(
            input_map.key_left,
        )),
        final(input_state).right == (old(input_state).right || input.pressed@.contains(
            input_map.key_right,
        )),
        final(input_state).run == (old(input_state).run || input.pressed@.contains(
            input_map.key_run,
        )),
        final(input_state).jump == (old(input_state).jump || input.just_pressed@.contains(
            input_map.key_jump,
        )),
        final(input_state).up == (old(input_state).up || input.pressed@.contains(
            input_map.key_fly_up,
        )),
        final(input_state).down == (old(input_state).down || input.pressed@.contains(
            input_map.key_fly_down,
        )),
        *final(fly) == (*old(fly) != input.just_pressed@.contains(input_map.key_toggle_fly)),
{
    if key_set_contains(&input.pressed, input_map.key_forward) {
        input_state.forward = true;
    }
    if key_set_contains(&input.pressed, input_map.key_backward) {
        input_state.backward = true;
    }
    if key_set_contains(&input.pressed, input_map.key_left) {
        input_state.left = true;
    }
    if key_set_contains(&input.pressed, input_map.key_right) {
        input_state.right = true;
    }
    if key_set_contains(&input.pressed, input_map.key_run) {
        input_state.run = true;
    }
    if key_set_contains(&input.just_pressed, input_map.key_jump) {
        input_state.jump = true;
    }
    if key_set_contains(&input.pressed, input_map.key_fly_up) {
        input_state.up = true;
    }
    if key_set_contains(&input.pressed, input_map.key_fly_down) {
        input_state.down = true;
    }
    if key_set_contains(&input.just_pressed, input_map.key_toggle_fly) {
        *fly = !*fly;
    }
}

} // verus!
