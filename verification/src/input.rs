//! The keyboard as the engine keeps it: a collection of the keys that are
//! down and of the keys that went down since the collection was last
//! cleared. The switches and the camera read it through here.

use std::hash::Hash;
use bevy::input::keyboard::KeyCode;
use bevy::input::ButtonInput;
use vstd::prelude::*;
use crate::camera::HeldKeys;
use crate::toggle::{Key, KeyEvent, ToggleState};

verus! {

/// `bevy::input::ButtonInput`, the engine's collection of buttons. Nothing
/// inside it is visible here.
#[verifier::external_type_specification]
#[verifier::external_body]
#[verifier::reject_recursive_types(T)]
pub struct ExButtonInput<T: Copy + Eq + Hash + Send + Sync + 'static>(ButtonInput<T>);

/// `bevy::input::keyboard::KeyCode`, the engine's name for a key. Nothing
/// inside it is visible here.
#[verifier::external_type_specification]
#[verifier::external_body]
pub struct ExKeyCode(KeyCode);

/// The keys of the rig that the collection holds as down. A key of the rig
/// is held where the engine's name for it is: `KeyP` for `P`, `KeyG` for
/// `G`, the four arrow keys, and `KeyW`, `KeyA`, `KeyS`, `KeyD`.
pub uninterp spec fn pressed_keys(input: ButtonInput<KeyCode>) -> Set<Key>;

/// The keys of the rig that the collection holds as having gone down since
/// it was last cleared.
pub uninterp spec fn just_pressed_keys(input: ButtonInput<KeyCode>) -> Set<Key>;

/// `ButtonInput::pressed`, asked of the engine's name for the key: whether
/// the collection holds the key as down. The contract names the keys held
/// as down and says no more of them.
#[verifier::external_body]
fn pressed(input: &ButtonInput<KeyCode>, key: Key) -> (r: bool)
    ensures
        r == pressed_keys(*input).contains(key),
{
    input.pressed(
        match key {
            Key::P => KeyCode::KeyP,
            Key::G => KeyCode::KeyG,
            Key::Up => KeyCode::ArrowUp,
            Key::Down => KeyCode::ArrowDown,
            Key::Left => KeyCode::ArrowLeft,
            Key::Right => KeyCode::ArrowRight,
            Key::W => KeyCode::KeyW,
            Key::A => KeyCode::KeyA,
            Key::S => KeyCode::KeyS,
            Key::D => KeyCode::KeyD,
        },
    )
}

/// `ButtonInput::just_pressed`, asked of the engine's name for the key:
/// whether the collection holds the key as having gone down since it was
/// last cleared. The contract names those keys and says no more of them.
#[verifier::external_body]
fn just_pressed(input: &ButtonInput<KeyCode>, key: Key) -> (r: bool)
    ensures
        r == just_pressed_keys(*input).contains(key),
{
    input.just_pressed(
        match key {
            Key::P => KeyCode::KeyP,
            Key::G => KeyCode::KeyG,
            Key::Up => KeyCode::ArrowUp,
            Key::Down => KeyCode::ArrowDown,
            Key::Left => KeyCode::ArrowLeft,
            Key::Right => KeyCode::ArrowRight,
            Key::W => KeyCode::KeyW,
            Key::A => KeyCode::KeyA,
            Key::S => KeyCode::KeyS,
            Key::D => KeyCode::KeyD,
        },
    )
}

/// Flips physics if `P` went down.
pub fn pause_physics(state: &mut ToggleState, buttons: &ButtonInput<KeyCode>)
    ensures
        *final(state) == (if just_pressed_keys(*buttons).contains(Key::P) {
            old(state).after(KeyEvent::Pressed(Key::P))
        } else {
            *old(state)
        }),
{
    state.pause_physics(just_pressed(buttons, Key::P));
}

/// Flips gravity if `G` went down.
pub fn enable_gravity(state: &mut ToggleState, buttons: &ButtonInput<KeyCode>)
    ensures
        *final(state) == (if just_pressed_keys(*buttons).contains(Key::G) {
            old(state).after(KeyEvent::Pressed(Key::G))
        } else {
            *old(state)
        }),
{
    state.enable_gravity(just_pressed(buttons, Key::G));
}

/// The direction keys that are down.
pub fn held_keys(buttons: &ButtonInput<KeyCode>) -> (keys: HeldKeys)
    ensures
        keys == (HeldKeys {
            up: pressed_keys(*buttons).contains(Key::Up),
            down: pressed_keys(*buttons).contains(Key::Down),
            left: pressed_keys(*buttons).contains(Key::Left),
            right: pressed_keys(*buttons).contains(Key::Right),
            w: pressed_keys(*buttons).contains(Key::W),
            a: pressed_keys(*buttons).contains(Key::A),
            s: pressed_keys(*buttons).contains(Key::S),
            d: pressed_keys(*buttons).contains(Key::D),
        }),
{
    HeldKeys {
        up: pressed(buttons, Key::Up),
        down: pressed(buttons, Key::Down),
        left: pressed(buttons, Key::Left),
        right: pressed(buttons, Key::Right),
        w: pressed(buttons, Key::W),
        a: pressed(buttons, Key::A),
        s: pressed(buttons, Key::S),
        d: pressed(buttons, Key::D),
    }
}

} // verus!
