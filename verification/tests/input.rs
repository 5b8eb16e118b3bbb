use bevy::input::keyboard::KeyCode;
use bevy::input::ButtonInput;
use bike_rig::camera::{HeldKeys, PanIntent};
use bike_rig::input::{enable_gravity, held_keys, pause_physics};
use bike_rig::toggle::ToggleState;
use bike_rig::vector::Vec3;

#[test]
fn physics_flips_on_the_frame_the_key_goes_down() {
    let mut keys = ButtonInput::<KeyCode>::default();
    let mut s = ToggleState::initial();
    pause_physics(&mut s, &keys);
    assert!(!s.physics_active);

    keys.press(KeyCode::KeyP);
    pause_physics(&mut s, &keys);
    assert!(s.physics_active);

    for _ in 0..50 {
        keys.clear();
        keys.press(KeyCode::KeyP);
        assert!(keys.pressed(KeyCode::KeyP));
        pause_physics(&mut s, &keys);
        assert!(s.physics_active);
    }

    keys.clear();
    keys.release(KeyCode::KeyP);
    pause_physics(&mut s, &keys);
    assert!(s.physics_active);

    keys.clear();
    keys.press(KeyCode::KeyP);
    pause_physics(&mut s, &keys);
    assert!(!s.physics_active);
    assert!(!s.gravity_enabled);
}

#[test]
fn gravity_flips_on_the_frame_the_key_goes_down() {
    let mut keys = ButtonInput::<KeyCode>::default();
    let mut s = ToggleState::initial();
    keys.press(KeyCode::KeyG);
    enable_gravity(&mut s, &keys);
    assert_eq!(s.gravity(), Vec3::new(0, -9_810_000_000, 0));
    keys.clear();
    enable_gravity(&mut s, &keys);
    assert_eq!(s.gravity(), Vec3::new(0, -9_810_000_000, 0));
    keys.release(KeyCode::KeyG);
    keys.clear();
    keys.press(KeyCode::KeyG);
    enable_gravity(&mut s, &keys);
    assert_eq!(s.gravity(), Vec3::zero());
    assert!(!s.physics_active);
}

#[test]
fn each_switch_listens_to_its_own_key() {
    let mut keys = ButtonInput::<KeyCode>::default();
    let mut s = ToggleState::initial();
    keys.press(KeyCode::KeyG);
    pause_physics(&mut s, &keys);
    assert_eq!(s, ToggleState::initial());
    keys.reset_all();
    keys.press(KeyCode::KeyP);
    enable_gravity(&mut s, &keys);
    assert_eq!(s, ToggleState::initial());
    keys.reset_all();
    keys.press(KeyCode::KeyQ);
    keys.press(KeyCode::Space);
    pause_physics(&mut s, &keys);
    enable_gravity(&mut s, &keys);
    assert_eq!(s, ToggleState::initial());
}

#[test]
fn held_keys_are_the_keys_that_are_down() {
    let mut keys = ButtonInput::<KeyCode>::default();
    assert_eq!(held_keys(&keys), HeldKeys::none());
    keys.press(KeyCode::ArrowUp);
    keys.press(KeyCode::KeyA);
    keys.press(KeyCode::KeyP);
    assert_eq!(held_keys(&keys), HeldKeys { up: true, a: true, ..HeldKeys::none() });
    assert_eq!(held_keys(&keys).intent(), PanIntent { right: -1, up: 1 });
    keys.clear();
    assert_eq!(held_keys(&keys), HeldKeys { up: true, a: true, ..HeldKeys::none() });
    keys.release(KeyCode::ArrowUp);
    assert_eq!(held_keys(&keys), HeldKeys { a: true, ..HeldKeys::none() });
    for code in [
        KeyCode::ArrowDown,
        KeyCode::ArrowLeft,
        KeyCode::ArrowRight,
        KeyCode::KeyW,
        KeyCode::KeyS,
        KeyCode::KeyD,
    ] {
        keys.press(code);
    }
    assert_eq!(
        held_keys(&keys),
        HeldKeys {
            up: false,
            down: true,
            left: true,
            right: true,
            w: true,
            a: true,
            s: true,
            d: true,
        }
    );
}
