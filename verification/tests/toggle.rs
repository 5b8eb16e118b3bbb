use bike_rig::toggle::{Key, KeyEvent, StepCommand, ToggleState, STANDARD_GRAVITY};
use bike_rig::vector::Vec3;

#[test]
fn starts_paused_with_gravity_off() {
    let s = ToggleState::initial();
    assert!(!s.physics_active);
    assert!(!s.gravity_enabled);
    assert_eq!(s.gravity(), Vec3::new(0, 0, 0));
    assert_eq!(s.step_command(), StepCommand::Skip);
}

#[test]
fn press_p_then_g_then_p() {
    let mut s = ToggleState::initial();
    assert_eq!((s.physics_active, s.gravity_enabled), (false, false));

    s.handle(KeyEvent::Pressed(Key::P));
    assert_eq!((s.physics_active, s.gravity_enabled), (true, false));
    assert_eq!(s.step_command(), StepCommand::Advance { gravity: Vec3::new(0, 0, 0) });

    s.handle(KeyEvent::Pressed(Key::G));
    assert_eq!((s.physics_active, s.gravity_enabled), (true, true));
    assert_eq!(s.gravity(), Vec3::new(0, -9_810_000_000, 0));
    assert_eq!(
        s.step_command(),
        StepCommand::Advance { gravity: Vec3::new(0, -9_810_000_000, 0) }
    );

    s.handle(KeyEvent::Pressed(Key::P));
    assert_eq!((s.physics_active, s.gravity_enabled), (false, true));
    assert_eq!(s.step_command(), StepCommand::Skip);
}

#[test]
fn physics_flips_once_per_press_and_never_while_held() {
    let mut s = ToggleState::initial();
    s.handle(KeyEvent::Pressed(Key::P));
    assert!(s.physics_active);
    for _ in 0..100 {
        s.handle(KeyEvent::Held(Key::P));
        assert!(s.physics_active);
    }
    s.handle(KeyEvent::Released(Key::P));
    assert!(s.physics_active);
    s.handle(KeyEvent::Pressed(Key::P));
    assert!(!s.physics_active);
}

#[test]
fn gravity_vector_is_exact_in_both_states() {
    let mut s = ToggleState::initial();
    assert_eq!(s.gravity(), Vec3 { x: 0, y: 0, z: 0 });
    s.handle(KeyEvent::Pressed(Key::G));
    assert_eq!(s.gravity(), Vec3 { x: 0, y: -STANDARD_GRAVITY, z: 0 });
    assert_eq!(STANDARD_GRAVITY, 9_810_000_000);
    assert_eq!(s.gravity().y as f64 / bike_rig::vector::UNIT as f64, -9.81);
}

#[test]
fn two_gravity_presses_restore_the_vector() {
    for start in [false, true] {
        let mut s = ToggleState { physics_active: true, gravity_enabled: start };
        let before = s.gravity();
        s.handle(KeyEvent::Pressed(Key::G));
        assert_ne!(s.gravity(), before);
        s.handle(KeyEvent::Pressed(Key::G));
        assert_eq!(s.gravity(), before);
        assert_eq!(s, ToggleState { physics_active: true, gravity_enabled: start });
    }
}

#[test]
fn other_keys_move_no_switch() {
    let keys = [Key::Up, Key::Down, Key::Left, Key::Right, Key::W, Key::A, Key::S, Key::D];
    for key in keys {
        let mut s = ToggleState { physics_active: true, gravity_enabled: false };
        s.handle(KeyEvent::Pressed(key));
        s.handle(KeyEvent::Held(key));
        s.handle(KeyEvent::Released(key));
        assert_eq!(s, ToggleState { physics_active: true, gravity_enabled: false });
    }
}

#[test]
fn a_frame_of_events_is_taken_in_order() {
    let mut s = ToggleState::initial();
    let events = vec![
        KeyEvent::Pressed(Key::P),
        KeyEvent::Held(Key::G),
        KeyEvent::Pressed(Key::G),
        KeyEvent::Pressed(Key::P),
        KeyEvent::Pressed(Key::P),
        KeyEvent::Released(Key::G),
    ];
    s.handle_all(&events);
    assert_eq!(s, ToggleState { physics_active: true, gravity_enabled: true });
    s.handle_all(&Vec::new());
    assert_eq!(s, ToggleState { physics_active: true, gravity_enabled: true });
}

#[test]
fn pause_physics_follows_the_press() {
    let mut s = ToggleState::initial();
    s.pause_physics(false);
    assert!(!s.physics_active);
    s.pause_physics(true);
    assert!(s.physics_active);
    s.pause_physics(false);
    assert!(s.physics_active);
    s.pause_physics(true);
    assert!(!s.physics_active);
    assert!(!s.gravity_enabled);
}

#[test]
fn enable_gravity_follows_the_press() {
    let mut s = ToggleState::initial();
    s.enable_gravity(false);
    assert_eq!(s.gravity(), Vec3::zero());
    s.enable_gravity(true);
    assert_eq!(s.gravity(), Vec3::new(0, -9_810_000_000, 0));
    s.enable_gravity(true);
    assert_eq!(s.gravity(), Vec3::zero());
    assert!(!s.physics_active);
}
