use bevy::math::{Mat3, Quat, Vec3};
use bevy::transform::components::Transform;
use bevy_rapier3d::dynamics::{GenericJoint, RevoluteJointBuilder};
use bevy_rapier3d::rapier::geometry::{Group, InteractionGroups};
use bike_rig::collision::{CollisionGroup, Role, ALL_GROUPS, GROUP_1, GROUP_2, GROUP_3};
use bike_rig::joint::compensating_basis;
use bike_rig::scene::setup_camera;
use bike_rig::shape::Shape;
use bike_rig::toggle::{Key, KeyEvent, ToggleState};
use bike_rig::vector::{Rotation, UnitVec3, UNIT};

const ALL: [UnitVec3; 6] = [
    UnitVec3::PosX,
    UnitVec3::NegX,
    UnitVec3::PosY,
    UnitVec3::NegY,
    UnitVec3::PosZ,
    UnitVec3::NegZ,
];

fn float(u: UnitVec3) -> Vec3 {
    let v = u.to_vec3();
    Vec3::new(
        (v.x as f64 / UNIT as f64) as f32,
        (v.y as f64 / UNIT as f64) as f32,
        (v.z as f64 / UNIT as f64) as f32,
    )
}

fn quat(r: &Rotation) -> Quat {
    Quat::from_mat3(&Mat3::from_cols(float(r.x), float(r.y), float(r.z)))
}

fn close(a: Vec3, b: Vec3) -> bool {
    (a - b).length() < 1e-6
}

#[test]
fn the_group_test_is_the_engines() {
    let bits = [0, GROUP_1, GROUP_2, GROUP_3, GROUP_1 | GROUP_3, 0x7, 0x8000_0000, ALL_GROUPS];
    for am in bits {
        for af in bits {
            for bm in bits {
                for bf in bits {
                    let ours =
                        CollisionGroup::new(am, af).collides(&CollisionGroup::new(bm, bf));
                    let a = InteractionGroups::new(
                        Group::from_bits_retain(am),
                        Group::from_bits_retain(af),
                    );
                    let b = InteractionGroups::new(
                        Group::from_bits_retain(bm),
                        Group::from_bits_retain(bf),
                    );
                    assert_eq!(ours, a.test(b));
                }
            }
        }
    }
}

#[test]
fn the_policy_names_the_engines_groups() {
    assert_eq!(GROUP_1, Group::GROUP_1.bits());
    assert_eq!(GROUP_2, Group::GROUP_2.bits());
    assert_eq!(GROUP_3, Group::GROUP_3.bits());
    assert_eq!(ALL_GROUPS, Group::ALL.bits());
    let everything = CollisionGroup::everything();
    assert_eq!(everything.membership, InteractionGroups::all().memberships.bits());
    assert_eq!(everything.filter, InteractionGroups::all().filter.bits());
    assert_eq!(
        Role::Ground.group().filter,
        (Group::GROUP_1 | Group::GROUP_2 | Group::GROUP_3).bits()
    );
}

#[test]
fn quarter_turns_are_the_engines_quarter_turns() {
    let turns = [
        (UnitVec3::PosX, Quat::from_rotation_x(std::f32::consts::FRAC_PI_2)),
        (UnitVec3::PosY, Quat::from_rotation_y(std::f32::consts::FRAC_PI_2)),
        (UnitVec3::PosZ, Quat::from_rotation_z(std::f32::consts::FRAC_PI_2)),
        (UnitVec3::NegX, Quat::from_rotation_x(-std::f32::consts::FRAC_PI_2)),
        (UnitVec3::NegY, Quat::from_rotation_y(-std::f32::consts::FRAC_PI_2)),
        (UnitVec3::NegZ, Quat::from_rotation_z(-std::f32::consts::FRAC_PI_2)),
    ];
    for (about, engine) in turns {
        let ours = Rotation::quarter_turn(about);
        for u in ALL {
            assert!(close(engine * float(u), float(ours.turn(u))));
            assert!(close(quat(&ours) * float(u), float(ours.turn(u))));
        }
        let half = Rotation::half_turn(about);
        for u in ALL {
            assert!(close(engine * (engine * float(u)), float(half.turn(u))));
        }
    }
}

#[test]
fn the_wheel_hinge_is_the_engines_hinge() {
    let mut engine: GenericJoint = RevoluteJointBuilder::new(Vec3::X)
        .local_anchor1(Vec3::ZERO)
        .local_anchor2(Vec3::ZERO)
        .build()
        .into();
    engine.set_local_basis2(Quat::from_rotation_z(std::f32::consts::FRAC_PI_2));

    let wheel = Shape::Cylinder { radius: 800_000_000, half_height: 400_000_000 };
    let basis = compensating_basis(UnitVec3::PosX, wheel.rolling_axis());
    assert!(close(engine.local_axis1(), float(UnitVec3::PosX)));
    assert!(close(engine.local_axis2(), float(basis.turn(UnitVec3::PosX))));
    assert!(close(engine.local_axis2(), Vec3::Y));
    assert!(engine.local_basis2().angle_between(quat(&basis)) < 1e-6);
}

#[test]
fn every_hinge_turns_the_engines_frame_onto_the_rolling_axis() {
    for axis in ALL {
        for rolling in ALL {
            let basis = compensating_basis(axis, Some(rolling));
            let mut engine: GenericJoint = RevoluteJointBuilder::new(float(axis)).build().into();
            assert!(close(engine.local_axis2(), float(axis)));
            let frame = engine.local_basis2();
            engine.set_local_basis2(quat(&basis) * frame);
            assert!(close(engine.local_axis1(), float(axis)));
            assert!(close(engine.local_axis2(), float(rolling)));
        }
    }
}

#[test]
fn the_camera_looks_where_the_engines_would() {
    let engine = Transform::from_xyz(2.0, 0.0, 0.0).looking_at(Vec3::ZERO, Vec3::Y);
    let ours = setup_camera();
    assert_eq!(ours.position.x as f64 / UNIT as f64, 2.0);
    for u in ALL {
        assert!(close(engine.rotation * float(u), float(ours.rotation.turn(u))));
    }
    assert!(close(*engine.forward(), float(ours.rotation.turn(UnitVec3::NegZ))));
    assert!(close(*engine.right(), float(ours.rotation.turn(UnitVec3::PosX))));
    for forward in ALL {
        for up in ALL {
            match Rotation::facing(forward, up) {
                Some(r) => {
                    let t = Transform::IDENTITY.looking_to(float(forward), float(up));
                    for u in ALL {
                        assert!(close(t.rotation * float(u), float(r.turn(u))));
                    }
                }
                None => assert!(float(forward).cross(float(up)).length() < 1e-6),
            }
        }
    }
}

#[test]
fn gravity_is_the_engines_vector() {
    let mut s = ToggleState::initial();
    let as_float = |s: &ToggleState| {
        let g = s.gravity();
        Vec3::new(
            (g.x as f64 / UNIT as f64) as f32,
            (g.y as f64 / UNIT as f64) as f32,
            (g.z as f64 / UNIT as f64) as f32,
        )
    };
    assert_eq!(as_float(&s), Vec3::ZERO);
    s.handle(KeyEvent::Pressed(Key::G));
    let on = Vec3::Y * -9.81;
    assert_eq!(as_float(&s), on);
    assert_eq!(as_float(&s).y.to_bits(), on.y.to_bits());
    assert_eq!(as_float(&s).y.to_bits(), (-9.81f32).to_bits());
    s.handle(KeyEvent::Pressed(Key::G));
    assert_eq!(as_float(&s).to_array().map(f32::to_bits), [0, 0, 0]);
    s.handle(KeyEvent::Pressed(Key::G));
    assert_eq!(as_float(&s).y.to_bits(), on.y.to_bits());
}
