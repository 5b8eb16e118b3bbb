use bike_rig::camera::CameraState;
use bike_rig::collision::Role;
use bike_rig::joint::{BodyHandle, Joint, JointHandle};
use bike_rig::registry::{Body, Registry};
use bike_rig::scene::{setup_bike, setup_camera, setup_physics, setup_scene};
use bike_rig::shape::{BodyKind, Shape};
use bike_rig::status::{
    setup_ui, state_txt, status_sections, update_ui, StatusUpdate, GRAVITY_SECTION,
    PHYSICS_SECTION,
};
use bike_rig::toggle::ToggleState;
use bike_rig::vector::{Rotation, Transform, UnitVec3, Vec3, UNIT};

#[test]
fn the_ground_is_a_fixed_disc_below_the_origin() {
    let mut r = Registry::new();
    let ground = setup_scene(&mut r);
    assert_eq!(ground, BodyHandle { index: 0 });
    assert_eq!(r.body_count(), 1);
    assert_eq!(r.joint_count(), 0);
    assert_eq!(
        r.body(ground),
        Some(Body {
            kind: BodyKind::Fixed,
            shape: Some(Shape::Cylinder { radius: 5_000_000_000, half_height: 50_000_000 }),
            local: Transform::from_xyz(0, -1_000_000_000, 0),
            parent: None,
            group: Role::Ground.group(),
        })
    );
}

#[test]
fn the_bike_is_a_chassis_two_boxes_and_a_hinged_wheel() {
    let mut r = Registry::new();
    let ground = setup_scene(&mut r);
    let bike = setup_bike(&mut r);
    assert_eq!(r.body_count(), 5);
    assert_eq!(r.joint_count(), 1);
    assert_eq!(bike.chassis, BodyHandle { index: 1 });
    assert_eq!(bike.rear, BodyHandle { index: 2 });
    assert_eq!(bike.front, BodyHandle { index: 3 });
    assert_eq!(bike.wheel, BodyHandle { index: 4 });
    assert_eq!(bike.hinge, JointHandle { index: 0 });

    let chassis = r.body(bike.chassis).unwrap();
    assert_eq!(chassis.kind, BodyKind::Dynamic);
    assert_eq!(chassis.shape, None);
    assert_eq!(chassis.local, Transform::identity());
    assert_eq!(chassis.group, Role::Chassis.group());

    let block = Shape::Cuboid { half_x: 500_000_000, half_y: 200_000_000, half_z: 600_000_000 };
    let rear = r.body(bike.rear).unwrap();
    let front = r.body(bike.front).unwrap();
    assert_eq!(rear.shape, Some(block));
    assert_eq!(front.shape, Some(block));
    assert_eq!(rear.parent, Some(bike.chassis));
    assert_eq!(front.parent, Some(bike.chassis));
    assert_eq!(rear.local, Transform::from_xyz(0, 0, -1_500_000_000));
    assert_eq!(front.local, Transform::from_xyz(0, 0, 1_500_000_000));
    assert_eq!(
        r.world_transform(bike.front).unwrap().position,
        Vec3::new(0, 0, 1_500_000_000)
    );

    let wheel = r.body(bike.wheel).unwrap();
    assert_eq!(wheel.kind, BodyKind::Dynamic);
    assert_eq!(
        wheel.shape,
        Some(Shape::Cylinder { radius: 800_000_000, half_height: 400_000_000 })
    );
    assert_eq!(wheel.parent, None);
    assert_eq!(wheel.group, Role::Wheel.group());

    assert_eq!(
        r.joint(bike.hinge),
        Some(Joint {
            parent: bike.chassis,
            child: bike.wheel,
            axis: UnitVec3::PosX,
            anchor_parent: Vec3::zero(),
            anchor_child: Vec3::zero(),
            basis_child: Rotation::quarter_turn(UnitVec3::PosZ),
            suppress_contacts: false,
        })
    );
    assert_eq!(r.joint(bike.hinge).unwrap().child_axis(), UnitVec3::PosY);

    assert!(r.may_collide(ground, bike.wheel));
    assert!(r.may_collide(ground, bike.rear));
    assert!(r.may_collide(ground, bike.front));
    assert!(!r.may_collide(bike.wheel, bike.chassis));
    assert!(!r.may_collide(bike.wheel, bike.rear));
    assert!(!r.may_collide(bike.wheel, bike.front));
}

#[test]
fn the_camera_looks_at_the_origin_from_the_side() {
    let c = setup_camera();
    assert_eq!(
        c,
        CameraState {
            position: Vec3::new(2 * UNIT, 0, 0),
            rotation: Rotation { x: UnitVec3::NegZ, y: UnitVec3::PosY, z: UnitVec3::PosX },
            vertical_extent: 3 * UNIT,
        }
    );
    assert_eq!(c.rotation.turn(UnitVec3::NegZ), UnitVec3::NegX);
}

#[test]
fn the_scene_starts_inert() {
    assert_eq!(setup_physics(), ToggleState { physics_active: false, gravity_enabled: false });
}

#[test]
fn the_status_line_starts_with_both_switches_off() {
    assert_eq!(setup_ui(), vec!["Physics: ", "OFF", " (p)\n", "Gravity: ", "OFF", " (g)"]);
    assert_eq!(setup_ui().concat(), "Physics: OFF (p)\nGravity: OFF (g)");
    assert_eq!(PHYSICS_SECTION, 1);
    assert_eq!(GRAVITY_SECTION, 4);
}

#[test]
fn the_status_line_follows_the_switches() {
    assert_eq!(state_txt(true), "ON");
    assert_eq!(state_txt(false), "OFF");
    let s = ToggleState { physics_active: true, gravity_enabled: false };
    let sections = status_sections(&s);
    assert_eq!(sections.len(), 6);
    assert_eq!(sections[PHYSICS_SECTION], "ON");
    assert_eq!(sections[GRAVITY_SECTION], "OFF");
    let t = ToggleState { physics_active: false, gravity_enabled: true };
    assert_eq!(status_sections(&t).concat(), "Physics: OFF (p)\nGravity: ON (g)");
}

#[test]
fn the_status_line_is_written_only_when_there_is_news() {
    let s = ToggleState { physics_active: true, gravity_enabled: true };
    assert_eq!(update_ui(false, false, &s), None);
    assert_eq!(update_ui(false, true, &s), None);
    assert_eq!(update_ui(true, false, &s), None);
    assert_eq!(update_ui(true, true, &s), Some(StatusUpdate { physics: "ON", gravity: "ON" }));
    let t = ToggleState { physics_active: false, gravity_enabled: true };
    assert_eq!(update_ui(true, true, &t), Some(StatusUpdate { physics: "OFF", gravity: "ON" }));
}
