//! The scene: a ground disc, a chassis with a box at either end, a wheel
//! hinged to the chassis, and a camera that looks at them from the side.

use vstd::prelude::*;
use crate::camera::CameraState;
use crate::collision::{lemma_policy, CollisionGroup, Role};
use crate::joint::{BodyHandle, Joint, JointHandle};
use crate::registry::{Body, Registry};
use crate::shape::{BodyKind, Shape};
use crate::toggle::ToggleState;
use crate::vector::{Rotation, Transform, UnitVec3, Vec3, MILLI, UNIT};

verus! {

/// The handles of the parts of the bike.
#[derive(Clone, Copy, Debug, PartialEq, Eq, Structural)]
pub struct Bike {
    pub chassis: BodyHandle,
    /// The box at the rear end of the chassis.
    pub rear: BodyHandle,
    /// The box at the front end of the chassis.
    pub front: BodyHandle,
    pub wheel: BodyHandle,
    /// The hinge that holds the wheel to the chassis.
    pub hinge: JointHandle,
}

/// A placement at `(x, y, z)` that is not turned.
pub open spec fn at(x: int, y: int, z: int) -> Transform {
    Transform {
        position: Vec3 { x: x as i64, y: y as i64, z: z as i64 },
        rotation: Rotation::spec_identity(),
    }
}

/// The ground: a fixed disc ten units across and a tenth of a unit thick,
/// one unit below the origin.
pub open spec fn ground_body() -> Body {
    Body {
        kind: BodyKind::Fixed,
        shape: Some(
            Shape::Cylinder { radius: (5 * UNIT) as i64, half_height: (50 * MILLI) as i64 },
        ),
        local: at(0, -UNIT, 0),
        parent: None,
        group: Role::Ground.spec_group(),
    }
}

/// The chassis itself: a dynamic body at the origin that carries no
/// collider of its own.
pub open spec fn chassis_body() -> Body {
    Body {
        kind: BodyKind::Dynamic,
        shape: None,
        local: at(0, 0, 0),
        parent: None,
        group: Role::Chassis.spec_group(),
    }
}

/// One of the two boxes of the chassis, `z` steps along the chassis.
pub open spec fn chassis_box(chassis: BodyHandle, z: int) -> Body {
    Body {
        kind: BodyKind::Dynamic,
        shape: Some(
            Shape::Cuboid {
                half_x: (500 * MILLI) as i64,
                half_y: (200 * MILLI) as i64,
                half_z: (600 * MILLI) as i64,
            },
        ),
        local: at(0, 0, z),
        parent: Some(chassis),
        group: Role::Chassis.spec_group(),
    }
}

/// The wheel: a dynamic cylinder at the origin, 1.6 units across and 0.8
/// units wide.
pub open spec fn wheel_body() -> Body {
    Body {
        kind: BodyKind::Dynamic,
        shape: Some(
            Shape::Cylinder { radius: (800 * MILLI) as i64, half_height: (400 * MILLI) as i64 },
        ),
        local: at(0, 0, 0),
        parent: None,
        group: Role::Wheel.spec_group(),
    }
}

/// The hinge of the wheel: about the X axis, anchored at the origin of both
/// bodies. The wheel is a cylinder, which rolls about its Y axis, so its
/// joint frame is turned by a quarter about Z.
pub open spec fn wheel_hinge(chassis: BodyHandle, wheel: BodyHandle) -> Joint {
    Joint {
        parent: chassis,
        child: wheel,
        axis: UnitVec3::PosX,
        anchor_parent: Vec3 { x: 0, y: 0, z: 0 },
        anchor_child: Vec3 { x: 0, y: 0, z: 0 },
        basis_child: Rotation::spec_quarter_turn(UnitVec3::PosZ),
        suppress_contacts: false,
    }
}

/// The camera: two units out on the X axis, looking back at the origin
/// with Y overhead, showing three units of the world from bottom to top.
pub open spec fn scene_camera() -> CameraState {
    CameraState {
        position: Vec3 { x: (2 * UNIT) as i64, y: 0, z: 0 },
        rotation: Rotation { x: UnitVec3::NegZ, y: UnitVec3::PosY, z: UnitVec3::PosX },
        vertical_extent: (3 * UNIT) as i64,
    }
}

fn spawn_in_role(
    registry: &mut Registry,
    kind: BodyKind,
    shape: Option<Shape>,
    local: Transform,
    parent: Option<BodyHandle>,
    role: Role,
) -> (h: BodyHandle)
    requires
        old(registry).wf(),
        old(registry).can_hold(shape, local, parent),
    ensures
        final(registry).wf(),
        h.index == old(registry).bodies().len(),
        final(registry).bodies() == old(registry).bodies().push(
            Body { kind, shape, local, parent, group: role.spec_group() },
        ),
        final(registry).joints() == old(registry).joints(),
{
    let h: BodyHandle = registry.spawn(kind, shape, local, parent);
    let group: CollisionGroup = role.group();
    registry.assign_group(h, group.membership, group.filter);
    h
}

/// Adds the ground to the registry.
pub fn setup_scene(registry: &mut Registry) -> (ground: BodyHandle)
    requires
        old(registry).wf(),
    ensures
        final(registry).wf(),
        ground.index == old(registry).bodies().len(),
        final(registry).bodies() == old(registry).bodies().push(ground_body()),
        final(registry).joints() == old(registry).joints(),
{
    spawn_in_role(
        registry,
        BodyKind::Fixed,
        Some(Shape::Cylinder { radius: 5 * UNIT, half_height: 50 * MILLI }),
        Transform::from_xyz(0, -UNIT, 0),
        None,
        Role::Ground,
    )
}

/// Adds the bike to the registry: the chassis, its two boxes, and the wheel
/// on its hinge.
pub fn setup_bike(registry: &mut Registry) -> (bike: Bike)
    requires
        old(registry).wf(),
    ensures
        final(registry).wf(),
        bike.chassis.index == old(registry).bodies().len(),
        bike.rear.index == bike.chassis.index + 1,
        bike.front.index == bike.chassis.index + 2,
        bike.wheel.index == bike.chassis.index + 3,
        bike.hinge.index == old(registry).joints().len(),
        final(registry).bodies() == old(registry).bodies().push(chassis_body()).push(
            chassis_box(bike.chassis, -1500 * MILLI),
        ).push(chassis_box(bike.chassis, 1500 * MILLI)).push(wheel_body()),
        final(registry).joints() == old(registry).joints().push(
            wheel_hinge(bike.chassis, bike.wheel),
        ),
        !final(registry).interacts(bike.wheel, bike.chassis),
        !final(registry).interacts(bike.wheel, bike.rear),
        !final(registry).interacts(bike.wheel, bike.front),
{
    proof {
        lemma_policy(Role::Wheel, Role::Chassis);
    }
    let chassis: BodyHandle = spawn_in_role(
        registry,
        BodyKind::Dynamic,
        None,
        Transform::identity(),
        None,
        Role::Chassis,
    );
    let block = Shape::Cuboid { half_x: 500 * MILLI, half_y: 200 * MILLI, half_z: 600 * MILLI };
    let rear: BodyHandle = spawn_in_role(
        registry,
        BodyKind::Dynamic,
        Some(block),
        Transform::from_xyz(0, 0, -1500 * MILLI),
        Some(chassis),
        Role::Chassis,
    );
    let front: BodyHandle = spawn_in_role(
        registry,
        BodyKind::Dynamic,
        Some(block),
        Transform::from_xyz(0, 0, 1500 * MILLI),
        Some(chassis),
        Role::Chassis,
    );
    let wheel: BodyHandle = spawn_in_role(
        registry,
        BodyKind::Dynamic,
        Some(Shape::Cylinder { radius: 800 * MILLI, half_height: 400 * MILLI }),
        Transform::identity(),
        None,
        Role::Wheel,
    );
    let hinge: JointHandle = registry.build_hinge(
        chassis,
        wheel,
        UnitVec3::PosX,
        Vec3::zero(),
        Vec3::zero(),
        false,
    ).unwrap();
    Bike { chassis, rear, front, wheel, hinge }
}

/// The camera as the scene starts.
pub fn setup_camera() -> (camera: CameraState)
    ensures
        camera == scene_camera(),
        camera.rotation.is_proper(),
        camera.rotation.turned(UnitVec3::NegZ) == UnitVec3::NegX,
{
    let eye: Vec3 = Vec3::new(2 * UNIT, 0, 0);
    CameraState::looking(eye, UnitVec3::NegX, UnitVec3::PosY, 3 * UNIT).unwrap()
}

/// The switches as the scene starts: physics paused, gravity off.
pub fn setup_physics() -> (state: ToggleState)
    ensures
        state == ToggleState::spec_initial(),
{
    ToggleState::initial()
}

/// In a scene of ground and bike, the ground pushes on every part that
/// carries a collider, and no part of the bike pushes on another: the
/// wheel never meets the chassis it is hinged to.
pub proof fn lemma_bike_meets_ground_alone(r: Registry, ground: BodyHandle, bike: Bike)
    requires
        r.bodies() == Seq::<Body>::empty().push(ground_body()).push(chassis_body()).push(
            chassis_box(bike.chassis, -1500 * MILLI),
        ).push(chassis_box(bike.chassis, 1500 * MILLI)).push(wheel_body()),
        r.joints() == Seq::<Joint>::empty().push(wheel_hinge(bike.chassis, bike.wheel)),
        ground.index == 0,
        bike.chassis.index == 1,
        bike.rear.index == 2,
        bike.front.index == 3,
        bike.wheel.index == 4,
    ensures
        r.interacts(ground, bike.rear),
        r.interacts(ground, bike.front),
        r.interacts(ground, bike.wheel),
        !r.interacts(bike.wheel, bike.chassis),
        !r.interacts(bike.wheel, bike.rear),
        !r.interacts(bike.wheel, bike.front),
        !r.interacts(bike.rear, bike.front),
{
    lemma_policy(Role::Ground, Role::Chassis);
    lemma_policy(Role::Ground, Role::Wheel);
    lemma_policy(Role::Wheel, Role::Chassis);
    lemma_policy(Role::Chassis, Role::Chassis);
    assert forall|k: int| 0 <= k < r.joints().len() implies !(#[trigger] r.joints()[
        k
    ]).suppress_contacts by {
        assert(r.joints()[0] == wheel_hinge(bike.chassis, bike.wheel));
    }
}

} // verus!
