use bike_rig::vector::{Rotation, Transform, UnitVec3, Vec3, MILLI, UNIT};

const ALL: [UnitVec3; 6] = [
    UnitVec3::PosX,
    UnitVec3::NegX,
    UnitVec3::PosY,
    UnitVec3::NegY,
    UnitVec3::PosZ,
    UnitVec3::NegZ,
];

fn coords(u: UnitVec3) -> (i64, i64, i64) {
    let v = u.to_vec3();
    (v.x / UNIT, v.y / UNIT, v.z / UNIT)
}

#[test]
fn units() {
    assert_eq!(UNIT, 1_000_000_000);
    assert_eq!(MILLI * 1000, UNIT);
}

#[test]
fn cross_is_the_vector_product() {
    for a in ALL {
        for b in ALL {
            let (ax, ay, az) = coords(a);
            let (bx, by, bz) = coords(b);
            let product = (ay * bz - az * by, az * bx - ax * bz, ax * by - ay * bx);
            match a.cross(b) {
                Some(c) => assert_eq!(coords(c), product),
                None => {
                    assert_eq!(product, (0, 0, 0));
                    assert!(b == a || b == a.opposite());
                }
            }
        }
    }
    assert_eq!(UnitVec3::PosX.cross(UnitVec3::PosY), Some(UnitVec3::PosZ));
    assert_eq!(UnitVec3::PosY.cross(UnitVec3::PosX), Some(UnitVec3::NegZ));
}

#[test]
fn opposite_and_axis() {
    assert_eq!(UnitVec3::PosX.opposite(), UnitVec3::NegX);
    assert_eq!(UnitVec3::NegZ.opposite(), UnitVec3::PosZ);
    assert_eq!(UnitVec3::NegY.axis(), 1);
    assert!(!UnitVec3::NegY.is_positive());
    assert_eq!(UnitVec3::NegY.to_vec3(), Vec3::new(0, -UNIT, 0));
}

#[test]
fn quarter_turn_about_z_takes_x_to_y() {
    let q = Rotation::quarter_turn(UnitVec3::PosZ);
    assert_eq!(q, Rotation { x: UnitVec3::PosY, y: UnitVec3::NegX, z: UnitVec3::PosZ });
    assert_eq!(q.turn(UnitVec3::PosX), UnitVec3::PosY);
    assert_eq!(q.turn(UnitVec3::PosY), UnitVec3::NegX);
    assert_eq!(q.turn(UnitVec3::NegZ), UnitVec3::NegZ);
    assert_eq!(q.rotate(Vec3::new(3, 5, 7)), Vec3::new(-5, 3, 7));
    assert!(q.check_proper());
}

#[test]
fn four_quarter_turns_come_back() {
    for about in ALL {
        let q = Rotation::quarter_turn(about);
        let half = q.compose(&q);
        assert_eq!(half, Rotation::half_turn(about));
        assert_eq!(half.compose(&half), Rotation::identity());
        assert!(q.check_proper());
        assert!(half.check_proper());
    }
}

#[test]
fn a_reflection_is_not_proper() {
    let mirror = Rotation { x: UnitVec3::NegX, y: UnitVec3::PosY, z: UnitVec3::PosZ };
    assert!(!mirror.check_proper());
    let flat = Rotation { x: UnitVec3::PosX, y: UnitVec3::PosX, z: UnitVec3::PosZ };
    assert!(!flat.check_proper());
}

#[test]
fn compose_applies_the_first_turn_first() {
    let about_z = Rotation::quarter_turn(UnitVec3::PosZ);
    let about_x = Rotation::quarter_turn(UnitVec3::PosX);
    let both = about_x.compose(&about_z);
    for u in ALL {
        assert_eq!(both.turn(u), about_x.turn(about_z.turn(u)));
    }
    let v = Vec3::new(1, 2, 3);
    assert_eq!(both.rotate(v), about_x.rotate(about_z.rotate(v)));
    assert_eq!(both.rotate(v), Vec3::new(-2, -3, 1));
}

#[test]
fn facing_gives_the_viewers_frame() {
    let r = Rotation::facing(UnitVec3::NegX, UnitVec3::PosY).unwrap();
    assert_eq!(r, Rotation { x: UnitVec3::NegZ, y: UnitVec3::PosY, z: UnitVec3::PosX });
    assert_eq!(r.turn(UnitVec3::NegZ), UnitVec3::NegX);
    assert_eq!(Rotation::facing(UnitVec3::NegZ, UnitVec3::PosY), Some(Rotation::identity()));
    assert_eq!(Rotation::facing(UnitVec3::PosY, UnitVec3::PosY), None);
    assert_eq!(Rotation::facing(UnitVec3::PosY, UnitVec3::NegY), None);
}

#[test]
fn placements_start_unturned() {
    assert_eq!(Transform::from_xyz(1, 2, 3).position, Vec3::new(1, 2, 3));
    assert_eq!(Transform::from_xyz(1, 2, 3).rotation, Rotation::identity());
    assert_eq!(Transform::identity(), Transform::from_xyz(0, 0, 0));
}

#[test]
fn vec3_helpers() {
    assert!(Vec3::zero().is_zero());
    assert!(!Vec3::new(0, 0, 1).is_zero());
    assert_eq!(Vec3::new(1, 2, 3).checked_plus(&Vec3::new(10, 20, 30)), Some(Vec3::new(11, 22, 33)));
    assert_eq!(Vec3::new(i64::MAX, 0, 0).checked_plus(&Vec3::new(1, 0, 0)), None);
    assert_eq!(Vec3::new(0, 0, i64::MIN).checked_plus(&Vec3::new(0, 0, -1)), None);
}
