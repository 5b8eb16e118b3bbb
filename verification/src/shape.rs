//! What a body is made of: its kinematic class and the shape of a collider.

use vstd::prelude::*;
use crate::vector::UnitVec3;

verus! {

/// Whether the simulation may move a body.
#[derive(Clone, Copy, Debug, PartialEq, Eq, Structural)]
pub enum BodyKind {
    /// Never moved by the simulation.
    Fixed,
    /// Moved by the simulation alone once it is spawned.
    Dynamic,
}

/// The shape of a collider. Every dimension is in fixed-point steps. A
/// cylinder stands on its local Y axis.
#[derive(Clone, Copy, Debug, PartialEq, Eq, Structural)]
pub enum Shape {
    Cylinder { radius: i64, half_height: i64 },
    Cuboid { half_x: i64, half_y: i64, half_z: i64 },
    RoundedCylinder { radius: i64, half_height: i64, border_radius: i64 },
}

impl Shape {
    /// No dimension is zero or negative.
    pub open spec fn is_valid(self) -> bool {
        match self {
            Shape::Cylinder { radius, half_height } => radius > 0 && half_height > 0,
            Shape::Cuboid { half_x, half_y, half_z } => half_x > 0 && half_y > 0 && half_z > 0,
            Shape::RoundedCylinder { radius, half_height, border_radius } => radius > 0
                && half_height > 0 && border_radius > 0,
        }
    }

    /// The local axis about which the shape rolls, if it has one: the axis
    /// of symmetry of a cylinder.
    pub open spec fn spec_rolling_axis(self) -> Option<UnitVec3> {
        match self {
            Shape::Cylinder { .. } => Some(UnitVec3::PosY),
            Shape::Cuboid { .. } => None,
            Shape::RoundedCylinder { .. } => Some(UnitVec3::PosY),
        }
    }

    pub fn check_valid(&self) -> (r: bool)
        ensures
            r == self.is_valid(),
    {
        match self {
            Shape::Cylinder { radius, half_height } => *radius > 0 && *half_height > 0,
            Shape::Cuboid { half_x, half_y, half_z } => *half_x > 0 && *half_y > 0 && *half_z > 0,
            Shape::RoundedCylinder { radius, half_height, border_radius } => *radius > 0
                && *half_height > 0 && *border_radius > 0,
        }
    }

    pub fn rolling_axis(&self) -> (r: Option<UnitVec3>)
        ensures
            r == self.spec_rolling_axis(),
    {
        match self {
            Shape::Cylinder { .. } => Some(UnitVec3::PosY),
            Shape::Cuboid { .. } => None,
            Shape::RoundedCylinder { .. } => Some(UnitVec3::PosY),
        }
    }
}

/// The rolling axis of a body that may have no shape.
pub open spec fn rolling_axis_of(shape: Option<Shape>) -> Option<UnitVec3> {
    match shape {
        Some(s) => s.spec_rolling_axis(),
        None => None,
    }
}

} // verus!
