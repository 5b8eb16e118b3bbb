//! Hinges: a joint that leaves two bodies one axis to turn about, and the
//! turn of the child's joint frame that brings that axis onto the axis
//! about which the child's shape rolls.

use vstd::prelude::*;
use crate::vector::{Rotation, UnitVec3, Vec3};

verus! {

/// An opaque name for a body of a registry.
#[derive(Clone, Copy, Debug, PartialEq, Eq, Structural)]
pub struct BodyHandle {
    pub index: usize,
}

/// An opaque name for a joint of a registry.
#[derive(Clone, Copy, Debug, PartialEq, Eq, Structural)]
pub struct JointHandle {
    pub index: usize,
}

/// Why a hinge was not built.
#[derive(Clone, Copy, Debug, PartialEq, Eq, Structural)]
pub enum RigError {
    /// One of the handles names no body of the registry.
    UnknownBody,
    /// Both ends name the same body.
    SameBody,
    /// Neither end is a dynamic body, so the joint could move nothing.
    NoDynamicEndpoint,
}

/// A hinge between two bodies.
#[derive(Clone, Copy, Debug, PartialEq, Eq, Structural)]
pub struct Joint {
    pub parent: BodyHandle,
    pub child: BodyHandle,
    /// The axis of the hinge in the parent's local frame. In the child's
    /// local frame the hinge lies along `basis_child` applied to this axis.
    pub axis: UnitVec3,
    /// Where the hinge sits in the parent's local frame.
    pub anchor_parent: Vec3,
    /// Where the hinge sits in the child's local frame.
    pub anchor_child: Vec3,
    /// How the child's joint frame is turned against the child's local
    /// frame. The parent's joint frame is not turned.
    pub basis_child: Rotation,
    /// Whether the two bodies are kept from pushing on each other, whatever
    /// their collision groups say.
    pub suppress_contacts: bool,
}

impl Joint {
    /// The axis about which the child turns, in the child's local frame.
    pub open spec fn spec_child_axis(self) -> UnitVec3 {
        self.basis_child.turned(self.axis)
    }

    pub fn child_axis(&self) -> (u: UnitVec3)
        ensures
            u == self.spec_child_axis(),
    {
        self.basis_child.turn(self.axis)
    }

    /// Whether the joint connects `a` and `b`, in either order.
    pub open spec fn joins(self, a: BodyHandle, b: BodyHandle) -> bool {
        (self.parent == a && self.child == b) || (self.parent == b && self.child == a)
    }

    pub fn connects(&self, a: BodyHandle, b: BodyHandle) -> (r: bool)
        ensures
            r == self.joins(a, b),
    {
        (self.parent == a && self.child == b) || (self.parent == b && self.child == a)
    }
}

/// A unit vector at right angles to `u`: the positive direction of the next
/// axis in the order X, Y, Z, X.
pub open spec fn beside(u: UnitVec3) -> UnitVec3 {
    match u {
        UnitVec3::PosX | UnitVec3::NegX => UnitVec3::PosY,
        UnitVec3::PosY | UnitVec3::NegY => UnitVec3::PosZ,
        UnitVec3::PosZ | UnitVec3::NegZ => UnitVec3::PosX,
    }
}

/// The turn of the child's joint frame that carries the hinge axis onto the
/// child's rolling axis by the shortest way: none where the two agree or
/// the child has no rolling axis, a quarter turn about `axis x rolling`
/// where they are at right angles, a half turn where they are opposite.
pub open spec fn compensation(axis: UnitVec3, rolling: Option<UnitVec3>) -> Rotation {
    match rolling {
        None => Rotation::spec_identity(),
        Some(r) => match axis.spec_cross(r) {
            Some(k) => Rotation::spec_quarter_turn(k),
            None => if axis == r {
                Rotation::spec_identity()
            } else {
                Rotation::spec_half_turn(beside(axis))
            },
        },
    }
}

pub fn compensating_basis(axis: UnitVec3, rolling: Option<UnitVec3>) -> (basis: Rotation)
    ensures
        basis == compensation(axis, rolling),
        basis.is_proper(),
        rolling matches Some(r) ==> basis.turned(axis) == r,
        rolling is None ==> basis.turned(axis) == axis,
{
    proof {
        lemma_compensation(axis, rolling);
    }
    match rolling {
        None => Rotation::identity(),
        Some(r) => match axis.cross(r) {
            Some(k) => Rotation::quarter_turn(k),
            None => if axis == r {
                Rotation::identity()
            } else {
                let next: u8 = (axis.axis() + 1) % 3;
                Rotation::half_turn(UnitVec3::on_axis(next, true))
            },
        },
    }
}

/// The compensating turn is a proper rotation and carries the hinge axis
/// onto the child's rolling axis. A child without a rolling axis keeps the
/// hinge axis as it is.
pub proof fn lemma_compensation(axis: UnitVec3, rolling: Option<UnitVec3>)
    ensures
        compensation(axis, rolling).is_proper(),
        rolling matches Some(r) ==> compensation(axis, rolling).turned(axis) == r,
        rolling is None ==> compensation(axis, rolling).turned(axis) == axis,
{
}

/// Without the compensating turn a hinge whose axis is at right angles to
/// the child's rolling axis still leaves the child one axis to turn about,
/// but the wrong one: an axis at right angles to the rolling axis.
pub proof fn lemma_uncompensated_axis_is_wrong(axis: UnitVec3, rolling: UnitVec3)
    requires
        axis.spec_cross(rolling) is Some,
    ensures
        Rotation::spec_identity().turned(axis) == axis,
        axis != rolling && axis != rolling.spec_opposite(),
        compensation(axis, Some(rolling)) != Rotation::spec_identity(),
{
}

} // verus!
