//! Which colliders meet: every collider belongs to some groups and accepts
//! contact with some groups, and two colliders interact only if each
//! belongs to a group that the other accepts.

use vstd::prelude::*;

verus! {

pub const GROUP_1: u32 = 0x1;

pub const GROUP_2: u32 = 0x2;

pub const GROUP_3: u32 = 0x4;

pub const ALL_GROUPS: u32 = 0xFFFF_FFFF;

/// The groups a collider belongs to and the groups it accepts, one bit per
/// group.
#[derive(Clone, Copy, Debug, PartialEq, Eq, Structural)]
pub struct CollisionGroup {
    pub membership: u32,
    pub filter: u32,
}

/// The parts of the rig that take a group of their own.
#[derive(Clone, Copy, Debug, PartialEq, Eq, Structural)]
pub enum Role {
    Ground,
    Chassis,
    Wheel,
}

impl Role {
    /// Ground is in group 1 and accepts groups 1, 2 and 3. The chassis is in
    /// group 2, a wheel in group 3, and both accept group 1 alone.
    pub open spec fn spec_group(self) -> CollisionGroup {
        match self {
            Role::Ground => CollisionGroup {
                membership: GROUP_1,
                filter: GROUP_1 | GROUP_2 | GROUP_3,
            },
            Role::Chassis => CollisionGroup { membership: GROUP_2, filter: GROUP_1 },
            Role::Wheel => CollisionGroup { membership: GROUP_3, filter: GROUP_1 },
        }
    }

    pub fn group(self) -> (g: CollisionGroup)
        ensures
            g == self.spec_group(),
    {
        match self {
            Role::Ground => CollisionGroup {
                membership: GROUP_1,
                filter: GROUP_1 | GROUP_2 | GROUP_3,
            },
            Role::Chassis => CollisionGroup { membership: GROUP_2, filter: GROUP_1 },
            Role::Wheel => CollisionGroup { membership: GROUP_3, filter: GROUP_1 },
        }
    }
}

impl CollisionGroup {
    /// Each of the two belongs to a group that the other accepts.
    pub open spec fn meets(self, other: CollisionGroup) -> bool {
        (self.membership & other.filter) != 0 && (other.membership & self.filter) != 0
    }

    pub open spec fn spec_everything() -> CollisionGroup {
        CollisionGroup { membership: ALL_GROUPS, filter: ALL_GROUPS }
    }

    pub fn new(membership: u32, filter: u32) -> (g: CollisionGroup)
        ensures
            g.membership == membership,
            g.filter == filter,
    {
        CollisionGroup { membership, filter }
    }

    /// In every group and accepting every group: what a collider has until
    /// it is assigned a group.
    pub fn everything() -> (g: CollisionGroup)
        ensures
            g == CollisionGroup::spec_everything(),
    {
        CollisionGroup { membership: ALL_GROUPS, filter: ALL_GROUPS }
    }

    pub fn collides(&self, other: &CollisionGroup) -> (r: bool)
        ensures
            r == self.meets(*other),
    {
        (self.membership & other.filter) != 0 && (other.membership & self.filter) != 0
    }
}

/// Whether two colliders meet does not depend on the order in which they
/// are asked.
pub proof fn lemma_meets_symmetric(a: CollisionGroup, b: CollisionGroup)
    ensures
        a.meets(b) == b.meets(a),
{
}

/// A collider in no group, or accepting none, meets nothing.
pub proof fn lemma_empty_meets_nothing(a: CollisionGroup, b: CollisionGroup)
    requires
        a.membership == 0 || a.filter == 0,
    ensures
        !a.meets(b),
{
    let bf = b.filter;
    let bm = b.membership;
    assert(0u32 & bf == 0) by (bit_vector);
    assert(bm & 0u32 == 0) by (bit_vector);
}

/// A collider left in every group, accepting every group, meets every
/// collider that is in some group and accepts some group.
pub proof fn lemma_everything_meets(b: CollisionGroup)
    requires
        b.membership != 0,
        b.filter != 0,
    ensures
        CollisionGroup::spec_everything().meets(b),
{
    let bf = b.filter;
    let bm = b.membership;
    assert(bf != 0 ==> 0xFFFF_FFFFu32 & bf != 0) by (bit_vector);
    assert(bm != 0 ==> bm & 0xFFFF_FFFFu32 != 0) by (bit_vector);
}

/// Ground in group 1 meets a wheel in group 3 that accepts group 1,
/// whatever else the ground accepts beside group 3.
pub proof fn lemma_ground_meets_wheel(ground_filter: u32)
    requires
        ground_filter & GROUP_3 != 0,
    ensures
        (CollisionGroup { membership: GROUP_1, filter: ground_filter }).meets(
            CollisionGroup { membership: GROUP_3, filter: GROUP_1 },
        ),
{
    assert(ground_filter & 0x4u32 != 0 ==> 0x4u32 & ground_filter != 0) by (bit_vector);
    assert(0x1u32 & 0x1u32 != 0) by (bit_vector);
}

/// A chassis in group 2 never meets a wheel in group 3 that accepts group 1
/// alone, whatever the chassis accepts.
pub proof fn lemma_chassis_misses_wheel(chassis_filter: u32)
    ensures
        !(CollisionGroup { membership: GROUP_2, filter: chassis_filter }).meets(
            CollisionGroup { membership: GROUP_3, filter: GROUP_1 },
        ),
{
    assert(0x2u32 & 0x1u32 == 0) by (bit_vector);
}

/// What the policy amounts to: ground meets ground, chassis and wheel, and
/// no other pair meets. A wheel never meets its chassis or another wheel.
pub proof fn lemma_policy(a: Role, b: Role)
    ensures
        a.spec_group().meets(b.spec_group()) == (a == Role::Ground || b == Role::Ground),
{
    assert(0x1u32 | 0x2u32 | 0x4u32 == 0x7u32) by (bit_vector);
    assert(0x1u32 & 0x7u32 != 0) by (bit_vector);
    assert(0x2u32 & 0x7u32 != 0) by (bit_vector);
    assert(0x4u32 & 0x7u32 != 0) by (bit_vector);
    assert(0x1u32 & 0x1u32 != 0) by (bit_vector);
    assert(0x2u32 & 0x1u32 == 0) by (bit_vector);
    assert(0x4u32 & 0x1u32 == 0) by (bit_vector);
}

} // verus!
