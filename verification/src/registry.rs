//! The bodies of a scene and the hinges between them.
//!
//! A body is placed relative to its parent, or to the world where it has
//! none. Bodies and joints are never removed, and a body never changes its
//! parent, so a handle stays good for as long as its registry lives.

use vstd::prelude::*;
use crate::collision::CollisionGroup;
use crate::joint::{
    compensating_basis, compensation, lemma_compensation, BodyHandle, Joint, JointHandle, RigError,
};
use crate::shape::{rolling_axis_of, BodyKind, Shape};
use crate::vector::{
    lemma_after_is_proper, lemma_moved_within, Point, Pose, Rotation, Transform, UnitVec3, Vec3,
};

verus! {

/// No coordinate of a placement relative to a parent is further from zero
/// than this: two to the power of 63.
pub open spec fn reach() -> int {
    0x8000_0000_0000_0000
}

/// One body of a scene, with the collider it carries, if any.
#[derive(Clone, Copy, Debug, PartialEq, Eq, Structural)]
pub struct Body {
    pub kind: BodyKind,
    pub shape: Option<Shape>,
    /// The placement relative to the parent, or to the world.
    pub local: Transform,
    pub parent: Option<BodyHandle>,
    pub group: CollisionGroup,
}

/// What must hold of the body at index `i`: its shape is not degenerate,
/// its placement is turned by a proper rotation, and its parent was spawned
/// before it.
pub open spec fn body_ok(bodies: Seq<Body>, i: int) -> bool {
    let b = bodies[i];
    &&& (b.shape matches Some(s) ==> s.is_valid())
    &&& b.local.rotation.is_proper()
    &&& (b.parent matches Some(p) ==> p.index < i)
}

/// What must hold of a joint: it connects two different bodies of the
/// registry, at least one of them dynamic, and the child's joint frame is
/// turned so that the hinge axis falls on the child's rolling axis.
pub open spec fn joint_ok(bodies: Seq<Body>, j: Joint) -> bool {
    &&& hinge_rejection(bodies, j.parent, j.child) is None
    &&& j.basis_child == compensation(
        j.axis,
        rolling_axis_of(bodies[j.child.index as int].shape),
    )
}

/// Why a hinge between `parent` and `child` is refused, if it is: the first
/// of the reasons that holds.
pub open spec fn hinge_rejection(
    bodies: Seq<Body>,
    parent: BodyHandle,
    child: BodyHandle,
) -> Option<RigError> {
    if parent.index >= bodies.len() || child.index >= bodies.len() {
        Some(RigError::UnknownBody)
    } else if parent == child {
        Some(RigError::SameBody)
    } else if bodies[parent.index as int].kind != BodyKind::Dynamic && bodies[child.index
        as int].kind != BodyKind::Dynamic {
        Some(RigError::NoDynamicEndpoint)
    } else {
        None
    }
}

/// The placement in the world of the body at index `i`: its own placement
/// carried through the placements of its ancestors.
pub open spec fn world_pose(bodies: Seq<Body>, i: int) -> Pose
    decreases i,
{
    match bodies[i].parent {
        Some(p) => if 0 <= i && p.index < i {
            world_pose(bodies, p.index as int).after(bodies[i].local@)
        } else {
            bodies[i].local@
        },
        None => bodies[i].local@,
    }
}

/// The world placement of a body is turned by a proper rotation, and lies
/// no further from the origin than its chain of ancestors can carry it.
pub proof fn lemma_world_pose_bounded(bodies: Seq<Body>, i: int)
    requires
        0 <= i < bodies.len(),
        forall|k: int| 0 <= k <= i ==> body_ok(bodies, k),
    ensures
        world_pose(bodies, i).position.within((i + 1) * reach()),
        world_pose(bodies, i).rotation.is_proper(),
    decreases i,
{
    assert(body_ok(bodies, i));
    let b = bodies[i];
    assert(b.local@.position.within(reach()));
    match b.parent {
        Some(p) => {
            let pi = p.index as int;
            lemma_world_pose_bounded(bodies, pi);
            let w = world_pose(bodies, pi);
            lemma_moved_within(w.rotation, b.local@.position, reach());
            lemma_after_is_proper(w.rotation, b.local.rotation);
        },
        None => {},
    }
}

/// A body's world placement depends only on the bodies spawned up to it.
pub proof fn lemma_world_pose_prefix(a: Seq<Body>, b: Seq<Body>, i: int)
    requires
        0 <= i < a.len(),
        i < b.len(),
        forall|k: int| 0 <= k <= i ==> a[k] == b[k],
    ensures
        world_pose(a, i) == world_pose(b, i),
    decreases i,
{
    match a[i].parent {
        Some(p) => {
            if p.index < i {
                lemma_world_pose_prefix(a, b, p.index as int);
            }
        },
        None => {},
    }
}

/// A point with coordinates wide enough for a chain of placements of any
/// length that a registry can hold.
struct Wide {
    x: i128,
    y: i128,
    z: i128,
}

impl View for Wide {
    type V = Point;

    closed spec fn view(&self) -> Point {
        Point { x: self.x as int, y: self.y as int, z: self.z as int }
    }
}

impl Wide {
    fn of(v: Vec3) -> (w: Wide)
        ensures
            w@ == v@,
    {
        Wide { x: v.x as i128, y: v.y as i128, z: v.z as i128 }
    }

    fn stretched(u: UnitVec3, k: i64) -> (w: Wide)
        ensures
            w@ == u.scaled(k as int),
    {
        let k: i128 = k as i128;
        match u {
            UnitVec3::PosX => Wide { x: k, y: 0, z: 0 },
            UnitVec3::NegX => Wide { x: -k, y: 0, z: 0 },
            UnitVec3::PosY => Wide { x: 0, y: k, z: 0 },
            UnitVec3::NegY => Wide { x: 0, y: -k, z: 0 },
            UnitVec3::PosZ => Wide { x: 0, y: 0, z: k },
            UnitVec3::NegZ => Wide { x: 0, y: 0, z: -k },
        }
    }

    /// Where the rotation sends `v`.
    fn rotated(r: &Rotation, v: Vec3) -> (w: Wide)
        ensures
            w@ == r.moved(v@),
    {
        let a: Wide = Wide::stretched(r.x, v.x);
        let b: Wide = Wide::stretched(r.y, v.y);
        let c: Wide = Wide::stretched(r.z, v.z);
        Wide { x: a.x + b.x + c.x, y: a.y + b.y + c.y, z: a.z + b.z + c.z }
    }

    fn plus(&self, other: &Wide) -> (w: Wide)
        requires
            self@.plus(other@).within(usize::MAX * reach()),
        ensures
            w@ == self@.plus(other@),
    {
        Wide { x: self.x + other.x, y: self.y + other.y, z: self.z + other.z }
    }

    /// The point with coordinates of the usual width, if they can hold it.
    fn narrowed(&self) -> (r: Option<Vec3>)
        ensures
            r is Some <==> self@.fits(),
            r matches Some(v) ==> v@ == self@,
    {
        let low: i128 = i64::MIN as i128;
        let high: i128 = i64::MAX as i128;
        if low <= self.x && self.x <= high && low <= self.y && self.y <= high && low <= self.z
            && self.z <= high {
            Some(Vec3 { x: self.x as i64, y: self.y as i64, z: self.z as i64 })
        } else {
            None
        }
    }
}

/// Whether the handle names a body that carries a collider: those are the
/// bodies whose orientation is watched.
pub open spec fn monitored(bodies: Seq<Body>, h: BodyHandle) -> bool {
    h.index < bodies.len() && bodies[h.index as int].shape is Some
}

/// The bodies and joints of a scene.
pub struct Registry {
    bodies: Vec<Body>,
    joints: Vec<Joint>,
}

impl Registry {
    /// The bodies, in the order in which they were spawned. A body's handle
    /// holds its index.
    pub closed spec fn bodies(self) -> Seq<Body> {
        self.bodies@
    }

    /// The joints, in the order in which they were built.
    pub closed spec fn joints(self) -> Seq<Joint> {
        self.joints@
    }

    /// The registry's invariant.
    pub open spec fn wf(self) -> bool {
        &&& forall|i: int| 0 <= i < self.bodies().len() ==> #[trigger] body_ok(self.bodies(), i)
        &&& forall|k: int|
            0 <= k < self.joints().len() ==> joint_ok(self.bodies(), #[trigger] self.joints()[k])
    }

    /// Whether the handle names a body of this registry.
    pub open spec fn has(self, h: BodyHandle) -> bool {
        h.index < self.bodies().len()
    }

    /// Whether a body with these properties can be spawned: the shape is not
    /// degenerate, the placement is turned by a proper rotation, and the
    /// parent is a body of this registry.
    pub open spec fn can_hold(
        self,
        shape: Option<Shape>,
        local: Transform,
        parent: Option<BodyHandle>,
    ) -> bool {
        &&& (shape matches Some(s) ==> s.is_valid())
        &&& local.rotation.is_proper()
        &&& (parent matches Some(p) ==> self.has(p))
    }

    /// Whether some joint that suppresses contacts connects `a` and `b`.
    pub open spec fn contacts_suppressed(self, a: BodyHandle, b: BodyHandle) -> bool {
        exists|k: int|
            0 <= k < self.joints().len() && (#[trigger] self.joints()[k]).suppress_contacts
                && self.joints()[k].joins(a, b)
    }

    /// Whether the colliders of `a` and `b` push on each other: both are
    /// bodies of this registry, their groups meet, and no joint between them
    /// suppresses contacts.
    pub open spec fn interacts(self, a: BodyHandle, b: BodyHandle) -> bool {
        &&& self.has(a)
        &&& self.has(b)
        &&& self.bodies()[a.index as int].group.meets(self.bodies()[b.index as int].group)
        &&& !self.contacts_suppressed(a, b)
    }

    pub fn new() -> (r: Registry)
        ensures
            r.wf(),
            r.bodies() == Seq::<Body>::empty(),
            r.joints() == Seq::<Joint>::empty(),
    {
        Registry { bodies: Vec::new(), joints: Vec::new() }
    }

    pub fn body_count(&self) -> (n: usize)
        ensures
            n == self.bodies().len(),
    {
        self.bodies.len()
    }

    pub fn joint_count(&self) -> (n: usize)
        ensures
            n == self.joints().len(),
    {
        self.joints.len()
    }

    pub fn contains(&self, h: BodyHandle) -> (r: bool)
        ensures
            r == self.has(h),
    {
        h.index < self.bodies.len()
    }

    pub fn body(&self, h: BodyHandle) -> (r: Option<Body>)
        ensures
            r == (if self.has(h) {
                Some(self.bodies()[h.index as int])
            } else {
                None
            }),
    {
        if h.index < self.bodies.len() {
            Some(self.bodies[h.index])
        } else {
            None
        }
    }

    pub fn joint(&self, j: JointHandle) -> (r: Option<Joint>)
        ensures
            r == (if j.index < self.joints().len() {
                Some(self.joints()[j.index as int])
            } else {
                None
            }),
    {
        if j.index < self.joints.len() {
            Some(self.joints[j.index])
        } else {
            None
        }
    }

    /// Whether the handle names a body that carries a collider.
    pub fn monitors(&self, h: BodyHandle) -> (r: bool)
        ensures
            r == monitored(self.bodies(), h),
    {
        if h.index < self.bodies.len() {
            self.bodies[h.index].shape.is_some()
        } else {
            false
        }
    }

    /// Whether `spawn` may be called with these arguments.
    pub fn accepts(
        &self,
        shape: &Option<Shape>,
        local: &Transform,
        parent: &Option<BodyHandle>,
    ) -> (r: bool)
        ensures
            r == self.can_hold(*shape, *local, *parent),
    {
        let shape_ok: bool = match shape {
            Some(s) => s.check_valid(),
            None => true,
        };
        let parent_ok: bool = match parent {
            Some(p) => p.index < self.bodies.len(),
            None => true,
        };
        shape_ok && local.rotation.check_proper() && parent_ok
    }

    /// Adds a body and returns its handle. With a parent the body is placed
    /// relative to the parent; without one, relative to the world. The new
    /// body is in every collision group and accepts every group.
    pub fn spawn(
        &mut self,
        kind: BodyKind,
        shape: Option<Shape>,
        local: Transform,
        parent: Option<BodyHandle>,
    ) -> (h: BodyHandle)
        requires
            old(self).wf(),
            old(self).can_hold(shape, local, parent),
        ensures
            final(self).wf(),
            h.index == old(self).bodies().len(),
            final(self).bodies() == old(self).bodies().push(
                Body { kind, shape, local, parent, group: CollisionGroup::spec_everything() },
            ),
            final(self).joints() == old(self).joints(),
            world_pose(final(self).bodies(), h.index as int) == (match parent {
                Some(p) => world_pose(old(self).bodies(), p.index as int).after(local@),
                None => local@,
            }),
    {
        let index: usize = self.bodies.len();
        let body = Body { kind, shape, local, parent, group: CollisionGroup::everything() };
        self.bodies.push(body);
        proof {
            let before = old(self).bodies();
            let after = self.bodies();
            if let Some(p) = parent {
                lemma_world_pose_prefix(before, after, p.index as int);
            }
            assert forall|i: int| 0 <= i < after.len() implies #[trigger] body_ok(after, i) by {
                if i < before.len() {
                    assert(body_ok(before, i));
                }
            }
            assert forall|k: int| 0 <= k < self.joints().len() implies joint_ok(
                after,
                #[trigger] self.joints()[k],
            ) by {
                assert(joint_ok(before, old(self).joints()[k]));
            }
        }
        BodyHandle { index }
    }

    /// Puts the body in the groups of `membership` and lets it accept the
    /// groups of `filter`. Says whether the handle names a body; where it
    /// names none, nothing changes.
    pub fn assign_group(&mut self, body: BodyHandle, membership: u32, filter: u32) -> (assigned:
        bool)
        requires
            old(self).wf(),
        ensures
            final(self).wf(),
            assigned == old(self).has(body),
            final(self).bodies() == (if assigned {
                old(self).bodies().update(
                    body.index as int,
                    Body {
                        group: CollisionGroup { membership, filter },
                        ..old(self).bodies()[body.index as int]
                    },
                )
            } else {
                old(self).bodies()
            }),
            final(self).joints() == old(self).joints(),
    {
        if body.index >= self.bodies.len() {
            return false;
        }
        let mut b: Body = self.bodies[body.index];
        b.group = CollisionGroup::new(membership, filter);
        self.bodies.set(body.index, b);
        proof {
            let before = old(self).bodies();
            let after = self.bodies();
            assert forall|i: int| 0 <= i < after.len() implies #[trigger] body_ok(after, i) by {
                assert(body_ok(before, i));
            }
            assert forall|k: int| 0 <= k < self.joints().len() implies joint_ok(
                after,
                #[trigger] self.joints()[k],
            ) by {
                assert(joint_ok(before, old(self).joints()[k]));
            }
        }
        true
    }

    /// The placement in the world of the body that the handle names, if it
    /// names one and the placement can be held.
    pub fn world_transform(&self, h: BodyHandle) -> (r: Option<Transform>)
        requires
            self.wf(),
        ensures
            r is Some <==> self.has(h) && world_pose(self.bodies(), h.index as int).position.fits(),
            r matches Some(t) ==> t@ == world_pose(self.bodies(), h.index as int),
    {
        if h.index >= self.bodies.len() {
            return None;
        }
        let (wide, rotation): (Wide, Rotation) = self.placed(h.index);
        match wide.narrowed() {
            Some(position) => Some(Transform { position, rotation }),
            None => None,
        }
    }

    fn placed(&self, index: usize) -> (r: (Wide, Rotation))
        requires
            self.wf(),
            index < self.bodies().len(),
        ensures
            r.0@ == world_pose(self.bodies(), index as int).position,
            r.1 == world_pose(self.bodies(), index as int).rotation,
        decreases index,
    {
        let body: Body = self.bodies[index];
        proof {
            let bodies = self.bodies();
            assert(index + 1 <= self.bodies.len());
            assert(body_ok(bodies, index as int));
            assert forall|k: int| 0 <= k <= index implies body_ok(bodies, k) by {}
            lemma_world_pose_bounded(bodies, index as int);
            assert((index + 1) * reach() <= usize::MAX * reach()) by (nonlinear_arith)
                requires
                    index + 1 <= usize::MAX,
                    reach() >= 0,
            ;
        }
        match body.parent {
            Some(p) => {
                let (origin, turn): (Wide, Rotation) = self.placed(p.index);
                proof {
                    lemma_world_pose_bounded(self.bodies(), p.index as int);
                    lemma_moved_within(turn, body.local@.position, reach());
                }
                let shift: Wide = Wide::rotated(&turn, body.local.position);
                (origin.plus(&shift), turn.compose(&body.local.rotation))
            },
            None => (Wide::of(body.local.position), body.local.rotation),
        }
    }

    /// Connects `child` to `parent` by a hinge about `axis`. The hinge sits
    /// at `anchor_parent` in the parent's frame and at `anchor_child` in the
    /// child's. The child's joint frame is turned so that the child turns
    /// about the axis on which its shape rolls. A hinge to a body that the
    /// registry does not hold, of a body to itself, or between two bodies
    /// of which neither is dynamic, is refused and leaves the registry as
    /// it was.
    pub fn build_hinge(
        &mut self,
        parent: BodyHandle,
        child: BodyHandle,
        axis: UnitVec3,
        anchor_parent: Vec3,
        anchor_child: Vec3,
        suppress_contacts: bool,
    ) -> (r: Result<JointHandle, RigError>)
        requires
            old(self).wf(),
        ensures
            final(self).wf(),
            final(self).bodies() == old(self).bodies(),
            match r {
                Ok(j) => {
                    &&& hinge_rejection(old(self).bodies(), parent, child) is None
                    &&& j.index == old(self).joints().len()
                    &&& final(self).joints() == old(self).joints().push(
                        Joint {
                            parent,
                            child,
                            axis,
                            anchor_parent,
                            anchor_child,
                            basis_child: compensation(
                                axis,
                                rolling_axis_of(old(self).bodies()[child.index as int].shape),
                            ),
                            suppress_contacts,
                        },
                    )
                },
                Err(e) => {
                    &&& hinge_rejection(old(self).bodies(), parent, child) == Some(e)
                    &&& final(self).joints() == old(self).joints()
                },
            },
    {
        if parent.index >= self.bodies.len() || child.index >= self.bodies.len() {
            return Err(RigError::UnknownBody);
        }
        if parent == child {
            return Err(RigError::SameBody);
        }
        let parent_body: Body = self.bodies[parent.index];
        let child_body: Body = self.bodies[child.index];
        if parent_body.kind != BodyKind::Dynamic && child_body.kind != BodyKind::Dynamic {
            return Err(RigError::NoDynamicEndpoint);
        }
        let rolling: Option<UnitVec3> = match child_body.shape {
            Some(s) => s.rolling_axis(),
            None => None,
        };
        let joint = Joint {
            parent,
            child,
            axis,
            anchor_parent,
            anchor_child,
            basis_child: compensating_basis(axis, rolling),
            suppress_contacts,
        };
        let index: usize = self.joints.len();
        self.joints.push(joint);
        proof {
            assert forall|k: int| 0 <= k < self.joints().len() implies joint_ok(
                self.bodies(),
                #[trigger] self.joints()[k],
            ) by {
                if k < old(self).joints().len() {
                    assert(joint_ok(old(self).bodies(), old(self).joints()[k]));
                }
            }
        }
        Ok(JointHandle { index })
    }

    /// Whether the colliders of `a` and `b` push on each other.
    pub fn may_collide(&self, a: BodyHandle, b: BodyHandle) -> (r: bool)
        ensures
            r == self.interacts(a, b),
    {
        if a.index >= self.bodies.len() || b.index >= self.bodies.len() {
            return false;
        }
        let ga: CollisionGroup = self.bodies[a.index].group;
        let gb: CollisionGroup = self.bodies[b.index].group;
        if !ga.collides(&gb) {
            return false;
        }
        let mut k: usize = 0;
        while k < self.joints.len()
            invariant
                k <= self.joints().len(),
                forall|i: int|
                    0 <= i < k ==> !((#[trigger] self.joints()[i]).suppress_contacts
                        && self.joints()[i].joins(a, b)),
            decreases self.joints().len() - k,
        {
            let j: Joint = self.joints[k];
            if j.suppress_contacts && j.connects(a, b) {
                return false;
            }
            k = k + 1;
        }
        true
    }
}

/// Whether two bodies push on each other does not depend on the order in
/// which they are asked.
pub proof fn lemma_interacts_symmetric(r: Registry, a: BodyHandle, b: BodyHandle)
    ensures
        r.interacts(a, b) == r.interacts(b, a),
{
    if r.contacts_suppressed(a, b) {
        let k = choose|k: int|
            0 <= k < r.joints().len() && (#[trigger] r.joints()[k]).suppress_contacts
                && r.joints()[k].joins(a, b);
        assert(r.joints()[k].joins(b, a));
    }
    if r.contacts_suppressed(b, a) {
        let k = choose|k: int|
            0 <= k < r.joints().len() && (#[trigger] r.joints()[k]).suppress_contacts
                && r.joints()[k].joins(b, a);
        assert(r.joints()[k].joins(a, b));
    }
}

/// Every hinge of a registry turns its child about the axis on which the
/// child's shape rolls; a child without such an axis turns about the hinge
/// axis as given. At least one end of every hinge is dynamic.
pub proof fn lemma_hinge_turns_about_rolling_axis(r: Registry, k: int)
    requires
        r.wf(),
        0 <= k < r.joints().len(),
    ensures
        ({
            let j = r.joints()[k];
            let child = r.bodies()[j.child.index as int];
            let parent = r.bodies()[j.parent.index as int];
            &&& j.basis_child.is_proper()
            &&& (rolling_axis_of(child.shape) matches Some(axis) ==> j.spec_child_axis() == axis)
            &&& (rolling_axis_of(child.shape) is None ==> j.spec_child_axis() == j.axis)
            &&& (parent.kind == BodyKind::Dynamic || child.kind == BodyKind::Dynamic)
        }),
{
    let j = r.joints()[k];
    assert(joint_ok(r.bodies(), j));
    lemma_compensation(j.axis, rolling_axis_of(r.bodies()[j.child.index as int].shape));
}

} // verus!
