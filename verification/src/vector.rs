//! Fixed-point vectors, the six lattice directions, and the rotations that
//! map the lattice onto itself.

use vstd::prelude::*;

verus! {

/// Fixed-point steps in one world unit.
pub const UNIT: i64 = 1_000_000_000;

/// Fixed-point steps in a thousandth of a world unit.
pub const MILLI: i64 = 1_000_000;

/// A point or displacement with mathematical integers as coordinates: what a
/// [`Vec3`] stands for in contracts.
pub struct Point {
    pub x: int,
    pub y: int,
    pub z: int,
}

impl Point {
    pub open spec fn plus(self, other: Point) -> Point {
        Point { x: self.x + other.x, y: self.y + other.y, z: self.z + other.z }
    }

    pub open spec fn times(self, k: int) -> Point {
        Point { x: self.x * k, y: self.y * k, z: self.z * k }
    }

    /// Every coordinate can be held in an `i64`.
    pub open spec fn fits(self) -> bool {
        &&& i64::MIN <= self.x <= i64::MAX
        &&& i64::MIN <= self.y <= i64::MAX
        &&& i64::MIN <= self.z <= i64::MAX
    }

    /// Every coordinate lies in `-limit ..= limit`.
    pub open spec fn within(self, limit: int) -> bool {
        &&& -limit <= self.x <= limit
        &&& -limit <= self.y <= limit
        &&& -limit <= self.z <= limit
    }
}

/// A point or displacement in fixed-point steps.
#[derive(Clone, Copy, Debug, PartialEq, Eq, Structural)]
pub struct Vec3 {
    pub x: i64,
    pub y: i64,
    pub z: i64,
}

impl View for Vec3 {
    type V = Point;

    open spec fn view(&self) -> Point {
        Point { x: self.x as int, y: self.y as int, z: self.z as int }
    }
}

impl Vec3 {
    pub fn new(x: i64, y: i64, z: i64) -> (v: Vec3)
        ensures
            v.x == x,
            v.y == y,
            v.z == z,
    {
        Vec3 { x, y, z }
    }

    pub fn zero() -> (v: Vec3)
        ensures
            v == (Vec3 { x: 0, y: 0, z: 0 }),
    {
        Vec3 { x: 0, y: 0, z: 0 }
    }

    /// The sum of the two, unless a coordinate of it cannot be held.
    pub fn checked_plus(&self, other: &Vec3) -> (r: Option<Vec3>)
        ensures
            r is Some <==> self@.plus(other@).fits(),
            r matches Some(v) ==> v@ == self@.plus(other@),
    {
        match (
            self.x.checked_add(other.x),
            self.y.checked_add(other.y),
            self.z.checked_add(other.z),
        ) {
            (Some(x), Some(y), Some(z)) => Some(Vec3 { x, y, z }),
            _ => None,
        }
    }

    pub fn is_zero(&self) -> (r: bool)
        ensures
            r == (self.x == 0 && self.y == 0 && self.z == 0),
    {
        self.x == 0 && self.y == 0 && self.z == 0
    }
}

/// One of the six unit vectors with integer coordinates.
#[derive(Clone, Copy, Debug, PartialEq, Eq, Structural)]
pub enum UnitVec3 {
    PosX,
    NegX,
    PosY,
    NegY,
    PosZ,
    NegZ,
}

/// The cross product of two points.
pub open spec fn cross_point(a: Point, b: Point) -> Point {
    Point {
        x: a.y * b.z - a.z * b.y,
        y: a.z * b.x - a.x * b.z,
        z: a.x * b.y - a.y * b.x,
    }
}

/// The unit vector that lies at `p`, if there is one.
pub open spec fn unit_at(p: Point) -> Option<UnitVec3> {
    if p == UnitVec3::PosX.point() {
        Some(UnitVec3::PosX)
    } else if p == UnitVec3::NegX.point() {
        Some(UnitVec3::NegX)
    } else if p == UnitVec3::PosY.point() {
        Some(UnitVec3::PosY)
    } else if p == UnitVec3::NegY.point() {
        Some(UnitVec3::NegY)
    } else if p == UnitVec3::PosZ.point() {
        Some(UnitVec3::PosZ)
    } else if p == UnitVec3::NegZ.point() {
        Some(UnitVec3::NegZ)
    } else {
        None
    }
}

impl UnitVec3 {
    /// The vector's coordinates, in whole units.
    pub open spec fn point(self) -> Point {
        match self {
            UnitVec3::PosX => Point { x: 1, y: 0, z: 0 },
            UnitVec3::NegX => Point { x: -1, y: 0, z: 0 },
            UnitVec3::PosY => Point { x: 0, y: 1, z: 0 },
            UnitVec3::NegY => Point { x: 0, y: -1, z: 0 },
            UnitVec3::PosZ => Point { x: 0, y: 0, z: 1 },
            UnitVec3::NegZ => Point { x: 0, y: 0, z: -1 },
        }
    }

    /// The vector stretched to length `k`.
    pub open spec fn scaled(self, k: int) -> Point {
        match self {
            UnitVec3::PosX => Point { x: k, y: 0, z: 0 },
            UnitVec3::NegX => Point { x: -k, y: 0, z: 0 },
            UnitVec3::PosY => Point { x: 0, y: k, z: 0 },
            UnitVec3::NegY => Point { x: 0, y: -k, z: 0 },
            UnitVec3::PosZ => Point { x: 0, y: 0, z: k },
            UnitVec3::NegZ => Point { x: 0, y: 0, z: -k },
        }
    }

    pub open spec fn spec_opposite(self) -> UnitVec3 {
        match self {
            UnitVec3::PosX => UnitVec3::NegX,
            UnitVec3::NegX => UnitVec3::PosX,
            UnitVec3::PosY => UnitVec3::NegY,
            UnitVec3::NegY => UnitVec3::PosY,
            UnitVec3::PosZ => UnitVec3::NegZ,
            UnitVec3::NegZ => UnitVec3::PosZ,
        }
    }

    /// The cross product with `other`: `None` where the two are parallel.
    pub open spec fn spec_cross(self, other: UnitVec3) -> Option<UnitVec3> {
        match (self, other) {
            (UnitVec3::PosX, UnitVec3::PosY) | (UnitVec3::NegX, UnitVec3::NegY)
            | (UnitVec3::NegY, UnitVec3::PosX) | (UnitVec3::PosY, UnitVec3::NegX) => Some(
                UnitVec3::PosZ,
            ),
            (UnitVec3::PosY, UnitVec3::PosX) | (UnitVec3::NegY, UnitVec3::NegX)
            | (UnitVec3::PosX, UnitVec3::NegY) | (UnitVec3::NegX, UnitVec3::PosY) => Some(
                UnitVec3::NegZ,
            ),
            (UnitVec3::PosY, UnitVec3::PosZ) | (UnitVec3::NegY, UnitVec3::NegZ)
            | (UnitVec3::NegZ, UnitVec3::PosY) | (UnitVec3::PosZ, UnitVec3::NegY) => Some(
                UnitVec3::PosX,
            ),
            (UnitVec3::PosZ, UnitVec3::PosY) | (UnitVec3::NegZ, UnitVec3::NegY)
            | (UnitVec3::PosY, UnitVec3::NegZ) | (UnitVec3::NegY, UnitVec3::PosZ) => Some(
                UnitVec3::NegX,
            ),
            (UnitVec3::PosZ, UnitVec3::PosX) | (UnitVec3::NegZ, UnitVec3::NegX)
            | (UnitVec3::NegX, UnitVec3::PosZ) | (UnitVec3::PosX, UnitVec3::NegZ) => Some(
                UnitVec3::PosY,
            ),
            (UnitVec3::PosX, UnitVec3::PosZ) | (UnitVec3::NegX, UnitVec3::NegZ)
            | (UnitVec3::PosZ, UnitVec3::NegX) | (UnitVec3::NegZ, UnitVec3::PosX) => Some(
                UnitVec3::NegY,
            ),
            _ => None,
        }
    }

    /// Index of the coordinate axis the vector lies on: 0, 1 or 2.
    pub open spec fn spec_axis(self) -> int {
        match self {
            UnitVec3::PosX | UnitVec3::NegX => 0,
            UnitVec3::PosY | UnitVec3::NegY => 1,
            UnitVec3::PosZ | UnitVec3::NegZ => 2,
        }
    }

    pub open spec fn spec_is_positive(self) -> bool {
        self == UnitVec3::PosX || self == UnitVec3::PosY || self == UnitVec3::PosZ
    }

    pub fn axis(self) -> (i: u8)
        ensures
            i == self.spec_axis(),
    {
        match self {
            UnitVec3::PosX | UnitVec3::NegX => 0,
            UnitVec3::PosY | UnitVec3::NegY => 1,
            UnitVec3::PosZ | UnitVec3::NegZ => 2,
        }
    }

    pub fn is_positive(self) -> (r: bool)
        ensures
            r == self.spec_is_positive(),
    {
        match self {
            UnitVec3::PosX | UnitVec3::PosY | UnitVec3::PosZ => true,
            UnitVec3::NegX | UnitVec3::NegY | UnitVec3::NegZ => false,
        }
    }

    /// The unit vector on axis `axis`, pointing up the axis if `positive`.
    pub(crate) fn on_axis(axis: u8, positive: bool) -> (u: UnitVec3)
        requires
            axis < 3,
        ensures
            u.spec_axis() == axis,
            u.spec_is_positive() == positive,
    {
        if axis == 0 {
            if positive { UnitVec3::PosX } else { UnitVec3::NegX }
        } else if axis == 1 {
            if positive { UnitVec3::PosY } else { UnitVec3::NegY }
        } else {
            if positive { UnitVec3::PosZ } else { UnitVec3::NegZ }
        }
    }

    pub fn opposite(self) -> (r: UnitVec3)
        ensures
            r == self.spec_opposite(),
            r.point() == self.point().times(-1),
    {
        Self::on_axis(self.axis(), !self.is_positive())
    }

    pub fn cross(self, other: UnitVec3) -> (r: Option<UnitVec3>)
        ensures
            r == self.spec_cross(other),
            r is None <==> (other == self || other == self.spec_opposite()),
    {
        let i: u8 = self.axis();
        let j: u8 = other.axis();
        if i == j {
            return None;
        }
        let k: u8 = 3 - i - j;
        let cyclic: bool = j == i + 1 || (i == 2 && j == 0);
        let same_sign: bool = self.is_positive() == other.is_positive();
        Some(Self::on_axis(k, cyclic == same_sign))
    }

    /// The vector in fixed-point steps.
    pub fn to_vec3(self) -> (v: Vec3)
        ensures
            v@ == self.scaled(UNIT as int),
    {
        match self {
            UnitVec3::PosX => Vec3 { x: UNIT, y: 0, z: 0 },
            UnitVec3::NegX => Vec3 { x: -UNIT, y: 0, z: 0 },
            UnitVec3::PosY => Vec3 { x: 0, y: UNIT, z: 0 },
            UnitVec3::NegY => Vec3 { x: 0, y: -UNIT, z: 0 },
            UnitVec3::PosZ => Vec3 { x: 0, y: 0, z: UNIT },
            UnitVec3::NegZ => Vec3 { x: 0, y: 0, z: -UNIT },
        }
    }
}

/// A rotation that maps the integer lattice onto itself, given by the
/// images of the three positive axes.
#[derive(Clone, Copy, Debug, PartialEq, Eq, Structural)]
pub struct Rotation {
    pub x: UnitVec3,
    pub y: UnitVec3,
    pub z: UnitVec3,
}

/// Where a quarter turn about `about` sends `u`: `about x u`, or `u` itself
/// where it lies on the axis of the turn.
pub open spec fn quarter_image(about: UnitVec3, u: UnitVec3) -> UnitVec3 {
    match about.spec_cross(u) {
        Some(c) => c,
        None => u,
    }
}

/// Where a half turn about `about` sends `u`.
pub open spec fn half_image(about: UnitVec3, u: UnitVec3) -> UnitVec3 {
    if about.spec_axis() == u.spec_axis() {
        u
    } else {
        u.spec_opposite()
    }
}

impl Rotation {
    /// The images of the axes form a right-handed orthonormal frame.
    pub open spec fn is_proper(self) -> bool {
        self.x.spec_cross(self.y) == Some(self.z)
    }

    pub open spec fn spec_identity() -> Rotation {
        Rotation { x: UnitVec3::PosX, y: UnitVec3::PosY, z: UnitVec3::PosZ }
    }

    /// A quarter turn about `about`, counter-clockwise as seen from its tip.
    pub open spec fn spec_quarter_turn(about: UnitVec3) -> Rotation {
        Rotation {
            x: quarter_image(about, UnitVec3::PosX),
            y: quarter_image(about, UnitVec3::PosY),
            z: quarter_image(about, UnitVec3::PosZ),
        }
    }

    pub open spec fn spec_half_turn(about: UnitVec3) -> Rotation {
        Rotation {
            x: half_image(about, UnitVec3::PosX),
            y: half_image(about, UnitVec3::PosY),
            z: half_image(about, UnitVec3::PosZ),
        }
    }

    /// Where the rotation sends the unit vector `u`.
    pub open spec fn turned(self, u: UnitVec3) -> UnitVec3 {
        match u {
            UnitVec3::PosX => self.x,
            UnitVec3::NegX => self.x.spec_opposite(),
            UnitVec3::PosY => self.y,
            UnitVec3::NegY => self.y.spec_opposite(),
            UnitVec3::PosZ => self.z,
            UnitVec3::NegZ => self.z.spec_opposite(),
        }
    }

    /// Where the rotation sends the point `p`.
    pub open spec fn moved(self, p: Point) -> Point {
        self.x.scaled(p.x).plus(self.y.scaled(p.y)).plus(self.z.scaled(p.z))
    }

    /// The rotation that turns by `first` and then by `self`.
    pub open spec fn after(self, first: Rotation) -> Rotation {
        Rotation {
            x: self.turned(first.x),
            y: self.turned(first.y),
            z: self.turned(first.z),
        }
    }

    pub fn identity() -> (r: Rotation)
        ensures
            r == Rotation::spec_identity(),
            r.is_proper(),
    {
        Rotation { x: UnitVec3::PosX, y: UnitVec3::PosY, z: UnitVec3::PosZ }
    }

    pub fn quarter_turn(about: UnitVec3) -> (r: Rotation)
        ensures
            r == Rotation::spec_quarter_turn(about),
            r.is_proper(),
    {
        Rotation {
            x: quarter_turned(about, UnitVec3::PosX),
            y: quarter_turned(about, UnitVec3::PosY),
            z: quarter_turned(about, UnitVec3::PosZ),
        }
    }

    pub fn half_turn(about: UnitVec3) -> (r: Rotation)
        ensures
            r == Rotation::spec_half_turn(about),
            r.is_proper(),
    {
        Rotation {
            x: half_turned(about, UnitVec3::PosX),
            y: half_turned(about, UnitVec3::PosY),
            z: half_turned(about, UnitVec3::PosZ),
        }
    }

    /// The turn of a viewer who looks along `forward` with `up` overhead: a
    /// viewer that is not turned looks down the negative Z axis with the
    /// positive Y axis overhead. There is none where `up` lies along
    /// `forward`.
    pub open spec fn spec_facing(forward: UnitVec3, up: UnitVec3) -> Option<Rotation> {
        match up.spec_cross(forward.spec_opposite()) {
            Some(right) => Some(Rotation { x: right, y: up, z: forward.spec_opposite() }),
            None => None,
        }
    }

    pub fn facing(forward: UnitVec3, up: UnitVec3) -> (r: Option<Rotation>)
        ensures
            r == Rotation::spec_facing(forward, up),
            r is None <==> (up == forward || up == forward.spec_opposite()),
            r matches Some(t) ==> t.is_proper() && t.turned(UnitVec3::NegZ) == forward && t.turned(
                UnitVec3::PosY,
            ) == up,
    {
        let back: UnitVec3 = forward.opposite();
        match up.cross(back) {
            Some(right) => Some(Rotation { x: right, y: up, z: back }),
            None => None,
        }
    }

    /// Whether the three images form a right-handed orthonormal frame.
    pub fn check_proper(&self) -> (r: bool)
        ensures
            r == self.is_proper(),
    {
        match self.x.cross(self.y) {
            Some(c) => c == self.z,
            None => false,
        }
    }

    pub fn turn(&self, u: UnitVec3) -> (r: UnitVec3)
        ensures
            r == self.turned(u),
    {
        match u {
            UnitVec3::PosX => self.x,
            UnitVec3::NegX => self.x.opposite(),
            UnitVec3::PosY => self.y,
            UnitVec3::NegY => self.y.opposite(),
            UnitVec3::PosZ => self.z,
            UnitVec3::NegZ => self.z.opposite(),
        }
    }

    /// The rotation that turns by `first` and then by `self`.
    pub fn compose(&self, first: &Rotation) -> (r: Rotation)
        ensures
            r == self.after(*first),
            self.is_proper() && first.is_proper() ==> r.is_proper(),
    {
        proof {
            lemma_after_is_proper(*self, *first);
        }
        Rotation { x: self.turn(first.x), y: self.turn(first.y), z: self.turn(first.z) }
    }

    /// Where the rotation sends `v`. The images of the axes may not form a
    /// frame, and then up to three coordinates of `v` add up in one of the
    /// result, so that `v` has to be smaller.
    pub fn rotate(&self, v: Vec3) -> (r: Vec3)
        requires
            v@.within(i64::MAX as int),
            self.is_proper() || v@.within(i64::MAX as int / 3),
        ensures
            r@ == self.moved(v@),
    {
        let a: Vec3 = stretch(self.x, v.x);
        let b: Vec3 = stretch(self.y, v.y);
        let c: Vec3 = stretch(self.z, v.z);
        Vec3 { x: a.x + b.x + c.x, y: a.y + b.y + c.y, z: a.z + b.z + c.z }
    }
}

fn quarter_turned(about: UnitVec3, u: UnitVec3) -> (r: UnitVec3)
    ensures
        r == quarter_image(about, u),
{
    match about.cross(u) {
        Some(c) => c,
        None => u,
    }
}

fn half_turned(about: UnitVec3, u: UnitVec3) -> (r: UnitVec3)
    ensures
        r == half_image(about, u),
{
    if about.axis() == u.axis() {
        u
    } else {
        u.opposite()
    }
}

fn stretch(u: UnitVec3, k: i64) -> (v: Vec3)
    requires
        -i64::MAX <= k,
    ensures
        v@ == u.scaled(k as int),
{
    match u {
        UnitVec3::PosX => Vec3 { x: k, y: 0, z: 0 },
        UnitVec3::NegX => Vec3 { x: -k, y: 0, z: 0 },
        UnitVec3::PosY => Vec3 { x: 0, y: k, z: 0 },
        UnitVec3::NegY => Vec3 { x: 0, y: -k, z: 0 },
        UnitVec3::PosZ => Vec3 { x: 0, y: 0, z: k },
        UnitVec3::NegZ => Vec3 { x: 0, y: 0, z: -k },
    }
}

/// `spec_cross` is the vector product: the product of two parallel unit
/// vectors is the origin, and any other product is the unit vector that
/// `spec_cross` names.
pub proof fn lemma_cross_is_vector_product(a: UnitVec3, b: UnitVec3)
    ensures
        match a.spec_cross(b) {
            Some(c) => cross_point(a.point(), b.point()) == c.point(),
            None => cross_point(a.point(), b.point()) == (Point { x: 0, y: 0, z: 0 }),
        },
        a.spec_cross(b) == unit_at(cross_point(a.point(), b.point())),
{
    let pa = a.point();
    let pb = b.point();
    assert(cross_point(pa, pb).x == pa.y * pb.z - pa.z * pb.y);
    assert(cross_point(pa, pb).y == pa.z * pb.x - pa.x * pb.z);
    assert(cross_point(pa, pb).z == pa.x * pb.y - pa.y * pb.x);
    match a {
        UnitVec3::PosX => { lemma_cross_row(1, 0, 0, pb); },
        UnitVec3::NegX => { lemma_cross_row(-1, 0, 0, pb); },
        UnitVec3::PosY => { lemma_cross_row(0, 1, 0, pb); },
        UnitVec3::NegY => { lemma_cross_row(0, -1, 0, pb); },
        UnitVec3::PosZ => { lemma_cross_row(0, 0, 1, pb); },
        UnitVec3::NegZ => { lemma_cross_row(0, 0, -1, pb); },
    }
}

proof fn lemma_cross_row(x: int, y: int, z: int, b: Point)
    requires
        -1 <= x <= 1,
        -1 <= y <= 1,
        -1 <= z <= 1,
    ensures
        cross_point(Point { x, y, z }, b).x == (if y == 1 { b.z } else if y == -1 { -b.z } else { 0 })
            - (if z == 1 { b.y } else if z == -1 { -b.y } else { 0 }),
        cross_point(Point { x, y, z }, b).y == (if z == 1 { b.x } else if z == -1 { -b.x } else { 0 })
            - (if x == 1 { b.z } else if x == -1 { -b.z } else { 0 }),
        cross_point(Point { x, y, z }, b).z == (if x == 1 { b.y } else if x == -1 { -b.y } else { 0 })
            - (if y == 1 { b.x } else if y == -1 { -b.x } else { 0 }),
{
    lemma_sign_times(y, b.z);
    lemma_sign_times(z, b.y);
    lemma_sign_times(z, b.x);
    lemma_sign_times(x, b.z);
    lemma_sign_times(x, b.y);
    lemma_sign_times(y, b.x);
}

proof fn lemma_sign_times(s: int, v: int)
    by (nonlinear_arith)
    requires
        -1 <= s <= 1,
    ensures
        s * v == (if s == 1 { v } else if s == -1 { -v } else { 0 }),
{
}

/// A proper rotation carries the cross product of two unit vectors to the
/// cross product of their images.
pub proof fn lemma_turned_cross(r: Rotation, u: UnitVec3, v: UnitVec3)
    requires
        r.is_proper(),
    ensures
        r.turned(u).spec_cross(r.turned(v)) == (match u.spec_cross(v) {
            Some(c) => Some(r.turned(c)),
            None => None::<UnitVec3>,
        }),
{
}

/// Proper rotations are closed under composition.
pub proof fn lemma_after_is_proper(a: Rotation, b: Rotation)
    ensures
        a.is_proper() && b.is_proper() ==> a.after(b).is_proper(),
{
    if a.is_proper() && b.is_proper() {
        lemma_turned_cross(a, b.x, b.y);
    }
}

/// A rotation carries a stretched unit vector to the stretched image.
pub proof fn lemma_moved_scaled(r: Rotation, u: UnitVec3, k: int)
    ensures
        r.moved(u.scaled(k)) == r.turned(u).scaled(k),
{
    match u {
        UnitVec3::PosX => {},
        UnitVec3::NegX => {},
        UnitVec3::PosY => {},
        UnitVec3::NegY => {},
        UnitVec3::PosZ => {},
        UnitVec3::NegZ => {},
    }
}

/// A rotation is additive.
pub proof fn lemma_moved_plus(r: Rotation, p: Point, q: Point)
    ensures
        r.moved(p.plus(q)) == r.moved(p).plus(r.moved(q)),
{
    lemma_scaled_plus(r.x, p.x, q.x);
    lemma_scaled_plus(r.y, p.y, q.y);
    lemma_scaled_plus(r.z, p.z, q.z);
}

proof fn lemma_scaled_plus(u: UnitVec3, a: int, b: int)
    ensures
        u.scaled(a + b) == u.scaled(a).plus(u.scaled(b)),
{
}

/// Composing two rotations composes what they do to unit vectors and to
/// points.
pub proof fn lemma_after_composes(a: Rotation, b: Rotation, u: UnitVec3, p: Point)
    ensures
        a.after(b).turned(u) == a.turned(b.turned(u)),
        a.after(b).moved(p) == a.moved(b.moved(p)),
{
    lemma_turned_opposite(a, b.x);
    lemma_turned_opposite(a, b.y);
    lemma_turned_opposite(a, b.z);
    let px = b.x.scaled(p.x);
    let py = b.y.scaled(p.y);
    let pz = b.z.scaled(p.z);
    lemma_moved_scaled(a, b.x, p.x);
    lemma_moved_scaled(a, b.y, p.y);
    lemma_moved_scaled(a, b.z, p.z);
    lemma_moved_plus(a, px, py);
    lemma_moved_plus(a, px.plus(py), pz);
}

/// A rotation carries opposite vectors to opposite vectors.
pub proof fn lemma_turned_opposite(r: Rotation, u: UnitVec3)
    ensures
        r.turned(u.spec_opposite()) == r.turned(u).spec_opposite(),
{
}

/// A rotation moves the point of a unit vector to the point of the turned
/// unit vector.
pub proof fn lemma_moved_unit(r: Rotation, u: UnitVec3)
    ensures
        r.moved(u.point()) == r.turned(u).point(),
{
    lemma_moved_scaled(r, u, 1);
    assert(u.point() == u.scaled(1));
    assert(r.turned(u).point() == r.turned(u).scaled(1));
}

/// A proper rotation permutes the coordinates of a point up to sign, so it
/// keeps the point inside any cube centred on the origin.
pub proof fn lemma_moved_within(r: Rotation, p: Point, limit: int)
    requires
        r.is_proper(),
        p.within(limit),
    ensures
        r.moved(p).within(limit),
{
}

/// Two quarter turns about one axis make the half turn, and four bring
/// every vector back.
pub proof fn lemma_four_quarter_turns(about: UnitVec3)
    ensures
        ({
            let q = Rotation::spec_quarter_turn(about);
            q.after(q) == Rotation::spec_half_turn(about)
        }),
        ({
            let q = Rotation::spec_quarter_turn(about);
            q.after(q).after(q.after(q)) == Rotation::spec_identity()
        }),
{
}

/// A placement: where a frame's origin lies and how the frame is turned.
pub struct Pose {
    pub position: Point,
    pub rotation: Rotation,
}

impl Pose {
    /// The placement of a frame that sits at `local` inside the frame `self`.
    pub open spec fn after(self, local: Pose) -> Pose {
        Pose {
            position: self.position.plus(self.rotation.moved(local.position)),
            rotation: self.rotation.after(local.rotation),
        }
    }
}

/// A placement in fixed-point steps.
#[derive(Clone, Copy, Debug, PartialEq, Eq, Structural)]
pub struct Transform {
    pub position: Vec3,
    pub rotation: Rotation,
}

impl View for Transform {
    type V = Pose;

    open spec fn view(&self) -> Pose {
        Pose { position: self.position@, rotation: self.rotation }
    }
}

impl Transform {
    pub fn identity() -> (t: Transform)
        ensures
            t.position == (Vec3 { x: 0, y: 0, z: 0 }),
            t.rotation == Rotation::spec_identity(),
    {
        Transform { position: Vec3::zero(), rotation: Rotation::identity() }
    }

    /// A placement at `(x, y, z)` that is not turned.
    pub fn from_xyz(x: i64, y: i64, z: i64) -> (t: Transform)
        ensures
            t.position == (Vec3 { x, y, z }),
            t.rotation == Rotation::spec_identity(),
    {
        Transform { position: Vec3::new(x, y, z), rotation: Rotation::identity() }
    }
}

} // verus!
