//! The camera and its pan: the held direction keys give a direction in the
//! camera's own frame, and the camera moves along it at one world unit per
//! second, however the time is cut into frames.

use vstd::prelude::*;
use crate::vector::{lemma_moved_plus, Point, Rotation, UnitVec3, Vec3};

verus! {

/// Fixed-point steps per microsecond along an axis: one world unit per
/// second.
pub const AXIS_SPEED: i64 = 1000;

/// Fixed-point steps per microsecond along each of two axes at once: the
/// axis speed over the square root of two, to the nearest step.
pub const DIAGONAL_SPEED: i64 = 707;

/// Which direction keys are down.
#[derive(Clone, Copy, Debug, PartialEq, Eq, Structural)]
pub struct HeldKeys {
    pub up: bool,
    pub down: bool,
    pub left: bool,
    pub right: bool,
    pub w: bool,
    pub a: bool,
    pub s: bool,
    pub d: bool,
}

/// Where the held keys want the camera to go: -1, 0 or 1 to the camera's
/// right, and -1, 0 or 1 up.
#[derive(Clone, Copy, Debug, PartialEq, Eq, Structural)]
pub struct PanIntent {
    pub right: i8,
    pub up: i8,
}

/// The camera: where it is, how it is turned, and how many fixed-point
/// steps of the world its view shows from bottom to top.
#[derive(Clone, Copy, Debug, PartialEq, Eq, Structural)]
pub struct CameraState {
    pub position: Vec3,
    pub rotation: Rotation,
    pub vertical_extent: i64,
}

/// One if the key or keys for a direction are down, else zero.
pub open spec fn pull(arrow: bool, letter: bool) -> int {
    if arrow || letter {
        1
    } else {
        0
    }
}

/// `v` with the sign of `s`.
pub open spec fn signed(s: int, v: int) -> int {
    if s > 0 {
        v
    } else if s < 0 {
        -v
    } else {
        0
    }
}

/// The sum of the frame times.
pub open spec fn total(frames: Seq<nat>) -> nat
    decreases frames.len(),
{
    if frames.len() == 0 {
        0
    } else {
        total(frames.drop_last()) + frames.last()
    }
}

impl HeldKeys {
    /// Right minus left, and up minus down. An arrow key and its letter
    /// count as one key.
    pub open spec fn spec_intent(self) -> PanIntent {
        PanIntent {
            right: (pull(self.right, self.d) - pull(self.left, self.a)) as i8,
            up: (pull(self.up, self.w) - pull(self.down, self.s)) as i8,
        }
    }

    pub fn none() -> (k: HeldKeys)
        ensures
            k == (HeldKeys {
                up: false,
                down: false,
                left: false,
                right: false,
                w: false,
                a: false,
                s: false,
                d: false,
            }),
    {
        HeldKeys {
            up: false,
            down: false,
            left: false,
            right: false,
            w: false,
            a: false,
            s: false,
            d: false,
        }
    }

    pub fn intent(&self) -> (i: PanIntent)
        ensures
            i == self.spec_intent(),
            -1 <= i.right <= 1,
            -1 <= i.up <= 1,
    {
        let right: i8 = if self.right || self.d { 1 } else { 0 };
        let left: i8 = if self.left || self.a { 1 } else { 0 };
        let up: i8 = if self.up || self.w { 1 } else { 0 };
        let down: i8 = if self.down || self.s { 1 } else { 0 };
        PanIntent { right: right - left, up: up - down }
    }
}

impl PanIntent {
    pub open spec fn spec_is_zero(self) -> bool {
        self.right == 0 && self.up == 0
    }

    /// How far the camera gets along each axis it moves on in `elapsed`
    /// microseconds. Along one axis that is the whole way; along two at
    /// once, the way divided by the square root of two, so that the speed
    /// is the same in every direction.
    pub open spec fn reach(self, elapsed: int) -> int {
        if self.right != 0 && self.up != 0 {
            DIAGONAL_SPEED * elapsed
        } else {
            AXIS_SPEED * elapsed
        }
    }

    /// The way made in `elapsed` microseconds, in the camera's own frame.
    pub open spec fn local_shift(self, elapsed: int) -> Point {
        Point {
            x: signed(self.right as int, self.reach(elapsed)),
            y: signed(self.up as int, self.reach(elapsed)),
            z: 0,
        }
    }

    pub fn is_zero(&self) -> (r: bool)
        ensures
            r == self.spec_is_zero(),
    {
        self.right == 0 && self.up == 0
    }
}

impl CameraState {
    /// The way made in `elapsed` microseconds, in the world.
    pub open spec fn shift(self, intent: PanIntent, elapsed: int) -> Point {
        self.rotation.moved(intent.local_shift(elapsed))
    }

    /// Where the camera is after following `intent` for `elapsed`
    /// microseconds.
    pub open spec fn panned(self, intent: PanIntent, elapsed: int) -> Point {
        self.position@.plus(self.shift(intent, elapsed))
    }

    /// Where the camera is after following `intent` through a run of
    /// frames, given each frame's time in microseconds.
    pub open spec fn panned_through(self, intent: PanIntent, frames: Seq<nat>) -> Point
        decreases frames.len(),
    {
        if frames.len() == 0 {
            self.position@
        } else {
            self.panned_through(intent, frames.drop_last()).plus(
                self.shift(intent, frames.last() as int),
            )
        }
    }

    /// A camera at `position` that looks along `forward` with `up`
    /// overhead. There is none where `up` lies along `forward`.
    pub fn looking(
        position: Vec3,
        forward: UnitVec3,
        up: UnitVec3,
        vertical_extent: i64,
    ) -> (c: Option<CameraState>)
        ensures
            c == (match Rotation::spec_facing(forward, up) {
                Some(rotation) => Some(CameraState { position, rotation, vertical_extent }),
                None => None,
            }),
            c matches Some(camera) ==> camera.rotation.is_proper(),
    {
        match Rotation::facing(forward, up) {
            Some(rotation) => Some(CameraState { position, rotation, vertical_extent }),
            None => None,
        }
    }

    /// Moves the camera the way the held keys ask, for `elapsed_micros`
    /// microseconds. With no direction asked for, or where the camera would
    /// leave the coordinates that can be held, it stays where it is.
    pub fn pan(&mut self, keys: &HeldKeys, elapsed_micros: u32) -> (moved: bool)
        ensures
            moved == (!keys.spec_intent().spec_is_zero() && old(self).panned(
                keys.spec_intent(),
                elapsed_micros as int,
            ).fits()),
            moved ==> final(self).position@ == old(self).panned(
                keys.spec_intent(),
                elapsed_micros as int,
            ),
            !moved ==> final(self).position == old(self).position,
            final(self).rotation == old(self).rotation,
            final(self).vertical_extent == old(self).vertical_extent,
    {
        let intent: PanIntent = keys.intent();
        if intent.is_zero() {
            return false;
        }
        let elapsed: i64 = elapsed_micros as i64;
        let reach: i64 = if intent.right != 0 && intent.up != 0 {
            DIAGONAL_SPEED * elapsed
        } else {
            AXIS_SPEED * elapsed
        };
        let local = Vec3 {
            x: if intent.right > 0 { reach } else if intent.right < 0 { -reach } else { 0 },
            y: if intent.up > 0 { reach } else if intent.up < 0 { -reach } else { 0 },
            z: 0,
        };
        let shift: Vec3 = self.rotation.rotate(local);
        match self.position.checked_plus(&shift) {
            Some(target) => {
                self.position = target;
                true
            },
            None => false,
        }
    }
}

/// The way made is additive in the time: two stretches of time, one after
/// the other, carry the camera as far as their sum does.
pub proof fn lemma_shift_additive(c: CameraState, intent: PanIntent, a: int, b: int)
    ensures
        c.shift(intent, a + b) == c.shift(intent, a).plus(c.shift(intent, b)),
{
    lemma_moved_plus(c.rotation, intent.local_shift(a), intent.local_shift(b));
    assert(intent.local_shift(a + b) == intent.local_shift(a).plus(intent.local_shift(b)));
}

/// The pan does not depend on the frame rate: however a stretch of time is
/// cut into frames, the camera ends where one frame of the whole length
/// would have put it.
pub proof fn lemma_pan_is_frame_rate_independent(
    c: CameraState,
    intent: PanIntent,
    frames: Seq<nat>,
)
    ensures
        c.panned_through(intent, frames) == c.panned(intent, total(frames) as int),
    decreases frames.len(),
{
    if frames.len() == 0 {
        assert(c.shift(intent, 0) == (Point { x: 0, y: 0, z: 0 }));
    } else {
        lemma_pan_is_frame_rate_independent(c, intent, frames.drop_last());
        lemma_shift_additive(c, intent, total(frames.drop_last()) as int, frames.last() as int);
    }
}

/// Two ways of cutting the same stretch of time into frames, ten frames or
/// a hundred, move the camera to the same place.
pub proof fn lemma_same_time_same_place(
    c: CameraState,
    intent: PanIntent,
    coarse: Seq<nat>,
    fine: Seq<nat>,
)
    requires
        total(coarse) == total(fine),
    ensures
        c.panned_through(intent, coarse) == c.panned_through(intent, fine),
{
    lemma_pan_is_frame_rate_independent(c, intent, coarse);
    lemma_pan_is_frame_rate_independent(c, intent, fine);
}

/// The camera moves at the same speed in every direction, to within one
/// part in a thousand: the square of the way made per microsecond lies
/// between the squares of 999 and 1000 steps.
pub proof fn lemma_speed_is_even(keys: HeldKeys)
    requires
        !keys.spec_intent().spec_is_zero(),
    ensures
        ({
            let s = keys.spec_intent().local_shift(1);
            999 * 999 <= s.x * s.x + s.y * s.y + s.z * s.z <= 1000 * 1000
        }),
{
    let s = keys.spec_intent().local_shift(1);
    assert(s.x == 0 || s.x == 707 || s.x == -707 || s.x == 1000 || s.x == -1000);
    assert(s.y == 0 || s.y == 707 || s.y == -707 || s.y == 1000 || s.y == -1000);
    assert(s.z == 0);
}

} // verus!
