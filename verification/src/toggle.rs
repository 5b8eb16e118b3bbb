//! The two switches that gate the simulation: whether physics runs, and
//! whether gravity pulls. Each flips on a key going down and at no other
//! time.

use vstd::prelude::*;
use crate::vector::Vec3;

verus! {

/// The downward pull when gravity is on: 9.81 world units per second
/// squared, in fixed-point steps.
pub const STANDARD_GRAVITY: i64 = 9_810_000_000;

/// The keys the rig listens to.
#[derive(Clone, Copy, Debug, PartialEq, Eq, Structural)]
pub enum Key {
    P,
    G,
    Up,
    Down,
    Left,
    Right,
    W,
    A,
    S,
    D,
}

/// What a key did in one frame.
#[derive(Clone, Copy, Debug, PartialEq, Eq, Structural)]
pub enum KeyEvent {
    /// The key went down in this frame.
    Pressed(Key),
    /// The key was already down and still is.
    Held(Key),
    /// The key came up in this frame.
    Released(Key),
}

/// What the frame loop is to do with the simulation in one frame.
#[derive(Clone, Copy, Debug, PartialEq, Eq, Structural)]
pub enum StepCommand {
    /// Leave the simulation as it is.
    Skip,
    /// Advance the simulation under this gravity.
    Advance { gravity: Vec3 },
}

/// The two switches.
#[derive(Clone, Copy, Debug, PartialEq, Eq, Structural)]
pub struct ToggleState {
    pub physics_active: bool,
    pub gravity_enabled: bool,
}

/// How many times `key` goes down in `events`.
pub open spec fn presses(events: Seq<KeyEvent>, key: Key) -> nat
    decreases events.len(),
{
    if events.len() == 0 {
        0
    } else {
        presses(events.drop_last(), key) + (if events.last() == KeyEvent::Pressed(key) {
            1nat
        } else {
            0nat
        })
    }
}

impl ToggleState {
    /// Physics paused and gravity off, so that the rig can be looked at
    /// before anything moves.
    pub open spec fn spec_initial() -> ToggleState {
        ToggleState { physics_active: false, gravity_enabled: false }
    }

    /// The switches after one event: `P` going down flips physics, `G`
    /// going down flips gravity, and nothing else changes anything.
    pub open spec fn after(self, event: KeyEvent) -> ToggleState {
        match event {
            KeyEvent::Pressed(Key::P) => ToggleState {
                physics_active: !self.physics_active,
                gravity_enabled: self.gravity_enabled,
            },
            KeyEvent::Pressed(Key::G) => ToggleState {
                physics_active: self.physics_active,
                gravity_enabled: !self.gravity_enabled,
            },
            _ => self,
        }
    }

    /// The switches after a run of events, first to last.
    pub open spec fn after_all(self, events: Seq<KeyEvent>) -> ToggleState
        decreases events.len(),
    {
        if events.len() == 0 {
            self
        } else {
            self.after_all(events.drop_last()).after(events.last())
        }
    }

    /// Straight down at standard strength when gravity is on, nothing when
    /// it is off.
    pub open spec fn spec_gravity(self) -> Vec3 {
        if self.gravity_enabled {
            Vec3 { x: 0, y: (-STANDARD_GRAVITY) as i64, z: 0 }
        } else {
            Vec3 { x: 0, y: 0, z: 0 }
        }
    }

    pub open spec fn spec_step_command(self) -> StepCommand {
        if self.physics_active {
            StepCommand::Advance { gravity: self.spec_gravity() }
        } else {
            StepCommand::Skip
        }
    }

    pub fn initial() -> (s: ToggleState)
        ensures
            s == ToggleState::spec_initial(),
    {
        ToggleState { physics_active: false, gravity_enabled: false }
    }

    /// Takes in one event.
    pub fn handle(&mut self, event: KeyEvent)
        ensures
            *final(self) == old(self).after(event),
    {
        match event {
            KeyEvent::Pressed(Key::P) => {
                self.physics_active = !self.physics_active;
            },
            KeyEvent::Pressed(Key::G) => {
                self.gravity_enabled = !self.gravity_enabled;
            },
            _ => {},
        }
    }

    /// Takes in the events of one frame, first to last.
    pub fn handle_all(&mut self, events: &Vec<KeyEvent>)
        ensures
            *final(self) == old(self).after_all(events@),
    {
        let mut i: usize = 0;
        while i < events.len()
            invariant
                i <= events.len(),
                *self == old(self).after_all(events@.take(i as int)),
            decreases events.len() - i,
        {
            proof {
                assert(events@.take(i + 1).drop_last() == events@.take(i as int));
            }
            self.handle(events[i]);
            i = i + 1;
        }
        proof {
            assert(events@.take(i as int) == events@);
        }
    }

    /// Flips physics if `P` went down in this frame.
    pub fn pause_physics(&mut self, p_just_pressed: bool)
        ensures
            *final(self) == (if p_just_pressed {
                old(self).after(KeyEvent::Pressed(Key::P))
            } else {
                *old(self)
            }),
            final(self).physics_active == (old(self).physics_active != p_just_pressed),
            final(self).gravity_enabled == old(self).gravity_enabled,
    {
        if p_just_pressed {
            self.handle(KeyEvent::Pressed(Key::P));
        }
    }

    /// Flips gravity if `G` went down in this frame.
    pub fn enable_gravity(&mut self, g_just_pressed: bool)
        ensures
            *final(self) == (if g_just_pressed {
                old(self).after(KeyEvent::Pressed(Key::G))
            } else {
                *old(self)
            }),
            final(self).gravity_enabled == (old(self).gravity_enabled != g_just_pressed),
            final(self).physics_active == old(self).physics_active,
    {
        if g_just_pressed {
            self.handle(KeyEvent::Pressed(Key::G));
        }
    }

    /// The gravity that the simulation is to run under.
    pub fn gravity(&self) -> (g: Vec3)
        ensures
            g == self.spec_gravity(),
    {
        if self.gravity_enabled {
            Vec3::new(0, -STANDARD_GRAVITY, 0)
        } else {
            Vec3::zero()
        }
    }

    /// What to do with the simulation in this frame: advance it under the
    /// current gravity while physics is active, leave it alone while paused.
    pub fn step_command(&self) -> (c: StepCommand)
        ensures
            c == self.spec_step_command(),
    {
        if self.physics_active {
            StepCommand::Advance { gravity: self.gravity() }
        } else {
            StepCommand::Skip
        }
    }
}

/// Each switch flips once for every time its key goes down, and for nothing
/// else: after a run of events physics has changed exactly if `P` went down
/// an odd number of times, and gravity exactly if `G` did. A key that is
/// held or released moves neither.
pub proof fn lemma_one_flip_per_press(s: ToggleState, events: Seq<KeyEvent>)
    ensures
        s.after_all(events).physics_active == (s.physics_active != (presses(events, Key::P) % 2
            == 1)),
        s.after_all(events).gravity_enabled == (s.gravity_enabled != (presses(events, Key::G) % 2
            == 1)),
    decreases events.len(),
{
    if events.len() > 0 {
        lemma_one_flip_per_press(s, events.drop_last());
    }
}

/// A frame without a key going down leaves both switches alone, however
/// many keys are held.
pub proof fn lemma_held_keys_flip_nothing(s: ToggleState, events: Seq<KeyEvent>)
    requires
        forall|i: int| 0 <= i < events.len() ==> !(#[trigger] events[i] is Pressed),
    ensures
        s.after_all(events) == s,
    decreases events.len(),
{
    if events.len() > 0 {
        lemma_held_keys_flip_nothing(s, events.drop_last());
        assert(!(events[events.len() - 1] is Pressed));
    }
}

/// Flipping gravity twice brings back the switches and the gravity vector
/// exactly; so does flipping physics twice.
pub proof fn lemma_double_flip(s: ToggleState)
    ensures
        s.after(KeyEvent::Pressed(Key::G)).after(KeyEvent::Pressed(Key::G)) == s,
        s.after(KeyEvent::Pressed(Key::G)).after(KeyEvent::Pressed(Key::G)).spec_gravity()
            == s.spec_gravity(),
        s.after(KeyEvent::Pressed(Key::P)).after(KeyEvent::Pressed(Key::P)) == s,
        s.after(KeyEvent::Pressed(Key::G)).spec_gravity() != s.spec_gravity(),
{
}

/// All four combinations of the two switches can be reached from the start:
/// by pressing `P` if physics is to run, and `G` if gravity is to pull.
pub proof fn lemma_every_state_is_reachable(target: ToggleState) -> (events: Seq<KeyEvent>)
    ensures
        ToggleState::spec_initial().after_all(events) == target,
        events.len() <= 2,
{
    let start = ToggleState::spec_initial();
    let none = Seq::<KeyEvent>::empty();
    let p = none.push(KeyEvent::Pressed(Key::P));
    let g = none.push(KeyEvent::Pressed(Key::G));
    let both = p.push(KeyEvent::Pressed(Key::G));
    assert(p.drop_last() == none);
    assert(g.drop_last() == none);
    assert(both.drop_last() == p);
    assert(start.after_all(none) == start);
    assert(start.after_all(p) == start.after(KeyEvent::Pressed(Key::P)));
    assert(start.after_all(g) == start.after(KeyEvent::Pressed(Key::G)));
    assert(start.after_all(both) == start.after_all(p).after(KeyEvent::Pressed(Key::G)));
    if target.physics_active {
        if target.gravity_enabled {
            both
        } else {
            p
        }
    } else {
        if target.gravity_enabled {
            g
        } else {
            none
        }
    }
}

/// The gravity vector is zero exactly while gravity is off, so the vector
/// alone tells which way the switch stands.
pub proof fn lemma_gravity_tells_switch(s: ToggleState)
    ensures
        (s.spec_gravity() == Vec3 { x: 0, y: 0, z: 0 }) == !s.gravity_enabled,
{
}

/// The two switches do not touch each other, and the order in which events
/// of different keys arrive makes no difference.
pub proof fn lemma_switches_independent(s: ToggleState, a: KeyEvent, b: KeyEvent)
    ensures
        s.after(a).after(b) == s.after(b).after(a),
        s.after(KeyEvent::Pressed(Key::P)).gravity_enabled == s.gravity_enabled,
        s.after(KeyEvent::Pressed(Key::G)).physics_active == s.physics_active,
{
}

} // verus!
