//! The frame report: of the orientations seen in a frame, those that are
//! new. An orientation is the bit pattern of a quaternion, so "unchanged"
//! means the same bits.

use std::collections::HashMap;
use vstd::prelude::*;
use crate::joint::BodyHandle;
use crate::registry::{monitored, Body, Registry};

verus! {

broadcast use vstd::std_specs::hash::group_hash_axioms;

/// An orientation as the simulation hands it out: the bit patterns of the
/// four components of a unit quaternion.
#[derive(Clone, Copy, Debug, PartialEq, Eq, Structural)]
pub struct QuatBits {
    pub x: u32,
    pub y: u32,
    pub z: u32,
    pub w: u32,
}

/// The orientation of one body in one frame.
#[derive(Clone, Copy, Debug, PartialEq, Eq, Structural)]
pub struct Observation {
    pub body: BodyHandle,
    pub orientation: QuatBits,
}

/// A body whose orientation changed, with the new orientation.
#[derive(Clone, Copy, Debug, PartialEq, Eq, Structural)]
pub struct Report {
    pub body: BodyHandle,
    pub orientation: QuatBits,
}

/// What a sink remembers: the orientation last seen of each body, by the
/// body's index.
pub type Seen = Map<usize, QuatBits>;

/// Whether an observation is worth a report: the body carries a collider,
/// and its orientation was never seen or differs from the one seen last.
pub open spec fn is_news(seen: Seen, bodies: Seq<Body>, o: Observation) -> bool {
    monitored(bodies, o.body) && !(seen.contains_key(o.body.index) && seen[o.body.index]
        == o.orientation)
}

/// What has been seen after one more observation.
pub open spec fn seen_after_one(seen: Seen, bodies: Seq<Body>, o: Observation) -> Seen {
    if monitored(bodies, o.body) {
        seen.insert(o.body.index, o.orientation)
    } else {
        seen
    }
}

/// What has been seen after the observations of a frame, first to last.
pub open spec fn seen_after(seen: Seen, bodies: Seq<Body>, frame: Seq<Observation>) -> Seen
    decreases frame.len(),
{
    if frame.len() == 0 {
        seen
    } else {
        seen_after_one(seen_after(seen, bodies, frame.drop_last()), bodies, frame.last())
    }
}

/// Whether the observation at index `j` of a frame is reported, given what
/// had been seen before the frame.
pub open spec fn reported_at(
    seen: Seen,
    bodies: Seq<Body>,
    frame: Seq<Observation>,
    j: int,
) -> bool {
    is_news(seen_after(seen, bodies, frame.take(j)), bodies, frame[j])
}

/// The reports of a frame: its reported observations, in order.
pub open spec fn reports_of(seen: Seen, bodies: Seq<Body>, frame: Seq<Observation>) -> Seq<Report>
    decreases frame.len(),
{
    if frame.len() == 0 {
        Seq::<Report>::empty()
    } else {
        let rest = reports_of(seen, bodies, frame.drop_last());
        if reported_at(seen, bodies, frame, frame.len() - 1) {
            rest.push(
                Report { body: frame.last().body, orientation: frame.last().orientation },
            )
        } else {
            rest
        }
    }
}

/// Remembers the orientation in which each body was last seen.
pub struct FrameReportSink {
    last: HashMap<usize, QuatBits>,
}

impl View for FrameReportSink {
    type V = Seen;

    closed spec fn view(&self) -> Seen {
        self.last@
    }
}

impl FrameReportSink {
    /// A sink that has seen nothing.
    pub fn new() -> (s: FrameReportSink)
        ensures
            s@ == Seen::empty(),
    {
        FrameReportSink { last: HashMap::new() }
    }

    /// Takes in one observation and says whether it is worth a report.
    pub fn observe(&mut self, registry: &Registry, o: Observation) -> (r: Option<Report>)
        ensures
            final(self)@ == seen_after_one(old(self)@, registry.bodies(), o),
            r == (if is_news(old(self)@, registry.bodies(), o) {
                Some(Report { body: o.body, orientation: o.orientation })
            } else {
                None
            }),
    {
        if !registry.monitors(o.body) {
            return None;
        }
        let unchanged: bool = match self.last.get(&o.body.index) {
            Some(q) => *q == o.orientation,
            None => false,
        };
        self.last.insert(o.body.index, o.orientation);
        if unchanged {
            None
        } else {
            Some(Report { body: o.body, orientation: o.orientation })
        }
    }

    /// Takes in the observations of one frame and returns those worth a
    /// report, in the order in which they came.
    pub fn observe_frame(
        &mut self,
        registry: &Registry,
        frame: &Vec<Observation>,
    ) -> (reports: Vec<Report>)
        ensures
            final(self)@ == seen_after(old(self)@, registry.bodies(), frame@),
            reports@ == reports_of(old(self)@, registry.bodies(), frame@),
    {
        let mut reports: Vec<Report> = Vec::new();
        let mut i: usize = 0;
        while i < frame.len()
            invariant
                i <= frame.len(),
                self@ == seen_after(old(self)@, registry.bodies(), frame@.take(i as int)),
                reports@ == reports_of(old(self)@, registry.bodies(), frame@.take(i as int)),
            decreases frame.len() - i,
        {
            proof {
                let next = frame@.take(i + 1);
                assert(next.drop_last() == frame@.take(i as int));
                assert(next.take(i as int) == frame@.take(i as int));
            }
            match self.observe(registry, frame[i]) {
                Some(r) => {
                    reports.push(r);
                },
                None => {},
            }
            i = i + 1;
        }
        proof {
            assert(frame@.take(i as int) == frame@);
        }
        reports
    }
}

/// Observations of other bodies leave what was seen of a body as it was.
pub proof fn lemma_seen_after_untouched(
    seen: Seen,
    bodies: Seq<Body>,
    frame: Seq<Observation>,
    index: usize,
)
    requires
        forall|k: int| 0 <= k < frame.len() ==> (#[trigger] frame[k]).body.index != index,
    ensures
        seen_after(seen, bodies, frame).contains_key(index) == seen.contains_key(index),
        seen.contains_key(index) ==> seen_after(seen, bodies, frame)[index] == seen[index],
    decreases frame.len(),
{
    if frame.len() > 0 {
        lemma_seen_after_untouched(seen, bodies, frame.drop_last(), index);
        assert(frame[frame.len() - 1].body.index != index);
    }
}

/// After a frame, what is remembered of a watched body is the last
/// orientation that the frame held of it.
pub proof fn lemma_seen_after_keeps_last(
    seen: Seen,
    bodies: Seq<Body>,
    frame: Seq<Observation>,
    i: int,
)
    requires
        0 <= i < frame.len(),
        monitored(bodies, frame[i].body),
        forall|k: int| i < k < frame.len() ==> (#[trigger] frame[k]).body != frame[i].body,
    ensures
        seen_after(seen, bodies, frame).contains_key(frame[i].body.index),
        seen_after(seen, bodies, frame)[frame[i].body.index] == frame[i].orientation,
    decreases frame.len(),
{
    if i < frame.len() - 1 {
        lemma_seen_after_keeps_last(seen, bodies, frame.drop_last(), i);
        assert(frame[frame.len() - 1].body != frame[i].body);
    }
}

/// Every report of a frame stands for an observation of that frame that was
/// worth a report.
pub proof fn lemma_reports_come_from_news(
    seen: Seen,
    bodies: Seq<Body>,
    frame: Seq<Observation>,
    k: int,
) -> (j: int)
    requires
        0 <= k < reports_of(seen, bodies, frame).len(),
    ensures
        0 <= j < frame.len(),
        reported_at(seen, bodies, frame, j),
        reports_of(seen, bodies, frame)[k].body == frame[j].body,
        reports_of(seen, bodies, frame)[k].orientation == frame[j].orientation,
    decreases frame.len(),
{
    let n = frame.len() - 1;
    let rest = reports_of(seen, bodies, frame.drop_last());
    if k < rest.len() {
        let j = lemma_reports_come_from_news(seen, bodies, frame.drop_last(), k);
        assert(frame.drop_last().take(j) == frame.take(j));
        j
    } else {
        n
    }
}

/// A body whose orientation has the same bits in two frames in a row is not
/// reported in the second. Here `first[i]` is the last observation of the
/// body in the first frame and `second[j]` its only one in the second.
pub proof fn lemma_unchanged_is_silent(
    seen: Seen,
    bodies: Seq<Body>,
    first: Seq<Observation>,
    second: Seq<Observation>,
    i: int,
    j: int,
)
    requires
        0 <= i < first.len(),
        0 <= j < second.len(),
        first[i] == second[j],
        forall|k: int| i < k < first.len() ==> (#[trigger] first[k]).body != first[i].body,
        forall|k: int|
            0 <= k < second.len() && k != j ==> (#[trigger] second[k]).body != second[j].body,
    ensures
        !reported_at(seen_after(seen, bodies, first), bodies, second, j),
        forall|k: int|
            0 <= k < reports_of(seen_after(seen, bodies, first), bodies, second).len() ==> (
            #[trigger] reports_of(seen_after(seen, bodies, first), bodies, second)[k]).body
                != second[j].body,
{
    let b = second[j].body;
    let then = seen_after(seen, bodies, first);
    if monitored(bodies, b) {
        lemma_seen_after_keeps_last(seen, bodies, first, i);
        let before = second.take(j);
        assert forall|k: int| 0 <= k < before.len() implies (#[trigger] before[k]).body.index
            != b.index by {
            assert(second[k].body != b);
        }
        lemma_seen_after_untouched(then, bodies, before, b.index);
    }
    let reports = reports_of(then, bodies, second);
    assert forall|k: int| 0 <= k < reports.len() implies (#[trigger] reports[k]).body != b by {
        let at = lemma_reports_come_from_news(then, bodies, second, k);
        if at != j {
            assert(second[at].body != b);
        }
    }
}

/// Seeing the same orientation of a body twice in a row yields no second
/// report.
pub proof fn lemma_repeat_is_silent(seen: Seen, bodies: Seq<Body>, o: Observation)
    ensures
        !is_news(seen_after_one(seen, bodies, o), bodies, o),
{
}

} // verus!
