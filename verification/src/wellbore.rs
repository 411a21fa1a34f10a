//! Flowing bottomhole pressure over a string of up to three tubing segments.
//!
//! A [`Flow`] walks the segments from the wellhead down. For each segment
//! that is present it asks its caller for a first estimate of the outlet
//! pressure and then for a fixed number of updates of that estimate; the
//! outlet it ends with is the inlet of the next segment. A segment whose
//! diameter is not positive is absent: its outlet is its inlet.

use vstd::prelude::*;
use crate::binary64::Double;
use crate::iteration::{Run, SEGMENT_STEPS};

verus! {

/// Number of segments in a well.
pub const SEGMENT_COUNT: usize = 3;

/// Values that a flow takes for each segment that is present: the first
/// estimate and the updates.
pub const VALUES_PER_SEGMENT: usize = 16;

/// One tubing segment.
#[derive(Clone, Copy, Debug)]
pub struct Segment {
    pub diameter: Double,
    pub length: Double,
}

impl Segment {
    /// The segment is present: its diameter is greater than zero.
    pub open spec fn active(self) -> bool {
        self.diameter.positive()
    }

    pub fn is_active(&self) -> (r: bool)
        ensures
            r == self.active(),
    {
        self.diameter.is_positive()
    }
}

/// The segments of a well, from the wellhead down.
#[derive(Clone, Copy, Debug)]
pub struct WellGeometry {
    pub first: Segment,
    pub second: Segment,
    pub third: Segment,
}

impl WellGeometry {
    pub open spec fn segment_spec(self, index: int) -> Option<Segment> {
        if index == 0 {
            Some(self.first)
        } else if index == 1 {
            Some(self.second)
        } else if index == 2 {
            Some(self.third)
        } else {
            None
        }
    }

    /// The segment at `index`, counted from 0 at the wellhead.
    pub fn segment(&self, index: usize) -> (s: Option<Segment>)
        ensures
            s == self.segment_spec(index as int),
    {
        if index == 0 {
            Some(self.first)
        } else if index == 1 {
            Some(self.second)
        } else if index == 2 {
            Some(self.third)
        } else {
            None
        }
    }

    /// Whether the segment at `index` exists and is present.
    pub open spec fn active_at(self, index: int) -> bool {
        match self.segment_spec(index) {
            Some(s) => s.active(),
            None => false,
        }
    }

    /// The first index from `from` on whose segment is present, or the
    /// segment count when there is none.
    pub open spec fn next_active_spec(self, from: int) -> int
        decreases SEGMENT_COUNT - from,
    {
        if from >= SEGMENT_COUNT {
            SEGMENT_COUNT as int
        } else if from >= 0 && self.active_at(from) {
            from
        } else {
            self.next_active_spec(from + 1)
        }
    }

    pub fn next_active(&self, from: usize) -> (index: usize)
        ensures
            index == self.next_active_spec(from as int),
            from <= index <= SEGMENT_COUNT || (from > SEGMENT_COUNT && index == SEGMENT_COUNT),
            index < SEGMENT_COUNT ==> self.active_at(index as int),
            forall|i: int| from <= i < index ==> !self.active_at(i),
    {
        let mut index = from;
        while index < SEGMENT_COUNT
            invariant
                from <= index,
                from <= SEGMENT_COUNT ==> index <= SEGMENT_COUNT,
                self.next_active_spec(from as int) == self.next_active_spec(index as int),
                forall|i: int| from <= i < index ==> !self.active_at(i),
            decreases SEGMENT_COUNT - index,
        {
            let present = match self.segment(index) {
                Some(s) => s.is_active(),
                None => false,
            };
            if present {
                return index;
            }
            index = index + 1;
        }
        SEGMENT_COUNT
    }

    /// Number of present segments at `from` and below.
    pub open spec fn active_from(self, from: int) -> nat
        decreases SEGMENT_COUNT - from,
    {
        if from >= SEGMENT_COUNT {
            0
        } else if self.active_at(from) {
            1 + self.active_from(from + 1)
        } else {
            self.active_from(from + 1)
        }
    }

    /// Number of segments that are present.
    pub open spec fn active_count(self) -> nat {
        self.active_from(0)
    }
}

/// What the caller of a flow has to do next.
#[derive(Clone, Copy, Debug)]
pub enum FlowAction {
    /// Give the first estimate of the outlet pressure of `segment` from its
    /// inlet pressure.
    Seed { index: usize, segment: Segment, inlet: Double },
    /// Give the next estimate of the outlet pressure of `segment` from its
    /// inlet pressure and the present estimate.
    Update { index: usize, segment: Segment, inlet: Double, outlet: Double },
    /// Every segment is solved; this is the pressure at the bottom.
    Finished(Double),
}

/// A flowing-pressure computation in progress.
#[derive(Clone, Copy, Debug)]
pub struct Flow {
    pub geometry: WellGeometry,
    /// The segment being solved; the segment count once all are.
    pub index: usize,
    /// The inlet pressure of that segment; the result once all are solved.
    pub inlet: Double,
    /// The iteration on the outlet pressure, once it has its first estimate.
    pub estimate: Option<Run>,
}

impl Flow {
    pub open spec fn finished(self) -> bool {
        self.index >= SEGMENT_COUNT
    }

    /// The flow at the wellhead with tubing-head pressure `ptf`.
    pub open spec fn start_spec(geometry: WellGeometry, ptf: Double) -> Flow {
        Flow {
            geometry,
            index: geometry.next_active_spec(0) as usize,
            inlet: ptf,
            estimate: None,
        }
    }

    /// The flow at the top of the next present segment below the current
    /// one, with `outlet` as its inlet pressure.
    pub open spec fn descend(self, outlet: Double) -> Flow {
        Flow {
            geometry: self.geometry,
            index: self.geometry.next_active_spec(self.index + 1) as usize,
            inlet: outlet,
            estimate: None,
        }
    }

    /// The flow after the value that its action asked for.
    pub open spec fn advance_spec(self, value: Double) -> Flow {
        if self.finished() {
            self
        } else {
            match self.estimate {
                None => Flow {
                    geometry: self.geometry,
                    index: self.index,
                    inlet: self.inlet,
                    estimate: Some(Run::start_spec(SEGMENT_STEPS, value)),
                },
                Some(run) => {
                    let next = run.advance_spec(value);
                    if next.finished() {
                        self.descend(next.current)
                    } else {
                        Flow {
                            geometry: self.geometry,
                            index: self.index,
                            inlet: self.inlet,
                            estimate: Some(next),
                        }
                    }
                },
            }
        }
    }

    pub open spec fn action_spec(self) -> FlowAction {
        match self.geometry.segment_spec(self.index as int) {
            None => FlowAction::Finished(self.inlet),
            Some(segment) => match self.estimate {
                None => FlowAction::Seed { index: self.index, segment, inlet: self.inlet },
                Some(run) => FlowAction::Update {
                    index: self.index,
                    segment,
                    inlet: self.inlet,
                    outlet: run.current,
                },
            },
        }
    }

    /// The flow after `values`, handed back in order.
    pub open spec fn replay(self, values: Seq<Double>) -> Flow
        decreases values.len(),
    {
        if values.len() == 0 {
            self
        } else {
            self.replay(values.drop_last()).advance_spec(values.last())
        }
    }

    /// Starts at the wellhead: the first present segment takes the
    /// tubing-head pressure `ptf` as its inlet pressure.
    pub fn start(geometry: WellGeometry, ptf: Double) -> (flow: Flow)
        ensures
            flow == Self::start_spec(geometry, ptf),
    {
        Flow { geometry, index: geometry.next_active(0), inlet: ptf, estimate: None }
    }

    pub fn is_finished(&self) -> (r: bool)
        ensures
            r == self.finished(),
    {
        self.index >= SEGMENT_COUNT
    }

    pub fn action(&self) -> (a: FlowAction)
        ensures
            a == self.action_spec(),
    {
        match self.geometry.segment(self.index) {
            None => FlowAction::Finished(self.inlet),
            Some(segment) => match self.estimate {
                None => FlowAction::Seed { index: self.index, segment, inlet: self.inlet },
                Some(run) => FlowAction::Update {
                    index: self.index,
                    segment,
                    inlet: self.inlet,
                    outlet: run.current,
                },
            },
        }
    }

    /// Takes the value that the action asked for: the first estimate of a
    /// segment's outlet pressure, or its next estimate. After the last
    /// update of a segment the flow moves to the next present segment. A
    /// finished flow stays as it is.
    pub fn advance(self, value: Double) -> (next: Flow)
        ensures
            next == self.advance_spec(value),
    {
        if self.is_finished() {
            self
        } else {
            match self.estimate {
                None => Flow {
                    geometry: self.geometry,
                    index: self.index,
                    inlet: self.inlet,
                    estimate: Some(Run::start(SEGMENT_STEPS, value)),
                },
                Some(run) => {
                    let next = run.advance(value);
                    if next.is_finished() {
                        Flow {
                            geometry: self.geometry,
                            index: self.geometry.next_active(self.index + 1),
                            inlet: next.current,
                            estimate: None,
                        }
                    } else {
                        Flow {
                            geometry: self.geometry,
                            index: self.index,
                            inlet: self.inlet,
                            estimate: Some(next),
                        }
                    }
                },
            }
        }
    }
}

/// Handing back `first` and then `second` is handing back the two in one go.
pub proof fn lemma_replay_append(flow: Flow, first: Seq<Double>, second: Seq<Double>)
    ensures
        flow.replay(first + second) == flow.replay(first).replay(second),
    decreases second.len(),
{
    if second.len() == 0 {
        assert(first + second == first);
    } else {
        lemma_replay_append(flow, first, second.drop_last());
        assert((first + second).drop_last() == first + second.drop_last());
    }
}

/// A finished flow ignores what it is handed.
pub proof fn lemma_finished_flow_stays(flow: Flow, values: Seq<Double>)
    requires
        flow.finished(),
    ensures
        flow.replay(values) == flow,
    decreases values.len(),
{
    if values.len() > 0 {
        lemma_finished_flow_stays(flow, values.drop_last());
    }
}

/// Within a segment: after the first estimate and fewer than all updates
/// the flow is still at that segment, holding the last value as estimate.
proof fn lemma_segment_progress(flow: Flow, values: Seq<Double>)
    requires
        !flow.finished(),
        flow.estimate is None,
        0 < values.len() < VALUES_PER_SEGMENT,
    ensures
        flow.replay(values) == (Flow {
            geometry: flow.geometry,
            index: flow.index,
            inlet: flow.inlet,
            estimate: Some(
                Run {
                    limit: SEGMENT_STEPS,
                    done: (values.len() - 1) as u32,
                    current: values.last(),
                    settled: false,
                },
            ),
        }),
    decreases values.len(),
{
    let earlier = values.drop_last();
    if values.len() > 1 {
        lemma_segment_progress(flow, earlier);
    } else {
        assert(flow.replay(earlier) == flow);
    }
    assert(flow.replay(values) == flow.replay(earlier).advance_spec(values.last()));
}

/// A present segment takes its first estimate and exactly fifteen updates;
/// the last update is its outlet pressure and the inlet pressure of the next
/// present segment.
pub proof fn lemma_segment_takes_sixteen_values(flow: Flow, values: Seq<Double>)
    requires
        !flow.finished(),
        flow.estimate is None,
        values.len() == VALUES_PER_SEGMENT,
    ensures
        flow.replay(values) == flow.descend(values[15]),
        forall|n: int|
            0 <= n < VALUES_PER_SEGMENT ==> !(#[trigger] flow.replay(values.take(n))).finished(),
{
    lemma_segment_progress(flow, values.drop_last());
    assert forall|n: int| 0 <= n < VALUES_PER_SEGMENT implies !(#[trigger] flow.replay(
        values.take(n),
    )).finished() by {
        if n > 0 {
            lemma_segment_progress(flow, values.take(n));
        }
    }
}

proof fn lemma_active_from_after_descent(geometry: WellGeometry, index: int)
    requires
        0 <= index <= SEGMENT_COUNT,
    ensures
        geometry.active_from(geometry.next_active_spec(index)) == geometry.active_from(index),
        index <= geometry.next_active_spec(index) <= SEGMENT_COUNT,
        geometry.next_active_spec(index) < SEGMENT_COUNT ==> geometry.active_at(
            geometry.next_active_spec(index),
        ),
    decreases SEGMENT_COUNT - index,
{
    if index < SEGMENT_COUNT && !geometry.active_at(index) {
        lemma_active_from_after_descent(geometry, index + 1);
    }
}

/// From the top of a segment on, a flow takes sixteen values for each
/// present segment that is left and no more. It is finished exactly when it
/// has them all, and the pressure it ends with is the last of them: the
/// outlet pressure of the last present segment. With no present segment left
/// the inlet pressure passes through unchanged.
pub proof fn lemma_flow_from_segment_top(flow: Flow, values: Seq<Double>)
    requires
        flow.estimate is None,
        flow.index <= SEGMENT_COUNT,
        flow.index < SEGMENT_COUNT ==> flow.geometry.active_at(flow.index as int),
    ensures
        ({
            let left = flow.geometry.active_from(flow.index as int);
            let end = flow.replay(values);
            &&& end.finished() <==> values.len() >= 16 * left
            &&& end.finished() ==> end.action_spec() == FlowAction::Finished(
                if left == 0 {
                    flow.inlet
                } else {
                    values[16 * left - 1]
                },
            )
        }),
    decreases SEGMENT_COUNT - flow.index,
{
    let geometry = flow.geometry;
    if flow.finished() {
        lemma_finished_flow_stays(flow, values);
    } else if values.len() < VALUES_PER_SEGMENT {
        if values.len() > 0 {
            lemma_segment_progress(flow, values);
        }
    } else {
        let head = values.take(VALUES_PER_SEGMENT as int);
        let tail = values.skip(VALUES_PER_SEGMENT as int);
        assert(values == head + tail);
        lemma_replay_append(flow, head, tail);
        lemma_segment_takes_sixteen_values(flow, head);
        let below = flow.descend(head[15]);
        lemma_active_from_after_descent(geometry, flow.index + 1);
        lemma_flow_from_segment_top(below, tail);
        let left = geometry.active_from(below.index as int);
        if left > 0 && tail.len() >= 16 * left {
            assert(tail[16 * left - 1] == values[16 * (left + 1)
                - 1]);
        }
    }
}

/// The flowing pressure of a well: sixteen values per present segment, the
/// last of which is the result; with no present segment the tubing-head
/// pressure is the result at once.
pub proof fn lemma_flow_result(geometry: WellGeometry, ptf: Double, values: Seq<Double>)
    ensures
        ({
            let count = geometry.active_count();
            let end = Flow::start_spec(geometry, ptf).replay(values);
            &&& count <= SEGMENT_COUNT
            &&& end.finished() <==> values.len() >= 16 * count
            &&& end.finished() ==> end.action_spec() == FlowAction::Finished(
                if count == 0 {
                    ptf
                } else {
                    values[16 * count - 1]
                },
            )
        }),
{
    lemma_active_from_after_descent(geometry, 0);
    lemma_flow_from_segment_top(Flow::start_spec(geometry, ptf), values);
    reveal_with_fuel(WellGeometry::active_from, 4);
}

/// With the second and third segment absent a flow is that of the first
/// segment alone, whatever the lengths and the non-positive diameters of the
/// absent ones are: the same values lead to the same action.
pub proof fn lemma_absent_segments_pass_through(
    well: WellGeometry,
    other: WellGeometry,
    ptf: Double,
    values: Seq<Double>,
)
    requires
        well.first == other.first,
        !well.second.active(),
        !well.third.active(),
        !other.second.active(),
        !other.third.active(),
    ensures
        ({
            let a = Flow::start_spec(well, ptf).replay(values);
            let b = Flow::start_spec(other, ptf).replay(values);
            &&& a.action_spec() == b.action_spec()
            &&& a.index == b.index
            &&& a.inlet == b.inlet
            &&& a.estimate == b.estimate
            &&& a.geometry == well
            &&& b.geometry == other
            &&& a.index == 0 || a.index == SEGMENT_COUNT
        }),
    decreases values.len(),
{
    reveal_with_fuel(WellGeometry::next_active_spec, 4);
    if values.len() > 0 {
        lemma_absent_segments_pass_through(well, other, ptf, values.drop_last());
    }
}

} // verus!
