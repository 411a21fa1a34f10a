//! Bounded fixed-point iteration as a state machine.
//!
//! A [`Run`] holds the current iterate and decides, after each evaluation
//! that its caller performs, whether another one is due. The caller does the
//! arithmetic; the run does the counting and the stopping test.

use vstd::prelude::*;
use crate::binary64::Double;

verus! {

/// Newton-Raphson steps of the compressibility-factor solver.
pub const Z_FACTOR_STEPS: u32 = 25;

/// Newton-Raphson steps of the isothermal-compressibility solver.
pub const COMPRESSIBILITY_STEPS: u32 = 30;

/// Updates of the static gas-column solvers.
pub const STATIC_COLUMN_STEPS: u32 = 30;

/// Updates of the static gas-column solver in its long-running variant.
pub const STATIC_COLUMN_STEPS_LONG: u32 = 100;

/// Updates of one tubing segment of the flowing-pressure solver.
pub const SEGMENT_STEPS: u32 = 15;

/// Change of the top pressure below which the inverse static solver may
/// stop early: 1e-4 as a binary64 bit pattern.
pub const STATIC_COLUMN_TOLERANCE: u64 = 0x3f1a_36e2_eb1c_432d;

/// What the caller of a run has to do next.
#[derive(Clone, Copy, Debug)]
pub enum Action {
    /// Evaluate the update formula at this iterate and hand the result back.
    Evaluate(Double),
    /// The run is over; this is its result.
    Finished(Double),
}

/// A fixed-point iteration in progress.
#[derive(Clone, Copy, Debug)]
pub struct Run {
    /// Most evaluations that the run asks for.
    pub limit: u32,
    /// Evaluations received so far.
    pub done: u32,
    /// The seed, or the last evaluation received.
    pub current: Double,
    /// Whether an evaluation came within tolerance of its predecessor.
    pub settled: bool,
}

/// One evaluation handed back to a run: the new iterate, and its difference
/// from the iterate it was computed from.
#[derive(Clone, Copy, Debug)]
pub struct Outcome {
    pub value: Double,
    pub change: Double,
}

impl Run {
    /// The run asks for no further evaluation.
    pub open spec fn finished(self) -> bool {
        self.settled || self.done >= self.limit
    }

    /// The run before any evaluation.
    pub open spec fn start_spec(limit: u32, seed: Double) -> Run {
        Run { limit, done: 0, current: seed, settled: false }
    }

    /// The run after one more evaluation; a finished run stays as it is.
    pub open spec fn advance_spec(self, value: Double) -> Run {
        if self.finished() {
            self
        } else {
            Run { limit: self.limit, done: (self.done + 1) as u32, current: value, settled: false }
        }
    }

    /// `|change| < tolerance`, false when either is a NaN.
    pub open spec fn within(change: Double, tolerance: Double) -> bool {
        (Double { bits: crate::binary64::magnitude(change.bits) }).lt_spec(tolerance)
    }

    /// The run after one more evaluation under a stopping tolerance: it
    /// settles when the iterate moved by less than the tolerance.
    pub open spec fn advance_within_spec(self, outcome: Outcome, tolerance: Double) -> Run {
        if self.finished() {
            self
        } else {
            Run {
                limit: self.limit,
                done: (self.done + 1) as u32,
                current: outcome.value,
                settled: Self::within(outcome.change, tolerance),
            }
        }
    }

    /// What the run asks of its caller.
    pub open spec fn action_spec(self) -> Action {
        if self.finished() {
            Action::Finished(self.current)
        } else {
            Action::Evaluate(self.current)
        }
    }

    /// The run after the evaluations `values`, handed back in order.
    pub open spec fn replay(self, values: Seq<Double>) -> Run
        decreases values.len(),
    {
        if values.len() == 0 {
            self
        } else {
            self.replay(values.drop_last()).advance_spec(values.last())
        }
    }

    /// The run after `outcomes`, handed back in order under `tolerance`.
    pub open spec fn replay_within(self, outcomes: Seq<Outcome>, tolerance: Double) -> Run
        decreases outcomes.len(),
    {
        if outcomes.len() == 0 {
            self
        } else {
            self.replay_within(outcomes.drop_last(), tolerance).advance_within_spec(
                outcomes.last(),
                tolerance,
            )
        }
    }

    /// A run of at most `limit` evaluations from `seed`.
    pub fn start(limit: u32, seed: Double) -> (run: Run)
        ensures
            run == Self::start_spec(limit, seed),
    {
        Run { limit, done: 0, current: seed, settled: false }
    }

    pub fn is_finished(&self) -> (r: bool)
        ensures
            r == self.finished(),
    {
        self.settled || self.done >= self.limit
    }

    pub fn action(&self) -> (a: Action)
        ensures
            a == self.action_spec(),
    {
        if self.is_finished() {
            Action::Finished(self.current)
        } else {
            Action::Evaluate(self.current)
        }
    }

    /// Takes the evaluation of the current iterate. Counts it and makes it
    /// the current iterate; has no stopping test but the count.
    pub fn advance(self, value: Double) -> (next: Run)
        ensures
            next == self.advance_spec(value),
    {
        if self.is_finished() {
            self
        } else {
            Run { limit: self.limit, done: self.done + 1, current: value, settled: false }
        }
    }

    /// Takes the evaluation of the current iterate together with its change,
    /// and stops the run early when the change is within `tolerance`.
    pub fn advance_within(self, outcome: Outcome, tolerance: Double) -> (next: Run)
        ensures
            next == self.advance_within_spec(outcome, tolerance),
    {
        if self.is_finished() {
            self
        } else {
            let settled = outcome.change.abs().lt(tolerance);
            Run { limit: self.limit, done: self.done + 1, current: outcome.value, settled }
        }
    }
}

/// A run without tolerance takes exactly `limit` evaluations, whatever they
/// are: it is finished once `limit` of them have come and not before, and
/// its iterate is then the last one that it counted.
pub proof fn lemma_run_takes_exactly_limit(limit: u32, seed: Double, values: Seq<Double>)
    ensures
        ({
            let run = Run::start_spec(limit, seed).replay(values);
            &&& run.limit == limit
            &&& !run.settled
            &&& run.done == if values.len() <= limit { values.len() } else { limit as nat }
            &&& run.current == if run.done == 0 { seed } else { values[run.done - 1] }
            &&& run.finished() <==> values.len() >= limit
        }),
    decreases values.len(),
{
    if values.len() > 0 {
        lemma_run_takes_exactly_limit(limit, seed, values.drop_last());
    }
}

/// A run under a tolerance stops at the first evaluation that moved the
/// iterate by less than the tolerance, and at `limit` evaluations at the
/// latest; its iterate is the last evaluation that it counted.
pub proof fn lemma_run_stops_at_first_settled(
    limit: u32,
    seed: Double,
    outcomes: Seq<Outcome>,
    tolerance: Double,
)
    ensures
        ({
            let run = Run::start_spec(limit, seed).replay_within(outcomes, tolerance);
            &&& run.limit == limit
            &&& run.done <= limit
            &&& run.done <= outcomes.len()
            &&& run.current == if run.done == 0 { seed } else { outcomes[run.done - 1].value }
            &&& run.settled <==> run.done > 0 && Run::within(
                outcomes[run.done - 1].change,
                tolerance,
            )
            &&& forall|j: int|
                0 <= j < run.done - 1 ==> !Run::within(#[trigger] outcomes[j].change, tolerance)
            &&& !run.finished() ==> run.done == outcomes.len()
        }),
    decreases outcomes.len(),
{
    if outcomes.len() > 0 {
        let earlier = outcomes.drop_last();
        lemma_run_stops_at_first_settled(limit, seed, earlier, tolerance);
        let before = Run::start_spec(limit, seed).replay_within(earlier, tolerance);
        let run = before.advance_within_spec(outcomes.last(), tolerance);
        assert forall|j: int| 0 <= j < run.done - 1 implies !Run::within(
            #[trigger] outcomes[j].change,
            tolerance,
        ) by {
            assert(outcomes[j] == earlier[j]);
        }
    }
}

} // verus!
