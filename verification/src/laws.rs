//! What holds of every run of a flow: the snapshots account for every
//! reported event exactly once, whatever the cadence, and the growth phase
//! moves one way.

use vstd::prelude::*;
use crate::flow::{FlowState, GrowthPhase};
use crate::measurements::GenericCongAvoidMeasurements;
use crate::scheduler::{RawEvent, Totals};

verus! {

/// One thing that happens to a flow's state.
pub enum Step {
    /// A datapath event arrives at the given time.
    Event(RawEvent, u64),
    /// Time passes to the given time, without an event.
    Tick(u64),
    /// The step of a snapshot is taken, and the window stands at the given
    /// value.
    Settle(GenericCongAvoidMeasurements, u32),
    /// The flow is reset from outside, and the window stands at the given
    /// value.
    Restart(u32),
}

/// The three counts that add up across the events of a snapshot.
pub enum Counter {
    Acked,
    Sacked,
    Loss,
}

impl Counter {
    /// The count as a snapshot carries it.
    pub open spec fn of_snapshot(self, m: GenericCongAvoidMeasurements) -> int {
        match self {
            Counter::Acked => m.acked as int,
            Counter::Sacked => m.sacked as int,
            Counter::Loss => m.loss as int,
        }
    }

    /// The count as a raw event carries it.
    pub open spec fn of_event(self, ev: RawEvent) -> int {
        match self {
            Counter::Acked => ev.acked as int,
            Counter::Sacked => ev.sacked as int,
            Counter::Loss => ev.loss as int,
        }
    }

    /// The count as it stands in the totals.
    pub open spec fn of_totals(self, t: Totals) -> int {
        match self {
            Counter::Acked => t.acked as int,
            Counter::Sacked => t.sacked as int,
            Counter::Loss => t.loss as int,
        }
    }
}

/// The state after one step, and the snapshot that the step flushes, if any.
pub open spec fn spec_step(s: FlowState, step: Step) -> (
    FlowState,
    Option<GenericCongAvoidMeasurements>,
) {
    match step {
        Step::Event(ev, now) => s.spec_take_event(ev, now),
        Step::Tick(now) => s.spec_poll(now),
        Step::Settle(m, window) => (s.spec_settle(m, window), None),
        Step::Restart(window) => (s.spec_restart(window), None),
    }
}

/// The state after a run of steps, and the snapshots flushed along the way,
/// in order.
pub open spec fn spec_run(s: FlowState, steps: Seq<Step>) -> (
    FlowState,
    Seq<GenericCongAvoidMeasurements>,
)
    decreases steps.len(),
{
    if steps.len() == 0 {
        (s, Seq::empty())
    } else {
        let (before, flushed) = spec_run(s, steps.drop_last());
        let (after, m) = spec_step(before, steps.last());
        (
            after,
            match m {
                Some(m) => flushed.push(m),
                None => flushed,
            },
        )
    }
}

/// A count, summed over the events that a run of steps reports.
pub open spec fn reported(c: Counter, steps: Seq<Step>) -> int
    decreases steps.len(),
{
    if steps.len() == 0 {
        0
    } else {
        reported(c, steps.drop_last()) + match steps.last() {
            Step::Event(ev, _) => c.of_event(ev),
            _ => 0,
        }
    }
}

/// A count, summed over snapshots.
pub open spec fn flushed_sum(c: Counter, ms: Seq<GenericCongAvoidMeasurements>) -> int
    decreases ms.len(),
{
    if ms.len() == 0 {
        0
    } else {
        flushed_sum(c, ms.drop_last()) + c.of_snapshot(ms.last())
    }
}

/// The events of a run of steps, in order.
pub open spec fn events_of(steps: Seq<Step>) -> Seq<RawEvent>
    decreases steps.len(),
{
    if steps.len() == 0 {
        Seq::empty()
    } else {
        match steps.last() {
            Step::Event(ev, _) => events_of(steps.drop_last()).push(ev),
            _ => events_of(steps.drop_last()),
        }
    }
}

/// A count, summed over raw events.
pub open spec fn events_sum(c: Counter, evs: Seq<RawEvent>) -> int
    decreases evs.len(),
{
    if evs.len() == 0 {
        0
    } else {
        events_sum(c, evs.drop_last()) + c.of_event(evs.last())
    }
}

/// No step touches the configuration.
pub proof fn lemma_run_keeps_config(s: FlowState, steps: Seq<Step>)
    ensures
        spec_run(s, steps).0.config == s.config,
    decreases steps.len(),
{
    if steps.len() > 0 {
        lemma_run_keeps_config(s, steps.drop_last());
    }
}

/// Every reported event is counted once and no more: along any run, under
/// any cadence, what the snapshots carry and what is still pending add up to
/// what was pending at the start and what the events reported since.
pub proof fn lemma_counts_are_conserved(c: Counter, s: FlowState, steps: Seq<Step>)
    ensures
        flushed_sum(c, spec_run(s, steps).1) + c.of_totals(spec_run(s, steps).0.pending)
            == c.of_totals(s.pending) + reported(c, steps),
    decreases steps.len(),
{
    if steps.len() > 0 {
        let head = steps.drop_last();
        lemma_counts_are_conserved(c, s, head);
        let (before, flushed) = spec_run(s, head);
        let (after, m) = spec_step(before, steps.last());
        match m {
            Some(m) => {
                assert(flushed.push(m).drop_last() =~= flushed);
            },
            None => {},
        }
    }
}

/// What a run reports is the sum over its events.
pub proof fn lemma_reported_is_sum_of_events(c: Counter, steps: Seq<Step>)
    ensures
        reported(c, steps) == events_sum(c, events_of(steps)),
    decreases steps.len(),
{
    if steps.len() > 0 {
        lemma_reported_is_sum_of_events(c, steps.drop_last());
        match steps.last() {
            Step::Event(ev, _) => {
                assert(events_of(steps.drop_last()).push(ev).drop_last() =~= events_of(
                    steps.drop_last(),
                ));
            },
            _ => {},
        }
    }
}

/// A run that starts with nothing pending and ends with nothing pending has
/// flushed, in its snapshots, exactly the sum of its raw events.
pub proof fn lemma_drained_run_flushes_every_event(c: Counter, s: FlowState, steps: Seq<Step>)
    requires
        s.pending == Totals::spec_zero(),
        spec_run(s, steps).0.pending == Totals::spec_zero(),
    ensures
        flushed_sum(c, spec_run(s, steps).1) == events_sum(c, events_of(steps)),
{
    lemma_counts_are_conserved(c, s, steps);
    lemma_reported_is_sum_of_events(c, steps);
}

/// The sums do not depend on the cadence: two flows, under any two
/// configurations and at any times, that are given the same events and are
/// both drained, have flushed the same totals, however differently the
/// events were cut into snapshots.
pub proof fn lemma_sums_do_not_depend_on_cadence(
    c: Counter,
    s1: FlowState,
    steps1: Seq<Step>,
    s2: FlowState,
    steps2: Seq<Step>,
)
    requires
        s1.pending == Totals::spec_zero(),
        s2.pending == Totals::spec_zero(),
        events_of(steps1) == events_of(steps2),
        spec_run(s1, steps1).0.pending == Totals::spec_zero(),
        spec_run(s2, steps2).0.pending == Totals::spec_zero(),
    ensures
        flushed_sum(c, spec_run(s1, steps1).1) == flushed_sum(c, spec_run(s2, steps2).1),
{
    lemma_drained_run_flushes_every_event(c, s1, steps1);
    lemma_drained_run_flushes_every_event(c, s2, steps2);
}

/// Step `j` is an event on which the datapath itself flags a timeout.
pub open spec fn flags_timeout(steps: Seq<Step>, j: int) -> bool {
    steps[j] matches Step::Event(ev, _) && ev.was_timeout
}

/// Progress is never a timeout. Along a run in which the datapath flags no
/// timeout of its own, a snapshot that acknowledges anything carries no
/// timeout: the detector marks only totals that acknowledge nothing. So a
/// flow that acknowledges something in every flush never times out.
pub proof fn lemma_progress_is_never_a_timeout(s: FlowState, steps: Seq<Step>)
    requires
        !s.pending.was_timeout,
        forall|j: int| 0 <= j < steps.len() ==> !#[trigger] flags_timeout(steps, j),
    ensures
        !spec_run(s, steps).0.pending.was_timeout,
        forall|i: int|
            0 <= i < spec_run(s, steps).1.len() && (#[trigger] spec_run(s, steps).1[i]).acked > 0
                ==> !spec_run(s, steps).1[i].was_timeout,
    decreases steps.len(),
{
    if steps.len() > 0 {
        let head = steps.drop_last();
        let last = steps.len() - 1;
        assert forall|j: int| 0 <= j < head.len() implies !#[trigger] flags_timeout(head, j) by {
            assert(head[j] == steps[j]);
            assert(!flags_timeout(steps, j));
        }
        lemma_progress_is_never_a_timeout(s, head);
        assert(!flags_timeout(steps, last));
    }
}

/// Step `j` settles a window at or above the threshold.
pub open spec fn crosses(steps: Seq<Step>, thresh: u32, j: int) -> bool {
    steps[j] matches Step::Settle(_, window) && window >= thresh
}

/// Among the first `k` steps, one settles a window at or above the
/// threshold.
pub open spec fn crossed_before(steps: Seq<Step>, thresh: u32, k: int) -> bool {
    exists|j: int| 0 <= j < k && #[trigger] crosses(steps, thresh, j)
}

/// Step `j` puts the flow back into rapid growth: a reset from outside, or
/// the settling of a snapshot that carries a timeout.
pub open spec fn resets(steps: Seq<Step>, j: int) -> bool {
    match steps[j] {
        Step::Restart(_) => true,
        Step::Settle(m, _) => m.was_timeout,
        _ => false,
    }
}

/// The phase moves one way. Along a run without a reset, a flow is in steady
/// state exactly if it started there or has settled a window at or above the
/// threshold. So a flow that starts in rapid growth enters steady state at
/// the first flush that leaves the window at or above the threshold, and
/// stays there for the rest of the run.
pub proof fn lemma_phase_moves_one_way(s: FlowState, steps: Seq<Step>)
    requires
        forall|j: int| 0 <= j < steps.len() ==> !#[trigger] resets(steps, j),
    ensures
        spec_run(s, steps).0.phase == GrowthPhase::SteadyState <==> (s.phase
            == GrowthPhase::SteadyState || crossed_before(
            steps,
            s.config.ss_thresh,
            steps.len() as int,
        )),
    decreases steps.len(),
{
    let thresh = s.config.ss_thresh;
    if steps.len() > 0 {
        let head = steps.drop_last();
        let last = steps.len() - 1;
        assert forall|j: int| 0 <= j < head.len() implies !#[trigger] resets(head, j) by {
            assert(head[j] == steps[j]);
            assert(!resets(steps, j));
        }
        lemma_phase_moves_one_way(s, head);
        lemma_run_keeps_config(s, head);
        assert(!resets(steps, last));
        if crossed_before(head, thresh, head.len() as int) {
            let j = choose|j: int| 0 <= j < head.len() && #[trigger] crosses(head, thresh, j);
            assert(head[j] == steps[j]);
            assert(crosses(steps, thresh, j));
        }
        if crossed_before(steps, thresh, steps.len() as int) {
            let j = choose|j: int| 0 <= j < steps.len() && #[trigger] crosses(steps, thresh, j);
            if j < last {
                assert(head[j] == steps[j]);
                assert(crosses(head, thresh, j));
            }
        }
        if crosses(steps, thresh, last) {
            assert(crossed_before(steps, thresh, steps.len() as int));
        }
    }
}

/// The phase changes exactly once, at the first crossing. Let step `k` be
/// the first of a run without a reset to settle a window at or above the
/// threshold, for a flow that starts in rapid growth. Then the flow is in
/// rapid growth after each of the first `k` steps and before them, and in
/// steady state after step `k` and after every later step.
pub proof fn lemma_phase_changes_at_first_crossing(
    s: FlowState,
    steps: Seq<Step>,
    k: int,
    n: int,
)
    requires
        s.phase == GrowthPhase::RapidGrowth,
        forall|j: int| 0 <= j < steps.len() ==> !#[trigger] resets(steps, j),
        0 <= k < steps.len(),
        crosses(steps, s.config.ss_thresh, k),
        forall|j: int| 0 <= j < k ==> !#[trigger] crosses(steps, s.config.ss_thresh, j),
        0 <= n <= steps.len(),
    ensures
        n <= k ==> spec_run(s, steps.take(n)).0.phase == GrowthPhase::RapidGrowth,
        n > k ==> spec_run(s, steps.take(n)).0.phase == GrowthPhase::SteadyState,
{
    let thresh = s.config.ss_thresh;
    let head = steps.take(n);
    assert forall|j: int| 0 <= j < head.len() implies !#[trigger] resets(head, j) by {
        assert(head[j] == steps[j]);
        assert(!resets(steps, j));
    }
    lemma_phase_moves_one_way(s, head);
    if n > k {
        assert(head[k] == steps[k]);
        assert(crosses(head, thresh, k));
    } else {
        if crossed_before(head, thresh, head.len() as int) {
            let j = choose|j: int| 0 <= j < head.len() && #[trigger] crosses(head, thresh, j);
            assert(head[j] == steps[j]);
            assert(crosses(steps, thresh, j));
        }
    }
}

/// Only a reset leads back: a flow in steady state stays there along every
/// run without a reset.
pub proof fn lemma_steady_state_is_left_by_reset_only(s: FlowState, steps: Seq<Step>)
    requires
        s.phase == GrowthPhase::SteadyState,
        forall|j: int| 0 <= j < steps.len() ==> !#[trigger] resets(steps, j),
    ensures
        spec_run(s, steps).0.phase == GrowthPhase::SteadyState,
{
    lemma_phase_moves_one_way(s, steps);
}

} // verus!
