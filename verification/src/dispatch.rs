//! One pass of a flow through scheduler and detector: what a datapath event,
//! or the mere passing of time, makes of the flow's state before any policy
//! is called.

use vstd::prelude::*;
use crate::flow::FlowState;
use crate::measurements::GenericCongAvoidMeasurements;
use crate::scheduler::{RawEvent, Totals};

verus! {

impl FlowState {
    /// A pass at `now` detects a timeout: nothing acknowledged is waiting
    /// to be flushed, and the deficit is exceeded. What is acknowledged and
    /// pending is progress that the next flush will note, so the detector
    /// stands back for it.
    pub open spec fn stalled(self, now: u64) -> bool {
        self.pending.acked == 0 && self.deficit_exceeded(now)
    }

    /// The state after a look at the clock, and the snapshot to handle, if
    /// any. A detected timeout marks the totals and flushes them at once,
    /// whatever the cadence says; otherwise the cadence decides.
    pub open spec fn spec_poll(self, now: u64) -> (FlowState, Option<GenericCongAvoidMeasurements>) {
        if self.stalled(now) {
            let marked = self.spec_check_timeout(now);
            (marked.spec_flush(now), Some(marked.pending.spec_snapshot()))
        } else if self.flush_due(now) {
            (self.spec_flush(now), Some(self.pending.spec_snapshot()))
        } else {
            (self, None)
        }
    }

    /// The state after a datapath event, and the snapshot to handle, if any.
    /// With room in the totals the event is folded in, and the clock is
    /// looked at. Without room the totals are flushed first, whatever the
    /// cadence says, and the event opens the next totals: no event is left
    /// out, and none is counted twice.
    pub open spec fn spec_take_event(self, ev: RawEvent, now: u64) -> (
        FlowState,
        Option<GenericCongAvoidMeasurements>,
    ) {
        if self.pending.can_fold(ev) {
            self.spec_record(ev).spec_poll(now)
        } else {
            (self.spec_flush(now).spec_record(ev), Some(self.pending.spec_snapshot()))
        }
    }

    /// Looks at the clock: flushes with a timeout if the flow is stalled,
    /// and else if the cadence asks for it.
    pub fn poll(&mut self, now: u64) -> (r: Option<GenericCongAvoidMeasurements>)
        ensures
            (*final(self), r) == old(self).spec_poll(now),
            old(self).stalled(now) ==> r is Some && r->Some_0.was_timeout && r->Some_0.acked == 0,
            r is Some ==> final(self).pending == Totals::spec_zero(),
            old(self).wf() ==> final(self).wf(),
    {
        if self.pending.acked == 0 && self.check_timeout(now) {
            Some(self.flush(now))
        } else {
            self.maybe_flush(now)
        }
    }

    /// Takes one datapath event in, and yields the snapshot to handle, if
    /// one is due. The event is always folded in: into the totals as they
    /// are, or into fresh totals once the full ones are flushed.
    pub fn take_event(&mut self, ev: &RawEvent, now: u64) -> (r: Option<
        GenericCongAvoidMeasurements,
    >)
        ensures
            (*final(self), r) == old(self).spec_take_event(*ev, now),
            !old(self).pending.can_fold(*ev) ==> r is Some && final(self).pending
                == Totals::spec_zero().spec_fold(*ev),
            old(self).wf() ==> final(self).wf(),
    {
        if self.record_event(ev) {
            self.poll(now)
        } else {
            let m = self.flush(now);
            let folded = self.record_event(ev);
            assert(folded);
            Some(m)
        }
    }
}

} // verus!
