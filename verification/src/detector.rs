//! The deficit timeout detector: a flow that makes no progress for longer
//! than a multiple of its round-trip estimate counts as stalled.

use vstd::prelude::*;
use crate::flow::FlowState;
use crate::scheduler::Totals;

verus! {

impl FlowState {
    /// The flow has gone without progress for longer than its deficit: the
    /// configured multiple of the round-trip estimate. A flow that has seen
    /// no traffic since its creation is measured from its creation.
    pub open spec fn deficit_exceeded(self, now: u64) -> bool {
        now - self.last_progress > self.config.deficit_timeout * self.rtt_estimate
    }

    /// Whether the deficit is exceeded at `now`.
    pub fn is_deficit_exceeded(&self, now: u64) -> (exceeded: bool)
        ensures
            exceeded == self.deficit_exceeded(now),
    {
        let deficit_timeout: u64 = self.config.deficit_timeout as u64;
        let rtt_estimate: u64 = self.rtt_estimate as u64;
        assert(deficit_timeout * rtt_estimate <= 0xffff_ffff * 0xffff_ffff) by (nonlinear_arith)
            requires
                deficit_timeout <= 0xffff_ffff,
                rtt_estimate <= 0xffff_ffff,
        ;
        now > self.last_progress && now - self.last_progress > deficit_timeout * rtt_estimate
    }

    /// The state after a check at `now`: where the deficit is exceeded, the
    /// totals carry a timeout and the flow counts as having progressed at
    /// `now`; elsewhere nothing changes.
    pub open spec fn spec_check_timeout(self, now: u64) -> FlowState {
        if self.deficit_exceeded(now) {
            FlowState {
                pending: Totals { was_timeout: true, ..self.pending },
                last_progress: now,
                ..self
            }
        } else {
            self
        }
    }

    /// Checks the flow for a timeout at `now`. It fires exactly when the
    /// deficit is exceeded. When it fires it marks the totals, so that the
    /// next snapshot carries the timeout, and restarts the deficit at `now`,
    /// so that the same stall is signalled once.
    pub fn check_timeout(&mut self, now: u64) -> (fired: bool)
        ensures
            fired <==> old(self).deficit_exceeded(now),
            *final(self) == old(self).spec_check_timeout(now),
            fired ==> final(self).pending.was_timeout && final(self).last_progress == now,
            !final(self).deficit_exceeded(now),
            old(self).wf() ==> final(self).wf(),
    {
        if self.is_deficit_exceeded(now) {
            self.pending.was_timeout = true;
            self.last_progress = now;
            true
        } else {
            false
        }
    }
}

/// Once a timeout is detected at `now`, no check fires again until the
/// deficit has passed anew.
pub proof fn lemma_timeout_is_signalled_once(s: FlowState, now: u64, later: u64)
    requires
        s.deficit_exceeded(now),
        later - now <= s.config.deficit_timeout * s.rtt_estimate,
    ensures
        !s.spec_check_timeout(now).deficit_exceeded(later),
{
}

/// A flush that acknowledges anything puts off the timeout: no check fires
/// within one deficit of it. So a flow whose every flush acknowledges
/// something, and whose flushes are never further apart than its deficit,
/// never times out.
pub proof fn lemma_progress_defers_timeout(s: FlowState, now: u64, later: u64)
    requires
        s.pending.acked > 0,
        later - now <= s.config.deficit_timeout * s.rtt_estimate,
    ensures
        !s.spec_flush(now).deficit_exceeded(later),
        s.spec_flush(now).spec_check_timeout(later) == s.spec_flush(now),
{
}

} // verus!
