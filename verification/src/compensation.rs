//! The compensation unit: it offsets the skew that coalesced reporting puts
//! on what a policy sees.

use vstd::prelude::*;
use crate::flow::FlowState;
use crate::measurements::GenericCongAvoidMeasurements;

verus! {

impl FlowState {
    /// The snapshot as the policy is to see it. A policy written for one
    /// call per event expects the acknowledged and selectively acknowledged
    /// amounts of one event. With compensation on, a snapshot that holds
    /// several events carries their mean per event, rounded down; every
    /// other field stays. With compensation off, or with at most one event in
    /// the snapshot, nothing changes.
    pub open spec fn spec_adjust(self, m: GenericCongAvoidMeasurements)
        -> GenericCongAvoidMeasurements {
        if self.config.use_compensation && self.folded > 1 {
            GenericCongAvoidMeasurements {
                acked: m.acked / self.folded,
                sacked: m.sacked / self.folded,
                ..m
            }
        } else {
            m
        }
    }

    /// Rescales the most recent snapshot for the policy. The result depends
    /// on the snapshot and on the number of events it held, and on nothing
    /// else.
    pub fn adjust(&self, m: &GenericCongAvoidMeasurements) -> (r: GenericCongAvoidMeasurements)
        ensures
            r == self.spec_adjust(*m),
            !self.config.use_compensation ==> r == *m,
            r.acked <= m.acked,
            r.sacked <= m.sacked,
            r.loss == m.loss,
            r.rtt == m.rtt,
            r.inflight == m.inflight,
            r.was_timeout == m.was_timeout,
    {
        if self.config.use_compensation && self.folded > 1 {
            GenericCongAvoidMeasurements {
                acked: m.acked / self.folded,
                was_timeout: m.was_timeout,
                sacked: m.sacked / self.folded,
                loss: m.loss,
                rtt: m.rtt,
                inflight: m.inflight,
            }
        } else {
            *m
        }
    }
}

} // verus!
