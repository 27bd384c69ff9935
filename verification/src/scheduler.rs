//! The report scheduler: it folds raw datapath events into a flow's totals
//! and decides when the totals are flushed into one snapshot.

use vstd::prelude::*;
use crate::config::GenericCongAvoidConfigReport;
use crate::flow::FlowState;
use crate::measurements::GenericCongAvoidMeasurements;

verus! {

/// One raw event of a connection, as the datapath reports it.
#[derive(Clone, Copy, Debug, PartialEq, Eq, Structural)]
pub struct RawEvent {
    pub acked: u32,
    pub sacked: u32,
    pub loss: u32,
    /// A round-trip sample.
    pub rtt: u32,
    pub inflight: u32,
    /// The datapath's own timeout flag.
    pub was_timeout: bool,
}

/// What a flow has recorded since its last flush.
#[derive(Clone, Copy, Debug, PartialEq, Eq, Structural)]
pub struct Totals {
    pub acked: u32,
    pub sacked: u32,
    pub loss: u32,
    /// The most recent round-trip sample.
    pub rtt: u32,
    /// The most recent inflight value.
    pub inflight: u32,
    /// Whether any event carried a timeout, or the detector marked one.
    pub was_timeout: bool,
    /// The number of events folded in.
    pub events: u32,
}

impl Totals {
    /// Nothing recorded.
    pub open spec fn spec_zero() -> Totals {
        Totals {
            acked: 0,
            sacked: 0,
            loss: 0,
            rtt: 0,
            inflight: 0,
            was_timeout: false,
            events: 0,
        }
    }

    /// Nothing recorded.
    pub fn zero() -> (t: Totals)
        ensures
            t == Self::spec_zero(),
    {
        Totals {
            acked: 0,
            sacked: 0,
            loss: 0,
            rtt: 0,
            inflight: 0,
            was_timeout: false,
            events: 0,
        }
    }

    /// The totals have room for the event: no counter would pass 32 bits.
    pub open spec fn can_fold(self, ev: RawEvent) -> bool {
        &&& self.acked + ev.acked <= u32::MAX
        &&& self.sacked + ev.sacked <= u32::MAX
        &&& self.loss + ev.loss <= u32::MAX
        &&& self.events + 1 <= u32::MAX
    }

    /// The totals with one more event: the counts add up, the round-trip
    /// sample and the inflight value are the latest, and a timeout sticks.
    pub open spec fn spec_fold(self, ev: RawEvent) -> Totals {
        Totals {
            acked: (self.acked + ev.acked) as u32,
            sacked: (self.sacked + ev.sacked) as u32,
            loss: (self.loss + ev.loss) as u32,
            rtt: ev.rtt,
            inflight: ev.inflight,
            was_timeout: self.was_timeout || ev.was_timeout,
            events: (self.events + 1) as u32,
        }
    }

    /// The snapshot that a flush of these totals yields.
    pub open spec fn spec_snapshot(self) -> GenericCongAvoidMeasurements {
        GenericCongAvoidMeasurements {
            acked: self.acked,
            was_timeout: self.was_timeout,
            sacked: self.sacked,
            loss: self.loss,
            rtt: self.rtt,
            inflight: self.inflight,
        }
    }

    /// Folds one event into the totals if they have room for it, and says
    /// whether they had. Totals without room stay as they are.
    pub fn fold(&mut self, ev: &RawEvent) -> (folded: bool)
        ensures
            folded == old(self).can_fold(*ev),
            folded ==> *final(self) == old(self).spec_fold(*ev),
            !folded ==> *final(self) == *old(self),
    {
        let acked = self.acked.checked_add(ev.acked);
        let sacked = self.sacked.checked_add(ev.sacked);
        let loss = self.loss.checked_add(ev.loss);
        let events = self.events.checked_add(1);
        match (acked, sacked, loss, events) {
            (Some(acked), Some(sacked), Some(loss), Some(events)) => {
                self.acked = acked;
                self.sacked = sacked;
                self.loss = loss;
                self.rtt = ev.rtt;
                self.inflight = ev.inflight;
                self.was_timeout = self.was_timeout || ev.was_timeout;
                self.events = events;
                true
            },
            _ => false,
        }
    }

    /// The snapshot that a flush of these totals yields.
    pub fn snapshot(&self) -> (m: GenericCongAvoidMeasurements)
        ensures
            m == self.spec_snapshot(),
    {
        GenericCongAvoidMeasurements {
            acked: self.acked,
            was_timeout: self.was_timeout,
            sacked: self.sacked,
            loss: self.loss,
            rtt: self.rtt,
            inflight: self.inflight,
        }
    }
}

impl FlowState {
    /// The state after an event is offered: with room in the totals the
    /// event is folded in and its round-trip sample becomes the estimate;
    /// without room nothing changes.
    pub open spec fn spec_record(self, ev: RawEvent) -> FlowState {
        if self.pending.can_fold(ev) {
            FlowState { pending: self.pending.spec_fold(ev), rtt_estimate: ev.rtt, ..self }
        } else {
            self
        }
    }

    /// Folds a raw event into the totals and says whether it was folded. An
    /// event for which the totals have no room is left out, and the state
    /// stays as it is: flush, then record it again.
    pub fn record_event(&mut self, ev: &RawEvent) -> (folded: bool)
        ensures
            folded == old(self).pending.can_fold(*ev),
            *final(self) == old(self).spec_record(*ev),
            old(self).wf() ==> final(self).wf(),
    {
        let folded = self.pending.fold(ev);
        if folded {
            self.rtt_estimate = ev.rtt;
        }
        folded
    }

    /// Whether the cadence asks for a flush at `now`. Per event: once
    /// anything is recorded. Per round trip: once anything is recorded and
    /// one round-trip estimate has passed since the last flush. Per
    /// interval: once the interval has passed since the last flush, whatever
    /// is recorded.
    pub open spec fn flush_due(self, now: u64) -> bool {
        match self.config.report_option {
            GenericCongAvoidConfigReport::Ack => self.pending.events >= 1,
            GenericCongAvoidConfigReport::Rtt => self.pending.events >= 1 && now - self.last_flush
                >= self.rtt_estimate,
            GenericCongAvoidConfigReport::Interval(ms) => now - self.last_flush >= ms * 1000,
        }
    }

    /// Whether the cadence asks for a flush at `now`.
    pub fn is_flush_due(&self, now: u64) -> (due: bool)
        ensures
            due == self.flush_due(now),
    {
        match self.config.report_option {
            GenericCongAvoidConfigReport::Ack => self.pending.events >= 1,
            GenericCongAvoidConfigReport::Rtt => self.pending.events >= 1 && now >= self.last_flush
                && now - self.last_flush >= self.rtt_estimate as u64,
            GenericCongAvoidConfigReport::Interval(ms) => now >= self.last_flush && (now
                - self.last_flush) as u128 >= ms as u128 * 1000,
        }
    }

    /// The state after a flush at `now`: nothing is pending, the flush is
    /// timed, the number of events it held is kept, and a snapshot that
    /// acknowledged anything counts as progress.
    pub open spec fn spec_flush(self, now: u64) -> FlowState {
        FlowState {
            pending: Totals::spec_zero(),
            last_flush: now,
            folded: self.pending.events,
            last_progress: if self.pending.acked > 0 {
                now
            } else {
                self.last_progress
            },
            ..self
        }
    }

    /// Flushes the totals into a snapshot, whatever the cadence says. The
    /// totals are zero afterwards: no event is counted twice.
    pub fn flush(&mut self, now: u64) -> (m: GenericCongAvoidMeasurements)
        ensures
            m == old(self).pending.spec_snapshot(),
            *final(self) == old(self).spec_flush(now),
            final(self).pending == Totals::spec_zero(),
            old(self).wf() ==> final(self).wf(),
    {
        let m = self.pending.snapshot();
        if self.pending.acked > 0 {
            self.last_progress = now;
        }
        self.folded = self.pending.events;
        self.last_flush = now;
        self.pending = Totals::zero();
        m
    }

    /// Flushes the totals into a snapshot if the cadence asks for it at
    /// `now`, and leaves the state untouched if it does not.
    pub fn maybe_flush(&mut self, now: u64) -> (r: Option<GenericCongAvoidMeasurements>)
        ensures
            r is Some <==> old(self).flush_due(now),
            r matches Some(m) ==> m == old(self).pending.spec_snapshot() && *final(self) == old(
                self,
            ).spec_flush(now),
            r is None ==> *final(self) == *old(self),
            old(self).wf() ==> final(self).wf(),
    {
        if self.is_flush_due(now) {
            Some(self.flush(now))
        } else {
            None
        }
    }
}

} // verus!
