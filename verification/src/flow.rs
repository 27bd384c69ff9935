//! The state that the driver keeps for one flow.

use vstd::prelude::*;
use crate::config::Config;
use crate::scheduler::Totals;

verus! {

/// The growth phase of a flow. A flow is in exactly one of the two.
#[derive(Clone, Copy, Debug, PartialEq, Eq, Structural)]
pub enum GrowthPhase {
    /// The window grows fast, until it reaches the threshold.
    RapidGrowth,
    /// The policy adjusts the window, report by report.
    SteadyState,
}

/// What the driver knows of one flow, apart from the handle of its policy.
#[derive(Clone, Copy, Debug, PartialEq, Eq, Structural)]
pub struct FlowState {
    /// The configuration of the run.
    pub config: Config,
    /// The current window.
    pub cwnd: u32,
    pub phase: GrowthPhase,
    /// When the flow last made progress: the time of the last flush whose
    /// snapshot acknowledged anything, of the last detected timeout, or of
    /// the flow's creation.
    pub last_progress: u64,
    /// The most recent round-trip sample.
    pub rtt_estimate: u32,
    /// When the totals were last flushed; the flow's creation before the
    /// first flush.
    pub last_flush: u64,
    /// What has been recorded and not flushed yet.
    pub pending: Totals,
    /// How many events the most recent snapshot held.
    pub folded: u32,
}

impl FlowState {
    /// The window is at least one, under a well-formed configuration.
    pub open spec fn wf(self) -> bool {
        self.config.wf() && self.cwnd >= 1
    }

    /// The state of a flow created at `now`.
    pub open spec fn spec_new(config: Config, now: u64) -> FlowState {
        FlowState {
            config,
            cwnd: config.init_cwnd,
            phase: GrowthPhase::RapidGrowth,
            last_progress: now,
            rtt_estimate: 0,
            last_flush: now,
            pending: Totals::spec_zero(),
            folded: 0,
        }
    }

    /// Creates the state of a flow at the time the datapath announces it: in
    /// rapid growth, with the initial window and with nothing recorded.
    pub fn new(config: Config, now: u64) -> (s: FlowState)
        ensures
            s == Self::spec_new(config, now),
            config.wf() ==> s.wf(),
    {
        FlowState {
            config,
            cwnd: config.init_cwnd,
            phase: GrowthPhase::RapidGrowth,
            last_progress: now,
            rtt_estimate: 0,
            last_flush: now,
            pending: Totals::zero(),
            folded: 0,
        }
    }
}

} // verus!
