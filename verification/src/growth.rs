//! The growth-phase manager: which step a snapshot calls for, and where the
//! flow stands once the step is taken.

use vstd::prelude::*;
use crate::config::GenericCongAvoidConfigSS;
use crate::flow::{FlowState, GrowthPhase};
use crate::measurements::GenericCongAvoidMeasurements;

verus! {

/// The step that one snapshot calls for. Exactly one is taken per flush.
#[derive(Clone, Copy, Debug, PartialEq, Eq, Structural)]
pub enum Action {
    /// Hand the snapshot to the policy's `increase`.
    Increase(GenericCongAvoidMeasurements),
    /// Hand the snapshot to the policy's `reduction`.
    Reduction(GenericCongAvoidMeasurements),
    /// A timeout: hand the snapshot to the policy's `reduction`, then reset
    /// the policy.
    Timeout(GenericCongAvoidMeasurements),
    /// The driver sets the window itself, through the policy's `set_cwnd`.
    SetWindow(u32),
}

/// The rapid-growth step of a driver that owns rapid growth: the window
/// doubles per flush, and stops at the largest window there is.
pub open spec fn spec_rapid_step(cwnd: u32) -> u32 {
    if 2 * cwnd <= u32::MAX {
        (2 * cwnd) as u32
    } else {
        u32::MAX
    }
}

/// The window that a driver mirrors while the datapath owns rapid growth:
/// what the snapshot reports as in flight, or the window as it is where the
/// snapshot reports nothing in flight.
pub open spec fn spec_mirror(cwnd: u32, inflight: u32) -> u32 {
    if inflight >= 1 {
        inflight
    } else {
        cwnd
    }
}

/// Doubles a window, stopping at the largest window there is.
pub fn rapid_step(cwnd: u32) -> (w: u32)
    ensures
        w == spec_rapid_step(cwnd),
        w >= cwnd,
{
    if cwnd <= u32::MAX / 2 {
        2 * cwnd
    } else {
        u32::MAX
    }
}

/// The window to mirror from a snapshot's inflight value.
pub fn mirror(cwnd: u32, inflight: u32) -> (w: u32)
    ensures
        w == spec_mirror(cwnd, inflight),
{
    if inflight >= 1 {
        inflight
    } else {
        cwnd
    }
}

impl FlowState {
    /// The step that a snapshot calls for. A timeout is answered by a
    /// reduction and a reset, in either phase. Otherwise, in rapid growth
    /// the driver sets the window on every flush, whatever the snapshot
    /// says of losses: doubled where the driver owns rapid growth, mirrored
    /// from the snapshot where the datapath does. In steady state a snapshot
    /// with a loss goes to `reduction` and any other to `increase`, never to
    /// both. The policy sees the compensated snapshot.
    pub open spec fn spec_plan(self, m: GenericCongAvoidMeasurements) -> Action {
        if m.was_timeout {
            Action::Timeout(self.spec_adjust(m))
        } else {
            match self.phase {
                GrowthPhase::RapidGrowth => match self.config.ss {
                    GenericCongAvoidConfigSS::Ccp => Action::SetWindow(spec_rapid_step(self.cwnd)),
                    GenericCongAvoidConfigSS::Datapath => Action::SetWindow(
                        spec_mirror(self.cwnd, m.inflight),
                    ),
                },
                GrowthPhase::SteadyState => if m.loss > 0 {
                    Action::Reduction(self.spec_adjust(m))
                } else {
                    Action::Increase(self.spec_adjust(m))
                },
            }
        }
    }

    /// Decides the step for a snapshot.
    pub fn plan(&self, m: &GenericCongAvoidMeasurements) -> (a: Action)
        ensures
            a == self.spec_plan(*m),
            self.wf() ==> (a matches Action::SetWindow(w) ==> w >= 1),
    {
        if m.was_timeout {
            Action::Timeout(self.adjust(m))
        } else {
            match self.phase {
                GrowthPhase::RapidGrowth => match self.config.ss {
                    GenericCongAvoidConfigSS::Ccp => Action::SetWindow(rapid_step(self.cwnd)),
                    GenericCongAvoidConfigSS::Datapath => Action::SetWindow(
                        mirror(self.cwnd, m.inflight),
                    ),
                },
                GrowthPhase::SteadyState => if m.loss > 0 {
                    Action::Reduction(self.adjust(m))
                } else {
                    Action::Increase(self.adjust(m))
                },
            }
        }
    }

    /// The phase once a snapshot's step is taken and the window stands at
    /// `window`. A timeout puts the flow back into rapid growth. Otherwise
    /// a flow in rapid growth enters steady state when the window has
    /// reached the threshold, and a flow in steady state stays there.
    pub open spec fn spec_next_phase(self, m: GenericCongAvoidMeasurements, window: u32)
        -> GrowthPhase {
        if m.was_timeout {
            GrowthPhase::RapidGrowth
        } else if self.phase == GrowthPhase::SteadyState || window >= self.config.ss_thresh {
            GrowthPhase::SteadyState
        } else {
            GrowthPhase::RapidGrowth
        }
    }

    /// The state once a snapshot's step is taken and the window stands at
    /// `window`.
    pub open spec fn spec_settle(self, m: GenericCongAvoidMeasurements, window: u32) -> FlowState {
        FlowState { cwnd: window, phase: self.spec_next_phase(m, window), ..self }
    }

    /// Takes over the window that stands after a snapshot's step, and
    /// evaluates the phase. A window of zero is no window: it is refused,
    /// and the state stays as it is.
    pub fn settle(&mut self, m: &GenericCongAvoidMeasurements, window: u32) -> (ok: bool)
        ensures
            ok == (window >= 1),
            ok ==> *final(self) == old(self).spec_settle(*m, window),
            !ok ==> *final(self) == *old(self),
            old(self).wf() ==> final(self).wf(),
    {
        if window < 1 {
            return false;
        }
        self.cwnd = window;
        if m.was_timeout {
            self.phase = GrowthPhase::RapidGrowth;
        } else if window >= self.config.ss_thresh {
            self.phase = GrowthPhase::SteadyState;
        }
        true
    }

    /// The state after a reset that leaves the window at `window`: the flow
    /// is back in rapid growth.
    pub open spec fn spec_restart(self, window: u32) -> FlowState {
        FlowState { cwnd: window, phase: GrowthPhase::RapidGrowth, ..self }
    }

    /// Takes over the window that stands after an explicit reset, and puts
    /// the flow back into rapid growth. A window of zero is refused, and the
    /// state stays as it is.
    pub fn restart(&mut self, window: u32) -> (ok: bool)
        ensures
            ok == (window >= 1),
            ok ==> *final(self) == old(self).spec_restart(window),
            !ok ==> *final(self) == *old(self),
            old(self).wf() ==> final(self).wf(),
    {
        if window < 1 {
            return false;
        }
        self.cwnd = window;
        self.phase = GrowthPhase::RapidGrowth;
        true
    }
}

} // verus!
