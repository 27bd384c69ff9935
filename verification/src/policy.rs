//! The policy adapter: the fixed set of operations through which the driver
//! reaches a pluggable window policy, and the per-flow driver that calls
//! them, one at a time and in order.

use vstd::prelude::*;
use crate::config::Config;
use crate::flow::FlowState;
use crate::growth::Action;
use crate::measurements::GenericCongAvoidMeasurements;
use crate::scheduler::RawEvent;

verus! {

/// The operations of the adapter.
#[derive(Clone, Copy, Debug, PartialEq, Eq, Structural)]
pub enum PolicyOp {
    NewFlow,
    CurrCwnd,
    SetCwnd,
    Reset,
    Increase,
    Reduction,
}

/// One call into a policy instance, with what was handed over.
pub enum PolicyCall {
    /// The making of the instance, with the initial window and the segment
    /// size.
    NewFlow(u32, u32),
    CurrCwnd,
    SetCwnd(u32),
    Reset,
    Increase(GenericCongAvoidMeasurements),
    Reduction(GenericCongAvoidMeasurements),
}

impl PolicyCall {
    /// The operation that the call invokes.
    pub open spec fn op(self) -> PolicyOp {
        match self {
            PolicyCall::NewFlow(_, _) => PolicyOp::NewFlow,
            PolicyCall::CurrCwnd => PolicyOp::CurrCwnd,
            PolicyCall::SetCwnd(_) => PolicyOp::SetCwnd,
            PolicyCall::Reset => PolicyOp::Reset,
            PolicyCall::Increase(_) => PolicyOp::Increase,
            PolicyCall::Reduction(_) => PolicyOp::Reduction,
        }
    }
}

/// The calls that a step stands for, in order.
pub open spec fn spec_calls(action: Action) -> Seq<PolicyCall> {
    match action {
        Action::Increase(m) => seq![PolicyCall::Increase(m)],
        Action::Reduction(m) => seq![PolicyCall::Reduction(m)],
        Action::Timeout(m) => seq![PolicyCall::Reduction(m), PolicyCall::Reset],
        Action::SetWindow(w) => seq![PolicyCall::SetCwnd(w)],
    }
}

/// A planned run of calls was cut short by a failure: the calls made are
/// the planned ones up to and with the one that failed, in order, and `op`
/// is the operation of that last one.
pub open spec fn cut_short(
    before: Seq<PolicyCall>,
    planned: Seq<PolicyCall>,
    after: Seq<PolicyCall>,
    op: Option<PolicyOp>,
) -> bool {
    exists|k: int|
        1 <= k <= planned.len() && after == before + #[trigger] planned.take(k) && op == Some(
            planned[k - 1].op(),
        )
}

/// What a policy hands back when one of its operations fails.
#[derive(Debug)]
pub struct PolicyFault {
    /// The policy's own account of the failure.
    pub detail: String,
}

/// How an adapter call failed.
#[derive(Clone, Copy, Debug, PartialEq, Eq, Structural)]
pub enum FailureKind {
    /// The policy reported a fault.
    Raised,
    /// The policy returned a window of zero.
    Malformed,
    /// The flow was terminated by an earlier failure; the policy was not
    /// called.
    Terminated,
}

/// A failed adapter call, with what is needed to look into it afterwards.
/// It is fatal for the flow: the policy's true window is unknown from then
/// on, and no call is tried again.
#[derive(Debug)]
pub struct AdapterError {
    /// The flow.
    pub flow: u32,
    /// The operation that failed; none where a terminated flow called
    /// nothing.
    pub op: Option<PolicyOp>,
    pub kind: FailureKind,
    /// The last window known to the driver.
    pub window: u32,
    /// The last snapshot handed to the flow, if there was one.
    pub snapshot: Option<GenericCongAvoidMeasurements>,
    /// The policy's own account, where it gave one.
    pub detail: String,
}

/// The per-flow instance of a policy. Nothing is assumed of what an
/// implementation does: the driver takes every answer as it comes.
pub trait GenericCongAvoidFlow {
    /// Reads the policy's window.
    fn curr_cwnd(&self) -> Result<u32, PolicyFault>;

    /// Sets the policy's window.
    fn set_cwnd(&mut self, cwnd: u32) -> Result<(), PolicyFault>;

    /// Puts the instance back into the state it had when it was made.
    fn reset(&mut self) -> Result<(), PolicyFault>;

    /// Hands a snapshot without loss to the policy.
    fn increase(&mut self, m: &GenericCongAvoidMeasurements) -> Result<(), PolicyFault>;

    /// Hands a snapshot with a loss or a timeout to the policy.
    fn reduction(&mut self, m: &GenericCongAvoidMeasurements) -> Result<(), PolicyFault>;
}

/// A policy: the maker of per-flow instances.
pub trait GenericCongAvoidAlg {
    type Flow: GenericCongAvoidFlow;

    /// The policy's name.
    fn name() -> &'static str;

    /// Makes the instance for a new flow.
    fn new_flow(&self, init_cwnd: u32, mss: u32) -> Result<Self::Flow, PolicyFault>;
}

/// One flow under the driver: its state and the handle of its policy
/// instance. The driver owns the flow, and every call into the policy goes
/// through a method that borrows the flow exclusively, so the calls of one
/// flow never overlap.
pub struct Flow<F: GenericCongAvoidFlow> {
    /// The flow's identity, as the datapath names it.
    pub id: u32,
    pub state: FlowState,
    /// The handle of the policy instance.
    pub alg: F,
    /// Whether an adapter call has failed. A terminated flow calls its
    /// policy no more.
    pub terminated: bool,
    /// The last snapshot handed to the flow.
    pub last_snapshot: Option<GenericCongAvoidMeasurements>,
    /// Every call made into the policy instance so far, in order.
    pub calls: Ghost<Seq<PolicyCall>>,
}

/// Makes the flow for a connection that the datapath announces at `now`:
/// asks the policy for an instance with the configured initial window, and
/// starts the flow's state around it. A policy that cannot make the instance
/// fails the flow before it exists.
pub fn start_flow<A: GenericCongAvoidAlg>(
    alg: &A,
    id: u32,
    config: Config,
    mss: u32,
    now: u64,
) -> (r: Result<Flow<A::Flow>, AdapterError>)
    ensures
        match r {
            Ok(flow) => {
                &&& flow.id == id
                &&& flow.state == FlowState::spec_new(config, now)
                &&& !flow.terminated
                &&& flow.last_snapshot is None
                &&& flow.calls@ == seq![PolicyCall::NewFlow(config.init_cwnd, mss)]
            },
            Err(e) => {
                &&& e.flow == id
                &&& e.op == Some(PolicyOp::NewFlow)
                &&& e.kind == FailureKind::Raised
                &&& e.window == config.init_cwnd
                &&& e.snapshot is None
            },
        },
{
    match alg.new_flow(config.init_cwnd, mss) {
        Ok(handle) => {
            let ghost made = Seq::<PolicyCall>::empty().push(
                PolicyCall::NewFlow(config.init_cwnd, mss),
            );
            assert(made =~= seq![PolicyCall::NewFlow(config.init_cwnd, mss)]);
            Ok(
                Flow {
                    id,
                    state: FlowState::new(config, now),
                    alg: handle,
                    terminated: false,
                    last_snapshot: None,
                    calls: Ghost(made),
                },
            )
        },
        Err(fault) => Err(
            AdapterError {
                flow: id,
                op: Some(PolicyOp::NewFlow),
                kind: FailureKind::Raised,
                window: config.init_cwnd,
                snapshot: None,
                detail: fault.detail,
            },
        ),
    }
}

impl<F: GenericCongAvoidFlow> Flow<F> {
    /// Starts a flow around a policy instance that exists already.
    pub fn new(id: u32, config: Config, alg: F, now: u64) -> (flow: Flow<F>)
        ensures
            flow.id == id,
            flow.state == FlowState::spec_new(config, now),
            flow.alg == alg,
            !flow.terminated,
            flow.last_snapshot is None,
            flow.calls@ == Seq::<PolicyCall>::empty(),
    {
        Flow {
            id,
            state: FlowState::new(config, now),
            alg,
            terminated: false,
            last_snapshot: None,
            calls: Ghost(Seq::empty()),
        }
    }

    /// Tears the flow down when the datapath signals the end of the
    /// connection, and hands the policy instance back for release. It takes
    /// the flow by value: no call into the policy can be under way.
    pub fn close(self) -> (alg: F)
        ensures
            alg == self.alg,
    {
        self.alg
    }

    /// What a failure reports of a flow: its identity, the last window
    /// known, and the last snapshot handed to it.
    pub open spec fn reports(self, e: AdapterError) -> bool {
        &&& e.flow == self.id
        &&& e.window == self.state.cwnd
        &&& e.snapshot == self.last_snapshot
    }

    /// The flow is as it was, but for being terminated.
    pub open spec fn terminated_from(self, before: Self) -> bool {
        &&& self.terminated
        &&& self.id == before.id
        &&& self.state == before.state
        &&& self.last_snapshot == before.last_snapshot
    }

    /// Terminates the flow and makes the report of the failure.
    fn fail(&mut self, op: Option<PolicyOp>, kind: FailureKind, detail: String) -> (e:
        AdapterError)
        ensures
            final(self).terminated_from(*old(self)),
            final(self).calls@ == old(self).calls@,
            old(self).reports(e),
            e.op == op,
            e.kind == kind,
    {
        self.terminated = true;
        AdapterError {
            flow: self.id,
            op,
            kind,
            window: self.state.cwnd,
            snapshot: self.last_snapshot,
            detail,
        }
    }

    /// The flow is as it was, with one more call made.
    pub open spec fn called_from(self, before: Self, call: PolicyCall) -> bool {
        &&& self.id == before.id
        &&& self.state == before.state
        &&& self.terminated == before.terminated
        &&& self.last_snapshot == before.last_snapshot
        &&& self.calls@ == before.calls@.push(call)
    }

    /// Calls the policy's `increase`, and logs the call.
    fn call_increase(&mut self, m: &GenericCongAvoidMeasurements) -> (r: Result<(), PolicyFault>)
        ensures
            final(self).called_from(*old(self), PolicyCall::Increase(*m)),
    {
        self.calls = Ghost(self.calls@.push(PolicyCall::Increase(*m)));
        self.alg.increase(m)
    }

    /// Calls the policy's `reduction`, and logs the call.
    fn call_reduction(&mut self, m: &GenericCongAvoidMeasurements) -> (r: Result<(), PolicyFault>)
        ensures
            final(self).called_from(*old(self), PolicyCall::Reduction(*m)),
    {
        self.calls = Ghost(self.calls@.push(PolicyCall::Reduction(*m)));
        self.alg.reduction(m)
    }

    /// Calls the policy's `reset`, and logs the call.
    fn call_reset(&mut self) -> (r: Result<(), PolicyFault>)
        ensures
            final(self).called_from(*old(self), PolicyCall::Reset),
    {
        self.calls = Ghost(self.calls@.push(PolicyCall::Reset));
        self.alg.reset()
    }

    /// Calls the policy's `set_cwnd`, and logs the call.
    fn call_set_cwnd(&mut self, window: u32) -> (r: Result<(), PolicyFault>)
        ensures
            final(self).called_from(*old(self), PolicyCall::SetCwnd(window)),
    {
        self.calls = Ghost(self.calls@.push(PolicyCall::SetCwnd(window)));
        self.alg.set_cwnd(window)
    }

    /// Carries out one step on the policy: the calls that the step stands
    /// for, in order, stopping at the first that fails.
    fn perform(&mut self, action: &Action) -> (r: Result<(), (PolicyOp, PolicyFault)>)
        ensures
            final(self).id == old(self).id,
            final(self).state == old(self).state,
            final(self).terminated == old(self).terminated,
            final(self).last_snapshot == old(self).last_snapshot,
            match r {
                Ok(()) => final(self).calls@ == old(self).calls@ + spec_calls(*action),
                Err(f) => cut_short(
                    old(self).calls@,
                    spec_calls(*action),
                    final(self).calls@,
                    Some(f.0),
                ),
            },
    {
        let ghost before = self.calls@;
        let ghost planned = spec_calls(*action);
        match action {
            Action::Increase(m) => match self.call_increase(m) {
                Ok(()) => {
                    assert(self.calls@ =~= before + planned);
                    Ok(())
                },
                Err(fault) => {
                    assert(self.calls@ =~= before + planned.take(1));
                    Err((PolicyOp::Increase, fault))
                },
            },
            Action::Reduction(m) => match self.call_reduction(m) {
                Ok(()) => {
                    assert(self.calls@ =~= before + planned);
                    Ok(())
                },
                Err(fault) => {
                    assert(self.calls@ =~= before + planned.take(1));
                    Err((PolicyOp::Reduction, fault))
                },
            },
            Action::Timeout(m) => match self.call_reduction(m) {
                Ok(()) => match self.call_reset() {
                    Ok(()) => {
                        assert(self.calls@ =~= before + planned);
                        Ok(())
                    },
                    Err(fault) => {
                        assert(self.calls@ =~= before + planned.take(2));
                        Err((PolicyOp::Reset, fault))
                    },
                },
                Err(fault) => {
                    assert(self.calls@ =~= before + planned.take(1));
                    Err((PolicyOp::Reduction, fault))
                },
            },
            Action::SetWindow(w) => match self.call_set_cwnd(*w) {
                Ok(()) => {
                    assert(self.calls@ =~= before + planned);
                    Ok(())
                },
                Err(fault) => {
                    assert(self.calls@ =~= before + planned.take(1));
                    Err((PolicyOp::SetCwnd, fault))
                },
            },
        }
    }

    /// Reads the window back from the policy. A fault or a window of zero
    /// terminates the flow.
    fn read_window(&mut self) -> (r: Result<u32, AdapterError>)
        ensures
            final(self).id == old(self).id,
            final(self).state == old(self).state,
            final(self).last_snapshot == old(self).last_snapshot,
            final(self).calls@ == old(self).calls@.push(PolicyCall::CurrCwnd),
            match r {
                Ok(w) => w >= 1 && final(self).terminated == old(self).terminated,
                Err(e) => {
                    &&& final(self).terminated
                    &&& old(self).reports(e)
                    &&& e.op == Some(PolicyOp::CurrCwnd)
                    &&& e.kind != FailureKind::Terminated
                },
            },
    {
        self.calls = Ghost(self.calls@.push(PolicyCall::CurrCwnd));
        match self.alg.curr_cwnd() {
            Ok(w) => {
                if w >= 1 {
                    Ok(w)
                } else {
                    Err(self.fail(Some(PolicyOp::CurrCwnd), FailureKind::Malformed, String::new()))
                }
            },
            Err(fault) => Err(
                self.fail(Some(PolicyOp::CurrCwnd), FailureKind::Raised, fault.detail),
            ),
        }
    }

    /// What handling a snapshot `m` made of the flow `before`, given the
    /// result `r`.
    ///
    /// A terminated flow reports that, calls nothing and stays as it is.
    /// Otherwise the snapshot is noted as the last one, and the planned
    /// calls are the ones of the step that the snapshot calls for, followed
    /// by a read of the window. On success all of them were made, in order
    /// and once each, and the state is settled on the window read, which is
    /// at least one. On failure the calls were made up to the one that
    /// failed, the flow is terminated with its state as it was, and the
    /// report names the failed operation, the flow, its last known window
    /// and the snapshot. Only the read of the window can fail as malformed.
    pub open spec fn handled(
        self,
        before: Self,
        m: GenericCongAvoidMeasurements,
        r: Result<u32, AdapterError>,
    ) -> bool {
        let planned = spec_calls(before.state.spec_plan(m)).push(PolicyCall::CurrCwnd);
        if before.terminated {
            &&& r matches Err(e)
            &&& e.kind == FailureKind::Terminated
            &&& e.op is None
            &&& before.reports(e)
            &&& self.terminated_from(before)
            &&& self.calls@ == before.calls@
        } else {
            &&& self.id == before.id
            &&& self.last_snapshot == Some(m)
            &&& match r {
                Ok(w) => {
                    &&& w >= 1
                    &&& !self.terminated
                    &&& self.state == before.state.spec_settle(m, w)
                    &&& self.calls@ == before.calls@ + planned
                },
                Err(e) => {
                    &&& self.terminated
                    &&& self.state == before.state
                    &&& e.kind != FailureKind::Terminated
                    &&& e.kind == FailureKind::Malformed ==> e.op == Some(PolicyOp::CurrCwnd)
                    &&& e.flow == before.id
                    &&& e.window == before.state.cwnd
                    &&& e.snapshot == Some(m)
                    &&& cut_short(before.calls@, planned, self.calls@, e.op)
                },
            }
        }
    }

    /// Handles one snapshot: decides the step, carries it out on the policy,
    /// reads the window back and settles the flow's state on it. The window
    /// that comes back is the one to send to the datapath.
    ///
    /// Whether the policy answers is the policy's matter. If it does, the
    /// state is settled on the window it gave. If any call fails, or the
    /// window read back is zero, the flow is terminated with its state as it
    /// was, and the failure is reported. No call is tried twice.
    pub fn on_snapshot(&mut self, m: &GenericCongAvoidMeasurements) -> (r: Result<
        u32,
        AdapterError,
    >)
        ensures
            final(self).handled(*old(self), *m, r),
            old(self).state.wf() ==> final(self).state.wf(),
    {
        if self.terminated {
            return Err(self.fail(None, FailureKind::Terminated, String::new()));
        }
        let ghost before = self.calls@;
        let ghost planned = spec_calls(self.state.spec_plan(*m)).push(PolicyCall::CurrCwnd);
        self.last_snapshot = Some(*m);
        let action = self.state.plan(m);
        match self.perform(&action) {
            Ok(()) => {},
            Err(failed) => {
                proof {
                    let k = choose|k: int|
                        1 <= k <= spec_calls(action).len() && self.calls@ == before
                            + #[trigger] spec_calls(action).take(k) && Some(failed.0) == Some(
                            spec_calls(action)[k - 1].op(),
                        );
                    assert(planned.take(k) =~= spec_calls(action).take(k));
                }
                return Err(self.fail(Some(failed.0), FailureKind::Raised, failed.1.detail));
            },
        }
        assert(self.calls@.push(PolicyCall::CurrCwnd) =~= before + planned);
        assert(planned.take(planned.len() as int) =~= planned);
        let w = match self.read_window() {
            Ok(w) => w,
            Err(e) => {
                return Err(e);
            },
        };
        let settled = self.state.settle(m, w);
        assert(settled);
        Ok(w)
    }

    /// What a pass through detector and scheduler, which left the state at
    /// `passed` and the snapshot `due`, made of the flow `before`, given the
    /// result `r`.
    ///
    /// A terminated flow reports that and stays as it is. Otherwise, with no
    /// snapshot due, the result is `Ok(None)`, the state is `passed` and no
    /// call was made. With a snapshot due, the snapshot was handled from the
    /// state `passed`.
    pub open spec fn dispatched(
        self,
        before: Self,
        passed: FlowState,
        due: Option<GenericCongAvoidMeasurements>,
        r: Result<Option<u32>, AdapterError>,
    ) -> bool {
        if before.terminated {
            &&& r matches Err(e)
            &&& e.kind == FailureKind::Terminated
            &&& e.op is None
            &&& before.reports(e)
            &&& self.terminated_from(before)
            &&& self.calls@ == before.calls@
        } else {
            match due {
                None => {
                    &&& r == Ok::<Option<u32>, AdapterError>(None)
                    &&& self.state == passed
                    &&& self.id == before.id
                    &&& !self.terminated
                    &&& self.last_snapshot == before.last_snapshot
                    &&& self.calls@ == before.calls@
                },
                Some(m) => {
                    &&& r != Ok::<Option<u32>, AdapterError>(None)
                    &&& self.handled(
                        Flow { state: passed, ..before },
                        m,
                        match r {
                            Ok(w) => Ok(w->Some_0),
                            Err(e) => Err(e),
                        },
                    )
                },
            }
        }
    }

    /// Handles one datapath event at `now`: folds it in, looks at the clock,
    /// and handles the snapshot if one is due. `Ok(None)` says that nothing
    /// was due; `Ok(Some(w))` gives the window to send to the datapath.
    pub fn on_event(&mut self, ev: &RawEvent, now: u64) -> (r: Result<Option<u32>, AdapterError>)
        ensures
            final(self).dispatched(
                *old(self),
                old(self).state.spec_take_event(*ev, now).0,
                old(self).state.spec_take_event(*ev, now).1,
                r,
            ),
            old(self).state.wf() ==> final(self).state.wf(),
    {
        if self.terminated {
            return Err(self.fail(None, FailureKind::Terminated, String::new()));
        }
        match self.state.take_event(ev, now) {
            None => Ok(None),
            Some(m) => match self.on_snapshot(&m) {
                Ok(w) => Ok(Some(w)),
                Err(e) => Err(e),
            },
        }
    }

    /// Lets time pass without an event: looks at the clock at `now`, and
    /// handles the snapshot if a timeout was detected or the cadence asks
    /// for a flush.
    pub fn on_tick(&mut self, now: u64) -> (r: Result<Option<u32>, AdapterError>)
        ensures
            final(self).dispatched(
                *old(self),
                old(self).state.spec_poll(now).0,
                old(self).state.spec_poll(now).1,
                r,
            ),
            old(self).state.wf() ==> final(self).state.wf(),
    {
        if self.terminated {
            return Err(self.fail(None, FailureKind::Terminated, String::new()));
        }
        match self.state.poll(now) {
            None => Ok(None),
            Some(m) => match self.on_snapshot(&m) {
                Ok(w) => Ok(Some(w)),
                Err(e) => Err(e),
            },
        }
    }

    /// Resets the flow on a signal from outside: resets the policy, reads
    /// the window back and puts the flow into rapid growth on it. The calls
    /// are a reset and a read of the window, in this order; a failure cuts
    /// them short and terminates the flow with its state as it was.
    pub fn reset(&mut self) -> (r: Result<u32, AdapterError>)
        ensures
            final(self).id == old(self).id,
            final(self).last_snapshot == old(self).last_snapshot,
            old(self).state.wf() ==> final(self).state.wf(),
            old(self).terminated ==> {
                &&& r matches Err(e)
                &&& e.kind == FailureKind::Terminated
                &&& e.op is None
                &&& final(self).calls@ == old(self).calls@
            },
            match r {
                Ok(w) => {
                    &&& w >= 1
                    &&& !old(self).terminated
                    &&& !final(self).terminated
                    &&& final(self).state == old(self).state.spec_restart(w)
                    &&& final(self).calls@ == old(self).calls@ + seq![
                        PolicyCall::Reset,
                        PolicyCall::CurrCwnd,
                    ]
                },
                Err(e) => {
                    &&& final(self).terminated_from(*old(self))
                    &&& old(self).reports(e)
                    &&& e.kind == FailureKind::Malformed ==> e.op == Some(PolicyOp::CurrCwnd)
                    &&& !old(self).terminated ==> e.kind != FailureKind::Terminated && cut_short(
                        old(self).calls@,
                        seq![PolicyCall::Reset, PolicyCall::CurrCwnd],
                        final(self).calls@,
                        e.op,
                    )
                },
            },
    {
        if self.terminated {
            return Err(self.fail(None, FailureKind::Terminated, String::new()));
        }
        let ghost before = self.calls@;
        let ghost planned = seq![PolicyCall::Reset, PolicyCall::CurrCwnd];
        match self.call_reset() {
            Ok(()) => {},
            Err(fault) => {
                assert(self.calls@ =~= before + planned.take(1));
                return Err(self.fail(Some(PolicyOp::Reset), FailureKind::Raised, fault.detail));
            },
        }
        assert(self.calls@.push(PolicyCall::CurrCwnd) =~= before + planned);
        assert(planned.take(2) =~= planned);
        let w = match self.read_window() {
            Ok(w) => w,
            Err(e) => {
                return Err(e);
            },
        };
        let restarted = self.state.restart(w);
        assert(restarted);
        Ok(w)
    }
}

} // verus!
