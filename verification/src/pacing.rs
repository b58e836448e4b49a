//! The decisions of one execution loop: what it does on each wake-up, from
//! the moment it is armed until it has drained.
//!
//! The loop itself waits on timers, on its in-flight invocations and on the
//! cancellation signal; this module holds what it decides. The caller feeds
//! [`ExecutionLoop::step`] one [`LoopEvent`] per wake-up and carries out the
//! [`LoopAction`] it gets back.

use vstd::prelude::*;
use crate::error::Error;
use crate::scheduler::WorkerResult;

verus! {

/// The time between two progress reports of a loop, in nanoseconds: a
/// quarter of a second, whatever the target rate.
pub const REPORT_INTERVAL_NANOS: u128 = 250_000_000;

/// Where an execution loop stands.
#[derive(Debug, Clone, Copy, PartialEq, Eq, Structural)]
pub enum LoopPhase {
    /// Dispatching on every pacing tick.
    Armed,
    /// Cancelled: no more dispatches, waiting for what is in flight.
    Draining,
    /// Cancelled and nothing in flight: the result is final.
    Drained,
    /// An invocation failed: the loop has given up.
    Failed,
}

/// What woke the loop.
#[derive(Debug)]
pub enum LoopEvent {
    /// The pacing timer ticked.
    PacingTick,
    /// The progress-report timer ticked.
    ReportTick,
    /// An in-flight invocation succeeded after this many nanoseconds.
    Completed(u128),
    /// An in-flight invocation failed.
    WorkerFailed(Error),
    /// The shared cancellation signal fired.
    Cancelled,
}

/// What the loop has to do next.
#[derive(Debug)]
pub enum LoopAction {
    /// Start one more invocation of the worker.
    Dispatch,
    /// Tell the progress reporter that this many more invocations completed.
    Report(usize),
    /// Nothing: go back to waiting.
    Wait,
    /// Stop and hand out the result.
    Finish,
    /// Stop and fail the whole run with this error.
    Abort(Error),
}

/// The state of an execution loop as plain mathematics.
pub struct LoopState {
    pub phase: LoopPhase,
    /// Invocations dispatched so far.
    pub request_sent: nat,
    /// Invocations dispatched and not yet completed.
    pub in_flight: nat,
    /// The latencies of the completed invocations, in completion order.
    pub durations: Seq<u128>,
    /// How many completions the progress reporter has been told of.
    pub last_reported: nat,
}

/// A loop that has just been armed.
pub open spec fn initial_state() -> LoopState {
    LoopState {
        phase: LoopPhase::Armed,
        request_sent: 0,
        in_flight: 0,
        durations: Seq::empty(),
        last_reported: 0,
    }
}

/// What every reachable state satisfies: each dispatched invocation is either
/// recorded or in flight, nothing is reported that did not complete, and a
/// drained loop has nothing in flight.
pub open spec fn valid_state(s: LoopState) -> bool {
    &&& s.durations.len() + s.in_flight == s.request_sent
    &&& s.last_reported <= s.durations.len()
    &&& s.phase is Drained ==> s.in_flight == 0
}

/// The state after recording one completion.
pub open spec fn after_completion(s: LoopState, latency: u128) -> LoopState {
    LoopState {
        in_flight: (s.in_flight - 1) as nat,
        durations: s.durations.push(latency),
        ..s
    }
}

/// The loop's transition function: the state and the action that follow from
/// a state and an event.
///
/// An armed loop dispatches on a pacing tick, reports the completions since
/// the last report on a report tick, records a completion, and on
/// cancellation either is drained at once or starts draining. A draining loop
/// only records completions, and is drained with the last of them. A failed
/// invocation ends either. A completion that nothing in flight accounts for,
/// and any event after the end, change nothing.
pub open spec fn transition(s: LoopState, event: LoopEvent) -> (LoopState, LoopAction) {
    match s.phase {
        LoopPhase::Armed => match event {
            LoopEvent::PacingTick => (
                LoopState { request_sent: s.request_sent + 1, in_flight: s.in_flight + 1, ..s },
                LoopAction::Dispatch,
            ),
            LoopEvent::ReportTick => (
                LoopState { last_reported: s.durations.len(), ..s },
                LoopAction::Report((s.durations.len() - s.last_reported) as usize),
            ),
            LoopEvent::Completed(latency) => if s.in_flight > 0 {
                (after_completion(s, latency), LoopAction::Wait)
            } else {
                (s, LoopAction::Wait)
            },
            LoopEvent::WorkerFailed(error) => (
                LoopState { phase: LoopPhase::Failed, ..s },
                LoopAction::Abort(error),
            ),
            LoopEvent::Cancelled => if s.in_flight == 0 {
                (LoopState { phase: LoopPhase::Drained, ..s }, LoopAction::Finish)
            } else {
                (LoopState { phase: LoopPhase::Draining, ..s }, LoopAction::Wait)
            },
        },
        LoopPhase::Draining => match event {
            LoopEvent::Completed(latency) => if s.in_flight > 1 {
                (after_completion(s, latency), LoopAction::Wait)
            } else if s.in_flight == 1 {
                (
                    LoopState { phase: LoopPhase::Drained, ..after_completion(s, latency) },
                    LoopAction::Finish,
                )
            } else {
                (s, LoopAction::Wait)
            },
            LoopEvent::WorkerFailed(error) => (
                LoopState { phase: LoopPhase::Failed, ..s },
                LoopAction::Abort(error),
            ),
            _ => (s, LoopAction::Wait),
        },
        LoopPhase::Drained => (s, LoopAction::Wait),
        LoopPhase::Failed => (s, LoopAction::Wait),
    }
}

/// The state after a whole run of events, first to last.
pub open spec fn run_events(s: LoopState, events: Seq<LoopEvent>) -> LoopState
    decreases events.len(),
{
    if events.len() == 0 {
        s
    } else {
        transition(run_events(s, events.drop_last()), events.last()).0
    }
}

/// The counters and recorded latencies of a loop, for the time they are
/// being worked on.
#[derive(Debug)]
struct Counters {
    phase: LoopPhase,
    request_sent: u64,
    durations: Vec<u128>,
    last_reported: usize,
}

impl Counters {
    /// No latency without a dispatch, no report without a latency, and a
    /// drained loop has a latency for every dispatch.
    spec fn accounted(self) -> bool {
        &&& self.durations@.len() <= self.request_sent
        &&& self.last_reported <= self.durations@.len()
        &&& self.phase is Drained ==> self.durations@.len() == self.request_sent
    }

    spec fn state(self) -> LoopState {
        LoopState {
            phase: self.phase,
            request_sent: self.request_sent as nat,
            in_flight: (self.request_sent - self.durations@.len()) as nat,
            durations: self.durations@,
            last_reported: self.last_reported as nat,
        }
    }

    fn armed(size_hint: usize) -> (counters: Self)
        ensures
            counters.accounted(),
            counters.state() == initial_state(),
    {
        Counters {
            phase: LoopPhase::Armed,
            request_sent: 0,
            durations: Vec::with_capacity(size_hint),
            last_reported: 0,
        }
    }

    fn apply(&mut self, event: LoopEvent) -> (action: LoopAction)
        requires
            old(self).accounted(),
            event is PacingTick ==> old(self).request_sent < u64::MAX,
        ensures
            final(self).accounted(),
            final(self).state() == transition(old(self).state(), event).0,
            action == transition(old(self).state(), event).1,
    {
        let in_flight: bool = (self.durations.len() as u64) < self.request_sent;
        match self.phase {
            LoopPhase::Armed => match event {
                LoopEvent::PacingTick => {
                    self.request_sent = self.request_sent + 1;
                    LoopAction::Dispatch
                },
                LoopEvent::ReportTick => {
                    let completed: usize = self.durations.len();
                    let delta: usize = completed - self.last_reported;
                    self.last_reported = completed;
                    LoopAction::Report(delta)
                },
                LoopEvent::Completed(latency) => {
                    if in_flight {
                        self.durations.push(latency);
                    }
                    LoopAction::Wait
                },
                LoopEvent::WorkerFailed(error) => {
                    self.phase = LoopPhase::Failed;
                    LoopAction::Abort(error)
                },
                LoopEvent::Cancelled => {
                    if in_flight {
                        self.phase = LoopPhase::Draining;
                        LoopAction::Wait
                    } else {
                        self.phase = LoopPhase::Drained;
                        LoopAction::Finish
                    }
                },
            },
            LoopPhase::Draining => match event {
                LoopEvent::Completed(latency) => {
                    if in_flight {
                        self.durations.push(latency);
                        if self.durations.len() as u64 == self.request_sent {
                            self.phase = LoopPhase::Drained;
                            LoopAction::Finish
                        } else {
                            LoopAction::Wait
                        }
                    } else {
                        LoopAction::Wait
                    }
                },
                LoopEvent::WorkerFailed(error) => {
                    self.phase = LoopPhase::Failed;
                    LoopAction::Abort(error)
                },
                _ => LoopAction::Wait,
            },
            LoopPhase::Drained => LoopAction::Wait,
            LoopPhase::Failed => LoopAction::Wait,
        }
    }
}

/// One execution loop: its phase, its counters and its recorded latencies.
///
/// However it is driven, an execution loop keeps its books: see
/// [`valid_state`].
#[derive(Debug)]
pub struct ExecutionLoop {
    counters: Counters,
}

impl View for ExecutionLoop {
    type V = LoopState;

    closed spec fn view(&self) -> LoopState {
        self.counters.state()
    }
}

impl ExecutionLoop {
    #[verifier::type_invariant]
    spec fn accounted(self) -> bool {
        self.counters.accounted()
    }

    /// An armed loop that has dispatched nothing, with room for `size_hint`
    /// latencies.
    pub fn new(size_hint: usize) -> (armed: Self)
        ensures
            armed@ == initial_state(),
    {
        ExecutionLoop { counters: Counters::armed(size_hint) }
    }

    /// Takes one event and says what to do.
    ///
    /// The dispatch counter has 64 bits: a pacing tick needs room in it.
    pub fn step(&mut self, event: LoopEvent) -> (action: LoopAction)
        requires
            event is PacingTick ==> old(self)@.request_sent < u64::MAX,
        ensures
            valid_state(old(self)@),
            final(self)@ == transition(old(self)@, event).0,
            action == transition(old(self)@, event).1,
            valid_state(final(self)@),
    {
        proof {
            use_type_invariant(&*self);
        }
        // The counters are taken out while they change, and an armed loop's
        // stand in for them.
        let mut counters = Counters::armed(0);
        core::mem::swap(&mut self.counters, &mut counters);
        let action = counters.apply(event);
        core::mem::swap(&mut self.counters, &mut counters);
        action
    }

    /// Where the loop stands.
    pub fn phase(&self) -> (phase: LoopPhase)
        ensures
            phase == self@.phase,
    {
        self.counters.phase
    }

    /// Whether any invocation is in flight, that is, whether a completion can
    /// arrive at all. A loop with nothing in flight must not wait for one.
    pub fn has_in_flight(&self) -> (busy: bool)
        ensures
            busy == (self@.in_flight > 0),
    {
        proof {
            use_type_invariant(self);
        }
        (self.counters.durations.len() as u64) < self.counters.request_sent
    }

    /// The number of invocations dispatched so far.
    pub fn request_sent(&self) -> (sent: u64)
        ensures
            sent == self@.request_sent,
    {
        self.counters.request_sent
    }

    /// The number of invocations completed so far.
    pub fn completed(&self) -> (count: usize)
        ensures
            count == self@.durations.len(),
            count <= self@.request_sent,
    {
        proof {
            use_type_invariant(self);
        }
        self.counters.durations.len()
    }

    /// The result of the loop, once it is drained: every dispatched
    /// invocation has its latency in it. A loop that is not drained has no
    /// result yet.
    pub fn into_result(self) -> (result: Option<WorkerResult>)
        ensures
            result is Some <==> self@.phase is Drained,
            result matches Some(drained) ==> {
                &&& drained.request_sent == self@.request_sent
                &&& drained.durations@ == self@.durations
                &&& drained.durations@.len() == drained.request_sent
            },
    {
        proof {
            use_type_invariant(&self);
        }
        let counters = self.counters;
        match counters.phase {
            LoopPhase::Drained => Some(
                WorkerResult { request_sent: counters.request_sent, durations: counters.durations },
            ),
            _ => None,
        }
    }
}

/// Every transition keeps a valid state valid.
pub proof fn lemma_transition_keeps_valid(s: LoopState, event: LoopEvent)
    requires
        valid_state(s),
    ensures
        valid_state(transition(s, event).0),
{
}

/// Whatever events arrive in whatever order, an execution loop never holds
/// more recorded latencies than it dispatched, and once it is drained it
/// holds exactly as many: nothing in flight is lost.
pub proof fn lemma_drain_guarantee(events: Seq<LoopEvent>)
    ensures
        valid_state(run_events(initial_state(), events)),
        run_events(initial_state(), events).durations.len() <= run_events(
            initial_state(),
            events,
        ).request_sent,
        run_events(initial_state(), events).phase is Drained ==> run_events(
            initial_state(),
            events,
        ).durations.len() == run_events(initial_state(), events).request_sent,
    decreases events.len(),
{
    if events.len() > 0 {
        lemma_drain_guarantee(events.drop_last());
        lemma_transition_keeps_valid(
            run_events(initial_state(), events.drop_last()),
            events.last(),
        );
    }
}

/// After cancellation a loop dispatches nothing more: no event raises the
/// dispatch count of a loop that is draining, drained or failed.
pub proof fn lemma_no_dispatch_after_cancellation(s: LoopState, event: LoopEvent)
    requires
        !(s.phase is Armed),
    ensures
        transition(s, event).0.request_sent == s.request_sent,
        !(transition(s, event).1 is Dispatch),
        !(transition(s, event).0.phase is Armed),
{
}

} // verus!
