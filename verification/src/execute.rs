//! The loop that drives a future to completion on the completion-based
//! runtime while yielding to the host runtime between driver events.
//!
//! Each round polls the future inside the runtime. A ready future is
//! followed by one last run of the runtime's tasks, and then its output is
//! returned. A pending one is followed by a run of the tasks, a wait for the
//! driver (with a zero timeout while tasks are still ready, else with the
//! runtime's next timer deadline), a clear of the adapter's notifier (whose
//! failure is reported and does not end the loop) and a non-blocking poll of
//! the driver, after which the future is polled again. A wait that ends
//! because its timeout passed ends normally; only a wait that fails
//! otherwise stops the loop.
use vstd::prelude::*;
use crate::timeout::Timeout;

verus! {

/// What the loop waits for: the request that is outstanding.
#[derive(Clone, Copy, Debug, PartialEq, Eq, Structural)]
pub enum ExecutePhase {
    /// The future is to be polled inside the runtime.
    Polling,
    /// The runtime's ready tasks are to be run, the future still pending.
    Running,
    /// The runtime's next timer deadline is to be read.
    QueryingTimeout,
    /// The adapter is to wait for the driver, with this timeout.
    Waiting(Option<Timeout>),
    /// The adapter's notifier is to be cleared.
    Clearing,
    /// Clearing the notifier failed, and the failure is to be reported.
    ReportingClearFailure,
    /// The driver is to be polled without blocking.
    Driving,
    /// The runtime's tasks are to be run once more after the future is ready.
    Finishing,
    /// The future's output is to be returned.
    Done,
    /// A wait for the driver failed other than by timing out: the loop
    /// cannot go on.
    Failed,
}

/// What the caller is asked to do next.
#[derive(Clone, Copy, Debug, PartialEq, Eq, Structural)]
pub enum ExecuteAction {
    /// Poll the future inside the runtime and report whether it is ready.
    PollFuture,
    /// Run the runtime's ready tasks and report whether some remain.
    RunTasks,
    /// Read the runtime's next timer deadline.
    QueryTimeout,
    /// Wait for the driver through the adapter, with this timeout.
    Wait(Option<Timeout>),
    /// Clear the adapter's notifier.
    Clear,
    /// Report, at error level, that clearing the notifier failed.
    ReportClearFailure,
    /// Poll the driver with a zero timeout.
    PollDriver,
    /// Return the future's output.
    ReturnOutput,
    /// Stop with the failure "failed to wait for driver".
    Abort,
}

/// How a wait for the driver ended.
#[derive(Clone, Copy, Debug, PartialEq, Eq, Structural)]
pub enum WaitOutcome {
    /// The driver has something to report.
    Woken,
    /// The wait's timeout passed first.
    TimedOut,
    /// The wait failed for another reason.
    Failed,
}

/// What the caller reports back after an action.
#[derive(Clone, Copy, Debug, PartialEq, Eq, Structural)]
pub enum ExecuteEvent {
    /// The future was polled; `ready` when it produced its output.
    Polled { ready: bool },
    /// The runtime ran its tasks; `remaining` when some are still ready.
    Ran { remaining: bool },
    /// The runtime's next timer deadline, if it has one.
    TimeoutKnown(Option<Timeout>),
    /// The wait for the driver ended in this way.
    Waited(WaitOutcome),
    /// The notifier was cleared; `ok` unless that failed.
    Cleared { ok: bool },
    /// The failure to clear the notifier was reported.
    ClearFailureReported,
    /// The driver was polled.
    Driven,
}

/// The phase after `event` in `phase`. An event that answers no request
/// outstanding in `phase` leaves it unchanged.
pub open spec fn next_phase(phase: ExecutePhase, event: ExecuteEvent) -> ExecutePhase {
    match (phase, event) {
        (ExecutePhase::Polling, ExecuteEvent::Polled { ready }) => {
            if ready {
                ExecutePhase::Finishing
            } else {
                ExecutePhase::Running
            }
        },
        (ExecutePhase::Running, ExecuteEvent::Ran { remaining }) => {
            if remaining {
                ExecutePhase::Waiting(Some(Timeout::zero_span()))
            } else {
                ExecutePhase::QueryingTimeout
            }
        },
        (ExecutePhase::QueryingTimeout, ExecuteEvent::TimeoutKnown(t)) => ExecutePhase::Waiting(t),
        (ExecutePhase::Waiting(_), ExecuteEvent::Waited(outcome)) => match outcome {
            WaitOutcome::Woken => ExecutePhase::Clearing,
            WaitOutcome::TimedOut => ExecutePhase::Clearing,
            WaitOutcome::Failed => ExecutePhase::Failed,
        },
        (ExecutePhase::Clearing, ExecuteEvent::Cleared { ok }) => {
            if ok {
                ExecutePhase::Driving
            } else {
                ExecutePhase::ReportingClearFailure
            }
        },
        (ExecutePhase::ReportingClearFailure, ExecuteEvent::ClearFailureReported) => {
            ExecutePhase::Driving
        },
        (ExecutePhase::Driving, ExecuteEvent::Driven) => ExecutePhase::Polling,
        (ExecutePhase::Finishing, ExecuteEvent::Ran { .. }) => ExecutePhase::Done,
        _ => phase,
    }
}

/// The request that is outstanding in `phase`.
pub open spec fn action_of(phase: ExecutePhase) -> ExecuteAction {
    match phase {
        ExecutePhase::Polling => ExecuteAction::PollFuture,
        ExecutePhase::Running => ExecuteAction::RunTasks,
        ExecutePhase::QueryingTimeout => ExecuteAction::QueryTimeout,
        ExecutePhase::Waiting(t) => ExecuteAction::Wait(t),
        ExecutePhase::Clearing => ExecuteAction::Clear,
        ExecutePhase::ReportingClearFailure => ExecuteAction::ReportClearFailure,
        ExecutePhase::Driving => ExecuteAction::PollDriver,
        ExecutePhase::Finishing => ExecuteAction::RunTasks,
        ExecutePhase::Done => ExecuteAction::ReturnOutput,
        ExecutePhase::Failed => ExecuteAction::Abort,
    }
}

/// The state of one `execute` call.
pub struct Execution {
    phase: ExecutePhase,
}

impl View for Execution {
    type V = ExecutePhase;

    closed spec fn view(&self) -> ExecutePhase {
        self.phase
    }
}

impl Execution {
    /// A fresh loop, which first polls the future.
    pub fn new() -> (e: Execution)
        ensures
            e@ == ExecutePhase::Polling,
    {
        Execution { phase: ExecutePhase::Polling }
    }

    /// The current phase.
    pub fn phase(&self) -> (p: ExecutePhase)
        ensures
            p == self@,
    {
        self.phase
    }

    /// What the caller is to do next.
    pub fn action(&self) -> (a: ExecuteAction)
        ensures
            a == action_of(self@),
            self@ matches ExecutePhase::Waiting(t) ==> a == ExecuteAction::Wait(t),
    {
        match self.phase {
            ExecutePhase::Polling => ExecuteAction::PollFuture,
            ExecutePhase::Running => ExecuteAction::RunTasks,
            ExecutePhase::QueryingTimeout => ExecuteAction::QueryTimeout,
            ExecutePhase::Waiting(t) => ExecuteAction::Wait(t),
            ExecutePhase::Clearing => ExecuteAction::Clear,
            ExecutePhase::ReportingClearFailure => ExecuteAction::ReportClearFailure,
            ExecutePhase::Driving => ExecuteAction::PollDriver,
            ExecutePhase::Finishing => ExecuteAction::RunTasks,
            ExecutePhase::Done => ExecuteAction::ReturnOutput,
            ExecutePhase::Failed => ExecuteAction::Abort,
        }
    }

    /// Takes in the outcome of the last action and moves to the next phase.
    pub fn handle(&mut self, event: ExecuteEvent)
        ensures
            final(self)@ == next_phase(old(self)@, event),
    {
        let next = match (self.phase, event) {
            (ExecutePhase::Polling, ExecuteEvent::Polled { ready }) => {
                if ready {
                    ExecutePhase::Finishing
                } else {
                    ExecutePhase::Running
                }
            },
            (ExecutePhase::Running, ExecuteEvent::Ran { remaining }) => {
                if remaining {
                    ExecutePhase::Waiting(Some(Timeout::zero()))
                } else {
                    ExecutePhase::QueryingTimeout
                }
            },
            (ExecutePhase::QueryingTimeout, ExecuteEvent::TimeoutKnown(t)) => ExecutePhase::Waiting(t),
            (ExecutePhase::Waiting(_), ExecuteEvent::Waited(outcome)) => match outcome {
                WaitOutcome::Woken => ExecutePhase::Clearing,
                WaitOutcome::TimedOut => ExecutePhase::Clearing,
                WaitOutcome::Failed => ExecutePhase::Failed,
            },
            (ExecutePhase::Clearing, ExecuteEvent::Cleared { ok }) => {
                if ok {
                    ExecutePhase::Driving
                } else {
                    ExecutePhase::ReportingClearFailure
                }
            },
            (ExecutePhase::ReportingClearFailure, ExecuteEvent::ClearFailureReported) => {
                ExecutePhase::Driving
            },
            (ExecutePhase::Driving, ExecuteEvent::Driven) => ExecutePhase::Polling,
            (ExecutePhase::Finishing, ExecuteEvent::Ran { .. }) => ExecutePhase::Done,
            (p, _) => p,
        };
        self.phase = next;
    }
}

/// A pending future makes one round: the tasks are run, the driver is waited
/// for (with a zero timeout while tasks remain ready, and only otherwise with
/// the runtime's timer deadline, which is read only then), the notifier is
/// cleared (a failure to clear is reported, and the round goes on), the
/// driver is polled, and the future is polled again. This holds whether the
/// wait ended because the driver woke it or because its timeout passed.
pub proof fn lemma_pending_round(
    remaining: bool,
    deadline: Option<Timeout>,
    outcome: WaitOutcome,
    cleared: bool,
)
    requires
        outcome != WaitOutcome::Failed,
    ensures
        ({
            let running = next_phase(ExecutePhase::Polling, ExecuteEvent::Polled { ready: false });
            let after_run = next_phase(running, ExecuteEvent::Ran { remaining });
            let waiting = if remaining {
                after_run
            } else {
                next_phase(after_run, ExecuteEvent::TimeoutKnown(deadline))
            };
            let clearing = next_phase(waiting, ExecuteEvent::Waited(outcome));
            let after_clear = next_phase(clearing, ExecuteEvent::Cleared { ok: cleared });
            let driving = if cleared {
                after_clear
            } else {
                next_phase(after_clear, ExecuteEvent::ClearFailureReported)
            };
            &&& action_of(running) == ExecuteAction::RunTasks
            &&& (action_of(after_run) == ExecuteAction::QueryTimeout <==> !remaining)
            &&& action_of(waiting) == ExecuteAction::Wait(
                if remaining {
                    Some(Timeout::zero_span())
                } else {
                    deadline
                },
            )
            &&& action_of(clearing) == ExecuteAction::Clear
            &&& (action_of(after_clear) == ExecuteAction::ReportClearFailure <==> !cleared)
            &&& action_of(driving) == ExecuteAction::PollDriver
            &&& next_phase(driving, ExecuteEvent::Driven) == ExecutePhase::Polling
        }),
{
}

/// A wait that ends because its timeout passed is no failure: the round goes
/// on exactly as after a wake-up.
pub proof fn lemma_timed_out_wait_is_normal(timeout: Option<Timeout>)
    ensures
        next_phase(ExecutePhase::Waiting(timeout), ExecuteEvent::Waited(WaitOutcome::TimedOut))
            == next_phase(ExecutePhase::Waiting(timeout), ExecuteEvent::Waited(WaitOutcome::Woken)),
        next_phase(ExecutePhase::Waiting(timeout), ExecuteEvent::Waited(WaitOutcome::TimedOut))
            == ExecutePhase::Clearing,
{
}

/// A failure to clear the notifier is reported, and only such a failure is.
pub proof fn lemma_clear_failure_reported(phase: ExecutePhase, event: ExecuteEvent)
    requires
        phase != ExecutePhase::ReportingClearFailure,
        action_of(next_phase(phase, event)) == ExecuteAction::ReportClearFailure,
    ensures
        phase == ExecutePhase::Clearing,
        event == (ExecuteEvent::Cleared { ok: false }),
{
}

/// A ready future is followed by exactly one more run of the runtime's
/// tasks, whatever that run reports, and then its output is returned.
pub proof fn lemma_ready_future_returns_after_final_run(remaining: bool)
    ensures
        ({
            let finishing = next_phase(ExecutePhase::Polling, ExecuteEvent::Polled { ready: true });
            &&& action_of(finishing) == ExecuteAction::RunTasks
            &&& next_phase(finishing, ExecuteEvent::Ran { remaining }) == ExecutePhase::Done
            &&& action_of(ExecutePhase::Done) == ExecuteAction::ReturnOutput
        }),
{
}

/// A wait that fails other than by timing out stops the loop.
pub proof fn lemma_failed_wait_aborts(timeout: Option<Timeout>)
    ensures
        next_phase(ExecutePhase::Waiting(timeout), ExecuteEvent::Waited(WaitOutcome::Failed))
            == ExecutePhase::Failed,
        action_of(ExecutePhase::Failed) == ExecuteAction::Abort,
{
}

/// The output is returned only after the final run of the tasks: no step
/// reaches `Done` from any phase but `Finishing` (or `Done` itself).
pub proof fn lemma_done_only_after_final_run(phase: ExecutePhase, event: ExecuteEvent)
    requires
        next_phase(phase, event) == ExecutePhase::Done,
    ensures
        phase == ExecutePhase::Finishing || phase == ExecutePhase::Done,
{
}

/// The future is polled again only after the driver was polled.
pub proof fn lemma_repoll_only_after_driver_poll(phase: ExecutePhase, event: ExecuteEvent)
    requires
        next_phase(phase, event) == ExecutePhase::Polling,
    ensures
        phase == ExecutePhase::Driving || phase == ExecutePhase::Polling,
{
}

/// Once the output is to be returned or the loop has failed, no event
/// changes the phase.
pub proof fn lemma_terminal_phases_absorb(phase: ExecutePhase, event: ExecuteEvent)
    requires
        phase == ExecutePhase::Done || phase == ExecutePhase::Failed,
    ensures
        next_phase(phase, event) == phase,
{
}

/// The phase reached from `phase` by taking in `events` in order.
pub open spec fn execute_run(phase: ExecutePhase, events: Seq<ExecuteEvent>) -> ExecutePhase
    decreases events.len(),
{
    if events.len() == 0 {
        phase
    } else {
        execute_run(next_phase(phase, events[0]), events.drop_first())
    }
}

/// An event with a timed-out wait read as a wake-up.
pub open spec fn timeout_as_wakeup(event: ExecuteEvent) -> ExecuteEvent {
    match event {
        ExecuteEvent::Waited(WaitOutcome::TimedOut) => ExecuteEvent::Waited(WaitOutcome::Woken),
        _ => event,
    }
}

/// The loop does not depend on whether an adapter ends a wait whose timeout
/// passed as a wake-up or as a timed-out wait: any run of events reaches the
/// same phase when each timed-out wait is read as a wake-up.
pub proof fn lemma_run_independent_of_timeout_reporting(
    phase: ExecutePhase,
    events: Seq<ExecuteEvent>,
)
    ensures
        execute_run(phase, events) == execute_run(phase, events.map_values(|e| timeout_as_wakeup(e))),
    decreases events.len(),
{
    if events.len() > 0 {
        let mapped = events.map_values(|e| timeout_as_wakeup(e));
        assert(mapped.drop_first() =~= events.drop_first().map_values(|e| timeout_as_wakeup(e)));
        assert(next_phase(phase, mapped[0]) == next_phase(phase, events[0]));
        lemma_run_independent_of_timeout_reporting(next_phase(phase, events[0]), events.drop_first());
    }
}

/// The loop aborts only on a wait that failed other than by timing out: a
/// run of events none of which reports such a wait never reaches `Failed`
/// from another phase.
pub proof fn lemma_no_abort_without_failed_wait(phase: ExecutePhase, events: Seq<ExecuteEvent>)
    requires
        phase != ExecutePhase::Failed,
        forall|i: int| 0 <= i < events.len() ==> events[i] != ExecuteEvent::Waited(WaitOutcome::Failed),
    ensures
        execute_run(phase, events) != ExecutePhase::Failed,
    decreases events.len(),
{
    if events.len() > 0 {
        assert(events[0] != ExecuteEvent::Waited(WaitOutcome::Failed));
        let rest = events.drop_first();
        assert forall|i: int| 0 <= i < rest.len() implies rest[i] != ExecuteEvent::Waited(
            WaitOutcome::Failed,
        ) by {
            assert(rest[i] == events[i + 1]);
        }
        lemma_no_abort_without_failed_wait(next_phase(phase, events[0]), rest);
    }
}

} // verus!
