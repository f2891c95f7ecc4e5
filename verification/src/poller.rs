//! The helper threads that block on the driver for the host runtime.
//!
//! Each thread takes a timeout from a request channel, blocks until the
//! driver is ready or the timeout passes, and then notifies the waiting side
//! through a reply channel. It stops when the request channel is closed or
//! the reply cannot be delivered, and fails where the blocking call fails.
//! On Unix it blocks in `poll` on the driver's descriptor; on Windows it
//! waits on the driver's port together with a shutdown event.
use vstd::prelude::*;
use crate::timeout::{PollTimespec, Timeout, u32_modulus};

verus! {

/// The state of the Unix polling thread.
#[derive(Clone, Copy, Debug, PartialEq, Eq, Structural)]
pub enum UnixPollerPhase {
    /// Waiting for the next request.
    Receiving,
    /// To poll the driver's descriptor, with a `timespec` of these seconds
    /// and nanoseconds, or with no timeout.
    Polling(Option<PollTimespec>),
    /// To tell the waiting side that the poll returned.
    Notifying,
    /// Finished without error.
    Stopped,
    /// A request or the poll failed: the thread panics.
    Failed,
}

/// What the Unix polling thread does next.
#[derive(Clone, Copy, Debug, PartialEq, Eq, Structural)]
pub enum UnixPollerAction {
    /// Receive the next request.
    Receive,
    /// Poll the descriptor for input, with this `timespec` or none.
    Poll(Option<PollTimespec>),
    /// Send the reply.
    Notify,
    /// Leave the loop.
    Stop,
    /// Panic.
    Abort,
}

/// What the Unix polling thread observed.
#[derive(Clone, Copy, Debug, PartialEq, Eq, Structural)]
pub enum UnixPollerEvent {
    /// A request arrived with this timeout (`None`: wait without limit).
    Received(Option<Timeout>),
    /// The request channel is closed.
    Closed,
    /// The poll returned; `ok` unless it reported an error.
    Polled { ok: bool },
    /// The reply was sent; `ok` unless the receiving side is gone.
    Notified { ok: bool },
}

/// The phase after receiving `timeout`: the poll, with the timeout as a
/// `timespec`; a timeout whose seconds do not fit a signed 64-bit field
/// cannot be converted and the thread fails.
pub open spec fn unix_poll_phase(timeout: Option<Timeout>) -> UnixPollerPhase {
    match timeout {
        None => UnixPollerPhase::Polling(None),
        Some(t) => {
            if t.whole_secs() <= i64::MAX {
                UnixPollerPhase::Polling(
                    Some(PollTimespec { secs: t.whole_secs() as i64, nanos: t.subsec() as i64 }),
                )
            } else {
                UnixPollerPhase::Failed
            }
        },
    }
}

/// The phase of the Unix thread after `event` in `phase`. An event that
/// answers nothing outstanding in `phase` leaves it unchanged.
pub open spec fn unix_next_phase(phase: UnixPollerPhase, event: UnixPollerEvent) -> UnixPollerPhase {
    match (phase, event) {
        (UnixPollerPhase::Receiving, UnixPollerEvent::Received(t)) => unix_poll_phase(t),
        (UnixPollerPhase::Receiving, UnixPollerEvent::Closed) => UnixPollerPhase::Stopped,
        (UnixPollerPhase::Polling(_), UnixPollerEvent::Polled { ok }) => {
            if ok {
                UnixPollerPhase::Notifying
            } else {
                UnixPollerPhase::Failed
            }
        },
        (UnixPollerPhase::Notifying, UnixPollerEvent::Notified { ok }) => {
            if ok {
                UnixPollerPhase::Receiving
            } else {
                UnixPollerPhase::Stopped
            }
        },
        _ => phase,
    }
}

/// The action outstanding in a phase of the Unix thread.
pub open spec fn unix_action_of(phase: UnixPollerPhase) -> UnixPollerAction {
    match phase {
        UnixPollerPhase::Receiving => UnixPollerAction::Receive,
        UnixPollerPhase::Polling(ts) => UnixPollerAction::Poll(ts),
        UnixPollerPhase::Notifying => UnixPollerAction::Notify,
        UnixPollerPhase::Stopped => UnixPollerAction::Stop,
        UnixPollerPhase::Failed => UnixPollerAction::Abort,
    }
}

/// The Unix polling thread's loop state.
pub struct UnixPoller {
    phase: UnixPollerPhase,
}

impl View for UnixPoller {
    type V = UnixPollerPhase;

    closed spec fn view(&self) -> UnixPollerPhase {
        self.phase
    }
}

impl UnixPoller {
    /// A thread that first waits for a request.
    pub fn new() -> (p: UnixPoller)
        ensures
            p@ == UnixPollerPhase::Receiving,
    {
        UnixPoller { phase: UnixPollerPhase::Receiving }
    }

    /// The current phase.
    pub fn phase(&self) -> (p: UnixPollerPhase)
        ensures
            p == self@,
    {
        self.phase
    }

    /// What the thread is to do next.
    pub fn action(&self) -> (a: UnixPollerAction)
        ensures
            a == unix_action_of(self@),
            self@ matches UnixPollerPhase::Polling(ts) ==> a == UnixPollerAction::Poll(ts),
    {
        match self.phase {
            UnixPollerPhase::Receiving => UnixPollerAction::Receive,
            UnixPollerPhase::Polling(ts) => UnixPollerAction::Poll(ts),
            UnixPollerPhase::Notifying => UnixPollerAction::Notify,
            UnixPollerPhase::Stopped => UnixPollerAction::Stop,
            UnixPollerPhase::Failed => UnixPollerAction::Abort,
        }
    }

    /// Takes in what the last action observed and moves on.
    pub fn handle(&mut self, event: UnixPollerEvent)
        ensures
            final(self)@ == unix_next_phase(old(self)@, event),
    {
        let next = match (self.phase, event) {
            (UnixPollerPhase::Receiving, UnixPollerEvent::Received(t)) => match t {
                None => UnixPollerPhase::Polling(None),
                Some(t) => match t.to_timespec() {
                    Some(ts) => UnixPollerPhase::Polling(Some(ts)),
                    None => UnixPollerPhase::Failed,
                },
            },
            (UnixPollerPhase::Receiving, UnixPollerEvent::Closed) => UnixPollerPhase::Stopped,
            (UnixPollerPhase::Polling(_), UnixPollerEvent::Polled { ok }) => {
                if ok {
                    UnixPollerPhase::Notifying
                } else {
                    UnixPollerPhase::Failed
                }
            },
            (UnixPollerPhase::Notifying, UnixPollerEvent::Notified { ok }) => {
                if ok {
                    UnixPollerPhase::Receiving
                } else {
                    UnixPollerPhase::Stopped
                }
            },
            (p, _) => p,
        };
        self.phase = next;
    }
}

/// How a Windows wait on the shutdown event and the driver's port returned.
#[derive(Clone, Copy, Debug, PartialEq, Eq, Structural)]
pub enum WaitStatus {
    /// The shutdown event (the first handle) was signalled.
    ShutdownSignalled,
    /// The wait itself failed.
    Failed,
    /// Any other return: the port is ready, or the timeout passed.
    Returned,
}

/// The state of the Windows waiting thread.
#[derive(Clone, Copy, Debug, PartialEq, Eq, Structural)]
pub enum WindowsPollerPhase {
    /// Waiting for the next request.
    Receiving,
    /// To wait on both handles for this many milliseconds, or without limit.
    Waiting(Option<u32>),
    /// To tell the waiting side that the wait returned.
    Notifying,
    /// Finished without error.
    Stopped,
    /// The wait failed: the thread panics.
    Failed,
}

/// What the Windows waiting thread does next.
#[derive(Clone, Copy, Debug, PartialEq, Eq, Structural)]
pub enum WindowsPollerAction {
    /// Receive the next request.
    Receive,
    /// Wait on both handles for this many milliseconds, or without limit.
    Wait(Option<u32>),
    /// Send the reply.
    Notify,
    /// Leave the loop.
    Stop,
    /// Panic.
    Abort,
}

/// What the Windows waiting thread observed.
#[derive(Clone, Copy, Debug, PartialEq, Eq, Structural)]
pub enum WindowsPollerEvent {
    /// A request arrived with this timeout (`None`: wait without limit).
    Received(Option<Timeout>),
    /// The request channel is closed.
    Closed,
    /// The wait returned with this status.
    WaitReturned(WaitStatus),
    /// The reply was sent; `ok` unless the receiving side is gone.
    Notified { ok: bool },
}

/// The wait's millisecond count for a requested timeout: the timeout's whole
/// milliseconds cut to their low 32 bits, or no limit.
pub open spec fn windows_wait_millis(timeout: Option<Timeout>) -> Option<u32> {
    match timeout {
        None => None,
        Some(t) => Some((t.total_millis() % u32_modulus()) as u32),
    }
}

/// The phase of the Windows thread after `event` in `phase`. An event that
/// answers nothing outstanding in `phase` leaves it unchanged.
pub open spec fn windows_next_phase(
    phase: WindowsPollerPhase,
    event: WindowsPollerEvent,
) -> WindowsPollerPhase {
    match (phase, event) {
        (WindowsPollerPhase::Receiving, WindowsPollerEvent::Received(t)) => {
            WindowsPollerPhase::Waiting(windows_wait_millis(t))
        },
        (WindowsPollerPhase::Receiving, WindowsPollerEvent::Closed) => WindowsPollerPhase::Stopped,
        (WindowsPollerPhase::Waiting(_), WindowsPollerEvent::WaitReturned(status)) => match status {
            WaitStatus::ShutdownSignalled => WindowsPollerPhase::Stopped,
            WaitStatus::Failed => WindowsPollerPhase::Failed,
            WaitStatus::Returned => WindowsPollerPhase::Notifying,
        },
        (WindowsPollerPhase::Notifying, WindowsPollerEvent::Notified { ok }) => {
            if ok {
                WindowsPollerPhase::Receiving
            } else {
                WindowsPollerPhase::Stopped
            }
        },
        _ => phase,
    }
}

/// The action outstanding in a phase of the Windows thread.
pub open spec fn windows_action_of(phase: WindowsPollerPhase) -> WindowsPollerAction {
    match phase {
        WindowsPollerPhase::Receiving => WindowsPollerAction::Receive,
        WindowsPollerPhase::Waiting(ms) => WindowsPollerAction::Wait(ms),
        WindowsPollerPhase::Notifying => WindowsPollerAction::Notify,
        WindowsPollerPhase::Stopped => WindowsPollerAction::Stop,
        WindowsPollerPhase::Failed => WindowsPollerAction::Abort,
    }
}

/// The Windows waiting thread's loop state.
pub struct WindowsPoller {
    phase: WindowsPollerPhase,
}

impl View for WindowsPoller {
    type V = WindowsPollerPhase;

    closed spec fn view(&self) -> WindowsPollerPhase {
        self.phase
    }
}

impl WindowsPoller {
    /// A thread that first waits for a request.
    pub fn new() -> (p: WindowsPoller)
        ensures
            p@ == WindowsPollerPhase::Receiving,
    {
        WindowsPoller { phase: WindowsPollerPhase::Receiving }
    }

    /// The current phase.
    pub fn phase(&self) -> (p: WindowsPollerPhase)
        ensures
            p == self@,
    {
        self.phase
    }

    /// What the thread is to do next.
    pub fn action(&self) -> (a: WindowsPollerAction)
        ensures
            a == windows_action_of(self@),
            self@ matches WindowsPollerPhase::Waiting(ms) ==> a == WindowsPollerAction::Wait(ms),
    {
        match self.phase {
            WindowsPollerPhase::Receiving => WindowsPollerAction::Receive,
            WindowsPollerPhase::Waiting(ms) => WindowsPollerAction::Wait(ms),
            WindowsPollerPhase::Notifying => WindowsPollerAction::Notify,
            WindowsPollerPhase::Stopped => WindowsPollerAction::Stop,
            WindowsPollerPhase::Failed => WindowsPollerAction::Abort,
        }
    }

    /// Takes in what the last action observed and moves on.
    pub fn handle(&mut self, event: WindowsPollerEvent)
        ensures
            final(self)@ == windows_next_phase(old(self)@, event),
    {
        let next = match (self.phase, event) {
            (WindowsPollerPhase::Receiving, WindowsPollerEvent::Received(t)) => match t {
                None => WindowsPollerPhase::Waiting(None),
                Some(t) => WindowsPollerPhase::Waiting(Some(t.millis_truncated())),
            },
            (WindowsPollerPhase::Receiving, WindowsPollerEvent::Closed) => WindowsPollerPhase::Stopped,
            (WindowsPollerPhase::Waiting(_), WindowsPollerEvent::WaitReturned(status)) => match status {
                WaitStatus::ShutdownSignalled => WindowsPollerPhase::Stopped,
                WaitStatus::Failed => WindowsPollerPhase::Failed,
                WaitStatus::Returned => WindowsPollerPhase::Notifying,
            },
            (WindowsPollerPhase::Notifying, WindowsPollerEvent::Notified { ok }) => {
                if ok {
                    WindowsPollerPhase::Receiving
                } else {
                    WindowsPollerPhase::Stopped
                }
            },
            (p, _) => p,
        };
        self.phase = next;
    }
}

/// A request whose timeout fits a `timespec` (or that has none) makes one
/// round of the Unix thread: the descriptor is polled with exactly that
/// timeout, a poll that returns without error is answered with one reply,
/// and once the reply is delivered the thread waits for the next request.
pub proof fn lemma_unix_round(timeout: Option<Timeout>)
    requires
        timeout matches Some(t) ==> t.whole_secs() <= i64::MAX,
    ensures
        ({
            let polling = unix_next_phase(UnixPollerPhase::Receiving, UnixPollerEvent::Received(timeout));
            let notifying = unix_next_phase(polling, UnixPollerEvent::Polled { ok: true });
            &&& polling matches UnixPollerPhase::Polling(ts) && match timeout {
                None => ts is None,
                Some(t) => ts matches Some(ts) && ts.secs == t.whole_secs() && ts.nanos == t.subsec(),
            }
            &&& unix_action_of(polling) == UnixPollerAction::Poll(
                match timeout {
                    None => None,
                    Some(t) => Some(
                        PollTimespec { secs: t.whole_secs() as i64, nanos: t.subsec() as i64 },
                    ),
                },
            )
            &&& unix_action_of(notifying) == UnixPollerAction::Notify
            &&& unix_next_phase(notifying, UnixPollerEvent::Notified { ok: true })
                == UnixPollerPhase::Receiving
        }),
{
    if let Some(t) = timeout {
        t.lemma_part_bounds();
    }
}

/// The Unix thread polls with exactly the timeout it was asked for: for
/// every timeout whose seconds fit a `timespec`, the poll that follows its
/// request has a `timespec` of the same seconds and nanoseconds (so a zero
/// timeout is a zero `timespec`, never a poll without limit), and a request
/// without timeout is a poll without limit.
pub proof fn lemma_unix_poll_uses_requested_timeout(t: Timeout)
    requires
        t.whole_secs() <= i64::MAX,
    ensures
        ({
            let action = unix_action_of(
                unix_next_phase(UnixPollerPhase::Receiving, UnixPollerEvent::Received(Some(t))),
            );
            action matches UnixPollerAction::Poll(Some(ts)) && ts.secs == t.whole_secs()
                && ts.nanos == t.subsec()
        }),
        unix_action_of(
            unix_next_phase(UnixPollerPhase::Receiving, UnixPollerEvent::Received(None)),
        ) == UnixPollerAction::Poll(None),
{
    t.lemma_part_bounds();
}

/// Whatever `timespec` a polling phase holds, some or none, is the one the
/// poll is made with.
pub proof fn lemma_unix_poll_action_keeps_timespec(ts: Option<PollTimespec>)
    ensures
        unix_action_of(UnixPollerPhase::Polling(ts)) == UnixPollerAction::Poll(ts),
{
}

/// The Windows thread waits with exactly the milliseconds of the timeout it
/// was asked for, cut to 32 bits, or without limit where it has none.
pub proof fn lemma_windows_wait_uses_requested_timeout(timeout: Option<Timeout>)
    ensures
        windows_action_of(
            windows_next_phase(WindowsPollerPhase::Receiving, WindowsPollerEvent::Received(timeout)),
        ) == WindowsPollerAction::Wait(
            match timeout {
                None => None,
                Some(t) => Some((t.total_millis() % u32_modulus()) as u32),
            },
        ),
{
}

/// A timeout too long for a `timespec`, or a failing poll, makes the Unix
/// thread panic.
pub proof fn lemma_unix_failures(t: Timeout, ts: Option<PollTimespec>)
    ensures
        t.whole_secs() > i64::MAX ==> unix_next_phase(
            UnixPollerPhase::Receiving,
            UnixPollerEvent::Received(Some(t)),
        ) == UnixPollerPhase::Failed,
        unix_next_phase(UnixPollerPhase::Polling(ts), UnixPollerEvent::Polled { ok: false })
            == UnixPollerPhase::Failed,
        unix_action_of(UnixPollerPhase::Failed) == UnixPollerAction::Abort,
{
}

/// The Unix thread stops without error when the request channel closes or
/// when its reply cannot be delivered.
pub proof fn lemma_unix_stops()
    ensures
        unix_next_phase(UnixPollerPhase::Receiving, UnixPollerEvent::Closed)
            == UnixPollerPhase::Stopped,
        unix_next_phase(UnixPollerPhase::Notifying, UnixPollerEvent::Notified { ok: false })
            == UnixPollerPhase::Stopped,
        unix_action_of(UnixPollerPhase::Stopped) == UnixPollerAction::Stop,
{
}

/// The Unix thread replies only after a poll that returned without error.
pub proof fn lemma_unix_reply_only_after_poll(phase: UnixPollerPhase, event: UnixPollerEvent)
    requires
        phase != UnixPollerPhase::Notifying,
        unix_next_phase(phase, event) == UnixPollerPhase::Notifying,
    ensures
        phase is Polling,
        event == (UnixPollerEvent::Polled { ok: true }),
{
}

/// Once the Unix thread has stopped or failed, nothing changes its phase.
pub proof fn lemma_unix_terminal_phases_absorb(phase: UnixPollerPhase, event: UnixPollerEvent)
    requires
        phase == UnixPollerPhase::Stopped || phase == UnixPollerPhase::Failed,
    ensures
        unix_next_phase(phase, event) == phase,
{
}

/// A request makes one round of the Windows thread: it waits with the
/// timeout's milliseconds cut to 32 bits (or without limit), a return that is
/// neither the shutdown signal nor a failure is answered with one reply, and
/// once the reply is delivered the thread waits for the next request.
pub proof fn lemma_windows_round(timeout: Option<Timeout>)
    ensures
        ({
            let waiting = windows_next_phase(
                WindowsPollerPhase::Receiving,
                WindowsPollerEvent::Received(timeout),
            );
            let notifying = windows_next_phase(
                waiting,
                WindowsPollerEvent::WaitReturned(WaitStatus::Returned),
            );
            &&& windows_action_of(waiting) == WindowsPollerAction::Wait(windows_wait_millis(timeout))
            &&& windows_action_of(notifying) == WindowsPollerAction::Notify
            &&& windows_next_phase(notifying, WindowsPollerEvent::Notified { ok: true })
                == WindowsPollerPhase::Receiving
        }),
{
}

/// A timeout below 2^32 milliseconds is waited for with its exact
/// millisecond count.
pub proof fn lemma_windows_millis_exact(t: Timeout)
    requires
        t.total_millis() < u32_modulus(),
    ensures
        windows_wait_millis(Some(t)) == Some(t.total_millis() as u32),
{
    crate::timeout::lemma_millis_exact_below_limit(t);
}

/// The Windows thread stops without error when the shutdown event is
/// signalled, when the request channel closes or when its reply cannot be
/// delivered, and panics when the wait fails.
pub proof fn lemma_windows_stops(ms: Option<u32>)
    ensures
        windows_next_phase(
            WindowsPollerPhase::Waiting(ms),
            WindowsPollerEvent::WaitReturned(WaitStatus::ShutdownSignalled),
        ) == WindowsPollerPhase::Stopped,
        windows_next_phase(WindowsPollerPhase::Receiving, WindowsPollerEvent::Closed)
            == WindowsPollerPhase::Stopped,
        windows_next_phase(WindowsPollerPhase::Notifying, WindowsPollerEvent::Notified { ok: false })
            == WindowsPollerPhase::Stopped,
        windows_next_phase(
            WindowsPollerPhase::Waiting(ms),
            WindowsPollerEvent::WaitReturned(WaitStatus::Failed),
        ) == WindowsPollerPhase::Failed,
        windows_action_of(WindowsPollerPhase::Failed) == WindowsPollerAction::Abort,
{
}

/// The Windows thread replies only after a wait that returned neither the
/// shutdown signal nor a failure.
pub proof fn lemma_windows_reply_only_after_wait(
    phase: WindowsPollerPhase,
    event: WindowsPollerEvent,
)
    requires
        phase != WindowsPollerPhase::Notifying,
        windows_next_phase(phase, event) == WindowsPollerPhase::Notifying,
    ensures
        phase is Waiting,
        event == WindowsPollerEvent::WaitReturned(WaitStatus::Returned),
{
}

/// Once the Windows thread has stopped or failed, nothing changes its phase.
pub proof fn lemma_windows_terminal_phases_absorb(
    phase: WindowsPollerPhase,
    event: WindowsPollerEvent,
)
    requires
        phase == WindowsPollerPhase::Stopped || phase == WindowsPollerPhase::Failed,
    ensures
        windows_next_phase(phase, event) == phase,
{
}

/// Whether a Unix thread has finished, with or without error.
pub open spec fn unix_finished(phase: UnixPollerPhase) -> bool {
    phase == UnixPollerPhase::Stopped || phase == UnixPollerPhase::Failed
}

/// The requests a Unix thread in `phase` has taken and not yet answered: one
/// while it polls or replies, else none.
pub open spec fn unix_pending(phase: UnixPollerPhase) -> nat {
    match phase {
        UnixPollerPhase::Polling(_) => 1,
        UnixPollerPhase::Notifying => 1,
        _ => 0,
    }
}

/// The phase a Unix thread in `phase` reaches by taking in `events` in
/// order, with the number of requests it took and of replies it sent.
pub open spec fn unix_run(phase: UnixPollerPhase, events: Seq<UnixPollerEvent>) -> (
    UnixPollerPhase,
    nat,
    nat,
)
    decreases events.len(),
{
    if events.len() == 0 {
        (phase, 0, 0)
    } else {
        let rest = unix_run(unix_next_phase(phase, events[0]), events.drop_first());
        let took: nat = if phase is Receiving && events[0] is Received {
            1
        } else {
            0
        };
        let sent: nat = if phase is Notifying && events[0] is Notified {
            1
        } else {
            0
        };
        (rest.0, rest.1 + took, rest.2 + sent)
    }
}

proof fn lemma_unix_run_balance(phase: UnixPollerPhase, events: Seq<UnixPollerEvent>)
    ensures
        ({
            let r = unix_run(phase, events);
            &&& r.2 + unix_pending(r.0) <= r.1 + unix_pending(phase)
            &&& r.1 + unix_pending(phase) <= r.2 + unix_pending(r.0) + if unix_finished(r.0) {
                1nat
            } else {
                0nat
            }
            &&& unix_finished(phase) ==> r.0 == phase && r.1 == 0 && r.2 == 0
        }),
    decreases events.len(),
{
    if events.len() > 0 {
        lemma_unix_run_balance(unix_next_phase(phase, events[0]), events.drop_first());
    }
}

/// A Unix thread that starts waiting for requests sends at most one reply
/// per request it took, never one before a request, and takes requests one
/// at a time: at any point the replies sent are the requests taken, less the
/// one it is still answering (or less one lost to a failure).
pub proof fn lemma_unix_one_reply_per_request(events: Seq<UnixPollerEvent>)
    ensures
        ({
            let r = unix_run(UnixPollerPhase::Receiving, events);
            &&& r.2 <= r.1
            &&& r.1 <= r.2 + 1
            &&& !unix_finished(r.0) ==> r.1 == r.2 + unix_pending(r.0)
        }),
{
    lemma_unix_run_balance(UnixPollerPhase::Receiving, events);
}

/// Whether a Windows thread has finished, with or without error.
pub open spec fn windows_finished(phase: WindowsPollerPhase) -> bool {
    phase == WindowsPollerPhase::Stopped || phase == WindowsPollerPhase::Failed
}

/// The requests a Windows thread in `phase` has taken and not yet answered:
/// one while it waits or replies, else none.
pub open spec fn windows_pending(phase: WindowsPollerPhase) -> nat {
    match phase {
        WindowsPollerPhase::Waiting(_) => 1,
        WindowsPollerPhase::Notifying => 1,
        _ => 0,
    }
}

/// The phase a Windows thread in `phase` reaches by taking in `events` in
/// order, with the number of requests it took and of replies it sent.
pub open spec fn windows_run(phase: WindowsPollerPhase, events: Seq<WindowsPollerEvent>) -> (
    WindowsPollerPhase,
    nat,
    nat,
)
    decreases events.len(),
{
    if events.len() == 0 {
        (phase, 0, 0)
    } else {
        let rest = windows_run(windows_next_phase(phase, events[0]), events.drop_first());
        let took: nat = if phase is Receiving && events[0] is Received {
            1
        } else {
            0
        };
        let sent: nat = if phase is Notifying && events[0] is Notified {
            1
        } else {
            0
        };
        (rest.0, rest.1 + took, rest.2 + sent)
    }
}

proof fn lemma_windows_run_balance(phase: WindowsPollerPhase, events: Seq<WindowsPollerEvent>)
    ensures
        ({
            let r = windows_run(phase, events);
            &&& r.2 + windows_pending(r.0) <= r.1 + windows_pending(phase)
            &&& r.1 + windows_pending(phase) <= r.2 + windows_pending(r.0) + if windows_finished(
                r.0,
            ) {
                1nat
            } else {
                0nat
            }
            &&& windows_finished(phase) ==> r.0 == phase && r.1 == 0 && r.2 == 0
        }),
    decreases events.len(),
{
    if events.len() > 0 {
        lemma_windows_run_balance(windows_next_phase(phase, events[0]), events.drop_first());
    }
}

/// A Windows thread that starts waiting for requests sends at most one reply
/// per request it took, never one before a request, and takes requests one
/// at a time: at any point the replies sent are the requests taken, less the
/// one it is still answering (or less one it stopped or failed on).
pub proof fn lemma_windows_one_reply_per_request(events: Seq<WindowsPollerEvent>)
    ensures
        ({
            let r = windows_run(WindowsPollerPhase::Receiving, events);
            &&& r.2 <= r.1
            &&& r.1 <= r.2 + 1
            &&& !windows_finished(r.0) ==> r.1 == r.2 + windows_pending(r.0)
        }),
{
    lemma_windows_run_balance(WindowsPollerPhase::Receiving, events);
}

} // verus!
