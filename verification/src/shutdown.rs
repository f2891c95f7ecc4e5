//! Stopping a helper thread when its adapter is dropped.
//!
//! The dropping side sends the thread a request without timeout. On Windows
//! it then signals the shutdown event and joins the thread only where that
//! succeeded; on Unix it joins the thread right away. A panic of the joined
//! thread is carried on to the dropping thread.
//!
//! The request without timeout does not itself stop a thread: it asks for a
//! wait without limit. The Windows thread waits on the shutdown event as
//! well and stops when it is signalled. The Unix thread polls the driver's
//! descriptor without limit and stops only when its request channel closes
//! or a reply cannot be delivered, neither of which the drop brings about
//! before the join, so the join of a Unix thread can block.
use vstd::prelude::*;
use crate::poller::{
    unix_action_of, unix_next_phase, windows_next_phase, UnixPollerAction, UnixPollerEvent,
    UnixPollerPhase, WaitStatus, WindowsPollerEvent, WindowsPollerPhase,
};

verus! {

/// The step of the shutdown that is outstanding.
#[derive(Clone, Copy, Debug, PartialEq, Eq, Structural)]
pub enum ShutdownPhase {
    /// The stop request is to be sent.
    Requesting,
    /// The shutdown event is to be signalled.
    Signalling,
    /// The thread is to be joined.
    Joining,
    /// Nothing is left to do.
    Done,
    /// The thread panicked: its panic is to be resumed.
    Resuming,
}

/// What the dropping side does next.
#[derive(Clone, Copy, Debug, PartialEq, Eq, Structural)]
pub enum ShutdownAction {
    /// Send a request without timeout, ignoring whether it arrives.
    SendStop,
    /// Signal the shutdown event.
    SignalEvent,
    /// Join the thread.
    JoinThread,
    /// Return.
    Finish,
    /// Resume the thread's panic.
    ResumePanic,
}

/// What the dropping side observed.
#[derive(Clone, Copy, Debug, PartialEq, Eq, Structural)]
pub enum ShutdownEvent {
    /// The stop request was sent (or could not be).
    StopSent,
    /// The shutdown event was signalled; `ok` unless that failed.
    EventSignalled { ok: bool },
    /// The thread was joined; `panicked` when it had panicked.
    Joined { panicked: bool },
}

/// The phase after `event` in `phase`, for a shutdown that signals an event
/// when `signals_event` and that has a thread to join when `has_thread`. An
/// event that answers nothing outstanding leaves the phase unchanged.
pub open spec fn shutdown_next_phase(
    phase: ShutdownPhase,
    signals_event: bool,
    has_thread: bool,
    event: ShutdownEvent,
) -> ShutdownPhase {
    match (phase, event) {
        (ShutdownPhase::Requesting, ShutdownEvent::StopSent) => {
            if signals_event {
                ShutdownPhase::Signalling
            } else if has_thread {
                ShutdownPhase::Joining
            } else {
                ShutdownPhase::Done
            }
        },
        (ShutdownPhase::Signalling, ShutdownEvent::EventSignalled { ok }) => {
            if ok && has_thread {
                ShutdownPhase::Joining
            } else {
                ShutdownPhase::Done
            }
        },
        (ShutdownPhase::Joining, ShutdownEvent::Joined { panicked }) => {
            if panicked {
                ShutdownPhase::Resuming
            } else {
                ShutdownPhase::Done
            }
        },
        _ => phase,
    }
}

/// The action outstanding in `phase`.
pub open spec fn shutdown_action_of(phase: ShutdownPhase) -> ShutdownAction {
    match phase {
        ShutdownPhase::Requesting => ShutdownAction::SendStop,
        ShutdownPhase::Signalling => ShutdownAction::SignalEvent,
        ShutdownPhase::Joining => ShutdownAction::JoinThread,
        ShutdownPhase::Done => ShutdownAction::Finish,
        ShutdownPhase::Resuming => ShutdownAction::ResumePanic,
    }
}

/// The shutdown of one helper thread.
pub struct Shutdown {
    phase: ShutdownPhase,
    signals_event: bool,
    has_thread: bool,
}

impl View for Shutdown {
    type V = ShutdownPhase;

    closed spec fn view(&self) -> ShutdownPhase {
        self.phase
    }
}

impl Shutdown {
    /// Whether the shutdown signals an event after the stop request.
    pub closed spec fn signals_event(&self) -> bool {
        self.signals_event
    }

    /// Whether there is a thread to join.
    pub closed spec fn has_thread(&self) -> bool {
        self.has_thread
    }

    /// An event is signalled only by a shutdown that signals one.
    #[verifier::type_invariant]
    spec fn inv(&self) -> bool {
        self.phase == ShutdownPhase::Signalling ==> self.signals_event
    }

    /// The shutdown of a Unix polling thread: stop request, then join.
    pub fn unix(has_thread: bool) -> (s: Shutdown)
        ensures
            s@ == ShutdownPhase::Requesting,
            !s.signals_event(),
            s.has_thread() == has_thread,
    {
        Shutdown { phase: ShutdownPhase::Requesting, signals_event: false, has_thread }
    }

    /// The shutdown of a Windows waiting thread: stop request, shutdown
    /// event, then join where the event was signalled.
    pub fn windows(has_thread: bool) -> (s: Shutdown)
        ensures
            s@ == ShutdownPhase::Requesting,
            s.signals_event(),
            s.has_thread() == has_thread,
    {
        Shutdown { phase: ShutdownPhase::Requesting, signals_event: true, has_thread }
    }

    /// The current phase.
    pub fn phase(&self) -> (p: ShutdownPhase)
        ensures
            p == self@,
    {
        self.phase
    }

    /// What the dropping side is to do next.
    pub fn action(&self) -> (a: ShutdownAction)
        ensures
            a == shutdown_action_of(self@),
    {
        match self.phase {
            ShutdownPhase::Requesting => ShutdownAction::SendStop,
            ShutdownPhase::Signalling => ShutdownAction::SignalEvent,
            ShutdownPhase::Joining => ShutdownAction::JoinThread,
            ShutdownPhase::Done => ShutdownAction::Finish,
            ShutdownPhase::Resuming => ShutdownAction::ResumePanic,
        }
    }

    /// Takes in what the last action observed and moves on.
    pub fn handle(&mut self, event: ShutdownEvent)
        ensures
            final(self)@ == shutdown_next_phase(
                old(self)@,
                old(self).signals_event(),
                old(self).has_thread(),
                event,
            ),
            final(self).signals_event() == old(self).signals_event(),
            final(self).has_thread() == old(self).has_thread(),
    {
        proof {
            use_type_invariant(&*self);
        }
        let next = match (self.phase, event) {
            (ShutdownPhase::Requesting, ShutdownEvent::StopSent) => {
                if self.signals_event {
                    ShutdownPhase::Signalling
                } else if self.has_thread {
                    ShutdownPhase::Joining
                } else {
                    ShutdownPhase::Done
                }
            },
            (ShutdownPhase::Signalling, ShutdownEvent::EventSignalled { ok }) => {
                if ok && self.has_thread {
                    ShutdownPhase::Joining
                } else {
                    ShutdownPhase::Done
                }
            },
            (ShutdownPhase::Joining, ShutdownEvent::Joined { panicked }) => {
                if panicked {
                    ShutdownPhase::Resuming
                } else {
                    ShutdownPhase::Done
                }
            },
            (p, _) => p,
        };
        self.phase = next;
    }
}

/// The thread is joined only after the stop request, and, where an event is
/// signalled, only after it was signalled successfully. (A shutdown is in its
/// signalling step only where it signals an event.)
pub proof fn lemma_join_only_after_stop_request(
    phase: ShutdownPhase,
    signals_event: bool,
    has_thread: bool,
    event: ShutdownEvent,
)
    requires
        phase == ShutdownPhase::Signalling ==> signals_event,
        phase != ShutdownPhase::Joining,
        shutdown_next_phase(phase, signals_event, has_thread, event) == ShutdownPhase::Joining,
    ensures
        has_thread,
        signals_event ==> phase == ShutdownPhase::Signalling && event == (ShutdownEvent::EventSignalled { ok: true }),
        !signals_event ==> phase == ShutdownPhase::Requesting && event == ShutdownEvent::StopSent,
{
}

/// Without an event to signal, a thread is joined right after the stop
/// request; with one, a failed signal leaves the thread unjoined.
pub proof fn lemma_shutdown_sequences(has_thread: bool)
    ensures
        shutdown_next_phase(ShutdownPhase::Requesting, false, has_thread, ShutdownEvent::StopSent)
            == if has_thread {
            ShutdownPhase::Joining
        } else {
            ShutdownPhase::Done
        },
        shutdown_next_phase(ShutdownPhase::Requesting, true, has_thread, ShutdownEvent::StopSent)
            == ShutdownPhase::Signalling,
        shutdown_next_phase(
            ShutdownPhase::Signalling,
            true,
            has_thread,
            ShutdownEvent::EventSignalled { ok: false },
        ) == ShutdownPhase::Done,
{
}

/// A panic of the joined thread is resumed; a clean join finishes.
pub proof fn lemma_join_outcome(signals_event: bool, has_thread: bool, panicked: bool)
    ensures
        shutdown_action_of(
            shutdown_next_phase(
                ShutdownPhase::Joining,
                signals_event,
                has_thread,
                ShutdownEvent::Joined { panicked },
            ),
        ) == if panicked {
            ShutdownAction::ResumePanic
        } else {
            ShutdownAction::Finish
        },
{
}

/// The stop request, a request without timeout, makes a waiting Unix thread
/// poll without limit; it does not stop it.
pub proof fn lemma_unix_stop_request_polls_without_limit()
    ensures
        unix_next_phase(UnixPollerPhase::Receiving, UnixPollerEvent::Received(None))
            == UnixPollerPhase::Polling(None),
        unix_action_of(UnixPollerPhase::Polling(None)) == UnixPollerAction::Poll(None),
{
}

/// A Unix thread stops only when its request channel closes or a reply
/// cannot be delivered.
pub proof fn lemma_unix_stops_only_on_close_or_lost_reply(
    phase: UnixPollerPhase,
    event: UnixPollerEvent,
)
    requires
        phase != UnixPollerPhase::Stopped,
        unix_next_phase(phase, event) == UnixPollerPhase::Stopped,
    ensures
        (phase == UnixPollerPhase::Receiving && event == UnixPollerEvent::Closed) || (phase
            == UnixPollerPhase::Notifying && event == (UnixPollerEvent::Notified { ok: false })),
{
}

/// On Windows the stop request makes a waiting thread wait without limit,
/// and the signalled shutdown event then stops it.
pub proof fn lemma_windows_stop_request_then_signal_stops()
    ensures
        ({
            let waiting = windows_next_phase(
                WindowsPollerPhase::Receiving,
                WindowsPollerEvent::Received(None),
            );
            &&& waiting == WindowsPollerPhase::Waiting(None)
            &&& windows_next_phase(
                waiting,
                WindowsPollerEvent::WaitReturned(WaitStatus::ShutdownSignalled),
            ) == WindowsPollerPhase::Stopped
        }),
{
}

} // verus!
