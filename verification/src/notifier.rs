//! The descriptor a Unix adapter waits on, and the outcome of a readiness
//! wait raced against a timer.
//!
//! On an io_uring driver completions are announced through an eventfd that
//! is registered with the ring; the adapter then waits on the eventfd and
//! drains it after each wake-up. On other drivers it waits on the driver's
//! own descriptor and has nothing to drain.
use vstd::prelude::*;

verus! {

/// The driver's descriptor and, where completions are announced through
/// one, the registered eventfd.
#[derive(Clone, Copy, Debug, PartialEq, Eq, Structural)]
pub struct NotifierFds {
    driver: i32,
    eventfd: Option<i32>,
}

impl NotifierFds {
    /// The driver's descriptor.
    pub closed spec fn driver(&self) -> i32 {
        self.driver
    }

    /// The registered eventfd, if any.
    pub closed spec fn eventfd(&self) -> Option<i32> {
        self.eventfd
    }

    /// The descriptors of a driver and of its registered eventfd, if any.
    pub fn new(driver: i32, eventfd: Option<i32>) -> (n: NotifierFds)
        ensures
            n.driver() == driver,
            n.eventfd() == eventfd,
    {
        NotifierFds { driver, eventfd }
    }

    /// The descriptor to wait on: the eventfd where there is one, else the
    /// driver's.
    pub fn as_raw_fd(&self) -> (fd: i32)
        ensures
            fd == match self.eventfd() {
                Some(e) => e,
                None => self.driver(),
            },
    {
        match self.eventfd {
            Some(e) => e,
            None => self.driver,
        }
    }

    /// The descriptor to drain after a wake-up: the eventfd, if any.
    pub fn drain_fd(&self) -> (fd: Option<i32>)
        ensures
            fd == self.eventfd(),
    {
        self.eventfd
    }
}

/// Which side of a readiness wait raced against a timer finished first.
#[derive(Debug)]
pub enum Readiness<E> {
    /// The descriptor became readable, or waiting for it failed.
    Readable(Result<(), E>),
    /// The timer elapsed first.
    TimerElapsed,
}

/// Why a readiness wait did not succeed.
#[derive(Debug)]
pub enum WaitError<E> {
    /// Waiting for the descriptor failed.
    Io(E),
    /// The timeout passed first.
    TimedOut,
}

/// The result of a readiness wait: the descriptor's own result where it won
/// the race, a timed-out error where the timer did.
pub fn readiness_result<E>(race: Readiness<E>) -> (r: Result<(), WaitError<E>>)
    ensures
        match race {
            Readiness::Readable(Ok(())) => r is Ok,
            Readiness::Readable(Err(e)) => r matches Err(WaitError::Io(e2)) && e2 == e,
            Readiness::TimerElapsed => r matches Err(WaitError::TimedOut),
        },
{
    match race {
        Readiness::Readable(Ok(())) => Ok(()),
        Readiness::Readable(Err(e)) => Err(WaitError::Io(e)),
        Readiness::TimerElapsed => Err(WaitError::TimedOut),
    }
}

} // verus!
