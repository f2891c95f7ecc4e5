//! Decisions of the compatibility layer that drives a completion-based
//! runtime from inside another async runtime: the polling loop of
//! `execute`, the helper threads that wait on the driver, and their
//! shutdown.
pub mod execute;
pub mod notifier;
pub mod poller;
pub mod shutdown;
pub mod timeout;

pub use execute::{Execution, ExecuteAction, ExecuteEvent, ExecutePhase, WaitOutcome};
pub use notifier::{readiness_result, NotifierFds, Readiness, WaitError};
pub use poller::{
    UnixPoller, UnixPollerAction, UnixPollerEvent, UnixPollerPhase, WaitStatus, WindowsPoller,
    WindowsPollerAction, WindowsPollerEvent, WindowsPollerPhase,
};
pub use shutdown::{Shutdown, ShutdownAction, ShutdownEvent, ShutdownPhase};
pub use timeout::{PollTimespec, Timeout, NANOS_PER_MILLI, NANOS_PER_SEC};
