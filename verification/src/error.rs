//! What can go wrong, and who hears of it.

use vstd::prelude::*;

verus! {

/// The failures of the keepalive machinery.
#[derive(Clone, Copy, Debug, PartialEq, Eq, Hash, Structural)]
pub enum KeepaliveError {
    /// The platform offers no page visibility or no isolated context.
    /// Raised at startup and never swallowed: whether the page is in the
    /// background cannot be told without it.
    EnvironmentUnsupported,
    /// The platform could not construct the isolated context. The host may
    /// go on without a heartbeat, and no tick will ever come.
    WorkerCreationFailed,
    /// A delay that is not a number greater than zero and less than
    /// infinity. The delay in effect stays as it was.
    InvalidDelay,
    /// The settings were used after they had been disposed of.
    SchedulerDisposed,
}

impl KeepaliveError {
    /// Whether the failure ends the startup, as the two failures of
    /// construction do; the other two leave a running heartbeat as it was.
    pub open spec fn fatal_at_startup(self) -> bool {
        self is EnvironmentUnsupported || self is WorkerCreationFailed
    }

    /// Whether the failure ends the startup.
    pub fn is_fatal_at_startup(&self) -> (r: bool)
        ensures
            r == self.fatal_at_startup(),
    {
        match self {
            KeepaliveError::EnvironmentUnsupported => true,
            KeepaliveError::WorkerCreationFailed => true,
            KeepaliveError::InvalidDelay => false,
            KeepaliveError::SchedulerDisposed => false,
        }
    }
}

} // verus!
