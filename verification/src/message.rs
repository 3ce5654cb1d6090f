//! The two messages that cross between the host and the heartbeat worker,
//! and the two choices that are fixed when the worker is configured.

use vstd::prelude::*;
use crate::millis::Millis;

verus! {

/// One heartbeat elapsed. The worker sends it to the host; it carries
/// nothing.
#[derive(Clone, Copy, Debug, PartialEq, Eq, Hash, Structural)]
pub struct TickMessage;

/// The host asks the worker to beat at another delay.
#[derive(Clone, Copy, Debug, PartialEq, Eq, Hash, Structural)]
pub struct ControlMessage {
    pub new_delay_millis: Millis,
}

/// When a heartbeat leads to a host update.
#[derive(Clone, Copy, Debug, PartialEq, Eq, Hash, Structural)]
pub enum GatingPolicy {
    /// On every heartbeat.
    AlwaysRun,
    /// Only while the page is in the background.
    RunOnlyWhenBackgrounded,
}

/// How the worker keeps time.
#[derive(Clone, Copy, Debug, PartialEq, Eq, Hash, Structural)]
pub enum IntervalPolicy {
    /// One repeating timer, cancelled and armed anew when the delay changes.
    FixedInterval,
    /// Each heartbeat arms the timer for the next one, with the delay that
    /// holds at that moment.
    ChainedTimeout,
}

} // verus!
