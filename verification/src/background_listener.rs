//! The visibility signal: whether the page is in the foreground, and what
//! follows when that changes.

use vstd::prelude::*;
use crate::error::KeepaliveError;

verus! {

/// Configures the listener for changes of the page's visibility.
#[derive(Clone, Copy, Debug, PartialEq, Eq, Hash, Structural)]
pub struct VisibilityChangeListenerPlugin {
    /// Whether the host runs one update each time the page is hidden.
    pub run_main_schedule_on_hide: bool,
}

impl Default for VisibilityChangeListenerPlugin {
    /// A listener that only keeps track and runs nothing.
    fn default() -> (plugin: Self)
        ensures
            !plugin.run_main_schedule_on_hide,
    {
        VisibilityChangeListenerPlugin { run_main_schedule_on_hide: false }
    }
}

/// Whether the page is visible, as last observed.
#[derive(Clone, Copy, Debug, PartialEq, Eq, Hash, Structural)]
pub struct WindowVisibility(bool);

impl WindowVisibility {
    /// The page is in the foreground.
    pub closed spec fn visible(self) -> bool {
        self.0
    }

    /// The visibility of a page that is visible, or is not.
    pub fn new(visible: bool) -> (v: WindowVisibility)
        ensures
            v.visible() == visible,
    {
        WindowVisibility(visible)
    }

    /// Whether the page is in the foreground.
    pub fn is_visible(&self) -> (r: bool)
        ensures
            r == self.visible(),
    {
        self.0
    }

    /// Whether the page is in the background.
    pub fn is_hidden(&self) -> (r: bool)
        ensures
            r == !self.visible(),
    {
        !self.0
    }
}

impl Default for WindowVisibility {
    /// Hidden, until a page is observed.
    fn default() -> (v: Self)
        ensures
            !v.visible(),
    {
        WindowVisibility(false)
    }
}

/// Two values with the same visibility are the same value.
pub proof fn lemma_visibility_is_its_flag(a: WindowVisibility, b: WindowVisibility)
    ensures
        a.visible() == b.visible() <==> a == b,
{
}

/// What the caller is to do after a change of visibility.
#[derive(Clone, Copy, Debug, PartialEq, Eq, Hash, Structural)]
pub struct VisibilityReaction {
    /// The visibility to publish to whoever observes it, once.
    pub notify: WindowVisibility,
    /// Whether the host is to run one update now.
    pub run_host_update: bool,
}

/// What the signal is, to a contract.
pub struct SignalView {
    /// The page is in the foreground, as last observed.
    pub visible: bool,
    /// A change to hidden runs one host update.
    pub run_on_hide: bool,
}

impl SignalView {
    /// The signal after the platform has reported that the page is hidden,
    /// or is not.
    pub open spec fn observe(self, hidden: bool) -> SignalView {
        SignalView { visible: !hidden, ..self }
    }

    /// Whether that report runs one host update.
    pub open spec fn runs_on(self, hidden: bool) -> bool {
        hidden && self.run_on_hide
    }
}

/// Keeps the visibility that the platform last reported.
#[derive(Debug)]
pub struct VisibilitySignal {
    state: WindowVisibility,
    run_on_hide: bool,
}

impl View for VisibilitySignal {
    type V = SignalView;

    closed spec fn view(&self) -> SignalView {
        SignalView { visible: self.state.visible(), run_on_hide: self.run_on_hide }
    }
}

impl VisibilitySignal {
    /// Starts the signal for a page that counts as visible until the
    /// platform reports otherwise. Where the platform has no page visibility
    /// there is no signal: nothing is assumed in its place.
    pub fn new(plugin: VisibilityChangeListenerPlugin, facility_present: bool) -> (r: Result<
        Self,
        KeepaliveError,
    >)
        ensures
            r is Ok == facility_present,
            r matches Ok(signal) ==> signal@ == (SignalView {
                visible: true,
                run_on_hide: plugin.run_main_schedule_on_hide,
            }),
            r matches Err(e) ==> e == KeepaliveError::EnvironmentUnsupported,
    {
        if !facility_present {
            return Err(KeepaliveError::EnvironmentUnsupported);
        }
        Ok(
            VisibilitySignal {
                state: WindowVisibility::new(true),
                run_on_hide: plugin.run_main_schedule_on_hide,
            },
        )
    }

    /// Whether the page is in the foreground, as last observed.
    pub fn currently_visible(&self) -> (r: bool)
        ensures
            r == self@.visible,
    {
        self.state.is_visible()
    }

    /// The visibility as last observed.
    pub fn visibility(&self) -> (v: WindowVisibility)
        ensures
            v.visible() == self@.visible,
    {
        self.state
    }

    /// Whether a change to hidden runs one host update.
    pub fn runs_on_hide(&self) -> (r: bool)
        ensures
            r == self@.run_on_hide,
    {
        self.run_on_hide
    }

    /// Takes one report of the platform that the visibility changed. The
    /// state is up to date when this returns, and the reaction holds the one
    /// notification that is owed for the change.
    pub fn on_change(&mut self, hidden: bool) -> (reaction: VisibilityReaction)
        ensures
            final(self)@ == old(self)@.observe(hidden),
            reaction.notify.visible() == !hidden,
            reaction.run_host_update == old(self)@.runs_on(hidden),
    {
        self.state = WindowVisibility::new(!hidden);
        VisibilityReaction { notify: self.state, run_host_update: hidden && self.run_on_hide }
    }
}

} // verus!
