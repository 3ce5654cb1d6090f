//! The background tick scheduler: for each heartbeat of the worker it
//! decides whether the host runs one update.

use vstd::prelude::*;
use crate::background_listener::{SignalView, WindowVisibility};
use crate::error::KeepaliveError;
use crate::message::{ControlMessage, GatingPolicy, IntervalPolicy, TickMessage};
use crate::millis::{Millis, DEFAULT_WAKE_DELAY_BITS};
use crate::settings::{KeepaliveSettings, SettingsView, WorkerSpawn};

verus! {

/// Configures the keepalive: the heartbeat's first delay and the two
/// policies, which stay as they are for the life of the scheduler.
#[derive(Clone, Copy, Debug, PartialEq, Eq, Hash, Structural)]
pub struct WebKeepalivePlugin {
    /// The delay between two heartbeats, in milliseconds. It can be changed
    /// later through the settings.
    pub initial_wake_delay: Millis,
    /// When a heartbeat leads to a host update.
    pub gating_policy: GatingPolicy,
    /// How the worker keeps time.
    pub interval_policy: IntervalPolicy,
}

impl Default for WebKeepalivePlugin {
    /// Sixty heartbeats a second from one repeating timer, each running an
    /// update only while the page is in the background.
    fn default() -> (plugin: Self)
        ensures
            plugin.initial_wake_delay.bits == DEFAULT_WAKE_DELAY_BITS,
            plugin.initial_wake_delay.positive_finite(),
            plugin.gating_policy == GatingPolicy::RunOnlyWhenBackgrounded,
            plugin.interval_policy == IntervalPolicy::FixedInterval,
    {
        WebKeepalivePlugin {
            initial_wake_delay: Millis::from_bits(DEFAULT_WAKE_DELAY_BITS),
            gating_policy: GatingPolicy::RunOnlyWhenBackgrounded,
            interval_policy: IntervalPolicy::FixedInterval,
        }
    }
}

/// Names the host's state in the caller's keeping. It is no address: the
/// caller resolves it anew for each heartbeat, and the host may be gone.
#[derive(Clone, Copy, Debug, PartialEq, Eq, Hash, Structural)]
pub struct HostHandle(pub u64);

/// What the caller observed when a heartbeat arrived.
#[derive(Clone, Copy, Debug, PartialEq, Eq, Hash, Structural)]
pub struct TickContext {
    /// The page's visibility, where a visibility signal is in use.
    pub visibility: Option<WindowVisibility>,
    /// Whether the host's handle still resolves to a host.
    pub host_live: bool,
}

/// What a heartbeat led to.
#[derive(Clone, Copy, Debug, PartialEq, Eq, Hash, Structural)]
pub enum TickOutcome {
    /// The caller is to run one host update now, before it takes the next
    /// heartbeat.
    RunHostUpdate,
    /// The page is in the foreground and the policy asks for the
    /// background. The heartbeat is spent.
    Gated,
    /// The host is gone. The heartbeat is spent.
    HostStateGone,
    /// The scheduler has been disposed of. The heartbeat is spent.
    Terminated,
}

/// What the scheduler is, to a contract.
pub struct SchedulerView<W> {
    pub gating_policy: GatingPolicy,
    pub interval_policy: IntervalPolicy,
    pub host: HostHandle,
    pub settings: SettingsView<W>,
}

impl<W> SchedulerView<W> {
    /// The scheduler that `start` makes, or the failure that it reports.
    pub open spec fn start(config: WebKeepalivePlugin, host: HostHandle, spawn: WorkerSpawn<W>)
        -> Result<SchedulerView<W>, KeepaliveError> {
        match SettingsView::initialize(config.initial_wake_delay, spawn) {
            Ok(settings) => Ok(
                SchedulerView {
                    gating_policy: config.gating_policy,
                    interval_policy: config.interval_policy,
                    host,
                    settings,
                },
            ),
            Err(e) => Err(e),
        }
    }

    /// The scheduler is active: it has not been disposed of.
    pub open spec fn active(self) -> bool {
        self.settings.live()
    }

    /// The page is known to be in the foreground and the policy asks for
    /// the background. Where no visibility is known, nothing is held back.
    pub open spec fn gated(self, at: TickContext) -> bool {
        &&& self.gating_policy is RunOnlyWhenBackgrounded
        &&& at.visibility is Some
        &&& at.visibility->0.visible()
    }

    /// What one heartbeat leads to.
    pub open spec fn outcome(self, at: TickContext) -> TickOutcome {
        if !self.active() {
            TickOutcome::Terminated
        } else if self.gated(at) {
            TickOutcome::Gated
        } else if !at.host_live {
            TickOutcome::HostStateGone
        } else {
            TickOutcome::RunHostUpdate
        }
    }

    /// How many host updates a run of heartbeats leads to. The heartbeats
    /// are taken one by one, in the order in which they came; none is
    /// dropped and none is merged with another.
    pub open spec fn updates_run(self, ticks: Seq<TickContext>) -> nat
        decreases ticks.len(),
    {
        if ticks.len() == 0 {
            0
        } else {
            let before = self.updates_run(ticks.drop_last());
            if self.outcome(ticks.last()) is RunHostUpdate {
                before + 1
            } else {
                before
            }
        }
    }

    /// The scheduler with other settings.
    pub open spec fn with_settings(self, settings: SettingsView<W>) -> SchedulerView<W> {
        SchedulerView { settings, ..self }
    }
}

/// Owns the keepalive settings and answers each heartbeat.
///
/// A scheduler is active from `start` on. Disposing of it is the only way
/// out, and there is no way back: a new heartbeat needs a new scheduler.
#[derive(Debug)]
pub struct BackgroundTickScheduler<W> {
    gating_policy: GatingPolicy,
    interval_policy: IntervalPolicy,
    host: HostHandle,
    settings: KeepaliveSettings<W>,
}

impl<W> View for BackgroundTickScheduler<W> {
    type V = SchedulerView<W>;

    closed spec fn view(&self) -> SchedulerView<W> {
        SchedulerView {
            gating_policy: self.gating_policy,
            interval_policy: self.interval_policy,
            host: self.host,
            settings: self.settings@,
        }
    }
}

impl<W> BackgroundTickScheduler<W> {
    /// Makes the active scheduler of a configuration, of the host's handle
    /// and of the outcome of constructing the worker for
    /// `config.initial_wake_delay`. A failure of construction comes back to
    /// the caller as it is.
    pub fn start(config: WebKeepalivePlugin, host: HostHandle, spawn: WorkerSpawn<W>) -> (r: Result<
        Self,
        KeepaliveError,
    >)
        ensures
            r matches Ok(scheduler) ==> Ok::<SchedulerView<W>, KeepaliveError>(scheduler@)
                == SchedulerView::start(config, host, spawn),
            r matches Err(e) ==> Err::<SchedulerView<W>, KeepaliveError>(e) == SchedulerView::start(
                config,
                host,
                spawn,
            ),
    {
        match KeepaliveSettings::initialize(config.initial_wake_delay, spawn) {
            Ok(settings) => Ok(
                BackgroundTickScheduler {
                    gating_policy: config.gating_policy,
                    interval_policy: config.interval_policy,
                    host,
                    settings,
                },
            ),
            Err(e) => Err(e),
        }
    }

    /// Answers one heartbeat. The scheduler is as it was afterwards.
    pub fn on_tick(&self, tick: TickMessage, at: TickContext) -> (outcome: TickOutcome)
        ensures
            outcome == self@.outcome(at),
    {
        if !self.settings.is_live() {
            return TickOutcome::Terminated;
        }
        let backgrounded_only = match self.gating_policy {
            GatingPolicy::AlwaysRun => false,
            GatingPolicy::RunOnlyWhenBackgrounded => true,
        };
        let in_foreground = match at.visibility {
            Some(v) => v.is_visible(),
            None => false,
        };
        if backgrounded_only && in_foreground {
            TickOutcome::Gated
        } else if !at.host_live {
            TickOutcome::HostStateGone
        } else {
            TickOutcome::RunHostUpdate
        }
    }

    /// Whether the scheduler has not been disposed of.
    pub fn is_active(&self) -> (r: bool)
        ensures
            r == self@.active(),
    {
        self.settings.is_live()
    }

    /// When a heartbeat leads to a host update.
    pub fn gating_policy(&self) -> (policy: GatingPolicy)
        ensures
            policy == self@.gating_policy,
    {
        self.gating_policy
    }

    /// How the worker keeps time.
    pub fn interval_policy(&self) -> (policy: IntervalPolicy)
        ensures
            policy == self@.interval_policy,
    {
        self.interval_policy
    }

    /// The handle of the host that the updates are for.
    pub fn host(&self) -> (host: HostHandle)
        ensures
            host == self@.host,
    {
        self.host
    }

    /// The settings.
    pub fn settings(&self) -> (settings: &KeepaliveSettings<W>)
        ensures
            settings@ == self@.settings,
    {
        &self.settings
    }

    /// Writes the delay that the host wants into the settings.
    pub fn set_wake_delay(&mut self, delay: Millis) -> (r: Result<(), KeepaliveError>)
        ensures
            final(self)@ == old(self)@.with_settings(old(self)@.settings.write_delay(delay)),
            r == if old(self)@.active() {
                Ok::<(), KeepaliveError>(())
            } else {
                Err::<(), KeepaliveError>(KeepaliveError::SchedulerDisposed)
            },
    {
        self.settings.set_wake_delay(delay)
    }

    /// Asks for a heartbeat at the delay that the host last wrote, and
    /// returns the message that the caller is to post to the worker.
    pub fn apply_settings(&mut self) -> (r: Result<Option<ControlMessage>, KeepaliveError>)
        ensures
            final(self)@ == old(self)@.with_settings(
                old(self)@.settings.update_delay(old(self)@.settings.wake_delay),
            ),
            r == old(self)@.settings.update_reply(old(self)@.settings.wake_delay),
    {
        self.settings.apply_settings()
    }

    /// Asks for a heartbeat at `delay`, and returns the message that the
    /// caller is to post to the worker.
    pub fn update_delay(&mut self, delay: Millis) -> (r: Result<
        Option<ControlMessage>,
        KeepaliveError,
    >)
        ensures
            final(self)@ == old(self)@.with_settings(old(self)@.settings.update_delay(delay)),
            r == old(self)@.settings.update_reply(delay),
    {
        self.settings.update_delay(delay)
    }

    /// Ends the scheduler and returns the worker's handle, which the caller
    /// is to terminate. A scheduler that has ended returns no handle.
    pub fn dispose(&mut self) -> (handle: Option<W>)
        ensures
            final(self)@ == old(self)@.with_settings(old(self)@.settings.dispose()),
            handle == old(self)@.settings.worker,
    {
        self.settings.dispose()
    }
}

/// An active scheduler that always runs leads to one host update for every
/// heartbeat that finds the host: as many updates as heartbeats.
pub proof fn lemma_always_run_counts_every_tick<W>(s: SchedulerView<W>, ticks: Seq<TickContext>)
    requires
        s.active(),
        s.gating_policy is AlwaysRun,
        forall|i: int| 0 <= i < ticks.len() ==> (#[trigger] ticks[i]).host_live,
    ensures
        s.updates_run(ticks) == ticks.len(),
        forall|i: int| 0 <= i < ticks.len() ==> s.outcome(#[trigger] ticks[i]) is RunHostUpdate,
    decreases ticks.len(),
{
    if ticks.len() > 0 {
        lemma_always_run_counts_every_tick(s, ticks.drop_last());
    }
}

/// Started with any delay that a heartbeat can run at, a scheduler that
/// always runs leads to as many host updates as heartbeats arrive, while
/// the host is there.
pub proof fn lemma_started_scheduler_runs_every_tick<W>(
    config: WebKeepalivePlugin,
    host: HostHandle,
    worker: W,
    ticks: Seq<TickContext>,
)
    requires
        config.initial_wake_delay.positive_finite(),
        config.gating_policy is AlwaysRun,
        forall|i: int| 0 <= i < ticks.len() ==> (#[trigger] ticks[i]).host_live,
    ensures
        SchedulerView::start(config, host, WorkerSpawn::Created(worker)) is Ok,
        SchedulerView::start(config, host, WorkerSpawn::Created(worker))->Ok_0.updates_run(ticks)
            == ticks.len(),
{
    let s = SchedulerView::start(config, host, WorkerSpawn::Created(worker))->Ok_0;
    lemma_always_run_counts_every_tick(s, ticks);
}

/// An active scheduler that runs only in the background spends a heartbeat
/// that finds the page in the foreground, and runs a host update on one
/// that finds the page hidden and the host there.
pub proof fn lemma_backgrounded_gate<W>(s: SchedulerView<W>, at: TickContext)
    requires
        s.active(),
        s.gating_policy is RunOnlyWhenBackgrounded,
        at.visibility is Some,
    ensures
        at.visibility->0.visible() ==> s.outcome(at) == TickOutcome::Gated,
        !at.visibility->0.visible() && at.host_live ==> s.outcome(at) == TickOutcome::RunHostUpdate,
{
}

/// Once the visibility signal has taken the report that the page is
/// hidden, the next heartbeat that reads the signal runs a host update,
/// whatever the signal held before.
pub proof fn lemma_hidden_page_opens_gate<W>(
    s: SchedulerView<W>,
    signal: SignalView,
    read: WindowVisibility,
)
    requires
        s.active(),
        read.visible() == signal.observe(true).visible,
    ensures
        s.outcome(TickContext { visibility: Some(read), host_live: true })
            == TickOutcome::RunHostUpdate,
{
}

/// A scheduler that has been disposed of runs no host update, whatever
/// heartbeats still arrive.
pub proof fn lemma_no_update_after_dispose<W>(s: SchedulerView<W>, ticks: Seq<TickContext>)
    ensures
        !s.with_settings(s.settings.dispose()).active(),
        s.with_settings(s.settings.dispose()).updates_run(ticks) == 0,
        forall|i: int|
            0 <= i < ticks.len() ==> s.with_settings(s.settings.dispose()).outcome(
                #[trigger] ticks[i],
            ) == TickOutcome::Terminated,
    decreases ticks.len(),
{
    if ticks.len() > 0 {
        lemma_no_update_after_dispose(s, ticks.drop_last());
    }
}

/// The heartbeats of a run are counted one after the other: a run that is
/// split in two leads to the updates of its two parts.
pub proof fn lemma_updates_run_splits<W>(
    s: SchedulerView<W>,
    first: Seq<TickContext>,
    second: Seq<TickContext>,
)
    ensures
        s.updates_run(first + second) == s.updates_run(first) + s.updates_run(second),
    decreases second.len(),
{
    if second.len() == 0 {
        assert(first + second =~= first);
    } else {
        assert((first + second).drop_last() =~= first + second.drop_last());
        lemma_updates_run_splits(s, first, second.drop_last());
    }
}

} // verus!
