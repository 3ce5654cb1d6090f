use bevy_web_keepalive::background_listener::{VisibilitySignal, WindowVisibility};
use bevy_web_keepalive::background_worker::{
    BackgroundTickScheduler, HostHandle, TickContext, TickOutcome, WebKeepalivePlugin,
};
use bevy_web_keepalive::error::KeepaliveError;
use bevy_web_keepalive::message::{ControlMessage, GatingPolicy, IntervalPolicy, TickMessage};
use bevy_web_keepalive::millis::Millis;
use bevy_web_keepalive::settings::{KeepaliveSettings, WorkerSpawn};
use bevy_web_keepalive::VisibilityChangeListenerPlugin;

fn millis(value: f64) -> Millis {
    Millis::from_bits(value.to_bits())
}

fn config(delay: f64, gating_policy: GatingPolicy) -> WebKeepalivePlugin {
    WebKeepalivePlugin {
        initial_wake_delay: millis(delay),
        gating_policy,
        interval_policy: IntervalPolicy::FixedInterval,
    }
}

fn started(delay: f64, gating_policy: GatingPolicy) -> BackgroundTickScheduler<u32> {
    BackgroundTickScheduler::start(config(delay, gating_policy), HostHandle(1), WorkerSpawn::Created(9))
        .unwrap()
}

fn seen(visible: bool) -> TickContext {
    TickContext { visibility: Some(WindowVisibility::new(visible)), host_live: true }
}

#[test]
fn five_ticks_run_five_updates_in_order() {
    let scheduler = started(100.0, GatingPolicy::AlwaysRun);
    let mut calls = Vec::new();
    for tick in 0..5 {
        if scheduler.on_tick(TickMessage, seen(true)) == TickOutcome::RunHostUpdate {
            calls.push(tick);
        }
    }
    assert_eq!(calls, vec![0, 1, 2, 3, 4]);
}

#[test]
fn always_run_ignores_visibility() {
    let scheduler = started(100.0, GatingPolicy::AlwaysRun);
    assert_eq!(scheduler.on_tick(TickMessage, seen(true)), TickOutcome::RunHostUpdate);
    assert_eq!(scheduler.on_tick(TickMessage, seen(false)), TickOutcome::RunHostUpdate);
    let unknown = TickContext { visibility: None, host_live: true };
    assert_eq!(scheduler.on_tick(TickMessage, unknown), TickOutcome::RunHostUpdate);
}

#[test]
fn every_tick_counts_for_many_delays() {
    for delay in [0.001, 1.0, 16.667, 50.0, 100.0, 86_400_000.0, f64::MAX, f64::MIN_POSITIVE] {
        let scheduler = started(delay, GatingPolicy::AlwaysRun);
        let mut updates = 0;
        for _ in 0..40 {
            if scheduler.on_tick(TickMessage, seen(true)) == TickOutcome::RunHostUpdate {
                updates += 1;
            }
        }
        assert_eq!(updates, 40);
    }
}

#[test]
fn foreground_ticks_are_gated_and_background_ticks_run() {
    let scheduler = started(50.0, GatingPolicy::RunOnlyWhenBackgrounded);
    let mut signal =
        VisibilitySignal::new(VisibilityChangeListenerPlugin::default(), true).unwrap();

    signal.on_change(false);
    let mut calls = 0;
    for _ in 0..3 {
        let at = TickContext { visibility: Some(signal.visibility()), host_live: true };
        let outcome = scheduler.on_tick(TickMessage, at);
        assert_eq!(outcome, TickOutcome::Gated);
        if outcome == TickOutcome::RunHostUpdate {
            calls += 1;
        }
    }
    assert_eq!(calls, 0);

    signal.on_change(true);
    for _ in 0..3 {
        let at = TickContext { visibility: Some(signal.visibility()), host_live: true };
        if scheduler.on_tick(TickMessage, at) == TickOutcome::RunHostUpdate {
            calls += 1;
        }
    }
    assert_eq!(calls, 3);
}

#[test]
fn unknown_visibility_is_not_gated() {
    let scheduler = started(50.0, GatingPolicy::RunOnlyWhenBackgrounded);
    let unknown = TickContext { visibility: None, host_live: true };
    assert_eq!(scheduler.on_tick(TickMessage, unknown), TickOutcome::RunHostUpdate);
}

#[test]
fn a_host_that_is_gone_gets_no_update() {
    let scheduler = started(50.0, GatingPolicy::AlwaysRun);
    let gone = TickContext { visibility: None, host_live: false };
    assert_eq!(scheduler.on_tick(TickMessage, gone), TickOutcome::HostStateGone);
    let gated = TickContext { visibility: Some(WindowVisibility::new(true)), host_live: false };
    let backgrounded = started(50.0, GatingPolicy::RunOnlyWhenBackgrounded);
    assert_eq!(backgrounded.on_tick(TickMessage, gated), TickOutcome::Gated);
    let hidden = TickContext { visibility: Some(WindowVisibility::new(false)), host_live: false };
    assert_eq!(backgrounded.on_tick(TickMessage, hidden), TickOutcome::HostStateGone);
}

#[test]
fn start_keeps_the_configuration() {
    let scheduler: BackgroundTickScheduler<u32> = BackgroundTickScheduler::start(
        WebKeepalivePlugin {
            initial_wake_delay: millis(25.0),
            gating_policy: GatingPolicy::AlwaysRun,
            interval_policy: IntervalPolicy::ChainedTimeout,
        },
        HostHandle(77),
        WorkerSpawn::Created(5),
    )
    .unwrap();
    assert!(scheduler.is_active());
    assert_eq!(scheduler.gating_policy(), GatingPolicy::AlwaysRun);
    assert_eq!(scheduler.interval_policy(), IntervalPolicy::ChainedTimeout);
    assert_eq!(scheduler.host(), HostHandle(77));
    assert_eq!(scheduler.settings().wake_delay(), millis(25.0));
    assert_eq!(scheduler.settings().effective_delay(), millis(25.0));
    assert_eq!(scheduler.settings().worker(), Some(&5));
}

#[test]
fn start_reports_each_failure() {
    let run = GatingPolicy::AlwaysRun;
    let unsupported: Result<BackgroundTickScheduler<u32>, KeepaliveError> =
        BackgroundTickScheduler::start(config(100.0, run), HostHandle(0), WorkerSpawn::Unsupported);
    assert_eq!(unsupported.err(), Some(KeepaliveError::EnvironmentUnsupported));
    let failed: Result<BackgroundTickScheduler<u32>, KeepaliveError> =
        BackgroundTickScheduler::start(config(100.0, run), HostHandle(0), WorkerSpawn::Failed);
    assert_eq!(failed.err(), Some(KeepaliveError::WorkerCreationFailed));
    let invalid: Result<BackgroundTickScheduler<u32>, KeepaliveError> =
        BackgroundTickScheduler::start(config(0.0, run), HostHandle(0), WorkerSpawn::Created(1));
    assert_eq!(invalid.err(), Some(KeepaliveError::InvalidDelay));
    let both: Result<BackgroundTickScheduler<u32>, KeepaliveError> =
        BackgroundTickScheduler::start(config(f64::NAN, run), HostHandle(0), WorkerSpawn::Failed);
    assert_eq!(both.err(), Some(KeepaliveError::InvalidDelay));
}

#[test]
fn no_update_after_dispose() {
    let mut scheduler = started(100.0, GatingPolicy::AlwaysRun);
    assert_eq!(scheduler.on_tick(TickMessage, seen(false)), TickOutcome::RunHostUpdate);
    assert_eq!(scheduler.dispose(), Some(9));
    assert!(!scheduler.is_active());
    for _ in 0..10 {
        assert_eq!(scheduler.on_tick(TickMessage, seen(false)), TickOutcome::Terminated);
        assert_eq!(scheduler.on_tick(TickMessage, seen(true)), TickOutcome::Terminated);
    }
    assert_eq!(scheduler.dispose(), None);
    assert_eq!(scheduler.dispose(), None);
    assert_eq!(scheduler.on_tick(TickMessage, seen(false)), TickOutcome::Terminated);
}

#[test]
fn a_disposed_scheduler_refuses_requests() {
    let mut scheduler = started(100.0, GatingPolicy::AlwaysRun);
    scheduler.dispose();
    assert_eq!(scheduler.update_delay(millis(200.0)), Err(KeepaliveError::SchedulerDisposed));
    assert_eq!(scheduler.set_wake_delay(millis(200.0)), Err(KeepaliveError::SchedulerDisposed));
    assert_eq!(scheduler.apply_settings(), Err(KeepaliveError::SchedulerDisposed));
    assert_eq!(scheduler.settings().effective_delay(), millis(100.0));
    assert_eq!(scheduler.settings().wake_delay(), millis(100.0));
}

#[test]
fn scheduler_applies_the_written_delay() {
    let mut scheduler = started(100.0, GatingPolicy::AlwaysRun);
    assert_eq!(scheduler.set_wake_delay(millis(250.0)), Ok(()));
    assert_eq!(scheduler.settings().wake_delay(), millis(250.0));
    assert_eq!(scheduler.settings().effective_delay(), millis(100.0));
    assert_eq!(
        scheduler.apply_settings(),
        Ok(Some(ControlMessage { new_delay_millis: millis(250.0) }))
    );
    assert_eq!(scheduler.settings().effective_delay(), millis(250.0));
    assert_eq!(scheduler.apply_settings(), Ok(None));

    assert_eq!(scheduler.set_wake_delay(millis(-3.0)), Ok(()));
    assert_eq!(scheduler.apply_settings(), Err(KeepaliveError::InvalidDelay));
    assert_eq!(scheduler.settings().effective_delay(), millis(250.0));
    assert_eq!(scheduler.settings().wake_delay(), millis(-3.0));
}

#[test]
fn update_then_invalid_update_keeps_the_first() {
    let mut settings: KeepaliveSettings<u32> =
        KeepaliveSettings::initialize(millis(100.0), WorkerSpawn::Created(3)).unwrap();
    assert_eq!(
        settings.update_delay(millis(200.0)),
        Ok(Some(ControlMessage { new_delay_millis: millis(200.0) }))
    );
    assert_eq!(settings.update_delay(millis(-1.0)), Err(KeepaliveError::InvalidDelay));
    assert_eq!(settings.effective_delay(), millis(200.0));
    assert_eq!(settings.wake_delay(), millis(200.0));
    assert_eq!(f64::from_bits(settings.effective_delay().to_bits()), 200.0);
}

#[test]
fn invalid_delays_are_rejected() {
    let mut settings: KeepaliveSettings<u32> =
        KeepaliveSettings::initialize(millis(100.0), WorkerSpawn::Created(3)).unwrap();
    for bad in [0.0, -0.0, -5.0, f64::NAN, -f64::NAN, f64::INFINITY, f64::NEG_INFINITY, -1e-300] {
        assert_eq!(settings.update_delay(millis(bad)), Err(KeepaliveError::InvalidDelay));
        assert_eq!(settings.effective_delay(), millis(100.0));
        assert_eq!(settings.wake_delay(), millis(100.0));
        assert!(settings.is_live());
    }
}

#[test]
fn repeated_update_has_no_further_effect() {
    let mut settings: KeepaliveSettings<u32> =
        KeepaliveSettings::initialize(millis(100.0), WorkerSpawn::Created(3)).unwrap();
    assert_eq!(
        settings.update_delay(millis(40.0)),
        Ok(Some(ControlMessage { new_delay_millis: millis(40.0) }))
    );
    for _ in 0..5 {
        assert_eq!(settings.update_delay(millis(40.0)), Ok(None));
        assert_eq!(settings.effective_delay(), millis(40.0));
        assert_eq!(settings.wake_delay(), millis(40.0));
    }
}

#[test]
fn update_to_the_initial_delay_owes_no_message() {
    let mut settings: KeepaliveSettings<u32> =
        KeepaliveSettings::initialize(millis(100.0), WorkerSpawn::Created(3)).unwrap();
    assert_eq!(settings.update_delay(millis(100.0)), Ok(None));
}

#[test]
fn initialize_reports_each_failure() {
    let unsupported: Result<KeepaliveSettings<u32>, KeepaliveError> =
        KeepaliveSettings::initialize(millis(100.0), WorkerSpawn::Unsupported);
    assert_eq!(unsupported.err(), Some(KeepaliveError::EnvironmentUnsupported));
    let failed: Result<KeepaliveSettings<u32>, KeepaliveError> =
        KeepaliveSettings::initialize(millis(100.0), WorkerSpawn::Failed);
    assert_eq!(failed.err(), Some(KeepaliveError::WorkerCreationFailed));
    let invalid: Result<KeepaliveSettings<u32>, KeepaliveError> =
        KeepaliveSettings::initialize(millis(-100.0), WorkerSpawn::Created(1));
    assert_eq!(invalid.err(), Some(KeepaliveError::InvalidDelay));
}

#[test]
fn settings_after_dispose() {
    let mut settings: KeepaliveSettings<String> =
        KeepaliveSettings::initialize(millis(100.0), WorkerSpawn::Created("worker".to_string()))
            .unwrap();
    assert!(settings.is_live());
    assert_eq!(settings.worker().map(|w| w.as_str()), Some("worker"));
    assert_eq!(settings.dispose(), Some("worker".to_string()));
    assert!(!settings.is_live());
    assert_eq!(settings.worker(), None);
    assert_eq!(settings.dispose(), None);
    assert_eq!(settings.update_delay(millis(5.0)), Err(KeepaliveError::SchedulerDisposed));
    assert_eq!(settings.update_delay(millis(-5.0)), Err(KeepaliveError::SchedulerDisposed));
    assert_eq!(settings.set_wake_delay(millis(5.0)), Err(KeepaliveError::SchedulerDisposed));
    assert_eq!(settings.apply_settings(), Err(KeepaliveError::SchedulerDisposed));
    assert_eq!(settings.effective_delay(), millis(100.0));
    assert_eq!(settings.wake_delay(), millis(100.0));
}

#[test]
fn default_configuration() {
    let plugin = WebKeepalivePlugin::default();
    assert_eq!(f64::from_bits(plugin.initial_wake_delay.to_bits()), 16.667);
    assert_eq!(plugin.gating_policy, GatingPolicy::RunOnlyWhenBackgrounded);
    assert_eq!(plugin.interval_policy, IntervalPolicy::FixedInterval);
    assert!(plugin.initial_wake_delay.is_positive_finite());
}

#[test]
fn which_failures_end_the_startup() {
    assert!(KeepaliveError::EnvironmentUnsupported.is_fatal_at_startup());
    assert!(KeepaliveError::WorkerCreationFailed.is_fatal_at_startup());
    assert!(!KeepaliveError::InvalidDelay.is_fatal_at_startup());
    assert!(!KeepaliveError::SchedulerDisposed.is_fatal_at_startup());
}
