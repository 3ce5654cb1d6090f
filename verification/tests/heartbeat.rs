use bevy_web_keepalive::error::KeepaliveError;
use bevy_web_keepalive::heartbeat::{HeartbeatLoop, LoopStep, TimerRequest};
use bevy_web_keepalive::message::{ControlMessage, IntervalPolicy, TickMessage};
use bevy_web_keepalive::millis::Millis;

fn millis(value: f64) -> Millis {
    Millis::from_bits(value.to_bits())
}

fn control(value: f64) -> ControlMessage {
    ControlMessage { new_delay_millis: millis(value) }
}

const IDLE: LoopStep = LoopStep { tick: None, cancel: None, arm: None };

#[test]
fn create_arms_the_first_timer() {
    let (fixed, first) = HeartbeatLoop::create(millis(100.0), IntervalPolicy::FixedInterval).unwrap();
    assert_eq!(first, TimerRequest { id: 0, delay: millis(100.0), repeating: true });
    assert_eq!(fixed.timer(), 0);
    assert_eq!(fixed.delay(), millis(100.0));
    assert_eq!(fixed.policy(), IntervalPolicy::FixedInterval);
    assert_eq!(fixed.request(), first);

    let (chained, first) =
        HeartbeatLoop::create(millis(100.0), IntervalPolicy::ChainedTimeout).unwrap();
    assert_eq!(first, TimerRequest { id: 0, delay: millis(100.0), repeating: false });
    assert_eq!(chained.policy(), IntervalPolicy::ChainedTimeout);
}

#[test]
fn create_refuses_an_invalid_delay() {
    for bad in [0.0, -5.0, f64::NAN, f64::INFINITY] {
        for policy in [IntervalPolicy::FixedInterval, IntervalPolicy::ChainedTimeout] {
            let made = HeartbeatLoop::create(millis(bad), policy);
            assert_eq!(made.err(), Some(KeepaliveError::InvalidDelay));
        }
    }
}

#[test]
fn fixed_interval_ticks_on_every_firing() {
    let (mut fixed, first) =
        HeartbeatLoop::create(millis(100.0), IntervalPolicy::FixedInterval).unwrap();
    for _ in 0..5 {
        let step = fixed.on_timer(first.id);
        assert_eq!(step, LoopStep { tick: Some(TickMessage), cancel: None, arm: None });
        assert_eq!(fixed.timer(), 0);
    }
}

#[test]
fn fixed_interval_rearms_on_a_new_delay() {
    let (mut fixed, _) = HeartbeatLoop::create(millis(100.0), IntervalPolicy::FixedInterval).unwrap();
    let step = fixed.on_control(control(200.0));
    assert_eq!(
        step,
        LoopStep {
            tick: None,
            cancel: Some(0),
            arm: Some(TimerRequest { id: 1, delay: millis(200.0), repeating: true }),
        }
    );
    assert_eq!(fixed.delay(), millis(200.0));
    assert_eq!(fixed.timer(), 1);
    assert_eq!(fixed.on_timer(0), IDLE);
    assert_eq!(fixed.on_timer(1), LoopStep { tick: Some(TickMessage), cancel: None, arm: None });
}

#[test]
fn chained_timeout_arms_the_next_timer_on_each_tick() {
    let (mut chained, _) =
        HeartbeatLoop::create(millis(50.0), IntervalPolicy::ChainedTimeout).unwrap();
    for id in 0..4u64 {
        let step = chained.on_timer(id);
        assert_eq!(
            step,
            LoopStep {
                tick: Some(TickMessage),
                cancel: None,
                arm: Some(TimerRequest { id: id + 1, delay: millis(50.0), repeating: false }),
            }
        );
        assert_eq!(chained.on_timer(id), IDLE);
    }
}

#[test]
fn chained_timeout_takes_a_new_delay_from_the_next_timer() {
    let (mut chained, _) =
        HeartbeatLoop::create(millis(50.0), IntervalPolicy::ChainedTimeout).unwrap();
    assert_eq!(chained.on_control(control(75.0)), IDLE);
    assert_eq!(chained.delay(), millis(75.0));
    assert_eq!(chained.timer(), 0);
    assert_eq!(
        chained.on_timer(0),
        LoopStep {
            tick: Some(TickMessage),
            cancel: None,
            arm: Some(TimerRequest { id: 1, delay: millis(75.0), repeating: false }),
        }
    );
}

#[test]
fn an_invalid_control_message_is_ignored() {
    for policy in [IntervalPolicy::FixedInterval, IntervalPolicy::ChainedTimeout] {
        let (mut beat, _) = HeartbeatLoop::create(millis(100.0), policy).unwrap();
        for bad in [0.0, -0.0, -5.0, -1.0, f64::NAN, f64::INFINITY, f64::NEG_INFINITY] {
            assert_eq!(beat.on_control(control(bad)), IDLE);
            assert_eq!(beat.delay(), millis(100.0));
            assert_eq!(beat.timer(), 0);
        }
    }
}

#[test]
fn a_repeated_control_message_is_ignored() {
    let (mut fixed, _) = HeartbeatLoop::create(millis(100.0), IntervalPolicy::FixedInterval).unwrap();
    assert_eq!(fixed.on_control(control(100.0)), IDLE);
    assert_eq!(fixed.on_control(control(200.0)).cancel, Some(0));
    for _ in 0..3 {
        assert_eq!(fixed.on_control(control(200.0)), IDLE);
        assert_eq!(fixed.timer(), 1);
        assert_eq!(fixed.delay(), millis(200.0));
    }
}

#[test]
fn a_control_message_never_ticks() {
    for policy in [IntervalPolicy::FixedInterval, IntervalPolicy::ChainedTimeout] {
        let (mut beat, _) = HeartbeatLoop::create(millis(100.0), policy).unwrap();
        for delay in [200.0, 200.0, 1.0, -1.0, 300.0, f64::NAN, 100.0] {
            assert_eq!(beat.on_control(control(delay)).tick, None);
        }
    }
}

#[test]
fn one_timer_is_armed_at_any_time() {
    for policy in [IntervalPolicy::FixedInterval, IntervalPolicy::ChainedTimeout] {
        let (mut beat, first) = HeartbeatLoop::create(millis(10.0), policy).unwrap();
        let mut armed = vec![first.id];
        let mut ticks = 0;
        for round in 0..50u64 {
            let step = if round % 3 == 0 {
                beat.on_control(control(10.0 + (round % 7) as f64))
            } else {
                let id = armed[0];
                if !first.repeating {
                    armed.clear();
                }
                beat.on_timer(id)
            };
            if let Some(id) = step.cancel {
                armed.retain(|held| *held != id);
            }
            if let Some(request) = step.arm {
                armed.push(request.id);
                assert_eq!(request.delay, beat.delay());
                assert_eq!(request.repeating, first.repeating);
            }
            if step.tick.is_some() {
                ticks += 1;
            }
            assert_eq!(armed, vec![beat.timer()]);
        }
        assert_eq!(ticks, 33);
    }
}

#[test]
fn what_is_no_number_is_ignored() {
    for policy in [IntervalPolicy::FixedInterval, IntervalPolicy::ChainedTimeout] {
        let (mut beat, _) = HeartbeatLoop::create(millis(100.0), policy).unwrap();
        assert_eq!(beat.on_message(None), IDLE);
        assert_eq!(beat.delay(), millis(100.0));
        assert_eq!(beat.on_message(Some(millis(f64::NAN))), IDLE);
        assert_eq!(beat.on_message(Some(millis(0.0))), IDLE);
        assert_eq!(beat.delay(), millis(100.0));
        assert_eq!(beat.timer(), 0);
        let step = beat.on_message(Some(millis(30.0)));
        assert_eq!(step.tick, None);
        assert_eq!(beat.delay(), millis(30.0));
        assert_eq!(step.arm.is_some(), policy == IntervalPolicy::FixedInterval);
    }
}

#[test]
fn chained_timer_ids_count_up() {
    let (mut chained, _) =
        HeartbeatLoop::create(millis(1.0), IntervalPolicy::ChainedTimeout).unwrap();
    let mut id = 0u64;
    let mut ticks = 0u64;
    for _ in 0..1000 {
        let step = chained.on_timer(id);
        assert!(step.tick.is_some());
        ticks += 1;
        id = step.arm.unwrap().id;
        assert_eq!(id, ticks);
    }
    assert_eq!(chained.timer(), 1000);
}
