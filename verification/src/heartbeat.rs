//! The worker's side of the heartbeat: one timer, a tick each time it
//! fires, and a new delay whenever the host asks for one.
//!
//! The loop owns no clock. Its caller arms and cancels the timers that a
//! step names and reports each firing by the timer's id.

use vstd::prelude::*;
use crate::error::KeepaliveError;
use crate::message::{ControlMessage, IntervalPolicy, TickMessage};
use crate::millis::Millis;

verus! {

/// A timer for the caller to arm.
#[derive(Clone, Copy, Debug, PartialEq, Eq, Hash, Structural)]
pub struct TimerRequest {
    /// The id under which its firings are to be reported.
    pub id: u64,
    /// The time to wait before it fires, and between two firings.
    pub delay: Millis,
    /// Whether it fires again and again, or once.
    pub repeating: bool,
}

/// What the caller is to do after a step of the loop: first cancel, then
/// arm, then send.
#[derive(Clone, Copy, Debug, PartialEq, Eq, Hash, Structural)]
pub struct LoopStep {
    /// The tick to send to the host.
    pub tick: Option<TickMessage>,
    /// The id of the timer to cancel.
    pub cancel: Option<u64>,
    /// The timer to arm.
    pub arm: Option<TimerRequest>,
}

impl LoopStep {
    /// The step that asks for nothing.
    pub open spec fn idle() -> LoopStep {
        LoopStep { tick: None, cancel: None, arm: None }
    }

    /// The timers that are armed once the caller has done what the step
    /// asks, of those that were armed before.
    pub open spec fn armed_after(self, armed: Set<u64>) -> Set<u64> {
        let kept = match self.cancel {
            Some(id) => armed.remove(id),
            None => armed,
        };
        match self.arm {
            Some(request) => kept.insert(request.id),
            None => kept,
        }
    }
}

/// The id that follows `id`. It differs from `id`.
pub open spec fn next_timer(id: u64) -> u64 {
    if id == u64::MAX {
        0
    } else {
        (id + 1) as u64
    }
}

/// What the loop is, to a contract.
pub struct LoopView {
    pub policy: IntervalPolicy,
    /// The delay at which the loop beats, or will from its next timer on.
    pub delay: Millis,
    /// The id of the one timer whose firings count.
    pub timer: u64,
}

impl LoopView {
    /// The loop that `create` makes.
    pub open spec fn create(initial_delay: Millis, policy: IntervalPolicy) -> LoopView {
        LoopView { policy, delay: initial_delay, timer: 0 }
    }

    /// The timer that beats at the loop's delay under the loop's policy.
    pub open spec fn request(self) -> TimerRequest {
        TimerRequest {
            id: self.timer,
            delay: self.delay,
            repeating: self.policy is FixedInterval,
        }
    }

    /// A message that changes the delay: it names a delay that a heartbeat
    /// can run at, other than the one in use.
    pub open spec fn moved_by(self, message: ControlMessage) -> bool {
        message.new_delay_millis.positive_finite() && message.new_delay_millis != self.delay
    }

    /// The loop after a message from the host.
    pub open spec fn control(self, message: ControlMessage) -> LoopView {
        if !self.moved_by(message) {
            self
        } else {
            match self.policy {
                IntervalPolicy::FixedInterval => LoopView {
                    delay: message.new_delay_millis,
                    timer: next_timer(self.timer),
                    ..self
                },
                IntervalPolicy::ChainedTimeout => LoopView {
                    delay: message.new_delay_millis,
                    ..self
                },
            }
        }
    }

    /// What the caller is to do after a message from the host. No message
    /// leads to a tick.
    pub open spec fn control_step(self, message: ControlMessage) -> LoopStep {
        if self.moved_by(message) && self.policy is FixedInterval {
            LoopStep {
                tick: None,
                cancel: Some(self.timer),
                arm: Some(self.control(message).request()),
            }
        } else {
            LoopStep::idle()
        }
    }

    /// The loop after whatever the channel delivered: a number, or
    /// something that is none.
    pub open spec fn receive(self, data: Option<Millis>) -> LoopView {
        match data {
            Some(delay) => self.control(ControlMessage { new_delay_millis: delay }),
            None => self,
        }
    }

    /// What the caller is to do after whatever the channel delivered.
    pub open spec fn receive_step(self, data: Option<Millis>) -> LoopStep {
        match data {
            Some(delay) => self.control_step(ControlMessage { new_delay_millis: delay }),
            None => LoopStep::idle(),
        }
    }

    /// The loop after the timer `id` has fired.
    pub open spec fn fire(self, id: u64) -> LoopView {
        if id == self.timer && self.policy is ChainedTimeout {
            LoopView { timer: next_timer(self.timer), ..self }
        } else {
            self
        }
    }

    /// What the caller is to do after the timer `id` has fired. A timer
    /// that the loop has given up leads to nothing.
    pub open spec fn fire_step(self, id: u64) -> LoopStep {
        if id != self.timer {
            LoopStep::idle()
        } else {
            match self.policy {
                IntervalPolicy::FixedInterval => LoopStep {
                    tick: Some(TickMessage),
                    cancel: None,
                    arm: None,
                },
                IntervalPolicy::ChainedTimeout => LoopStep {
                    tick: Some(TickMessage),
                    cancel: None,
                    arm: Some(self.fire(id).request()),
                },
            }
        }
    }

    /// The loop after the timer whose firings count has fired `beats`
    /// times, with no message in between.
    pub open spec fn after_beats(self, beats: nat) -> LoopView
        decreases beats,
    {
        if beats == 0 {
            self
        } else {
            let before = self.after_beats((beats - 1) as nat);
            before.fire(before.timer)
        }
    }

    /// The ticks that those firings send.
    pub open spec fn ticks_in(self, beats: nat) -> nat
        decreases beats,
    {
        if beats == 0 {
            0
        } else {
            let before = self.after_beats((beats - 1) as nat);
            if before.fire_step(before.timer).tick is Some {
                self.ticks_in((beats - 1) as nat) + 1
            } else {
                self.ticks_in((beats - 1) as nat)
            }
        }
    }
}

/// The timer loop that runs in the worker.
#[derive(Debug)]
pub struct HeartbeatLoop {
    policy: IntervalPolicy,
    delay: Millis,
    timer: u64,
}

impl View for HeartbeatLoop {
    type V = LoopView;

    closed spec fn view(&self) -> LoopView {
        LoopView { policy: self.policy, delay: self.delay, timer: self.timer }
    }
}

impl HeartbeatLoop {
    /// The loop beats at a delay that a heartbeat can run at.
    #[verifier::type_invariant]
    spec fn well_formed(self) -> bool {
        self.delay.positive_finite()
    }

    /// Makes the loop and the first timer for the caller to arm.
    pub fn create(initial_delay: Millis, policy: IntervalPolicy) -> (r: Result<
        (HeartbeatLoop, TimerRequest),
        KeepaliveError,
    >)
        ensures
            r is Ok == initial_delay.positive_finite(),
            r matches Ok(made) ==> made.0@ == LoopView::create(initial_delay, policy) && made.1
                == made.0@.request(),
            r matches Err(e) ==> e == KeepaliveError::InvalidDelay,
    {
        if !initial_delay.is_positive_finite() {
            return Err(KeepaliveError::InvalidDelay);
        }
        let made = HeartbeatLoop { policy, delay: initial_delay, timer: 0 };
        let first = made.request();
        Ok((made, first))
    }

    /// How the loop keeps time.
    pub fn policy(&self) -> (policy: IntervalPolicy)
        ensures
            policy == self@.policy,
    {
        self.policy
    }

    /// The delay at which the loop beats, or will from its next timer on.
    pub fn delay(&self) -> (delay: Millis)
        ensures
            delay == self@.delay,
            delay.positive_finite(),
    {
        proof {
            use_type_invariant(self);
        }
        self.delay
    }

    /// The id of the one timer whose firings count.
    pub fn timer(&self) -> (id: u64)
        ensures
            id == self@.timer,
    {
        self.timer
    }

    /// The timer that beats at the loop's delay under the loop's policy.
    pub fn request(&self) -> (request: TimerRequest)
        ensures
            request == self@.request(),
    {
        let repeating = match self.policy {
            IntervalPolicy::FixedInterval => true,
            IntervalPolicy::ChainedTimeout => false,
        };
        TimerRequest { id: self.timer, delay: self.delay, repeating }
    }

    /// Takes a message from the host.
    ///
    /// A delay that no heartbeat can run at is ignored, and so is the delay
    /// in use. Under `FixedInterval` another delay has the timer cancelled
    /// and a new one armed in its place; under `ChainedTimeout` it waits
    /// for the next timer.
    pub fn on_control(&mut self, message: ControlMessage) -> (step: LoopStep)
        ensures
            final(self)@ == old(self)@.control(message),
            step == old(self)@.control_step(message),
    {
        proof {
            use_type_invariant(&*self);
        }
        let delay = message.new_delay_millis;
        if !delay.is_positive_finite() || delay.to_bits() == self.delay.to_bits() {
            return LoopStep { tick: None, cancel: None, arm: None };
        }
        self.delay = delay;
        match self.policy {
            IntervalPolicy::FixedInterval => {
                let given_up = self.timer;
                self.timer = following(given_up);
                LoopStep { tick: None, cancel: Some(given_up), arm: Some(self.request()) }
            },
            IntervalPolicy::ChainedTimeout => LoopStep { tick: None, cancel: None, arm: None },
        }
    }

    /// Takes whatever the channel delivered. Something that is no number is
    /// ignored like a number that no heartbeat can run at: the loop never
    /// stops over a message.
    pub fn on_message(&mut self, data: Option<Millis>) -> (step: LoopStep)
        ensures
            final(self)@ == old(self)@.receive(data),
            step == old(self)@.receive_step(data),
    {
        match data {
            Some(delay) => self.on_control(ControlMessage { new_delay_millis: delay }),
            None => LoopStep { tick: None, cancel: None, arm: None },
        }
    }

    /// Takes the firing of the timer `id`.
    pub fn on_timer(&mut self, id: u64) -> (step: LoopStep)
        ensures
            final(self)@ == old(self)@.fire(id),
            step == old(self)@.fire_step(id),
    {
        proof {
            use_type_invariant(&*self);
        }
        if id != self.timer {
            return LoopStep { tick: None, cancel: None, arm: None };
        }
        match self.policy {
            IntervalPolicy::FixedInterval => LoopStep {
                tick: Some(TickMessage),
                cancel: None,
                arm: None,
            },
            IntervalPolicy::ChainedTimeout => {
                self.timer = following(id);
                LoopStep { tick: Some(TickMessage), cancel: None, arm: Some(self.request()) }
            },
        }
    }
}

/// The id that follows `id`.
fn following(id: u64) -> (next: u64)
    ensures
        next == next_timer(id),
        next != id,
{
    if id == u64::MAX {
        0
    } else {
        id + 1
    }
}

/// A message from the host leads to no tick, so no message makes two ticks
/// of one period; and with one timer armed before it, one timer is armed
/// after it, the one whose firings count.
pub proof fn lemma_control_sends_no_tick(s: LoopView, message: ControlMessage)
    ensures
        s.control_step(message).tick is None,
        s.control_step(message).armed_after(set![s.timer]) == set![s.control(message).timer],
{
    let step = s.control_step(message);
    assert(step.armed_after(set![s.timer]) =~= set![s.control(message).timer]);
}

/// A message whose delay is zero, negative, infinite or not a number is
/// ignored: the loop beats on as before.
pub proof fn lemma_invalid_control_ignored(s: LoopView, message: ControlMessage)
    requires
        !message.new_delay_millis.positive_finite(),
    ensures
        s.control(message) == s,
        s.control_step(message) == LoopStep::idle(),
{
}

/// A message that comes a second time is ignored.
pub proof fn lemma_control_idempotent(s: LoopView, message: ControlMessage)
    ensures
        s.control(message).control(message) == s.control(message),
        s.control(message).control_step(message) == LoopStep::idle(),
{
}

/// The timer whose firings count leads to one tick each time it fires, and
/// any other timer to none. With that one timer armed before, one timer is
/// armed after: the same under `FixedInterval`, its successor under
/// `ChainedTimeout`, where a timer is spent when it fires.
pub proof fn lemma_one_timer_one_tick(s: LoopView, id: u64)
    ensures
        s.fire_step(id).tick is Some <==> id == s.timer,
        s.fire_step(id).cancel is None,
        id == s.timer && s.policy is FixedInterval ==> s.fire_step(id).armed_after(set![s.timer])
            == set![s.fire(id).timer],
        id == s.timer && s.policy is ChainedTimeout ==> s.fire_step(id).armed_after(
            set![s.timer].remove(id),
        ) == set![s.fire(id).timer],
        s.fire(id).delay == s.delay,
{
    let step = s.fire_step(id);
    if id == s.timer {
        match s.policy {
            IntervalPolicy::FixedInterval => {
                assert(step.armed_after(set![s.timer]) =~= set![s.fire(id).timer]);
            },
            IntervalPolicy::ChainedTimeout => {
                assert(step.armed_after(set![s.timer].remove(id)) =~= set![s.fire(id).timer]);
            },
        }
    }
}

/// Left to itself, the loop sends one tick for each period: as many ticks
/// as its timer fires, at the delay it was made with, under either policy.
pub proof fn lemma_one_tick_per_beat(s: LoopView, beats: nat)
    ensures
        s.ticks_in(beats) == beats,
        s.after_beats(beats).delay == s.delay,
        s.after_beats(beats).policy == s.policy,
        s.policy is FixedInterval ==> s.after_beats(beats) == s,
    decreases beats,
{
    if beats > 0 {
        lemma_one_tick_per_beat(s, (beats - 1) as nat);
    }
}

/// The timer that a step arms beats at the delay that the loop then holds,
/// under the loop's policy, and carries the id whose firings count.
pub proof fn lemma_armed_timer_is_current(s: LoopView, message: ControlMessage, id: u64)
    ensures
        s.control_step(message).arm matches Some(request) ==> request == s.control(
            message,
        ).request() && request.delay == message.new_delay_millis,
        s.fire_step(id).arm matches Some(request) ==> request == s.fire(id).request(),
{
}

} // verus!
