//! The background timer: how long the page has been in the background.

use bevy_time::Stopwatch;
use core::time::Duration;
use vstd::prelude::*;

verus! {

/// The nanoseconds in a second.
pub const NANOS_PER_SEC: u32 = 1_000_000_000;

/// The nanoseconds of `secs` seconds and `subsec_nanos` nanoseconds.
pub open spec fn total_nanos(secs: u64, subsec_nanos: u32) -> nat {
    (secs * NANOS_PER_SEC + subsec_nanos) as nat
}

/// The longest span of time: no stopwatch counts beyond it.
pub open spec fn longest_span_nanos() -> nat {
    total_nanos(u64::MAX, 999_999_999)
}

/// The sum of two spans, held at the longest span.
pub open spec fn saturating_sum(a: nat, b: nat) -> nat {
    if a + b <= longest_span_nanos() {
        a + b
    } else {
        longest_span_nanos()
    }
}

/// A span of time in whole seconds and the nanoseconds of a second begun.
#[derive(Clone, Copy, Debug, PartialEq, Eq, Hash, Structural)]
pub struct Span {
    secs: u64,
    subsec_nanos: u32,
}

impl Span {
    /// The second begun is not a full one.
    #[verifier::type_invariant]
    spec fn well_formed(self) -> bool {
        self.subsec_nanos < NANOS_PER_SEC
    }

    /// The span in nanoseconds.
    pub closed spec fn nanos(self) -> nat {
        total_nanos(self.secs, self.subsec_nanos)
    }

    /// The span of `secs` seconds and `subsec_nanos` nanoseconds, where the
    /// nanoseconds are less than a second.
    pub fn new(secs: u64, subsec_nanos: u32) -> (r: Option<Span>)
        ensures
            r is Some == (subsec_nanos < NANOS_PER_SEC),
            r matches Some(span) ==> span.nanos() == total_nanos(secs, subsec_nanos),
    {
        if subsec_nanos < NANOS_PER_SEC {
            Some(Span { secs, subsec_nanos })
        } else {
            None
        }
    }

    /// No time at all.
    pub fn zero() -> (span: Span)
        ensures
            span.nanos() == 0,
    {
        Span { secs: 0, subsec_nanos: 0 }
    }

    /// The whole seconds of the span.
    pub fn as_secs(&self) -> (secs: u64)
        ensures
            secs == self.nanos() / (NANOS_PER_SEC as nat),
    {
        proof {
            use_type_invariant(self);
        }
        self.secs
    }

    /// The nanoseconds beyond the whole seconds.
    pub fn subsec_nanos(&self) -> (nanos: u32)
        ensures
            nanos == self.nanos() % (NANOS_PER_SEC as nat),
            nanos < NANOS_PER_SEC,
    {
        proof {
            use_type_invariant(self);
        }
        self.subsec_nanos
    }
}

/// What the timer is, to a contract.
pub struct TimerView {
    /// The time counted, in nanoseconds.
    pub elapsed: nat,
    /// The timer is paused and counts nothing.
    pub paused: bool,
}

impl TimerView {
    /// The timer after `delta` nanoseconds have passed.
    pub open spec fn tick(self, delta: nat) -> TimerView {
        if self.paused {
            self
        } else {
            TimerView { elapsed: saturating_sum(self.elapsed, delta), ..self }
        }
    }

    /// The timer set back to no time.
    pub open spec fn reset(self) -> TimerView {
        TimerView { elapsed: 0, ..self }
    }

    /// The timer after one update of the host, `delta` nanoseconds after
    /// the one before. It counts while the page is known to be hidden, and
    /// starts again from nothing as soon as it is not.
    pub open spec fn update(self, document_hidden: Option<bool>, delta: nat) -> TimerView {
        if document_hidden == Some(true) {
            self.tick(delta)
        } else {
            self.reset()
        }
    }
}

/// Configures the timer of the time spent in the background. The timer
/// counts only what the host's updates report, so it needs a heartbeat
/// that runs them while the page is hidden.
#[derive(Clone, Copy, Debug, PartialEq, Eq, Hash, Structural)]
pub struct BackgroundTimerPlugin;

impl Default for BackgroundTimerPlugin {
    fn default() -> (plugin: Self)
        ensures
            plugin == BackgroundTimerPlugin,
    {
        BackgroundTimerPlugin
    }
}

/// Counts the time that the page has been in the background.
#[derive(Clone, Copy, Debug, PartialEq, Eq)]
pub struct BackgroundTimer {
    elapsed: Span,
    paused: bool,
}

impl View for BackgroundTimer {
    type V = TimerView;

    closed spec fn view(&self) -> TimerView {
        TimerView { elapsed: self.elapsed.nanos(), paused: self.paused }
    }
}

impl Default for BackgroundTimer {
    /// A running timer that has counted nothing.
    fn default() -> (timer: Self)
        ensures
            timer@ == (TimerView { elapsed: 0, paused: false }),
    {
        BackgroundTimer { elapsed: Span::zero(), paused: false }
    }
}

impl BackgroundTimer {
    /// The time counted.
    pub fn elapsed(&self) -> (span: Span)
        ensures
            span.nanos() == self@.elapsed,
    {
        self.elapsed
    }

    /// Whether the timer is paused.
    pub fn is_paused(&self) -> (r: bool)
        ensures
            r == self@.paused,
    {
        self.paused
    }

    /// Pauses the timer: it keeps its time and counts no more.
    pub fn pause(&mut self)
        ensures
            final(self)@ == (TimerView { paused: true, ..old(self)@ }),
    {
        self.paused = true;
    }

    /// Lets the timer count again.
    pub fn unpause(&mut self)
        ensures
            final(self)@ == (TimerView { paused: false, ..old(self)@ }),
    {
        self.paused = false;
    }

    /// Counts `delta`, unless the timer is paused.
    pub fn tick(&mut self, delta: Span)
        ensures
            final(self)@ == old(self)@.tick(delta.nanos()),
    {
        if !self.paused {
            proof {
                use_type_invariant(self.elapsed);
                use_type_invariant(delta);
            }
            let after = stopwatch_tick(
                (self.elapsed.secs, self.elapsed.subsec_nanos),
                (delta.secs, delta.subsec_nanos),
            );
            self.elapsed = Span { secs: after.0, subsec_nanos: after.1 };
        }
    }

    /// Sets the timer back to no time. A paused timer stays paused.
    pub fn reset(&mut self)
        ensures
            final(self)@ == old(self)@.reset(),
    {
        proof {
            use_type_invariant(self.elapsed);
        }
        let after = stopwatch_reset((self.elapsed.secs, self.elapsed.subsec_nanos));
        self.elapsed = Span { secs: after.0, subsec_nanos: after.1 };
    }

    /// Takes one update of the host. `document_hidden` is what the page
    /// says of itself, if there is a page to ask, and `delta` the time since
    /// the update before.
    pub fn update(&mut self, document_hidden: Option<bool>, delta: Span)
        ensures
            final(self)@ == old(self)@.update(document_hidden, delta.nanos()),
    {
        let hidden = match document_hidden {
            Some(hidden) => hidden,
            None => false,
        };
        if hidden {
            self.tick(delta);
        } else {
            self.reset();
        }
    }
}

/// `bevy_time::Stopwatch::tick` on a running stopwatch that shows `elapsed`,
/// each span given as seconds and nanoseconds of a second begun. The
/// stopwatch then shows the sum of the two spans, or the longest span where
/// the sum is beyond it.
#[verifier::external_body]
fn stopwatch_tick(elapsed: (u64, u32), delta: (u64, u32)) -> (after: (u64, u32))
    requires
        elapsed.1 < NANOS_PER_SEC,
        delta.1 < NANOS_PER_SEC,
    ensures
        after.1 < NANOS_PER_SEC,
        total_nanos(after.0, after.1) == saturating_sum(
            total_nanos(elapsed.0, elapsed.1),
            total_nanos(delta.0, delta.1),
        ),
{
    let mut watch = Stopwatch::new();
    watch.set_elapsed(Duration::new(elapsed.0, elapsed.1));
    watch.tick(Duration::new(delta.0, delta.1));
    let shown = watch.elapsed();
    (shown.as_secs(), shown.subsec_nanos())
}

/// `bevy_time::Stopwatch::reset` on a stopwatch that shows `elapsed`: the
/// stopwatch then shows no time.
#[verifier::external_body]
fn stopwatch_reset(elapsed: (u64, u32)) -> (after: (u64, u32))
    requires
        elapsed.1 < NANOS_PER_SEC,
    ensures
        after == (0u64, 0u32),
{
    let mut watch = Stopwatch::new();
    watch.set_elapsed(Duration::new(elapsed.0, elapsed.1));
    watch.reset();
    let shown = watch.elapsed();
    (shown.as_secs(), shown.subsec_nanos())
}

/// The timer holds the time of the present stay in the background: each
/// update that finds the page hidden adds to it, and one that does not
/// leaves nothing of it.
pub proof fn lemma_timer_follows_visibility(timer: TimerView, delta: nat)
    requires
        !timer.paused,
    ensures
        timer.update(Some(true), delta).elapsed == saturating_sum(timer.elapsed, delta),
        timer.update(Some(false), delta).elapsed == 0,
        timer.update(None, delta).elapsed == 0,
        timer.elapsed + delta <= longest_span_nanos() ==> timer.update(Some(true), delta).elapsed
            == timer.elapsed + delta,
{
}

} // verus!
