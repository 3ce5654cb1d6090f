//! The keepalive settings: the wake delay and, while the heartbeat runs, the
//! handle of the worker that beats.

use vstd::prelude::*;
use crate::error::KeepaliveError;
use crate::message::ControlMessage;
use crate::millis::Millis;

verus! {

/// How the caller's attempt to construct the worker ended.
#[derive(Debug)]
pub enum WorkerSpawn<W> {
    /// The worker runs; this is its handle.
    Created(W),
    /// The platform has no isolated contexts.
    Unsupported,
    /// The platform has them and could not construct one.
    Failed,
}

/// What the settings are, to a contract.
pub struct SettingsView<W> {
    /// The delay that the host last wrote.
    pub wake_delay: Millis,
    /// The delay that was last handed over for the worker.
    pub effective_delay: Millis,
    /// The worker's handle, until the settings are disposed of.
    pub worker: Option<W>,
}

impl<W> SettingsView<W> {
    /// The heartbeat runs: the settings still own the worker.
    pub open spec fn live(self) -> bool {
        self.worker is Some
    }

    /// The settings that `initialize` makes of a delay and of the outcome of
    /// constructing the worker, or the failure that it reports. The delay is
    /// judged first.
    pub open spec fn initialize(delay: Millis, spawn: WorkerSpawn<W>) -> Result<
        SettingsView<W>,
        KeepaliveError,
    > {
        if !delay.positive_finite() {
            Err(KeepaliveError::InvalidDelay)
        } else {
            match spawn {
                WorkerSpawn::Unsupported => Err(KeepaliveError::EnvironmentUnsupported),
                WorkerSpawn::Failed => Err(KeepaliveError::WorkerCreationFailed),
                WorkerSpawn::Created(worker) => Ok(
                    SettingsView { wake_delay: delay, effective_delay: delay, worker: Some(worker) },
                ),
            }
        }
    }

    /// The settings after the host has written a delay. Nothing is checked
    /// and nothing is sent until the settings are applied.
    pub open spec fn write_delay(self, delay: Millis) -> SettingsView<W> {
        if self.live() {
            SettingsView { wake_delay: delay, ..self }
        } else {
            self
        }
    }

    /// The settings after a request to beat at `delay`.
    pub open spec fn update_delay(self, delay: Millis) -> SettingsView<W> {
        if self.live() && delay.positive_finite() {
            SettingsView { wake_delay: delay, effective_delay: delay, ..self }
        } else {
            self
        }
    }

    /// What a request to beat at `delay` returns: the failure, or the
    /// message that is now owed to the worker, if any. None is owed for the
    /// delay that is in effect already.
    pub open spec fn update_reply(self, delay: Millis) -> Result<
        Option<ControlMessage>,
        KeepaliveError,
    > {
        if !self.live() {
            Err(KeepaliveError::SchedulerDisposed)
        } else if !delay.positive_finite() {
            Err(KeepaliveError::InvalidDelay)
        } else if delay == self.effective_delay {
            Ok(None)
        } else {
            Ok(Some(ControlMessage { new_delay_millis: delay }))
        }
    }

    /// The settings after they have been disposed of.
    pub open spec fn dispose(self) -> SettingsView<W> {
        SettingsView { worker: None, ..self }
    }
}

/// Asking again for the delay that was just asked for changes nothing and
/// owes the worker no message: what the first request did is all that the
/// requests do, however many follow.
pub proof fn lemma_update_delay_idempotent<W>(s: SettingsView<W>, delay: Millis)
    ensures
        s.update_delay(delay).update_delay(delay) == s.update_delay(delay),
        s.update_reply(delay) is Ok ==> s.update_delay(delay).update_reply(delay) == Ok::<
            Option<ControlMessage>,
            KeepaliveError,
        >(None),
        s.update_reply(delay) is Err ==> s.update_delay(delay).update_reply(delay)
            == s.update_reply(delay),
{
}

/// Live settings refuse a delay that is zero, negative, infinite or not a
/// number, and stay as they were: the delay in effect is the one before.
pub proof fn lemma_invalid_delay_rejected<W>(s: SettingsView<W>, delay: Millis)
    requires
        s.live(),
        delay.zero() || delay.sign_negative() || delay.infinite() || delay.nan(),
    ensures
        s.update_reply(delay) == Err::<Option<ControlMessage>, KeepaliveError>(
            KeepaliveError::InvalidDelay,
        ),
        s.update_delay(delay) == s,
        s.write_delay(delay).update_reply(delay) == Err::<Option<ControlMessage>, KeepaliveError>(
            KeepaliveError::InvalidDelay,
        ),
        s.write_delay(delay).update_delay(delay).effective_delay == s.effective_delay,
{
}

/// Settings that have been disposed of own no worker and refuse every
/// request; disposing of them again returns no handle and changes nothing.
pub proof fn lemma_disposed_settings_stay<W>(s: SettingsView<W>, delay: Millis)
    ensures
        !s.dispose().live(),
        s.dispose().dispose() == s.dispose(),
        s.dispose().worker is None,
        s.dispose().update_reply(delay) == Err::<Option<ControlMessage>, KeepaliveError>(
            KeepaliveError::SchedulerDisposed,
        ),
        s.dispose().update_delay(delay) == s.dispose(),
        s.dispose().write_delay(delay) == s.dispose(),
{
}

/// The wake delay and the worker that beats at it.
///
/// The settings own the worker's handle from `initialize` to `dispose`, and
/// nothing else holds it. While they do, the worker beats at the effective
/// delay, or will once it has taken the last message that
/// [`KeepaliveSettings::update_delay`] returned.
#[derive(Debug)]
pub struct KeepaliveSettings<W> {
    wake_delay: Millis,
    effective_delay: Millis,
    worker: Option<W>,
}

impl<W> View for KeepaliveSettings<W> {
    type V = SettingsView<W>;

    closed spec fn view(&self) -> SettingsView<W> {
        SettingsView {
            wake_delay: self.wake_delay,
            effective_delay: self.effective_delay,
            worker: self.worker,
        }
    }
}

impl<W> KeepaliveSettings<W> {
    /// The effective delay is one that a heartbeat can run at.
    #[verifier::type_invariant]
    spec fn well_formed(self) -> bool {
        self.effective_delay.positive_finite()
    }

    /// Makes the live settings of a delay and of the outcome of constructing
    /// the worker for that delay.
    ///
    /// The delay is judged before the outcome, so a caller that constructs a
    /// worker for a delay that [`Millis::is_positive_finite`] refuses loses
    /// the handle.
    pub fn initialize(delay: Millis, spawn: WorkerSpawn<W>) -> (r: Result<Self, KeepaliveError>)
        ensures
            r matches Ok(settings) ==> Ok::<SettingsView<W>, KeepaliveError>(settings@)
                == SettingsView::initialize(delay, spawn),
            r matches Err(e) ==> Err::<SettingsView<W>, KeepaliveError>(e)
                == SettingsView::initialize(delay, spawn),
    {
        if !delay.is_positive_finite() {
            return Err(KeepaliveError::InvalidDelay);
        }
        match spawn {
            WorkerSpawn::Unsupported => Err(KeepaliveError::EnvironmentUnsupported),
            WorkerSpawn::Failed => Err(KeepaliveError::WorkerCreationFailed),
            WorkerSpawn::Created(worker) => Ok(
                KeepaliveSettings { wake_delay: delay, effective_delay: delay, worker: Some(worker) },
            ),
        }
    }

    /// The delay that the host last wrote.
    pub fn wake_delay(&self) -> (delay: Millis)
        ensures
            delay == self@.wake_delay,
    {
        self.wake_delay
    }

    /// The delay that was last handed over for the worker. It is always one
    /// that a heartbeat can run at.
    pub fn effective_delay(&self) -> (delay: Millis)
        ensures
            delay == self@.effective_delay,
            delay.positive_finite(),
    {
        proof {
            use_type_invariant(self);
        }
        self.effective_delay
    }

    /// Whether the settings still own the worker.
    pub fn is_live(&self) -> (r: bool)
        ensures
            r == self@.live(),
    {
        self.worker.is_some()
    }

    /// The worker's handle, while the settings own it.
    pub fn worker(&self) -> (handle: Option<&W>)
        ensures
            handle is Some == self@.worker is Some,
            handle matches Some(w) ==> self@.worker == Some(*w),
    {
        self.worker.as_ref()
    }

    /// Writes the delay that the host wants. It is neither checked nor sent
    /// before [`KeepaliveSettings::apply_settings`].
    pub fn set_wake_delay(&mut self, delay: Millis) -> (r: Result<(), KeepaliveError>)
        ensures
            final(self)@ == old(self)@.write_delay(delay),
            r == if old(self)@.live() {
                Ok::<(), KeepaliveError>(())
            } else {
                Err::<(), KeepaliveError>(KeepaliveError::SchedulerDisposed)
            },
    {
        proof {
            use_type_invariant(&*self);
        }
        if self.worker.is_none() {
            return Err(KeepaliveError::SchedulerDisposed);
        }
        self.wake_delay = delay;
        Ok(())
    }

    /// Asks for a heartbeat at `delay` and returns the message that the
    /// caller is to post to the worker.
    ///
    /// A refused request changes nothing. An accepted one makes `delay` the
    /// wake delay and the effective delay; the worker follows once it has
    /// taken the message.
    pub fn update_delay(&mut self, delay: Millis) -> (r: Result<
        Option<ControlMessage>,
        KeepaliveError,
    >)
        ensures
            final(self)@ == old(self)@.update_delay(delay),
            r == old(self)@.update_reply(delay),
    {
        proof {
            use_type_invariant(&*self);
        }
        if self.worker.is_none() {
            return Err(KeepaliveError::SchedulerDisposed);
        }
        if !delay.is_positive_finite() {
            return Err(KeepaliveError::InvalidDelay);
        }
        let unchanged = delay.to_bits() == self.effective_delay.to_bits();
        self.wake_delay = delay;
        self.effective_delay = delay;
        if unchanged {
            Ok(None)
        } else {
            Ok(Some(ControlMessage { new_delay_millis: delay }))
        }
    }

    /// Asks for a heartbeat at the delay that the host last wrote.
    pub fn apply_settings(&mut self) -> (r: Result<Option<ControlMessage>, KeepaliveError>)
        ensures
            final(self)@ == old(self)@.update_delay(old(self)@.wake_delay),
            r == old(self)@.update_reply(old(self)@.wake_delay),
    {
        let delay = self.wake_delay;
        self.update_delay(delay)
    }

    /// Gives up the worker and returns its handle, which the caller is to
    /// terminate. Once disposed of, the settings return no handle and stay
    /// as they are.
    pub fn dispose(&mut self) -> (handle: Option<W>)
        ensures
            final(self)@ == old(self)@.dispose(),
            handle == old(self)@.worker,
    {
        proof {
            use_type_invariant(&*self);
        }
        let mut handle: Option<W> = None;
        core::mem::swap(&mut handle, &mut self.worker);
        handle
    }
}

} // verus!
