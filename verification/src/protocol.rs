//! The host's settings and the worker's loop, taken together: what the
//! messages between them keep true.
//!
//! The channel is one way at a time and in order, so the worker takes the
//! host's messages in the order in which the settings returned them.

use vstd::prelude::*;
use crate::heartbeat::{LoopStep, LoopView};
use crate::message::ControlMessage;
use crate::millis::Millis;
use crate::settings::SettingsView;

verus! {

/// The settings after the host has asked for each of `delays` in turn.
pub open spec fn settings_after<W>(s: SettingsView<W>, delays: Seq<Millis>) -> SettingsView<W>
    decreases delays.len(),
{
    if delays.len() == 0 {
        s
    } else {
        settings_after(s, delays.drop_last()).update_delay(delays.last())
    }
}

/// The messages that those requests owe the worker, in the order in which
/// the settings return them.
pub open spec fn messages_owed<W>(s: SettingsView<W>, delays: Seq<Millis>) -> Seq<ControlMessage>
    decreases delays.len(),
{
    if delays.len() == 0 {
        Seq::empty()
    } else {
        let before = messages_owed(s, delays.drop_last());
        match settings_after(s, delays.drop_last()).update_reply(delays.last()) {
            Ok(Some(message)) => before.push(message),
            _ => before,
        }
    }
}

/// The loop after the worker has taken each of `messages` in turn.
pub open spec fn loop_after(l: LoopView, messages: Seq<ControlMessage>) -> LoopView
    decreases messages.len(),
{
    if messages.len() == 0 {
        l
    } else {
        loop_after(l, messages.drop_last()).control(messages.last())
    }
}

/// Whatever the host asks for, and however often, the host owes the worker
/// a message only for a delay that a heartbeat can run at.
pub proof fn lemma_messages_owed_are_valid<W>(s: SettingsView<W>, delays: Seq<Millis>)
    ensures
        messages_owed(s, delays).len() <= delays.len(),
        forall|i: int|
            0 <= i < messages_owed(s, delays).len() ==> (#[trigger] messages_owed(
                s,
                delays,
            )[i]).new_delay_millis.positive_finite(),
    decreases delays.len(),
{
    if delays.len() > 0 {
        lemma_messages_owed_are_valid(s, delays.drop_last());
    }
}

/// A worker that beats at the effective delay of live settings still does
/// so once it has taken, in order, the messages that any requests of the
/// host owed it: the delay in effect is the last one that was accepted,
/// and a refused request has changed it on neither side.
pub proof fn lemma_worker_follows_settings<W>(s: SettingsView<W>, l: LoopView, delays: Seq<Millis>)
    requires
        s.live(),
        l.delay == s.effective_delay,
    ensures
        settings_after(s, delays).live(),
        loop_after(l, messages_owed(s, delays)).delay == settings_after(s, delays).effective_delay,
        loop_after(l, messages_owed(s, delays)).policy == l.policy,
    decreases delays.len(),
{
    if delays.len() > 0 {
        let earlier = delays.drop_last();
        lemma_worker_follows_settings(s, l, earlier);
        let before = messages_owed(s, earlier);
        match settings_after(s, earlier).update_reply(delays.last()) {
            Ok(Some(message)) => {
                assert(before.push(message).drop_last() =~= before);
                assert(before.push(message).last() == message);
            },
            _ => {},
        }
    }
}

/// Each message that the host owes a worker in step with it moves the
/// worker: none is sent for nothing.
pub proof fn lemma_owed_message_moves_worker<W>(s: SettingsView<W>, l: LoopView, delay: Millis)
    requires
        l.delay == s.effective_delay,
    ensures
        s.update_reply(delay) matches Ok(Some(message)) ==> l.moved_by(message) && l.control(
            message,
        ).delay == s.update_delay(delay).effective_delay,
        s.update_reply(delay) matches Ok(None) ==> s.update_delay(delay).effective_delay
            == l.delay,
        s.update_reply(delay) is Err ==> s.update_delay(delay) == s,
{
}

/// Taking messages sends no tick, however many there are.
pub proof fn lemma_messages_send_no_tick(l: LoopView, messages: Seq<ControlMessage>, i: int)
    requires
        0 <= i < messages.len(),
    ensures
        loop_after(l, messages.take(i)).control_step(messages[i]).tick is None,
        !messages[i].new_delay_millis.positive_finite() ==> loop_after(l, messages.take(i + 1))
            == loop_after(l, messages.take(i)) && loop_after(l, messages.take(i)).control_step(
            messages[i],
        ) == LoopStep::idle(),
{
    assert(messages.take(i + 1).drop_last() =~= messages.take(i));
    assert(messages.take(i + 1).last() == messages[i]);
}

} // verus!
