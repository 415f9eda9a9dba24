//! Countdown timer bookkeeping: at most one countdown is logically live at
//! a time, owned by the activation state through a cancellation handle.
//! The wait itself runs outside the library; this module only creates and
//! cancels the handle and says exactly when a countdown must be running.

use vstd::prelude::*;

use crate::state::{spec_to_seconds, AppState};

verus! {

#[verifier::external_type_specification]
#[verifier::external_body]
#[verifier::reject_recursive_types(T)]
pub struct ExSender<T>(crossbeam_channel::Sender<T>);

#[verifier::external_type_specification]
#[verifier::external_body]
#[verifier::reject_recursive_types(T)]
pub struct ExReceiver<T>(crossbeam_channel::Receiver<T>);

/// Relies on crossbeam_channel::unbounded: returns a connected
/// sender/receiver pair, here carrying the cancellation message of one
/// countdown.
#[verifier::external_body]
fn shutdown_channel() -> (crossbeam_channel::Sender<()>, crossbeam_channel::Receiver<()>) {
    crossbeam_channel::unbounded()
}

/// Relies on crossbeam_channel::Sender::send: delivers one cancellation
/// message. The error when the countdown has already retired is dropped:
/// cancellation is advisory and fire-and-forget.
#[verifier::external_body]
fn send_shutdown(tx: &crossbeam_channel::Sender<()>) {
    let _ = tx.send(());
}

/// Capability over the one live countdown: the channel that cancels it and
/// the number of seconds it was started with.
pub struct TimerHandle {
    pub shutdown_tx: crossbeam_channel::Sender<()>,
    pub seconds: u64,
}

/// A countdown order for the surrounding process: wait `seconds` seconds or
/// until a message arrives on `shutdown_rx`, whichever comes first, and on
/// natural expiry push `Event::ToggleActive` back into the event sink.
pub struct TimerCountdown {
    pub seconds: u64,
    pub shutdown_rx: crossbeam_channel::Receiver<()>,
}

/// Stops the live countdown, if any: sends the cancellation message and
/// releases the handle without waiting for the countdown to retire. The
/// countdown may still expire naturally at the same instant; the dispatcher
/// tolerates the stray expiry event that then arrives.
pub fn stop_timer_thread(state: &mut AppState)
    ensures
        final(state).is_active == old(state).is_active,
        final(state).duration == old(state).duration,
        final(state).translations == old(state).translations,
        final(state).running_timer is None,
{
    if let Some(handle) = state.running_timer.take() {
        send_shutdown(&handle.shutdown_tx);
    }
}

/// Replaces any live countdown with a fresh one matching the current
/// duration selection: the old countdown is cancelled first, and a
/// permanent selection starts none. Returns the countdown order the
/// surrounding process must run.
pub fn start_timer_thread(state: &mut AppState) -> (r: Option<TimerCountdown>)
    requires
        old(state).is_active,
    ensures
        final(state).wf(),
        final(state).is_active == old(state).is_active,
        final(state).duration == old(state).duration,
        final(state).translations == old(state).translations,
        final(state).model().timer == spec_to_seconds(old(state).duration),
        (r is Some) == (spec_to_seconds(old(state).duration) is Some),
        r is Some ==> r->0.seconds == spec_to_seconds(old(state).duration)->0,
{
    stop_timer_thread(state);
    match state.duration.to_seconds() {
        None => None,
        Some(seconds) => {
            let (shutdown_tx, shutdown_rx) = shutdown_channel();
            state.running_timer = Some(TimerHandle { shutdown_tx, seconds });
            Some(TimerCountdown { seconds, shutdown_rx })
        },
    }
}

} // verus!
