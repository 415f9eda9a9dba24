//! The event dispatcher: the single authoritative state machine. Events
//! from every producer arrive serialized; each one mutates the activation
//! state under exclusive access and tells the surrounding process which
//! side effects to perform.

use vstd::prelude::*;

use crate::state::{
    initial_model, spec_to_seconds, state_inv, AppState, DurationOption, Event, StateModel,
};
use crate::timer::{start_timer_thread, stop_timer_thread, TimerCountdown};

verus! {

/// The transition table: what one event does to the activation state.
/// Toggling flips activation and restarts or stops the countdown; selecting
/// a duration records it and, while active, replaces the countdown; every
/// other event leaves the state untouched.
pub open spec fn step(s: StateModel, e: Event) -> StateModel {
    match e {
        Event::ToggleActive => (StateModel {
            is_active: !s.is_active,
            duration: s.duration,
            timer: if !s.is_active {
                spec_to_seconds(s.duration)
            } else {
                None
            },
        }),
        Event::SetDuration(d) => (StateModel {
            is_active: s.is_active,
            duration: d,
            timer: if s.is_active {
                spec_to_seconds(d)
            } else {
                s.timer
            },
        }),
        _ => s,
    }
}

/// Seconds of the fresh countdown a transition starts, if it starts one:
/// only activation by toggle and a duration change while active start one,
/// and never for a permanent selection.
pub open spec fn countdown_for(s: StateModel, e: Event) -> Option<u64> {
    match e {
        Event::ToggleActive => if !s.is_active {
            spec_to_seconds(s.duration)
        } else {
            None
        },
        Event::SetDuration(d) => if s.is_active {
            spec_to_seconds(d)
        } else {
            None
        },
        _ => None,
    }
}

/// What the dispatcher asks of the OS keep-awake collaborator: the new
/// activation after a toggle, deassertion on exit, nothing otherwise.
pub open spec fn keep_awake_for(s: StateModel, e: Event) -> Option<bool> {
    match e {
        Event::ToggleActive => Some(!s.is_active),
        Event::Exit => Some(false),
        _ => None,
    }
}

/// Whether the menu snapshot must be recomputed after an event.
pub open spec fn menu_update_for(e: Event) -> bool {
    e is ToggleActive || e is SetDuration || e is ThemeChanged
}

/// The side effects one transition asks the surrounding process to perform.
pub struct Dispatch {
    /// Assert or deassert the OS keep-awake effect with this value.
    pub keep_awake: Option<bool>,
    /// Run this countdown on a thread of its own.
    pub countdown: Option<TimerCountdown>,
    /// Recompute and publish the menu snapshot.
    pub needs_menu_update: bool,
    /// Pop up the tray menu.
    pub show_menu: bool,
    /// Terminate the process normally.
    pub exit: bool,
}

/// Processes one event: mutates the activation state exactly as the
/// transition table says and returns the side effects to perform. Total
/// over all events and all well-formed states, so a stray timer expiry
/// arriving after its countdown was stopped is handled as an ordinary
/// toggle against the state at delivery time.
pub fn handle_event(state: &mut AppState, event: Event) -> (r: Dispatch)
    requires
        old(state).wf(),
    ensures
        final(state).wf(),
        final(state).model() == step(old(state).model(), event),
        final(state).translations == old(state).translations,
        r.keep_awake == keep_awake_for(old(state).model(), event),
        (r.countdown is Some) == (countdown_for(old(state).model(), event) is Some),
        r.countdown is Some ==> r.countdown->0.seconds == countdown_for(
            old(state).model(),
            event,
        )->0,
        r.needs_menu_update == menu_update_for(event),
        r.show_menu == (event is ShowMenu),
        r.exit == (event is Exit),
{
    match event {
        Event::ToggleActive => {
            state.is_active = !state.is_active;
            let keep_awake = Some(state.is_active);
            let countdown = if state.is_active {
                start_timer_thread(state)
            } else {
                stop_timer_thread(state);
                None
            };
            Dispatch { keep_awake, countdown, needs_menu_update: true, show_menu: false, exit: false }
        },
        Event::SetDuration(d) => {
            state.duration = d;
            let countdown = if state.is_active {
                start_timer_thread(state)
            } else {
                None
            };
            Dispatch {
                keep_awake: None,
                countdown,
                needs_menu_update: true,
                show_menu: false,
                exit: false,
            }
        },
        Event::ThemeChanged => Dispatch {
            keep_awake: None,
            countdown: None,
            needs_menu_update: true,
            show_menu: false,
            exit: false,
        },
        Event::ShowMenu => Dispatch {
            keep_awake: None,
            countdown: None,
            needs_menu_update: false,
            show_menu: true,
            exit: false,
        },
        Event::Exit => Dispatch {
            keep_awake: Some(false),
            countdown: None,
            needs_menu_update: false,
            show_menu: false,
            exit: true,
        },
        Event::NoOp => Dispatch {
            keep_awake: None,
            countdown: None,
            needs_menu_update: false,
            show_menu: false,
            exit: false,
        },
    }
}

/// The state after a whole sequence of events has been dispatched, first
/// event first.
pub open spec fn run_events(s: StateModel, es: Seq<Event>) -> StateModel
    decreases es.len(),
{
    if es.len() == 0 {
        s
    } else {
        run_events(step(s, es[0]), es.skip(1))
    }
}

/// Law: every single transition preserves the single-flight invariant.
pub proof fn lemma_step_preserves_inv(s: StateModel, e: Event)
    requires
        state_inv(s),
    ensures
        state_inv(step(s, e)),
{
}

/// Law: the startup state satisfies the single-flight invariant.
pub proof fn lemma_initial_inv()
    ensures
        state_inv(initial_model()),
{
}

/// Law: in every state reachable from a well-formed state, the invariant
/// holds; in particular, whenever the effect is inactive no countdown
/// handle is held.
pub proof fn lemma_reachable_inv(s: StateModel, es: Seq<Event>)
    requires
        state_inv(s),
    ensures
        state_inv(run_events(s, es)),
        !run_events(s, es).is_active ==> run_events(s, es).timer is None,
    decreases es.len(),
{
    if es.len() > 0 {
        lemma_step_preserves_inv(s, es[0]);
        lemma_reachable_inv(step(s, es[0]), es.skip(1));
    }
}

/// The state after `n` togglings.
pub open spec fn toggled_n(s: StateModel, n: nat) -> StateModel
    decreases n,
{
    if n == 0 {
        s
    } else {
        step(toggled_n(s, (n - 1) as nat), Event::ToggleActive)
    }
}

/// Law: toggling `n` times flips activation `n` times, so the effect is
/// active exactly when the starting activation and the parity of `n` agree.
pub proof fn lemma_toggle_parity(s: StateModel, n: nat)
    ensures
        toggled_n(s, n).is_active == (s.is_active == (n % 2 == 0)),
    decreases n,
{
    if n > 0 {
        lemma_toggle_parity(s, (n - 1) as nat);
    }
}

/// Law: starting from an active state, the effect is active after `n`
/// togglings exactly when `n` is even.
pub proof fn lemma_toggle_parity_from_active(s: StateModel, n: nat)
    requires
        s.is_active,
    ensures
        toggled_n(s, n).is_active == (n % 2 == 0),
{
    lemma_toggle_parity(s, n);
}

/// Law: selecting a duration while inactive leaves no countdown running;
/// selecting one while active leaves exactly the countdown that selection
/// asks for, and none for a permanent selection.
pub proof fn lemma_select_duration_timer(s: StateModel, d: DurationOption)
    requires
        state_inv(s),
    ensures
        !s.is_active ==> step(s, Event::SetDuration(d)).timer is None,
        s.is_active ==> step(s, Event::SetDuration(d)).timer == spec_to_seconds(d),
{
}

/// Law: a stray expiry event, delivered after its countdown was already
/// stopped, is an ordinary toggle against the state at delivery time and
/// leaves the state well-formed.
pub proof fn lemma_stray_expiry_safe(s: StateModel)
    requires
        state_inv(s),
    ensures
        state_inv(step(s, Event::ToggleActive)),
{
}

/// Law: an appearance change never mutates the activation state.
pub proof fn lemma_appearance_changed_readonly(s: StateModel)
    ensures
        step(s, Event::ThemeChanged) == s,
{
}

} // verus!
