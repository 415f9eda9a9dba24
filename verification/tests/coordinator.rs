//! Tests of the event dispatcher: the transition table, the single-flight
//! timer, and the races the coordinator must tolerate.

use std::time::Duration;

use keep_screen::dispatch::handle_event;
use keep_screen::i18n::Translations;
use keep_screen::state::{AppState, DurationOption, Event};

fn fresh_state() -> AppState {
    AppState::new(Translations::empty())
}

fn timer_seconds(state: &AppState) -> Option<u64> {
    state.running_timer.as_ref().map(|h| h.seconds)
}

#[test]
fn defaults_are_active_permanent_no_timer() {
    let s = fresh_state();
    assert!(s.is_active);
    assert_eq!(s.duration, DurationOption::Permanent);
    assert!(s.running_timer.is_none());
}

#[test]
fn toggling_parity_from_active() {
    let mut s = fresh_state();
    for n in 1..=6u32 {
        handle_event(&mut s, Event::ToggleActive);
        assert_eq!(s.is_active, n % 2 == 0);
    }
}

#[test]
fn toggle_reports_new_activation_to_keep_awake() {
    let mut s = fresh_state();
    let r = handle_event(&mut s, Event::ToggleActive);
    assert_eq!(r.keep_awake, Some(false));
    assert!(r.needs_menu_update);
    assert!(!r.exit);
    let r = handle_event(&mut s, Event::ToggleActive);
    assert_eq!(r.keep_awake, Some(true));
}

#[test]
fn select_duration_while_inactive_starts_no_timer() {
    let mut s = fresh_state();
    handle_event(&mut s, Event::ToggleActive);
    assert!(!s.is_active);
    let r = handle_event(&mut s, Event::SetDuration(DurationOption::Minutes(30)));
    assert_eq!(s.duration, DurationOption::Minutes(30));
    assert!(s.running_timer.is_none());
    assert!(r.countdown.is_none());
    assert_eq!(r.keep_awake, None);
}

#[test]
fn select_duration_while_active_runs_exactly_matching_timer() {
    let cases = [
        (DurationOption::Minutes(15), Some(900)),
        (DurationOption::Minutes(30), Some(1800)),
        (DurationOption::Minutes(60), Some(3600)),
        (DurationOption::Minutes(120), Some(7200)),
        (DurationOption::Permanent, None),
    ];
    for (duration, seconds) in cases {
        let mut s = fresh_state();
        let r = handle_event(&mut s, Event::SetDuration(duration));
        assert_eq!(s.duration, duration);
        assert_eq!(timer_seconds(&s), seconds);
        assert_eq!(r.countdown.as_ref().map(|c| c.seconds), seconds);
    }
}

#[test]
fn scenario_duration_persists_across_toggles() {
    let mut s = fresh_state();
    let r = handle_event(&mut s, Event::SetDuration(DurationOption::Minutes(15)));
    assert!(s.is_active);
    assert_eq!(timer_seconds(&s), Some(900));
    assert_eq!(r.countdown.map(|c| c.seconds), Some(900));

    let r = handle_event(&mut s, Event::ToggleActive);
    assert!(!s.is_active);
    assert!(s.running_timer.is_none());
    assert_eq!(r.keep_awake, Some(false));
    assert!(r.countdown.is_none());

    let r = handle_event(&mut s, Event::ToggleActive);
    assert!(s.is_active);
    assert_eq!(s.duration, DurationOption::Minutes(15));
    assert_eq!(timer_seconds(&s), Some(900));
    assert_eq!(r.countdown.map(|c| c.seconds), Some(900));
    assert_eq!(r.keep_awake, Some(true));
}

#[test]
fn natural_expiry_deactivates_and_clears_timer() {
    let mut s = fresh_state();
    handle_event(&mut s, Event::SetDuration(DurationOption::Minutes(15)));
    assert!(s.is_active);
    assert_eq!(timer_seconds(&s), Some(900));
    // The countdown expires and pushes its toggle into the shared sink; the
    // dispatcher sees it as any other event.
    let r = handle_event(&mut s, Event::ToggleActive);
    assert!(!s.is_active);
    assert!(s.running_timer.is_none());
    assert_eq!(r.keep_awake, Some(false));
    assert!(r.countdown.is_none());
}

#[test]
fn stray_expiry_after_stop_is_harmless() {
    let mut s = fresh_state();
    handle_event(&mut s, Event::SetDuration(DurationOption::Minutes(15)));
    // The user toggles the effect off; the countdown is cancelled.
    handle_event(&mut s, Event::ToggleActive);
    assert!(!s.is_active);
    assert!(s.running_timer.is_none());
    // The cancelled countdown lost the race and its expiry toggle still
    // arrives: it acts on the state at delivery time.
    let r = handle_event(&mut s, Event::ToggleActive);
    assert!(s.is_active);
    assert_eq!(s.duration, DurationOption::Minutes(15));
    assert_eq!(timer_seconds(&s), Some(900));
    assert_eq!(r.countdown.map(|c| c.seconds), Some(900));
    // And toggling once more still behaves.
    handle_event(&mut s, Event::ToggleActive);
    assert!(!s.is_active);
    assert!(s.running_timer.is_none());
}

#[test]
fn replacing_a_timer_cancels_the_old_countdown() {
    let mut s = fresh_state();
    let first = handle_event(&mut s, Event::SetDuration(DurationOption::Minutes(15)))
        .countdown
        .expect("a countdown must start");
    let second = handle_event(&mut s, Event::SetDuration(DurationOption::Minutes(30)))
        .countdown
        .expect("a countdown must start");
    // The first countdown's cancellation channel has a message; the second's
    // does not.
    assert!(first.shutdown_rx.recv_timeout(Duration::from_millis(200)).is_ok());
    assert!(second.shutdown_rx.try_recv().is_err());
    assert_eq!(timer_seconds(&s), Some(1800));
}

#[test]
fn toggling_off_cancels_the_countdown() {
    let mut s = fresh_state();
    let countdown = handle_event(&mut s, Event::SetDuration(DurationOption::Minutes(60)))
        .countdown
        .expect("a countdown must start");
    handle_event(&mut s, Event::ToggleActive);
    assert!(countdown.shutdown_rx.recv_timeout(Duration::from_millis(200)).is_ok());
}

#[test]
fn appearance_change_never_mutates_state() {
    let mut s = fresh_state();
    handle_event(&mut s, Event::SetDuration(DurationOption::Minutes(15)));
    let before_active = s.is_active;
    let before_duration = s.duration;
    let before_timer = timer_seconds(&s);
    let r = handle_event(&mut s, Event::ThemeChanged);
    assert_eq!(s.is_active, before_active);
    assert_eq!(s.duration, before_duration);
    assert_eq!(timer_seconds(&s), before_timer);
    assert!(r.needs_menu_update);
    assert!(r.countdown.is_none());
    assert_eq!(r.keep_awake, None);
}

#[test]
fn exit_deasserts_keep_awake_and_terminates() {
    let mut s = fresh_state();
    let r = handle_event(&mut s, Event::Exit);
    assert_eq!(r.keep_awake, Some(false));
    assert!(r.exit);
    assert!(!r.needs_menu_update);
}

#[test]
fn noop_and_show_menu_have_no_state_effect() {
    let mut s = fresh_state();
    let r = handle_event(&mut s, Event::NoOp);
    assert!(s.is_active);
    assert!(!r.needs_menu_update && !r.show_menu && !r.exit);
    assert!(r.countdown.is_none() && r.keep_awake.is_none());
    let r = handle_event(&mut s, Event::ShowMenu);
    assert!(r.show_menu);
    assert!(!r.needs_menu_update);
    assert!(s.is_active && s.running_timer.is_none());
}
