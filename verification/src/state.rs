//! Activation state: the single source of truth for whether the keep-awake
//! effect is asserted and for how long.

use vstd::prelude::*;

use crate::i18n::{spec_get, Translations};
use crate::timer::TimerHandle;

verus! {

/// How long the keep-awake effect should last once activated.
#[derive(Copy, Clone, PartialEq, Eq, Structural, Debug)]
pub enum DurationOption {
    Permanent,
    Minutes(u32),
}

/// The unit of communication between every producer (tray menu, OS
/// notification bridge, countdown timer) and the dispatcher.
#[derive(Copy, Clone, PartialEq, Eq, Structural, Debug)]
pub enum Event {
    ShowMenu,
    ToggleActive,
    SetDuration(DurationOption),
    ThemeChanged,
    Exit,
    NoOp,
}

/// Seconds of countdown a duration selection asks for; `None` for a
/// permanent selection, which runs no timer.
pub open spec fn spec_to_seconds(d: DurationOption) -> Option<u64> {
    match d {
        DurationOption::Permanent => None,
        DurationOption::Minutes(m) => Some((m * 60) as u64),
    }
}

/// The label text of a duration selection: looked up under a fixed key per
/// known choice, a plain `Unknown` for a minute count the menu never offers.
pub open spec fn spec_display_text(d: DurationOption, t: Seq<(Seq<char>, Seq<char>)>) -> Seq<
    char,
> {
    match d {
        DurationOption::Permanent => spec_get(t, "permanent"@),
        DurationOption::Minutes(m) => if m == 15 {
            spec_get(t, "minutes_15"@)
        } else if m == 30 {
            spec_get(t, "minutes_30"@)
        } else if m == 60 {
            spec_get(t, "hour_1"@)
        } else if m == 120 {
            spec_get(t, "hours_2"@)
        } else {
            "Unknown"@
        },
    }
}

impl DurationOption {
    /// Number of seconds this selection keeps the display awake, `None`
    /// when the selection is permanent.
    pub fn to_seconds(self) -> (r: Option<u64>)
        ensures
            r == spec_to_seconds(self),
    {
        match self {
            DurationOption::Permanent => None,
            DurationOption::Minutes(m) => Some(m as u64 * 60),
        }
    }

    /// The localized text under which the menu offers this selection.
    pub fn display_text(&self, t: &Translations) -> (r: String)
        ensures
            r@ == spec_display_text(*self, t@),
    {
        match *self {
            DurationOption::Permanent => t.get("permanent"),
            DurationOption::Minutes(15) => t.get("minutes_15"),
            DurationOption::Minutes(30) => t.get("minutes_30"),
            DurationOption::Minutes(60) => t.get("hour_1"),
            DurationOption::Minutes(120) => t.get("hours_2"),
            _ => "Unknown".to_owned(),
        }
    }
}

/// The duration choices the menu offers, in display order.
pub open spec fn spec_duration_options() -> Seq<DurationOption> {
    seq![
        DurationOption::Permanent,
        DurationOption::Minutes(15),
        DurationOption::Minutes(30),
        DurationOption::Minutes(60),
        DurationOption::Minutes(120),
    ]
}

/// The duration choices the menu offers, in display order.
pub fn duration_options() -> (r: Vec<DurationOption>)
    ensures
        r@ == spec_duration_options(),
{
    let r = vec![
        DurationOption::Permanent,
        DurationOption::Minutes(15),
        DurationOption::Minutes(30),
        DurationOption::Minutes(60),
        DurationOption::Minutes(120),
    ];
    proof {
        assert(r@ =~= spec_duration_options());
    }
    r
}

/// The mathematical picture of the activation state: the two fields the
/// transition table speaks of, and the seconds of the live countdown when
/// one is running.
pub ghost struct StateModel {
    pub is_active: bool,
    pub duration: DurationOption,
    pub timer: Option<u64>,
}

/// The single-flight invariant: a countdown runs only while the effect is
/// active, only for a timed selection, and for exactly the seconds that
/// selection asks for.
pub open spec fn state_inv(s: StateModel) -> bool {
    s.timer is Some ==> s.is_active && s.duration is Minutes && s.timer == spec_to_seconds(
        s.duration,
    )
}

/// The state at startup: active, permanent, no countdown.
pub open spec fn initial_model() -> StateModel {
    StateModel { is_active: true, duration: DurationOption::Permanent, timer: None }
}

/// The root entity: whether the keep-awake effect is asserted, the chosen
/// duration, the label texts, and ownership of the one live countdown.
/// Mutated exclusively by the dispatcher.
pub struct AppState {
    pub is_active: bool,
    pub duration: DurationOption,
    pub translations: Translations,
    pub running_timer: Option<TimerHandle>,
}

impl AppState {
    /// What this state looks like to the transition table.
    pub open spec fn model(&self) -> StateModel {
        StateModel {
            is_active: self.is_active,
            duration: self.duration,
            timer: match self.running_timer {
                Some(h) => Some(h.seconds),
                None => None,
            },
        }
    }

    /// Well-formedness: the single-flight invariant holds of the model.
    pub open spec fn wf(&self) -> bool {
        state_inv(self.model())
    }

    /// The state at startup: active, permanent duration, no countdown.
    pub fn new(translations: Translations) -> (r: AppState)
        ensures
            r.wf(),
            r.model() == initial_model(),
            r.translations == translations,
    {
        AppState {
            is_active: true,
            duration: DurationOption::Permanent,
            translations,
            running_timer: None,
        }
    }
}

} // verus!
