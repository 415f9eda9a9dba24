//! Presentation projection: a pure function from activation state and
//! translations to a renderable menu snapshot. The snapshot is derived and
//! disposable, recomputed after every mutating event, never mutated.

use vstd::prelude::*;

use crate::i18n::{spec_get, Translations};
use crate::state::{
    duration_options, spec_display_text, spec_duration_options, DurationOption, Event,
};

verus! {

/// One renderable menu line: its text, whether it is shown checked, and the
/// event it emits when the user activates it.
pub struct MenuEntry {
    pub label: String,
    pub is_selected: bool,
    pub event: Event,
}

/// What a correct duration line looks like: labelled with the selection's
/// text, checked exactly when it is the current selection, and emitting the
/// selection of its duration.
pub open spec fn duration_item_ok(
    entry: MenuEntry,
    d: DurationOption,
    current: DurationOption,
    t: Seq<(Seq<char>, Seq<char>)>,
) -> bool {
    &&& entry.label@ == spec_display_text(d, t)
    &&& entry.is_selected == (d == current)
    &&& entry.event == Event::SetDuration(d)
}

/// A read-only projection of the activation state for rendering: the toggle
/// line, the duration submenu (greyed out while inactive), and the exit
/// line.
pub struct MenuSnapshot {
    pub is_active: bool,
    pub duration: DurationOption,
    pub toggle: MenuEntry,
    pub duration_title: String,
    pub duration_disabled: bool,
    pub duration_items: Vec<MenuEntry>,
    pub exit: MenuEntry,
}

/// Derives the menu snapshot for the given activation state: pure, no side
/// effects, no concurrency concerns.
pub fn build_menu(is_active: bool, current_duration: DurationOption, t: &Translations) -> (r:
    MenuSnapshot)
    ensures
        r.is_active == is_active,
        r.duration == current_duration,
        r.toggle.label@ == spec_get(t@, "keep_screen_on"@),
        r.toggle.is_selected == is_active,
        r.toggle.event == Event::ToggleActive,
        r.duration_title@ == spec_get(t@, "duration"@),
        r.duration_disabled == !is_active,
        r.duration_items@.len() == spec_duration_options().len(),
        forall|i: int|
            0 <= i < spec_duration_options().len() ==> duration_item_ok(
                #[trigger] r.duration_items@[i],
                spec_duration_options()[i],
                current_duration,
                t@,
            ),
        r.exit.label@ == spec_get(t@, "exit_app"@),
        r.exit.is_selected == false,
        r.exit.event == Event::Exit,
{
    let toggle = MenuEntry {
        label: t.get("keep_screen_on"),
        is_selected: is_active,
        event: Event::ToggleActive,
    };
    let options = duration_options();
    let n = options.len();
    let mut duration_items: Vec<MenuEntry> = Vec::new();
    let mut i: usize = 0;
    while i < n
        invariant
            n == options.len(),
            options@ == spec_duration_options(),
            i <= n,
            duration_items@.len() == i,
            forall|j: int|
                0 <= j < i ==> duration_item_ok(
                    #[trigger] duration_items@[j],
                    spec_duration_options()[j],
                    current_duration,
                    t@,
                ),
        decreases n - i,
    {
        let d = options[i];
        duration_items.push(
            MenuEntry {
                label: d.display_text(t),
                is_selected: d == current_duration,
                event: Event::SetDuration(d),
            },
        );
        i = i + 1;
    }
    MenuSnapshot {
        is_active,
        duration: current_duration,
        toggle,
        duration_title: t.get("duration"),
        duration_disabled: !is_active,
        duration_items,
        exit: MenuEntry { label: t.get("exit_app"), is_selected: false, event: Event::Exit },
    }
}

} // verus!
