//! Decisions of the dark-mode support: which OS builds carry the
//! undocumented dark-mode interface, when the menu theme counts as dark,
//! and which setting-change broadcasts are appearance-relevant. Reading the
//! OS version, loading entry points and the raw message pump live outside
//! the library and hand these functions plain values.

use vstd::prelude::*;

verus! {

/// The setting name whose change broadcast means the appearance preference
/// may have changed.
pub open spec fn appearance_setting_name() -> Seq<char> {
    "ImmersiveColorSet"@
}

/// Strips the checked-build flag bits from the reported OS build number.
pub fn normalize_build(build: u32) -> (r: u32)
    ensures
        r == build & 0x0FFFFFFF,
{
    build & 0x0FFFFFFF
}

/// Whether the undocumented dark-mode interface may be used: the OS must
/// report version 10.0 with build 17763 or later, and every required entry
/// point must have been found (either of the two application-mode entry
/// points suffices).
pub fn dark_mode_supported(
    major: u32,
    minor: u32,
    build: u32,
    has_should_apps_use_dark: bool,
    has_refresh_policy: bool,
    has_allow_for_app: bool,
    has_set_preferred_mode: bool,
    has_flush_menu_themes: bool,
) -> (r: bool)
    ensures
        r == (major == 10 && minor == 0 && build >= 17763 && has_should_apps_use_dark
            && has_refresh_policy && (has_allow_for_app || has_set_preferred_mode)
            && has_flush_menu_themes),
{
    major == 10 && minor == 0 && build >= 17763 && has_should_apps_use_dark && has_refresh_policy
        && (has_allow_for_app || has_set_preferred_mode) && has_flush_menu_themes
}

/// Whether the shared application-mode entry point is the older boolean one
/// rather than the newer preferred-mode one: builds before 19H1 carry the
/// boolean form.
pub fn uses_legacy_allow_dark(build: u32) -> (r: bool)
    ensures
        r == (build < 18362),
{
    build < 18362
}

/// The preferred-mode value handed to the newer entry point: allow dark
/// mode, or fall back to the default mode.
pub fn preferred_app_mode_value(allow: bool) -> (r: i32)
    ensures
        r == if allow {
            1int
        } else {
            0int
        },
{
    if allow {
        1
    } else {
        0
    }
}

/// Whether the menu theme counts as dark: the OS prefers dark applications
/// and high contrast is off.
pub fn compute_dark_enabled(apps_use_dark: bool, high_contrast: bool) -> (r: bool)
    ensures
        r == (apps_use_dark && !high_contrast),
{
    apps_use_dark && !high_contrast
}

/// Filters one OS setting-change broadcast down to the appearance-relevant
/// sub-case: reports a change only when dark-mode support is initialized
/// and the broadcast names exactly the appearance setting. Returns whether
/// an `Event::ThemeChanged` must be pushed into the event sink.
pub fn handle_setting_change(supported: bool, setting_name: Option<String>) -> (r: bool)
    ensures
        r == (supported && setting_name is Some && setting_name->0@ == appearance_setting_name()),
{
    if !supported {
        return false;
    }
    match setting_name {
        None => false,
        Some(name) => {
            let expected = "ImmersiveColorSet".to_owned();
            name == expected
        },
    }
}

} // verus!
