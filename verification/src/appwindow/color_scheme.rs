use vstd::prelude::*;
use crate::text::same_chars;

verus! {

/// The colour schemes the style manager knows, as the window stores and
/// restores them.
#[derive(PartialEq, Eq, Structural, Clone, Copy, Debug)]
pub enum ColorScheme {
    Default,
    ForceLight,
    PreferLight,
    PreferDark,
    ForceDark,
    /// A raw value the style manager reported without naming it.
    Unknown(i32),
}

/// The theme button of the application menu that shows the current scheme.
#[derive(PartialEq, Eq, Structural, Clone, Copy, Debug)]
pub enum ThemeToggle {
    Default,
    Light,
    Dark,
}

/// The value under the `color-scheme` settings key that records `scheme`;
/// only the three schemes the application menu offers are recorded.
pub open spec fn spec_settings_key(scheme: ColorScheme) -> Option<Seq<char>> {
    match scheme {
        ColorScheme::Default => Some("default"@),
        ColorScheme::ForceLight => Some("force-light"@),
        ColorScheme::ForceDark => Some("force-dark"@),
        _ => None,
    }
}

/// The scheme a stored `color-scheme` value stands for.
pub open spec fn spec_scheme_for_key(key: Seq<char>) -> Option<ColorScheme> {
    if key == "default"@ {
        Some(ColorScheme::Default)
    } else if key == "force-light"@ {
        Some(ColorScheme::ForceLight)
    } else if key == "force-dark"@ {
        Some(ColorScheme::ForceDark)
    } else {
        None
    }
}

/// The menu toggle that is switched on when `scheme` is applied.
pub open spec fn spec_theme_toggle(scheme: ColorScheme) -> Option<ThemeToggle> {
    match scheme {
        ColorScheme::Default => Some(ThemeToggle::Default),
        ColorScheme::ForceLight => Some(ThemeToggle::Light),
        ColorScheme::ForceDark => Some(ThemeToggle::Dark),
        _ => None,
    }
}

/// The value written under the `color-scheme` settings key when `scheme` is
/// applied, or `None` for a scheme the settings do not record.
pub fn settings_key(scheme: ColorScheme) -> (key: Option<&'static str>)
    ensures
        match key {
            Some(k) => spec_settings_key(scheme) == Some(k@),
            None => spec_settings_key(scheme) is None,
        },
{
    match scheme {
        ColorScheme::Default => Some("default"),
        ColorScheme::ForceLight => Some("force-light"),
        ColorScheme::ForceDark => Some("force-dark"),
        _ => None,
    }
}

/// The theme toggle of the application menu that is switched on when
/// `scheme` is applied; `None` for a scheme the menu does not offer.
pub fn theme_toggle(scheme: ColorScheme) -> (toggle: Option<ThemeToggle>)
    ensures
        toggle == spec_theme_toggle(scheme),
{
    match scheme {
        ColorScheme::Default => Some(ThemeToggle::Default),
        ColorScheme::ForceLight => Some(ThemeToggle::Light),
        ColorScheme::ForceDark => Some(ThemeToggle::Dark),
        _ => None,
    }
}

/// The scheme a stored `color-scheme` value asks for at startup; `None` for a
/// value that names no supported scheme.
pub fn scheme_for_key(key: &str) -> (scheme: Option<ColorScheme>)
    ensures
        scheme == spec_scheme_for_key(key@),
{
    if same_chars(key, "default") {
        Some(ColorScheme::Default)
    } else if same_chars(key, "force-light") {
        Some(ColorScheme::ForceLight)
    } else if same_chars(key, "force-dark") {
        Some(ColorScheme::ForceDark)
    } else {
        None
    }
}

/// A scheme that the settings record is read back as the same scheme at the
/// next startup.
pub proof fn lemma_recorded_scheme_is_restored(scheme: ColorScheme)
    ensures
        spec_settings_key(scheme) matches Some(k) ==> spec_scheme_for_key(k) == Some(scheme),
{
    reveal_strlit("default");
    reveal_strlit("force-light");
    reveal_strlit("force-dark");
    assert("default"@.len() != "force-light"@.len());
    assert("default"@.len() != "force-dark"@.len());
    assert("force-light"@.len() != "force-dark"@.len());
}

/// Every stored value that startup accepts is the very value the settings
/// record for the scheme it yields, and that scheme has a menu toggle.
pub proof fn lemma_accepted_key_is_recorded_key(key: Seq<char>)
    ensures
        spec_scheme_for_key(key) matches Some(s) ==> spec_settings_key(s) == Some(key)
            && spec_theme_toggle(s) is Some,
{
}

/// The settings record a scheme exactly when the application menu has a
/// toggle for it.
pub proof fn lemma_recorded_iff_toggle(scheme: ColorScheme)
    ensures
        spec_settings_key(scheme) is Some <==> spec_theme_toggle(scheme) is Some,
{
}


/// Each of the three recorded schemes has its own key and its own menu
/// toggle: the default scheme is recorded as `default` and shown by the
/// default toggle, forced light as `force-light` with the light toggle,
/// forced dark as `force-dark` with the dark toggle; no other scheme is
/// recorded or has a toggle.
pub proof fn lemma_scheme_table(scheme: ColorScheme)
    ensures
        (scheme == ColorScheme::Default) <==> spec_settings_key(scheme) == Some("default"@),
        (scheme == ColorScheme::Default) <==> spec_theme_toggle(scheme) == Some(
            ThemeToggle::Default,
        ),
        (scheme == ColorScheme::ForceLight) <==> spec_settings_key(scheme) == Some(
            "force-light"@,
        ),
        (scheme == ColorScheme::ForceLight) <==> spec_theme_toggle(scheme) == Some(
            ThemeToggle::Light,
        ),
        (scheme == ColorScheme::ForceDark) <==> spec_settings_key(scheme) == Some("force-dark"@),
        (scheme == ColorScheme::ForceDark) <==> spec_theme_toggle(scheme) == Some(
            ThemeToggle::Dark,
        ),
        spec_settings_key(scheme) is None <==> (scheme != ColorScheme::Default && scheme
            != ColorScheme::ForceLight && scheme != ColorScheme::ForceDark),
{
    reveal_strlit("default");
    reveal_strlit("force-light");
    reveal_strlit("force-dark");
    assert("default"@.len() != "force-light"@.len());
    assert("default"@.len() != "force-dark"@.len());
    assert("force-light"@.len() != "force-dark"@.len());
}

/// Startup accepts exactly the three recorded keys, each for its own scheme.
pub proof fn lemma_key_table(key: Seq<char>)
    ensures
        spec_scheme_for_key(key) == Some(ColorScheme::Default) <==> key == "default"@,
        spec_scheme_for_key(key) == Some(ColorScheme::ForceLight) <==> key == "force-light"@,
        spec_scheme_for_key(key) == Some(ColorScheme::ForceDark) <==> key == "force-dark"@,
        spec_scheme_for_key(key) is None <==> (key != "default"@ && key != "force-light"@ && key
            != "force-dark"@),
{
    reveal_strlit("default");
    reveal_strlit("force-light");
    reveal_strlit("force-dark");
    assert("default"@.len() != "force-light"@.len());
    assert("default"@.len() != "force-dark"@.len());
    assert("force-light"@.len() != "force-dark"@.len());
}

} // verus!
