use rnote_logic::appwindow::color_scheme::{scheme_for_key, settings_key, theme_toggle, ColorScheme, ThemeToggle};

#[test]
fn recorded_keys() {
    assert_eq!(settings_key(ColorScheme::Default), Some("default"));
    assert_eq!(settings_key(ColorScheme::ForceLight), Some("force-light"));
    assert_eq!(settings_key(ColorScheme::ForceDark), Some("force-dark"));
    assert_eq!(settings_key(ColorScheme::PreferLight), None);
    assert_eq!(settings_key(ColorScheme::PreferDark), None);
    assert_eq!(settings_key(ColorScheme::Unknown(17)), None);
}

#[test]
fn toggles() {
    assert_eq!(theme_toggle(ColorScheme::Default), Some(ThemeToggle::Default));
    assert_eq!(theme_toggle(ColorScheme::ForceLight), Some(ThemeToggle::Light));
    assert_eq!(theme_toggle(ColorScheme::ForceDark), Some(ThemeToggle::Dark));
    assert_eq!(theme_toggle(ColorScheme::PreferDark), None);
}

#[test]
fn keys_read_back() {
    assert_eq!(scheme_for_key("default"), Some(ColorScheme::Default));
    assert_eq!(scheme_for_key("force-light"), Some(ColorScheme::ForceLight));
    assert_eq!(scheme_for_key("force-dark"), Some(ColorScheme::ForceDark));
}

#[test]
fn unsupported_keys_are_refused() {
    for key in ["", "Default", "force-light ", "prefer-dark", "force", "defaul", "dark"] {
        assert_eq!(scheme_for_key(key), None, "{key:?}");
    }
}

#[test]
fn round_trip_every_scheme() {
    for scheme in [
        ColorScheme::Default,
        ColorScheme::ForceLight,
        ColorScheme::PreferLight,
        ColorScheme::PreferDark,
        ColorScheme::ForceDark,
        ColorScheme::Unknown(-3),
    ] {
        match settings_key(scheme) {
            Some(key) => {
                assert_eq!(scheme_for_key(key), Some(scheme));
                assert!(theme_toggle(scheme).is_some());
            }
            None => assert!(theme_toggle(scheme).is_none()),
        }
    }
}
