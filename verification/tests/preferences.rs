use core::time::Duration;

use bevy_mundy::{
    AccentColorBits, AccentColorPreference, ColorSchemePreference, ContrastPreference,
    DoubleClickIntervalPreference, PreferenceSnapshot, ReducedMotionPreference,
    ReducedTransparencyPreference,
};

fn raw_with_everything() -> mundy::Preferences {
    let mut raw = mundy::Preferences::default();
    raw.color_scheme = mundy::ColorScheme::Dark;
    raw.contrast = mundy::Contrast::Less;
    raw.reduced_motion = mundy::ReducedMotion::Reduce;
    raw.reduced_transparency = mundy::ReducedTransparency::Reduce;
    raw.accent_color = mundy::AccentColor(Some(mundy::Srgba {
        red: 1.0,
        green: 0.5,
        blue: 0.25,
        alpha: 1.0,
    }));
    raw.double_click_interval =
        mundy::DoubleClickInterval(Some(Duration::from_millis(400)));
    raw
}

#[test]
fn default_snapshot_has_every_field_at_default() {
    let snapshot = PreferenceSnapshot::default();
    assert_eq!(snapshot.color_scheme, ColorSchemePreference::NoPreference);
    assert_eq!(snapshot.contrast, ContrastPreference::NoPreference);
    assert_eq!(snapshot.reduced_motion, ReducedMotionPreference::NoPreference);
    assert_eq!(
        snapshot.reduced_transparency,
        ReducedTransparencyPreference::NoPreference
    );
    assert_eq!(snapshot.accent_color, AccentColorPreference(None));
    assert_eq!(
        snapshot.double_click_interval,
        DoubleClickIntervalPreference(None)
    );
}

#[test]
fn every_field_default_is_no_preference() {
    assert_eq!(
        ColorSchemePreference::default(),
        ColorSchemePreference::NoPreference
    );
    assert_eq!(ContrastPreference::default(), ContrastPreference::NoPreference);
    assert_eq!(
        ReducedMotionPreference::default(),
        ReducedMotionPreference::NoPreference
    );
    assert_eq!(
        ReducedTransparencyPreference::default(),
        ReducedTransparencyPreference::NoPreference
    );
    assert_eq!(AccentColorPreference::default(), AccentColorPreference(None));
    assert_eq!(
        DoubleClickIntervalPreference::default(),
        DoubleClickIntervalPreference(None)
    );
}

#[test]
fn conversion_is_idempotent() {
    let raw = raw_with_everything();
    let first = PreferenceSnapshot::from_raw(raw);
    let second = PreferenceSnapshot::from_raw(raw);
    assert_eq!(first, second);
}

#[test]
fn conversion_of_defaults_is_idempotent() {
    let raw = mundy::Preferences::default();
    let first = PreferenceSnapshot::from_raw(raw);
    let second = PreferenceSnapshot::from_raw(raw);
    assert_eq!(first, second);
    assert_eq!(first, PreferenceSnapshot::default());
}

#[test]
fn color_scheme_conversion_is_exact() {
    assert_eq!(
        ColorSchemePreference::from(mundy::ColorScheme::NoPreference),
        ColorSchemePreference::NoPreference
    );
    assert_eq!(
        ColorSchemePreference::from(mundy::ColorScheme::Light),
        ColorSchemePreference::Light
    );
    assert_eq!(
        ColorSchemePreference::from(mundy::ColorScheme::Dark),
        ColorSchemePreference::Dark
    );
}

#[test]
fn contrast_conversion_is_exact() {
    assert_eq!(
        ContrastPreference::from(mundy::Contrast::NoPreference),
        ContrastPreference::NoPreference
    );
    assert_eq!(
        ContrastPreference::from(mundy::Contrast::More),
        ContrastPreference::More
    );
    assert_eq!(
        ContrastPreference::from(mundy::Contrast::Less),
        ContrastPreference::Less
    );
    assert_eq!(
        ContrastPreference::from(mundy::Contrast::Custom),
        ContrastPreference::Custom
    );
}

#[test]
fn reduced_motion_conversion_is_exact() {
    assert_eq!(
        ReducedMotionPreference::from(mundy::ReducedMotion::NoPreference),
        ReducedMotionPreference::NoPreference
    );
    assert_eq!(
        ReducedMotionPreference::from(mundy::ReducedMotion::Reduce),
        ReducedMotionPreference::Reduce
    );
}

#[test]
fn reduced_transparency_conversion_is_exact() {
    assert_eq!(
        ReducedTransparencyPreference::from(mundy::ReducedTransparency::NoPreference),
        ReducedTransparencyPreference::NoPreference
    );
    assert_eq!(
        ReducedTransparencyPreference::from(mundy::ReducedTransparency::Reduce),
        ReducedTransparencyPreference::Reduce
    );
}

#[test]
fn double_click_interval_conversion_keeps_the_duration() {
    let reported = mundy::DoubleClickInterval(Some(Duration::from_millis(500)));
    assert_eq!(
        DoubleClickIntervalPreference::from(reported),
        DoubleClickIntervalPreference(Some(Duration::from_millis(500)))
    );
    assert_eq!(
        DoubleClickIntervalPreference::from(mundy::DoubleClickInterval(None)),
        DoubleClickIntervalPreference(None)
    );
}

#[test]
fn accent_color_conversion_keeps_the_channel_bits() {
    let color = mundy::Srgba {
        red: 1.0,
        green: 0.5,
        blue: 0.25,
        alpha: 0.75,
    };
    let converted = AccentColorPreference::from_raw(mundy::AccentColor(Some(color)));
    let expected = AccentColorBits {
        red: 1.0f64.to_bits(),
        green: 0.5f64.to_bits(),
        blue: 0.25f64.to_bits(),
        alpha: 0.75f64.to_bits(),
    };
    assert_eq!(converted, AccentColorPreference(Some(expected)));
}

#[test]
fn absent_accent_color_converts_to_none() {
    assert_eq!(
        AccentColorPreference::from_raw(mundy::AccentColor(None)),
        AccentColorPreference(None)
    );
}

#[test]
fn snapshot_equality_is_structural() {
    let first = PreferenceSnapshot::from_raw(raw_with_everything());
    let second = PreferenceSnapshot::from_raw(raw_with_everything());
    assert_eq!(first, second);

    let mut different = second;
    different.color_scheme = ColorSchemePreference::Light;
    assert_ne!(first, different);

    let mut other_interval = second;
    other_interval.double_click_interval =
        DoubleClickIntervalPreference(Some(Duration::from_millis(401)));
    assert_ne!(first, other_interval);
}
