use vstd::prelude::*;

use crate::platform::{srgba_bits_of, srgba_channel_bits};

verus! {

/// The user's preference for either light or dark mode.
#[derive(Debug, Clone, Copy, PartialEq, Eq, Structural)]
pub enum ColorSchemePreference {
    /// The user has not expressed an active preference, the platform does not
    /// support a color-scheme preference, or reading it failed.
    NoPreference,
    /// The user prefers an interface with a light appearance.
    Light,
    /// The user prefers an interface with a dark appearance.
    Dark,
}

/// The user's preferred contrast level.
#[derive(Debug, Clone, Copy, PartialEq, Eq, Structural)]
pub enum ContrastPreference {
    /// The user has not expressed an active preference, the platform does not
    /// support a contrast preference, or reading it failed.
    NoPreference,
    /// The user prefers an interface with a higher level of contrast.
    More,
    /// The user prefers an interface with a lower level of contrast.
    Less,
    /// The user has configured a specific set of colors whose contrast matches
    /// neither `More` nor `Less`.
    Custom,
}

/// The user's reduced motion preference.
#[derive(Debug, Clone, Copy, PartialEq, Eq, Structural)]
pub enum ReducedMotionPreference {
    /// The user has not expressed an active preference, the platform does not
    /// support a reduced-motion preference, or reading it failed.
    NoPreference,
    /// The user prefers a minimal amount of motion.
    Reduce,
}

/// The user's reduced transparency preference.
#[derive(Debug, Clone, Copy, PartialEq, Eq, Structural)]
pub enum ReducedTransparencyPreference {
    /// The user has not expressed an active preference, the platform does not
    /// support a reduced-transparency preference, or reading it failed.
    NoPreference,
    /// The user prefers an interface without transparent backgrounds.
    Reduce,
}

/// The bit patterns of the four sRGB channels of a color (red, green, blue,
/// alpha), each one the binary64 form of a channel normalized to `[0, 1]`.
#[derive(Debug, Clone, Copy, PartialEq, Eq, Structural)]
pub struct AccentColorBits {
    pub red: u64,
    pub green: u64,
    pub blue: u64,
    pub alpha: u64,
}

/// The user's system-wide accent color preference, absent when the platform
/// does not report one.
#[derive(Debug, Clone, Copy)]
pub struct AccentColorPreference(pub Option<AccentColorBits>);

/// The maximum time between two clicks that still counts as a double click,
/// absent when the platform does not report one.
#[derive(Debug, Clone, Copy)]
pub struct DoubleClickIntervalPreference(pub Option<core::time::Duration>);

/// A snapshot of every tracked system preference. Each field defaults to "no
/// preference expressed"; constructing and converting a snapshot never fails.
#[derive(Debug, Clone, Copy)]
pub struct PreferenceSnapshot {
    /// The user's preference for either light or dark mode.
    pub color_scheme: ColorSchemePreference,
    /// The user's preferred contrast level.
    pub contrast: ContrastPreference,
    /// The user's reduced motion preference.
    pub reduced_motion: ReducedMotionPreference,
    /// The user's reduced transparency preference.
    pub reduced_transparency: ReducedTransparencyPreference,
    /// The user's current system-wide accent color preference.
    pub accent_color: AccentColorPreference,
    /// The maximum time between the first and the second click event for the
    /// pair to count as a double click.
    pub double_click_interval: DoubleClickIntervalPreference,
}

impl PartialEq for AccentColorPreference {
    fn eq(&self, other: &Self) -> (r: bool) {
        match (self.0, other.0) {
            (None, None) => true,
            (Some(a), Some(b)) => a == b,
            _ => false,
        }
    }
}

impl vstd::std_specs::cmp::PartialEqSpecImpl for AccentColorPreference {
    open spec fn obeys_eq_spec() -> bool {
        true
    }

    open spec fn eq_spec(&self, other: &Self) -> bool {
        self.0 == other.0
    }
}

impl PartialEq for DoubleClickIntervalPreference {
    fn eq(&self, other: &Self) -> (r: bool) {
        match (&self.0, &other.0) {
            (None, None) => true,
            (Some(a), Some(b)) => crate::platform::duration_eq(a, b),
            _ => false,
        }
    }
}

impl vstd::std_specs::cmp::PartialEqSpecImpl for DoubleClickIntervalPreference {
    open spec fn obeys_eq_spec() -> bool {
        true
    }

    open spec fn eq_spec(&self, other: &Self) -> bool {
        self.0 == other.0
    }
}

impl PartialEq for PreferenceSnapshot {
    fn eq(&self, other: &Self) -> (r: bool) {
        self.color_scheme == other.color_scheme && self.contrast == other.contrast
            && self.reduced_motion == other.reduced_motion
            && self.reduced_transparency == other.reduced_transparency
            && self.accent_color == other.accent_color
            && self.double_click_interval == other.double_click_interval
    }
}

impl vstd::std_specs::cmp::PartialEqSpecImpl for PreferenceSnapshot {
    open spec fn obeys_eq_spec() -> bool {
        true
    }

    open spec fn eq_spec(&self, other: &Self) -> bool {
        *self == *other
    }
}

impl Default for ColorSchemePreference {
    /// Defaults to no expressed preference.
    fn default() -> (r: Self)
        ensures
            r == ColorSchemePreference::NoPreference,
    {
        ColorSchemePreference::NoPreference
    }
}

impl Default for ContrastPreference {
    /// Defaults to no expressed preference.
    fn default() -> (r: Self)
        ensures
            r == ContrastPreference::NoPreference,
    {
        ContrastPreference::NoPreference
    }
}

impl Default for ReducedMotionPreference {
    /// Defaults to no expressed preference.
    fn default() -> (r: Self)
        ensures
            r == ReducedMotionPreference::NoPreference,
    {
        ReducedMotionPreference::NoPreference
    }
}

impl Default for ReducedTransparencyPreference {
    /// Defaults to no expressed preference.
    fn default() -> (r: Self)
        ensures
            r == ReducedTransparencyPreference::NoPreference,
    {
        ReducedTransparencyPreference::NoPreference
    }
}

impl Default for AccentColorPreference {
    /// Defaults to no reported accent color.
    fn default() -> (r: Self)
        ensures
            r == AccentColorPreference(None),
    {
        AccentColorPreference(None)
    }
}

impl Default for DoubleClickIntervalPreference {
    /// Defaults to no reported interval.
    fn default() -> (r: Self)
        ensures
            r == DoubleClickIntervalPreference(None),
    {
        DoubleClickIntervalPreference(None)
    }
}

/// The snapshot in which no preference is expressed: the state of the shared
/// snapshot before the first platform notification arrives.
pub open spec fn default_snapshot() -> PreferenceSnapshot {
    PreferenceSnapshot {
        color_scheme: ColorSchemePreference::NoPreference,
        contrast: ContrastPreference::NoPreference,
        reduced_motion: ReducedMotionPreference::NoPreference,
        reduced_transparency: ReducedTransparencyPreference::NoPreference,
        accent_color: AccentColorPreference(None),
        double_click_interval: DoubleClickIntervalPreference(None),
    }
}

impl Default for PreferenceSnapshot {
    /// Every field starts at its documented default; construction cannot fail.
    fn default() -> (r: Self)
        ensures
            r == default_snapshot(),
    {
        PreferenceSnapshot {
            color_scheme: ColorSchemePreference::NoPreference,
            contrast: ContrastPreference::NoPreference,
            reduced_motion: ReducedMotionPreference::NoPreference,
            reduced_transparency: ReducedTransparencyPreference::NoPreference,
            accent_color: AccentColorPreference(None),
            double_click_interval: DoubleClickIntervalPreference(None),
        }
    }
}

/// The mapping from the platform's color-scheme value to the library's.
pub open spec fn spec_color_scheme(raw: mundy::ColorScheme) -> ColorSchemePreference {
    match raw {
        mundy::ColorScheme::NoPreference => ColorSchemePreference::NoPreference,
        mundy::ColorScheme::Light => ColorSchemePreference::Light,
        mundy::ColorScheme::Dark => ColorSchemePreference::Dark,
    }
}

/// The mapping from the platform's contrast value to the library's.
pub open spec fn spec_contrast(raw: mundy::Contrast) -> ContrastPreference {
    match raw {
        mundy::Contrast::NoPreference => ContrastPreference::NoPreference,
        mundy::Contrast::More => ContrastPreference::More,
        mundy::Contrast::Less => ContrastPreference::Less,
        mundy::Contrast::Custom => ContrastPreference::Custom,
    }
}

/// The mapping from the platform's reduced-motion value to the library's.
pub open spec fn spec_reduced_motion(raw: mundy::ReducedMotion) -> ReducedMotionPreference {
    match raw {
        mundy::ReducedMotion::NoPreference => ReducedMotionPreference::NoPreference,
        mundy::ReducedMotion::Reduce => ReducedMotionPreference::Reduce,
    }
}

/// The mapping from the platform's reduced-transparency value to the library's.
pub open spec fn spec_reduced_transparency(raw: mundy::ReducedTransparency) -> ReducedTransparencyPreference {
    match raw {
        mundy::ReducedTransparency::NoPreference => ReducedTransparencyPreference::NoPreference,
        mundy::ReducedTransparency::Reduce => ReducedTransparencyPreference::Reduce,
    }
}

impl From<mundy::ColorScheme> for ColorSchemePreference {
    fn from(value: mundy::ColorScheme) -> (r: Self) {
        match value {
            mundy::ColorScheme::NoPreference => ColorSchemePreference::NoPreference,
            mundy::ColorScheme::Light => ColorSchemePreference::Light,
            mundy::ColorScheme::Dark => ColorSchemePreference::Dark,
        }
    }
}

impl vstd::std_specs::convert::FromSpecImpl<mundy::ColorScheme> for ColorSchemePreference {
    open spec fn obeys_from_spec() -> bool {
        true
    }

    open spec fn from_spec(value: mundy::ColorScheme) -> Self {
        spec_color_scheme(value)
    }
}

impl From<mundy::Contrast> for ContrastPreference {
    fn from(value: mundy::Contrast) -> (r: Self) {
        match value {
            mundy::Contrast::NoPreference => ContrastPreference::NoPreference,
            mundy::Contrast::More => ContrastPreference::More,
            mundy::Contrast::Less => ContrastPreference::Less,
            mundy::Contrast::Custom => ContrastPreference::Custom,
        }
    }
}

impl vstd::std_specs::convert::FromSpecImpl<mundy::Contrast> for ContrastPreference {
    open spec fn obeys_from_spec() -> bool {
        true
    }

    open spec fn from_spec(value: mundy::Contrast) -> Self {
        spec_contrast(value)
    }
}

impl From<mundy::ReducedMotion> for ReducedMotionPreference {
    fn from(value: mundy::ReducedMotion) -> (r: Self) {
        match value {
            mundy::ReducedMotion::NoPreference => ReducedMotionPreference::NoPreference,
            mundy::ReducedMotion::Reduce => ReducedMotionPreference::Reduce,
        }
    }
}

impl vstd::std_specs::convert::FromSpecImpl<mundy::ReducedMotion> for ReducedMotionPreference {
    open spec fn obeys_from_spec() -> bool {
        true
    }

    open spec fn from_spec(value: mundy::ReducedMotion) -> Self {
        spec_reduced_motion(value)
    }
}

impl From<mundy::ReducedTransparency> for ReducedTransparencyPreference {
    fn from(value: mundy::ReducedTransparency) -> (r: Self) {
        match value {
            mundy::ReducedTransparency::NoPreference => ReducedTransparencyPreference::NoPreference,
            mundy::ReducedTransparency::Reduce => ReducedTransparencyPreference::Reduce,
        }
    }
}

impl vstd::std_specs::convert::FromSpecImpl<mundy::ReducedTransparency> for ReducedTransparencyPreference {
    open spec fn obeys_from_spec() -> bool {
        true
    }

    open spec fn from_spec(value: mundy::ReducedTransparency) -> Self {
        spec_reduced_transparency(value)
    }
}

impl From<mundy::DoubleClickInterval> for DoubleClickIntervalPreference {
    fn from(value: mundy::DoubleClickInterval) -> (r: Self) {
        DoubleClickIntervalPreference(value.0)
    }
}

impl vstd::std_specs::convert::FromSpecImpl<mundy::DoubleClickInterval> for DoubleClickIntervalPreference {
    open spec fn obeys_from_spec() -> bool {
        true
    }

    open spec fn from_spec(value: mundy::DoubleClickInterval) -> Self {
        DoubleClickIntervalPreference(value.0)
    }
}

impl AccentColorPreference {
    /// Converts the platform's accent color. A reported color keeps the bit
    /// patterns of its four channels; an absent color stays absent.
    pub fn from_raw(value: mundy::AccentColor) -> (r: Self)
        ensures
            value.0 matches Some(color) ==> r.0 == Some(srgba_bits_of(color)),
            value.0 is None ==> r.0 is None,
    {
        match value.0 {
            Some(color) => AccentColorPreference(Some(srgba_channel_bits(&color))),
            None => AccentColorPreference(None),
        }
    }
}

/// How a converted snapshot relates to the raw platform snapshot it came
/// from: every field is the direct mapping of the raw field, and a reported
/// accent color carries exactly the channel bits of the raw color.
pub open spec fn converts(raw: mundy::Preferences, snapshot: PreferenceSnapshot) -> bool {
    &&& snapshot.color_scheme == spec_color_scheme(raw.color_scheme)
    &&& snapshot.contrast == spec_contrast(raw.contrast)
    &&& snapshot.reduced_motion == spec_reduced_motion(raw.reduced_motion)
    &&& snapshot.reduced_transparency == spec_reduced_transparency(raw.reduced_transparency)
    &&& (raw.accent_color.0 matches Some(color) ==> snapshot.accent_color.0 == Some(
        srgba_bits_of(color),
    ))
    &&& (raw.accent_color.0 is None ==> snapshot.accent_color.0 is None)
    &&& snapshot.double_click_interval.0 == raw.double_click_interval.0
}

impl PreferenceSnapshot {
    /// Converts a raw platform snapshot field by field. The conversion is
    /// total: it accepts every raw snapshot and cannot fail.
    pub fn from_raw(value: mundy::Preferences) -> (r: Self)
        ensures
            converts(value, r),
    {
        PreferenceSnapshot {
            color_scheme: ColorSchemePreference::from(value.color_scheme),
            contrast: ContrastPreference::from(value.contrast),
            reduced_motion: ReducedMotionPreference::from(value.reduced_motion),
            reduced_transparency: ReducedTransparencyPreference::from(value.reduced_transparency),
            accent_color: AccentColorPreference::from_raw(value.accent_color),
            double_click_interval: DoubleClickIntervalPreference::from(value.double_click_interval),
        }
    }
}

/// Law: the conversion is deterministic — two snapshots converted from the
/// same raw platform snapshot are identical, field by field.
pub proof fn lemma_conversion_deterministic(
    raw: mundy::Preferences,
    first: PreferenceSnapshot,
    second: PreferenceSnapshot,
)
    requires
        converts(raw, first),
        converts(raw, second),
    ensures
        first.color_scheme == second.color_scheme,
        first.contrast == second.contrast,
        first.reduced_motion == second.reduced_motion,
        first.reduced_transparency == second.reduced_transparency,
        first.accent_color == second.accent_color,
        first.double_click_interval == second.double_click_interval,
{
}

} // verus!
