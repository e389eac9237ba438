use vstd::prelude::*;

use crate::preferences::AccentColorBits;

verus! {

#[verifier::external_type_specification]
pub struct ExMundyColorScheme(mundy::ColorScheme);

#[verifier::external_type_specification]
pub struct ExMundyContrast(mundy::Contrast);

#[verifier::external_type_specification]
pub struct ExMundyReducedMotion(mundy::ReducedMotion);

#[verifier::external_type_specification]
pub struct ExMundyReducedTransparency(mundy::ReducedTransparency);

#[verifier::external_type_specification]
pub struct ExMundyScrollbarVisibility(mundy::ScrollbarVisibility);

#[verifier::external_type_specification]
#[verifier::external_body]
pub struct ExMundySrgba(mundy::Srgba);

#[verifier::external_type_specification]
pub struct ExMundyAccentColor(mundy::AccentColor);

#[verifier::external_type_specification]
pub struct ExMundyDoubleClickInterval(mundy::DoubleClickInterval);

#[verifier::external_type_specification]
pub struct ExMundyPreferences(mundy::Preferences);

/// The bit patterns of a platform color's four sRGB channels: a function of
/// the color alone, left unspecified because the channels are floating-point
/// values outside the model.
pub uninterp spec fn srgba_bits_of(color: mundy::Srgba) -> AccentColorBits;

/// Relies on mundy::Srgba::to_f64_array: yields the binary64 bit patterns of
/// the four sRGB channels, in red, green, blue, alpha order. The result
/// depends on the color's channel values alone.
#[verifier::external_body]
pub(crate) fn srgba_channel_bits(color: &mundy::Srgba) -> (r: AccentColorBits)
    ensures
        r == srgba_bits_of(*color),
{
    let [red, green, blue, alpha] = color.to_f64_array().map(|channel| channel.to_bits());
    AccentColorBits { red, green, blue, alpha }
}

/// Relies on core::time::Duration's PartialEq: durations are an integer count
/// of seconds and nanoseconds compared field by field, so the comparison
/// returns true exactly for equal values.
#[verifier::external_body]
pub(crate) fn duration_eq(a: &core::time::Duration, b: &core::time::Duration) -> (r: bool)
    ensures
        r <==> a == b,
{
    a == b
}

} // verus!
