//! A bridge from the operating system's appearance and accessibility
//! preferences (color scheme, contrast, reduced motion, reduced transparency,
//! accent color, double-click interval) to a synchronous application loop.
//!
//! A background relay converts each raw platform snapshot and hands it to a
//! non-blocking channel; once per tick, a poll step drains the channel and
//! replaces the shared [`PreferenceSnapshot`] wholesale with the last item
//! drained, so the loop never blocks and never sees a half-updated value.

mod platform;
pub mod preferences;
pub mod relay;

pub use preferences::{
    AccentColorBits, AccentColorPreference, ColorSchemePreference, ContrastPreference,
    DoubleClickIntervalPreference, PreferenceSnapshot, ReducedMotionPreference,
    ReducedTransparencyPreference, converts, default_snapshot, lemma_conversion_deterministic,
    spec_color_scheme, spec_contrast, spec_reduced_motion, spec_reduced_transparency,
};
pub use platform::srgba_bits_of;
pub use relay::{
    ChannelClosed, PreferenceReceiver, PreferenceSender, apply_tick, last_write,
    lemma_last_write_wins,
    lemma_no_update_without_data, lemma_order_preserved_across_ticks, poll_system_preferences,
    preference_channel, publish_latest, relay_preferences,
};
