//! The tolerance model: per-channel thresholds, brightness bounds and the two
//! relaxation flags, and the four presets it can be set to.

use vstd::prelude::*;

verus! {

/// Numeric thresholds of a comparison. Channel thresholds are absolute
/// differences of 8-bit samples; the brightness bounds are whole brightness
/// units on the same 0 to 255 scale.
#[derive(Clone, Copy, Debug, PartialEq, Eq, Structural)]
pub struct Tolerance {
    pub alpha: u8,
    pub max_brightness: u8,
    pub min_brightness: u8,
    pub red: u8,
    pub green: u8,
    pub blue: u8,
}

/// A named preset of the tolerance model.
#[derive(Clone, Copy, Debug, PartialEq, Eq, Structural)]
pub enum Profile {
    /// No tolerance at all.
    Exact,
    /// Ignore a little noise in every channel.
    Default,
    /// Tolerate more, and let anti-aliased pixels pass on brightness alone.
    IgnoreAntialiasing,
    /// Compare alpha and brightness only.
    IgnoreColors,
}

/// The tolerance model that a comparison runs under.
#[derive(Clone, Copy, Debug, PartialEq, Eq, Structural)]
pub struct ComparisonOptions {
    pub ignore_antialiasing: bool,
    pub ignore_colors: bool,
    pub tolerance: Tolerance,
}

impl ComparisonOptions {
    /// The value that each preset stands for.
    pub open spec fn preset(profile: Profile) -> ComparisonOptions {
        match profile {
            Profile::Exact => ComparisonOptions {
                ignore_antialiasing: false,
                ignore_colors: false,
                tolerance: Tolerance {
                    alpha: 0,
                    max_brightness: 255,
                    min_brightness: 0,
                    red: 0,
                    green: 0,
                    blue: 0,
                },
            },
            Profile::Default => ComparisonOptions {
                ignore_antialiasing: false,
                ignore_colors: false,
                tolerance: Tolerance {
                    alpha: 16,
                    max_brightness: 240,
                    min_brightness: 16,
                    red: 16,
                    green: 16,
                    blue: 16,
                },
            },
            Profile::IgnoreAntialiasing => ComparisonOptions {
                ignore_antialiasing: true,
                ignore_colors: false,
                tolerance: Tolerance {
                    alpha: 32,
                    max_brightness: 96,
                    min_brightness: 64,
                    red: 32,
                    green: 32,
                    blue: 32,
                },
            },
            Profile::IgnoreColors => ComparisonOptions {
                ignore_antialiasing: false,
                ignore_colors: true,
                tolerance: Tolerance {
                    alpha: 16,
                    max_brightness: 240,
                    min_brightness: 16,
                    red: 0,
                    green: 0,
                    blue: 0,
                },
            },
        }
    }

    /// The options of a preset. Every field is set: nothing of an earlier
    /// value is kept.
    pub fn with_profile(profile: Profile) -> (r: ComparisonOptions)
        ensures
            r == Self::preset(profile),
    {
        match profile {
            Profile::Exact => ComparisonOptions {
                ignore_antialiasing: false,
                ignore_colors: false,
                tolerance: Tolerance {
                    alpha: 0,
                    max_brightness: 255,
                    min_brightness: 0,
                    red: 0,
                    green: 0,
                    blue: 0,
                },
            },
            Profile::Default => ComparisonOptions {
                ignore_antialiasing: false,
                ignore_colors: false,
                tolerance: Tolerance {
                    alpha: 16,
                    max_brightness: 240,
                    min_brightness: 16,
                    red: 16,
                    green: 16,
                    blue: 16,
                },
            },
            Profile::IgnoreAntialiasing => ComparisonOptions {
                ignore_antialiasing: true,
                ignore_colors: false,
                tolerance: Tolerance {
                    alpha: 32,
                    max_brightness: 96,
                    min_brightness: 64,
                    red: 32,
                    green: 32,
                    blue: 32,
                },
            },
            Profile::IgnoreColors => ComparisonOptions {
                ignore_antialiasing: false,
                ignore_colors: true,
                tolerance: Tolerance {
                    alpha: 16,
                    max_brightness: 240,
                    min_brightness: 16,
                    red: 0,
                    green: 0,
                    blue: 0,
                },
            },
        }
    }

    /// The default preset.
    pub fn new() -> (r: ComparisonOptions)
        ensures
            r == Self::preset(Profile::Default),
    {
        Self::with_profile(Profile::Default)
    }

    /// Replaces these options by the exact preset.
    pub fn ignore_nothing(self) -> (r: Self)
        ensures
            r == Self::preset(Profile::Exact),
    {
        Self::with_profile(Profile::Exact)
    }

    /// Replaces these options by the default preset.
    pub fn ignore_less(self) -> (r: Self)
        ensures
            r == Self::preset(Profile::Default),
    {
        Self::with_profile(Profile::Default)
    }

    /// Replaces these options by the preset that tolerates anti-aliasing.
    pub fn ignore_antialiasing(self) -> (r: Self)
        ensures
            r == Self::preset(Profile::IgnoreAntialiasing),
    {
        Self::with_profile(Profile::IgnoreAntialiasing)
    }

    /// Replaces these options by the preset that ignores colors.
    pub fn ignore_colors(self) -> (r: Self)
        ensures
            r == Self::preset(Profile::IgnoreColors),
    {
        Self::with_profile(Profile::IgnoreColors)
    }
}

impl Default for ComparisonOptions {
    /// The default preset.
    fn default() -> (r: ComparisonOptions)
        ensures
            r == ComparisonOptions::preset(Profile::Default),
    {
        ComparisonOptions::with_profile(Profile::Default)
    }
}

} // verus!
