//! Colors of black-body temperatures.
//!
//! A temperature in Kelvin is turned into an approximate sRGB triple by an
//! empirical fit to black-body curves. The fitted curves themselves are
//! floating-point formulas; this crate holds everything around them: the
//! clamping of whole-number temperatures, the breakpoints that decide which
//! formula each channel follows, the saturation of each fitted value to a
//! channel, and the [`Color`] value that results.

mod color;
mod fit;

pub use color::{lemma_components_match, Color};
pub use fit::{
    breakpoints_of_kelvin, clamp_kelvin, clamped_kelvin, color_from_fit, fit_components,
    lemma_clamp_extremes, lemma_extreme_channels, lemma_extreme_channels_of_kelvin,
    lemma_fit_deterministic, saturate, saturated, Breakpoints, FitLevels, BLUE_FLOOR,
    KELVIN_PER_UNIT, MAX_KELVIN, MIN_KELVIN, SEAM,
};
