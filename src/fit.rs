use vstd::prelude::*;

use crate::color::Color;

verus! {

/// The lowest temperature, in Kelvin, that the fit is evaluated at.
pub const MIN_KELVIN: u32 = 1000;

/// The highest temperature, in Kelvin, that the fit is evaluated at.
pub const MAX_KELVIN: u32 = 40000;

/// Kelvin per unit of the scaled temperature that the fitted curves take.
pub const KELVIN_PER_UNIT: u32 = 100;

/// Scaled temperature at or below which the blue channel is off.
pub const BLUE_FLOOR: u32 = 19;

/// Scaled temperature that splits the warm and the cool half of the fit.
pub const SEAM: u32 = 66;

/// How the scaled temperature `t` compares with the fit's breakpoints.
///
/// For a temperature that is a number these are consistent (see
/// [`Breakpoints::consistent`]); a temperature that is not a number compares
/// false with everything.
#[derive(Debug, Clone, Copy, PartialEq, Eq, Structural)]
pub struct Breakpoints {
    /// `t <= 19`
    pub at_most_floor: bool,
    /// `t <= 66`
    pub at_most_seam: bool,
    /// `t >= 66`
    pub at_least_seam: bool,
}

/// The four fitted curves at the scaled temperature `t`, each truncated
/// toward zero to an integer (saturating at the bounds of `i64`, with a value
/// that is not a number taken as 0).
#[derive(Debug, Clone, Copy, PartialEq, Eq, Structural)]
pub struct FitLevels {
    /// `329.698727446 * (t - 60)^-0.1332047592`
    pub red_cool: i64,
    /// `99.4708025861 * ln(t) - 161.1195681661`
    pub green_warm: i64,
    /// `288.1221695283 * (t - 60)^-0.0755148492`
    pub green_cool: i64,
    /// `138.5177312231 * ln(t - 10) - 305.0447927307`
    pub blue_warm: i64,
}

impl Breakpoints {
    /// Breakpoints that a single number can produce: one at or below 19
    /// lies below 66.
    pub open spec fn consistent(self) -> bool {
        self.at_most_floor ==> (self.at_most_seam && !self.at_least_seam)
    }

    /// The breakpoints of a whole-number temperature in Kelvin, after clamping.
    pub fn of_kelvin(kelvin: i64) -> (bp: Breakpoints)
        ensures
            bp == breakpoints_of_kelvin(kelvin as int),
            bp.consistent(),
    {
        let k = clamp_kelvin(kelvin);
        Breakpoints {
            at_most_floor: k <= BLUE_FLOOR * KELVIN_PER_UNIT,
            at_most_seam: k <= SEAM * KELVIN_PER_UNIT,
            at_least_seam: k >= SEAM * KELVIN_PER_UNIT,
        }
    }
}

/// A temperature in Kelvin restricted to `[MIN_KELVIN, MAX_KELVIN]`.
pub open spec fn clamped_kelvin(kelvin: int) -> int {
    if kelvin < MIN_KELVIN {
        MIN_KELVIN as int
    } else if kelvin > MAX_KELVIN {
        MAX_KELVIN as int
    } else {
        kelvin
    }
}

/// The breakpoints of the scaled temperature `clamped_kelvin(kelvin) / 100`,
/// compared exactly.
pub open spec fn breakpoints_of_kelvin(kelvin: int) -> Breakpoints {
    let k = clamped_kelvin(kelvin);
    Breakpoints {
        at_most_floor: k <= BLUE_FLOOR * KELVIN_PER_UNIT,
        at_most_seam: k <= SEAM * KELVIN_PER_UNIT,
        at_least_seam: k >= SEAM * KELVIN_PER_UNIT,
    }
}

/// A value restricted to the range of a channel, `[0, 255]`.
pub open spec fn saturated(level: int) -> u8 {
    if level < 0 {
        0
    } else if level > 255 {
        255
    } else {
        level as u8
    }
}

/// The channels `(red, green, blue)` that the fit gives for the breakpoints
/// and fitted levels of one temperature.
pub open spec fn fit_components(bp: Breakpoints, lv: FitLevels) -> (u8, u8, u8) {
    let red = if bp.at_most_seam {
        255
    } else {
        saturated(lv.red_cool as int)
    };
    let green = if bp.at_most_seam {
        saturated(lv.green_warm as int)
    } else {
        saturated(lv.green_cool as int)
    };
    let blue = if bp.at_least_seam {
        255
    } else if bp.at_most_floor {
        0
    } else {
        saturated(lv.blue_warm as int)
    };
    (red, green, blue)
}

/// Restricts a temperature in Kelvin to `[MIN_KELVIN, MAX_KELVIN]`.
pub fn clamp_kelvin(kelvin: i64) -> (k: u32)
    ensures
        k == clamped_kelvin(kelvin as int),
{
    if kelvin < MIN_KELVIN as i64 {
        MIN_KELVIN
    } else if kelvin > MAX_KELVIN as i64 {
        MAX_KELVIN
    } else {
        kelvin as u32
    }
}

/// Turns a fitted level into a channel: below 0 gives 0, above 255 gives 255,
/// and anything else is kept.
pub fn saturate(level: i64) -> (v: u8)
    ensures
        v == saturated(level as int),
{
    if level < 0 {
        0
    } else if level > 255 {
        255
    } else {
        level as u8
    }
}

/// The color that the fit gives for the breakpoints and fitted levels of one
/// temperature.
///
/// Red is full up to the seam and follows its cool curve above it; green
/// follows its warm curve up to the seam and its cool curve above it; blue is
/// full from the seam on, off up to the floor, and follows its warm curve in
/// between.
pub fn color_from_fit(bp: Breakpoints, lv: FitLevels) -> (c: Color)
    ensures
        c.components() == fit_components(bp, lv),
{
    let r = if bp.at_most_seam {
        255
    } else {
        saturate(lv.red_cool)
    };
    let g = if bp.at_most_seam {
        saturate(lv.green_warm)
    } else {
        saturate(lv.green_cool)
    };
    let b = if bp.at_least_seam {
        255
    } else if bp.at_most_floor {
        0
    } else {
        saturate(lv.blue_warm)
    };
    Color::new(r, g, b)
}

/// Clamping makes every temperature at or below `MIN_KELVIN` behave as
/// `MIN_KELVIN`, and every one at or above `MAX_KELVIN` as `MAX_KELVIN`: the
/// clamped temperature and its breakpoints are the same.
pub proof fn lemma_clamp_extremes(kelvin: int)
    ensures
        kelvin <= MIN_KELVIN ==> clamped_kelvin(kelvin) == clamped_kelvin(MIN_KELVIN as int)
            && breakpoints_of_kelvin(kelvin) == breakpoints_of_kelvin(MIN_KELVIN as int),
        kelvin >= MAX_KELVIN ==> clamped_kelvin(kelvin) == clamped_kelvin(MAX_KELVIN as int)
            && breakpoints_of_kelvin(kelvin) == breakpoints_of_kelvin(MAX_KELVIN as int),
{
}

/// Whatever the fitted levels, red is full up to the seam, blue is full from
/// the seam on, and blue is off up to the floor.
pub proof fn lemma_extreme_channels(bp: Breakpoints, lv: FitLevels)
    requires
        bp.consistent(),
    ensures
        bp.at_most_seam ==> fit_components(bp, lv).0 == 255,
        bp.at_least_seam ==> fit_components(bp, lv).2 == 255,
        bp.at_most_floor ==> fit_components(bp, lv).2 == 0,
{
}

/// For a whole-number temperature, whatever the fitted levels: red is full
/// when the clamped temperature is at most 6600 K, blue is full when it is at
/// least 6600 K, and blue is off when it is at most 1900 K.
pub proof fn lemma_extreme_channels_of_kelvin(kelvin: int, lv: FitLevels)
    ensures
        clamped_kelvin(kelvin) <= SEAM * KELVIN_PER_UNIT
            ==> fit_components(breakpoints_of_kelvin(kelvin), lv).0 == 255,
        clamped_kelvin(kelvin) >= SEAM * KELVIN_PER_UNIT
            ==> fit_components(breakpoints_of_kelvin(kelvin), lv).2 == 255,
        clamped_kelvin(kelvin) <= BLUE_FLOOR * KELVIN_PER_UNIT
            ==> fit_components(breakpoints_of_kelvin(kelvin), lv).2 == 0,
{
}

/// Two colors that the fit gives for the same breakpoints and fitted levels
/// are the same color.
pub proof fn lemma_fit_deterministic(c1: Color, c2: Color, bp: Breakpoints, lv: FitLevels)
    requires
        c1.components() == fit_components(bp, lv),
        c2.components() == fit_components(bp, lv),
    ensures
        c1 == c2,
{
    Color::lemma_same_components(c1, c2);
}

} // verus!
