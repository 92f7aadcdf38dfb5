use tempergb::{clamp_kelvin, color_from_fit, saturate, Breakpoints, FitLevels};

const LEVELS: FitLevels = FitLevels { red_cool: 201, green_warm: 159, green_cool: 218, blue_warm: 70 };

fn breakpoints(at_most_floor: bool, at_most_seam: bool, at_least_seam: bool) -> Breakpoints {
    Breakpoints { at_most_floor, at_most_seam, at_least_seam }
}

#[test]
fn saturate_keeps_channel_range() {
    assert_eq!(saturate(0), 0);
    assert_eq!(saturate(17), 17);
    assert_eq!(saturate(255), 255);
    assert_eq!(saturate(256), 255);
    assert_eq!(saturate(-1), 0);
    assert_eq!(saturate(i64::MIN), 0);
    assert_eq!(saturate(i64::MAX), 255);
}

#[test]
fn clamp_kelvin_bounds() {
    assert_eq!(clamp_kelvin(500), 1000);
    assert_eq!(clamp_kelvin(1000), 1000);
    assert_eq!(clamp_kelvin(2500), 2500);
    assert_eq!(clamp_kelvin(40000), 40000);
    assert_eq!(clamp_kelvin(100_000), 40000);
    assert_eq!(clamp_kelvin(i64::MIN), 1000);
    assert_eq!(clamp_kelvin(i64::MAX), 40000);
}

#[test]
fn breakpoints_of_whole_kelvin() {
    assert_eq!(Breakpoints::of_kelvin(0), breakpoints(true, true, false));
    assert_eq!(Breakpoints::of_kelvin(1900), breakpoints(true, true, false));
    assert_eq!(Breakpoints::of_kelvin(1901), breakpoints(false, true, false));
    assert_eq!(Breakpoints::of_kelvin(6599), breakpoints(false, true, false));
    assert_eq!(Breakpoints::of_kelvin(6600), breakpoints(false, true, true));
    assert_eq!(Breakpoints::of_kelvin(6601), breakpoints(false, false, true));
    assert_eq!(Breakpoints::of_kelvin(60000), breakpoints(false, false, true));
}

#[test]
fn clamped_temperatures_share_breakpoints() {
    assert_eq!(Breakpoints::of_kelvin(500), Breakpoints::of_kelvin(1000));
    assert_eq!(Breakpoints::of_kelvin(100_000), Breakpoints::of_kelvin(40000));
}

#[test]
fn fit_below_floor() {
    assert!(color_from_fit(breakpoints(true, true, false), LEVELS) == (255, 159, 0));
}

#[test]
fn fit_warm_half() {
    assert!(color_from_fit(breakpoints(false, true, false), LEVELS) == (255, 159, 70));
}

#[test]
fn fit_at_seam() {
    assert!(color_from_fit(breakpoints(false, true, true), LEVELS) == (255, 159, 255));
}

#[test]
fn fit_cool_half() {
    assert!(color_from_fit(breakpoints(false, false, true), LEVELS) == (201, 218, 255));
}

#[test]
fn fit_with_no_breakpoint_met_uses_every_curve() {
    assert!(color_from_fit(breakpoints(false, false, false), LEVELS) == (201, 218, 70));
    let zero = FitLevels { red_cool: 0, green_warm: 0, green_cool: 0, blue_warm: 0 };
    assert!(color_from_fit(breakpoints(false, false, false), zero) == (0, 0, 0));
}

#[test]
fn fit_saturates_each_fitted_level() {
    let wild = FitLevels { red_cool: 900, green_warm: -4, green_cool: -300, blue_warm: 256 };
    assert!(color_from_fit(breakpoints(false, false, false), wild) == (255, 0, 255));
    assert!(color_from_fit(breakpoints(true, true, false), wild) == (255, 0, 0));
    assert!(color_from_fit(breakpoints(false, true, false), wild) == (255, 0, 255));
}

#[test]
fn fit_is_repeatable() {
    let bp = breakpoints(false, true, false);
    assert_eq!(color_from_fit(bp, LEVELS), color_from_fit(bp, LEVELS));
}
