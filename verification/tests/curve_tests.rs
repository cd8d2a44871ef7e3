use daylight::curve::{brightness, color_temperature, BASELINE, SCALE};

const SOD: i64 = 0;
const EOD: i64 = 43200;

#[test]
fn color_temperature_at_window_edges_and_ramp_top() {
    let sod: i64 = 1700000000;
    let eod: i64 = 1700043200;
    assert_eq!(color_temperature(sod, eod, sod), 0);
    assert_eq!(color_temperature(sod, eod, sod + 3600), SCALE);
    assert_eq!(color_temperature(sod, eod, eod), 0);
}

#[test]
fn color_temperature_outside_window_is_warmest() {
    assert_eq!(color_temperature(SOD, EOD, -1), 0);
    assert_eq!(color_temperature(SOD, EOD, EOD + 1), 0);
    assert_eq!(color_temperature(SOD, EOD, -1000000), 0);
}

#[test]
fn color_temperature_midday_plateau_is_coldest() {
    assert_eq!(color_temperature(SOD, EOD, 3601), SCALE);
    assert_eq!(color_temperature(SOD, EOD, 10000), SCALE);
    assert_eq!(color_temperature(SOD, EOD, EOD - 7201), SCALE);
}

#[test]
fn color_temperature_ramp_midpoints() {
    // Halfway up the one-hour sunrise ramp.
    assert_eq!(color_temperature(SOD, EOD, 1800), SCALE / 2);
    // Halfway down the two-hour sunset ramp.
    assert_eq!(color_temperature(SOD, EOD, EOD - 3600), SCALE / 2);
    // Top of the sunset ramp.
    assert_eq!(color_temperature(SOD, EOD, EOD - 7200), SCALE);
}

#[test]
fn color_temperature_short_window_stays_normalized() {
    // A window shorter than the two transitions together: the ramps overlap,
    // but every value must stay within [0, SCALE].
    for now in -10..=5010i64 {
        let ct = color_temperature(0, 5000, now);
        assert!(ct <= SCALE);
    }
}

#[test]
fn brightness_exact_values_for_a_twelve_hour_day() {
    // Exactly the baseline at the window edge, exactly full at midday, and
    // exactly zero at the far edge of the fade.
    assert_eq!(brightness(SOD, EOD, 0), BASELINE);
    assert_eq!(brightness(SOD, EOD, 21600), SCALE);
    assert_eq!(brightness(SOD, EOD, -10800), 0);
}

#[test]
fn brightness_night_floor() {
    assert_eq!(brightness(SOD, EOD, -10801), 0);
    assert_eq!(brightness(SOD, EOD, EOD + 10801), 0);
    assert_eq!(brightness(SOD, EOD, i64::MIN), 0);
    assert_eq!(brightness(SOD, EOD, i64::MAX), 0);
}

#[test]
fn brightness_fade_is_linear_and_meets_both_neighbours() {
    // Fade-in: zero at the far edge, half the baseline midway, the full
    // baseline right at the window edge; the fade-out mirrors it.
    assert_eq!(brightness(SOD, EOD, -10800), 0);
    assert_eq!(brightness(SOD, EOD, -5400), BASELINE / 2);
    assert_eq!(brightness(SOD, EOD, EOD), BASELINE);
    assert_eq!(brightness(SOD, EOD, EOD + 5400), BASELINE / 2);
    assert_eq!(brightness(SOD, EOD, EOD + 10800), 0);
}

#[test]
fn brightness_eased_quarter_day_value() {
    // A quarter of the day in: progress 1/2, ease 1 - (1/2)^3 = 7/8, so
    // brightness is 0.875 * 0.6 + 0.4 = 0.925.
    assert_eq!(brightness(SOD, EOD, 10800), 925000);
    assert_eq!(brightness(SOD, EOD, 32400), 925000);
}

#[test]
fn brightness_morning_afternoon_symmetry() {
    let midday: i64 = 21600;
    for x in [0i64, 1, 60, 3600, 7200, 10800, 21599, 21600] {
        assert_eq!(
            brightness(SOD, EOD, midday - x),
            brightness(SOD, EOD, midday + x),
            "offset {x}"
        );
    }
}

#[test]
fn brightness_no_jumps_at_breakpoints() {
    // Adjacent seconds around every breakpoint differ by less than the
    // steepest per-second slope of any piece (the fades move ~37 micro-units
    // a second, the eased day piece ~84 at this window size).
    let breakpoints = [-10800i64, 0, 21600, 43200, 54000];
    for bp in breakpoints {
        let before = brightness(SOD, EOD, bp - 1) as i64;
        let at = brightness(SOD, EOD, bp) as i64;
        let after = brightness(SOD, EOD, bp + 1) as i64;
        assert!((at - before).abs() < 100, "breakpoint {bp}");
        assert!((after - at).abs() < 100, "breakpoint {bp}");
    }
    let ct_breakpoints = [0i64, 3600, 36000, 43200];
    for bp in ct_breakpoints {
        let before = color_temperature(SOD, EOD, bp - 1) as i64;
        let at = color_temperature(SOD, EOD, bp) as i64;
        let after = color_temperature(SOD, EOD, bp + 1) as i64;
        assert!((at - before).abs() <= 278, "breakpoint {bp}");
        assert!((after - at).abs() <= 278, "breakpoint {bp}");
    }
}

#[test]
fn brightness_one_second_window_stays_normalized() {
    // The smallest valid window has no room for the eased arc; everything
    // must still stay within [0, SCALE].
    for now in -11000..=12000i64 {
        let b = brightness(0, 1, now);
        assert!(b <= SCALE);
    }
    assert_eq!(brightness(0, 1, 0), BASELINE);
    assert_eq!(brightness(0, 1, 1), BASELINE);
}

#[test]
fn brightness_ranges_over_a_whole_cycle() {
    for now in (-12000..=56000i64).step_by(7) {
        let b = brightness(SOD, EOD, now);
        assert!(b <= SCALE);
        if now >= SOD && now <= EOD {
            assert!(b >= BASELINE);
        }
    }
}
