//! The curve engine: two pure, deterministic functions of
//! `(start_of_day, end_of_day, now)` giving the normalized brightness and
//! color temperature for an instant, as fixed-point micro-units in
//! `[0, SCALE]`.

use vstd::arithmetic::div_mod::{
    lemma_div_decreases, lemma_div_is_ordered, lemma_div_multiples_vanish, lemma_div_of0,
    lemma_div_pos_is_pos,
};
use vstd::arithmetic::mul::lemma_mul_inequality;
use vstd::prelude::*;

verus! {

/// Fixed-point unit: this many micro-units stand for the normalized value 1.0.
pub const SCALE: u32 = 1000000;

/// Normalized brightness held at the edges of the day window (0.4).
pub const BASELINE: u32 = 400000;

/// Length of the morning color-temperature ramp, seconds (1 hour).
pub const SUNRISE_TRANSITION: i64 = 3600;

/// Length of the evening color-temperature ramp, seconds (2 hours).
pub const SUNSET_TRANSITION: i64 = 7200;

/// Length of the brightness fade outside the day window, seconds (3 hours).
pub const FADE_TIME: i64 = 10800;

/// Linear ramp: the fraction `elapsed / duration` in micro-units.
pub open spec fn ramp_micro(elapsed: int, duration: int) -> int {
    elapsed * 1000000 / duration
}

/// Normalized color temperature (0 = warmest, 1 = coldest) at `now`, in
/// micro-units: warmest outside the window, coldest on the midday plateau,
/// and linear ramps of `SUNRISE_TRANSITION` / `SUNSET_TRANSITION` seconds
/// just inside each edge.
pub open spec fn color_temperature_spec(sod: int, eod: int, now: int) -> int {
    if now < sod || now > eod {
        0
    } else if now > sod + SUNRISE_TRANSITION && now < eod - SUNSET_TRANSITION {
        SCALE as int
    } else if now <= sod + SUNRISE_TRANSITION {
        ramp_micro(now - sod, 3600)
    } else {
        ramp_micro(eod - now, 7200)
    }
}

/// Normalized color temperature at `now` for the day window `[sod, eod]`.
pub fn color_temperature(sod: i64, eod: i64, now: i64) -> (r: u32)
    requires
        sod < eod,
    ensures
        r == color_temperature_spec(sod as int, eod as int, now as int),
        r <= SCALE,
        now < sod || now > eod ==> r == 0,
        sod + SUNRISE_TRANSITION < now && now < eod - SUNSET_TRANSITION ==> r == SCALE,
{
    if now < sod || now > eod {
        0
    } else {
        let since_start: i128 = now as i128 - sod as i128;
        let until_end: i128 = eod as i128 - now as i128;
        if since_start > SUNRISE_TRANSITION as i128 && until_end > SUNSET_TRANSITION as i128 {
            SCALE
        } else if since_start <= 3600 {
            let v: u64 = since_start as u64 * 1000000 / 3600;
            v as u32
        } else {
            let v: u64 = until_end as u64 * 1000000 / 7200;
            v as u32
        }
    }
}

/// Half the day window, seconds (integer division).
pub open spec fn halfday_of(sod: int, eod: int) -> int {
    (eod - sod) / 2
}

/// Brightness while fading `dist` seconds outside the day window: the full
/// `BASELINE` right at the window edge, zero once `FADE_TIME` away, linear
/// in between.
pub open spec fn fade_micro(dist: int) -> int {
    (10800 - dist) * 400000 / 10800
}

/// Cubic ease-out, `1 - (1 - x)^3`, over micro-unit arguments and results:
/// rises quickly near 0 and levels off near 1.
pub open spec fn eased_micro(progress: int) -> int {
    let q = 1000000 - progress;
    1000000 - q * q * q / 1000000000000
}

/// Brightness inside the day window, `toward` seconds away from the nearer
/// window edge with halfday `h`: the cubic ease applied to `toward / h`,
/// rescaled to run from `BASELINE` at the edges to `SCALE` at midday.
pub open spec fn day_micro(h: int, toward: int) -> int {
    if h <= 0 {
        400000
    } else {
        eased_micro(toward * 1000000 / h) * 600000 / 1000000 + 400000
    }
}

/// Normalized brightness at `now`, in micro-units: zero more than
/// `FADE_TIME` outside the window, a linear fade up to `BASELINE` across the
/// fade strip, and an eased rise from `BASELINE` to full at midday (and the
/// mirror-image fall) inside the window.
pub open spec fn brightness_spec(sod: int, eod: int, now: int) -> int {
    let h = halfday_of(sod, eod);
    let midday = sod + h;
    if now < sod - FADE_TIME || now > eod + FADE_TIME {
        0
    } else if now < sod {
        fade_micro(sod - now)
    } else if now > eod {
        fade_micro(now - eod)
    } else if now <= midday {
        day_micro(h, now - sod)
    } else {
        day_micro(h, eod - now)
    }
}

/// The micro-unit fraction `toward / h` stays within `[0, SCALE]` whenever
/// `0 <= toward <= h`.
proof fn lemma_fraction_bounds(toward: int, h: int)
    requires
        0 <= toward <= h,
        1 <= h,
    ensures
        0 <= toward * 1000000 / h <= 1000000,
{
    lemma_mul_inequality(0, toward, 1000000);
    lemma_mul_inequality(toward, h, 1000000);
    lemma_div_is_ordered(toward * 1000000, h * 1000000, h);
    lemma_div_multiples_vanish(1000000, h);
    assert(h * 1000000 == 1000000 * h);
    lemma_div_pos_is_pos(toward * 1000000, h);
}

/// `eased_micro` stays within `[0, SCALE]` on micro-unit arguments.
proof fn lemma_eased_micro_bounds(progress: int)
    requires
        0 <= progress <= 1000000,
    ensures
        0 <= eased_micro(progress) <= 1000000,
{
    let q = 1000000 - progress;
    assert(0 <= q * q * q <= 1000000000000000000) by (nonlinear_arith)
        requires
            0 <= q <= 1000000,
    ;
    lemma_div_is_ordered(q * q * q, 1000000000000000000, 1000000000000);
    lemma_div_pos_is_pos(q * q * q, 1000000000000);
    assert(1000000000000000000int / 1000000000000int == 1000000);
}

/// `day_micro` stays within `[BASELINE, SCALE]` on its intended domain.
proof fn lemma_day_micro_bounds(h: int, toward: int)
    requires
        0 <= toward <= h,
    ensures
        400000 <= day_micro(h, toward) <= 1000000,
{
    if h >= 1 {
        lemma_fraction_bounds(toward, h);
        let p = toward * 1000000 / h;
        lemma_eased_micro_bounds(p);
        let e = eased_micro(p);
        lemma_mul_inequality(0, e, 600000);
        lemma_mul_inequality(e, 1000000, 600000);
        lemma_div_is_ordered(e * 600000, 600000000000, 1000000);
        lemma_div_pos_is_pos(e * 600000, 1000000);
        assert(600000000000int / 1000000int == 600000);
    }
}

/// Law: the color-temperature curve is continuous.  At each breakpoint of
/// the piecewise definition (`sod`, `sod + SUNRISE_TRANSITION`,
/// `eod - SUNSET_TRANSITION`, `eod`) the formulas of the two adjoining
/// pieces give exactly the same value, so the curve never jumps: the night
/// piece and the ramps meet at 0, and the ramps and the midday plateau meet
/// at `SCALE`.
pub proof fn lemma_color_temperature_continuity(sod: int, eod: int)
    requires
        sod + SUNRISE_TRANSITION + SUNSET_TRANSITION <= eod,
    ensures
        color_temperature_spec(sod, eod, sod - 1) == 0,
        color_temperature_spec(sod, eod, sod) == 0,
        ramp_micro(0, 3600) == 0,
        color_temperature_spec(sod, eod, sod + SUNRISE_TRANSITION) == SCALE,
        ramp_micro(3600, 3600) == SCALE,
        color_temperature_spec(sod, eod, eod - SUNSET_TRANSITION) == SCALE,
        ramp_micro(7200, 7200) == SCALE,
        color_temperature_spec(sod, eod, eod) == 0,
        ramp_micro(0, 7200) == 0,
        color_temperature_spec(sod, eod, eod + 1) == 0,
{
}

/// Law: the brightness curve is continuous.  At each breakpoint of the
/// piecewise definition (`sod - FADE_TIME`, `sod`, midday, `eod`,
/// `eod + FADE_TIME`) the formulas of the two adjoining pieces give exactly
/// the same value: the fades meet the night level at 0, the fades meet the
/// day pieces at `BASELINE`, and the morning and afternoon pieces both reach
/// `SCALE` at midday.  Stated for windows of even length `2 * h`, whose
/// midday is an exact instant.
pub proof fn lemma_brightness_continuity(sod: int, eod: int, h: int)
    requires
        eod == sod + 2 * h,
        1 <= h,
    ensures
        brightness_spec(sod, eod, sod - FADE_TIME - 1) == 0,
        brightness_spec(sod, eod, sod - FADE_TIME) == 0,
        fade_micro(FADE_TIME as int) == 0,
        brightness_spec(sod, eod, sod) == BASELINE,
        fade_micro(0) == BASELINE,
        day_micro(h, 0) == BASELINE,
        brightness_spec(sod, eod, sod + h) == SCALE,
        day_micro(h, h) == SCALE,
        brightness_spec(sod, eod, eod) == BASELINE,
        brightness_spec(sod, eod, eod + FADE_TIME) == 0,
        brightness_spec(sod, eod, eod + FADE_TIME + 1) == 0,
{
    lemma_div_multiples_vanish(h, 2);
    assert(halfday_of(sod, eod) == h);
    lemma_div_of0(h);
    assert(1000000int * 1000000 * 1000000 == 1000000000000000000) by (nonlinear_arith);
    assert(eased_micro(0) == 0);
    assert(day_micro(h, 0) == BASELINE);
    lemma_div_multiples_vanish(1000000, h);
    assert(h * 1000000 / h == 1000000);
    assert(day_micro(h, h) == SCALE);
}

/// Law: for every valid window, brightness is exactly `BASELINE` at both
/// window edges and exactly zero at both far edges of the fade — the levels
/// at which the adjoining pieces take over.
pub proof fn lemma_brightness_window_edges(sod: int, eod: int)
    requires
        sod < eod,
    ensures
        brightness_spec(sod, eod, sod - FADE_TIME) == 0,
        brightness_spec(sod, eod, sod) == BASELINE,
        brightness_spec(sod, eod, eod) == BASELINE,
        brightness_spec(sod, eod, eod + FADE_TIME) == 0,
{
    let h = halfday_of(sod, eod);
    lemma_div_pos_is_pos(eod - sod, 2);
    lemma_div_decreases(eod - sod, 2);
    assert(0 <= h < eod - sod);
    if h >= 1 {
        lemma_div_of0(h);
    }
}

/// Law: inside the day window, brightness is symmetric about midday.  For a
/// window of even length `2 * h` and any offset `0 <= x <= h`, the value `x`
/// seconds before midday equals the value `x` seconds after midday: morning
/// and afternoon run through the same eased arc, mirrored.
pub proof fn lemma_brightness_symmetry(sod: int, eod: int, h: int, x: int)
    requires
        eod == sod + 2 * h,
        1 <= h,
        0 <= x <= h,
    ensures
        brightness_spec(sod, eod, sod + h - x) == brightness_spec(sod, eod, sod + h + x),
{
    lemma_div_multiples_vanish(h, 2);
    assert(halfday_of(sod, eod) == h);
}

/// Normalized brightness at `now` for the day window `[sod, eod]`.
pub fn brightness(sod: i64, eod: i64, now: i64) -> (r: u32)
    requires
        sod < eod,
    ensures
        r == brightness_spec(sod as int, eod as int, now as int),
        r <= SCALE,
        now < sod - FADE_TIME || now > eod + FADE_TIME ==> r == 0,
{
    let sod_w: i128 = sod as i128;
    let eod_w: i128 = eod as i128;
    let now_w: i128 = now as i128;
    let h: i128 = ((eod_w - sod_w) as u128 / 2) as i128;
    let midday: i128 = sod_w + h;
    if now_w < sod_w - FADE_TIME as i128 || now_w > eod_w + FADE_TIME as i128 {
        0
    } else if now < sod {
        let dist: u64 = (sod_w - now_w) as u64;
        let v: u64 = (10800 - dist) * 400000 / 10800;
        v as u32
    } else if now > eod {
        let dist: u64 = (now_w - eod_w) as u64;
        let v: u64 = (10800 - dist) * 400000 / 10800;
        v as u32
    } else {
        let toward: i128 = if now_w <= midday {
            now_w - sod_w
        } else {
            eod_w - now_w
        };
        if h <= 0 {
            BASELINE
        } else {
            proof {
                lemma_fraction_bounds(toward as int, h as int);
                lemma_day_micro_bounds(h as int, toward as int);
                lemma_eased_micro_bounds(toward as int * 1000000 / (h as int));
            }
            let p: u64 = (toward as u128 * 1000000 / h as u128) as u64;
            let q: u64 = 1000000 - p;
            proof {
                assert(q * q <= 1000000000000 && q * q * q <= 1000000000000000000)
                    by (nonlinear_arith)
                    requires
                        0 <= q <= 1000000,
                ;
            }
            let cube: u64 = q * q * q;
            let e: u64 = 1000000 - cube / 1000000000000;
            let v: u64 = e * 600000 / 1000000 + 400000;
            v as u32
        }
    }
}

} // verus!

