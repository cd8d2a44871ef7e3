//! Setting mapper: evaluates the curve engine into a normalized sample and
//! converts samples into device-native units (a 0..=254 brightness scale and
//! a device-reported color-temperature range).

use vstd::arithmetic::div_mod::lemma_fundamental_div_mod_converse;
use vstd::arithmetic::mul::lemma_mul_inequality;
use vstd::prelude::*;

use crate::curve::{brightness, brightness_spec, color_temperature, color_temperature_spec, SCALE};
use crate::window::DayWindow;

verus! {

/// Largest device brightness unit: the device scale runs 0..=254.
pub const DEVICE_BRIGHTNESS_MAX: u8 = 254;

/// A pair of normalized curve values for one instant, in micro-units.
/// The color temperature is absent when the device lacks the capability.
#[derive(Clone, Copy, Debug, PartialEq, Eq)]
pub struct CurveSample {
    pub brightness: u32,
    pub color_temperature: Option<u32>,
}

impl CurveSample {
    /// Both values are normalized: at most `SCALE` micro-units.
    pub open spec fn wf(self) -> bool {
        &&& self.brightness <= SCALE
        &&& (match self.color_temperature {
            Some(ct) => ct <= SCALE,
            None => true,
        })
    }
}

/// A device's reported color-temperature range (mired-like units, where the
/// largest value is the warmest the device can show).
#[derive(Clone, Copy, Debug, PartialEq, Eq)]
pub struct ColorTemperatureBounds {
    pub min: u16,
    pub max: u16,
}

impl ColorTemperatureBounds {
    /// The range is well formed when it is not inverted.
    pub open spec fn wf(self) -> bool {
        self.min <= self.max
    }
}

/// A transient device-native setting, dispatched to the bridge collaborator
/// and discarded.  The color temperature is omitted entirely when the device
/// lacks the capability.
#[derive(Clone, Copy, Debug, PartialEq, Eq)]
pub struct DeviceSetting {
    pub brightness: u8,
    pub color_temperature: Option<u16>,
}

/// Device brightness units for a micro-unit brightness `b`: `b * 254`,
/// rounded to the nearest unit (halves up).
pub open spec fn map_brightness_spec(b: int) -> int {
    (b * 254 + 500000) / 1000000
}

/// Device color-temperature units for a micro-unit color temperature `ct`
/// and device bounds `[min, max]`: `(1 - ct) * (max - min)`, rounded to the
/// nearest unit (halves up), plus `min`.  The inversion maps 0 (warmest) to
/// the device maximum and 1 (coldest) to the device minimum.
pub open spec fn map_color_temperature_spec(ct: int, min: int, max: int) -> int {
    ((1000000 - ct) * (max - min) + 500000) / 1000000 + min
}

/// Evaluates both curves at `now` over `window` into one normalized sample;
/// the color temperature is computed only when the device supports it.
pub fn evaluate(window: &DayWindow, now: i64, supports_color: bool) -> (r: CurveSample)
    requires
        window.wf(),
    ensures
        r.brightness == brightness_spec(
            window.start_of_day as int,
            window.end_of_day as int,
            now as int,
        ),
        (if supports_color {
            r.color_temperature == Some(
                color_temperature_spec(
                    window.start_of_day as int,
                    window.end_of_day as int,
                    now as int,
                ) as u32,
            )
        } else {
            r.color_temperature is None
        }),
        r.wf(),
{
    let b = brightness(window.start_of_day, window.end_of_day, now);
    let ct = if supports_color {
        Some(color_temperature(window.start_of_day, window.end_of_day, now))
    } else {
        None
    };
    CurveSample { brightness: b, color_temperature: ct }
}

/// Device brightness units for a normalized micro-unit brightness.
pub fn map_brightness(b: u32) -> (r: u8)
    requires
        b <= SCALE,
    ensures
        r == map_brightness_spec(b as int),
        r <= DEVICE_BRIGHTNESS_MAX,
{
    let v: u64 = (b as u64 * 254 + 500000) / 1000000;
    v as u8
}

/// Device color-temperature units for a normalized micro-unit color
/// temperature, clamped by construction into the device's range.
pub fn map_color_temperature(ct: u32, bounds: ColorTemperatureBounds) -> (r: u16)
    requires
        ct <= SCALE,
        bounds.wf(),
    ensures
        r == map_color_temperature_spec(ct as int, bounds.min as int, bounds.max as int),
        bounds.min <= r <= bounds.max,
{
    let span: u64 = (bounds.max - bounds.min) as u64;
    let inv: u64 = (1000000 - ct) as u64;
    proof {
        lemma_mul_inequality(inv as int, 1000000, span as int);
        lemma_fundamental_div_mod_converse(
            1000000 * (span as int) + 500000,
            1000000,
            span as int,
            500000,
        );
    }
    let scaled: u64 = (inv * span + 500000) / 1000000;
    bounds.min + scaled as u16
}

/// Converts a normalized curve sample into a device-native setting.  The
/// color temperature is emitted only when both the sample carries one and
/// the device reports a range for it; a device without the capability gets
/// a brightness-only setting.
pub fn map_setting(sample: CurveSample, bounds: Option<ColorTemperatureBounds>) -> (r:
    DeviceSetting)
    requires
        sample.wf(),
        (bounds matches Some(b) ==> b.wf()),
    ensures
        r.brightness == map_brightness_spec(sample.brightness as int),
        r.brightness <= DEVICE_BRIGHTNESS_MAX,
        (match (sample.color_temperature, bounds) {
            (Some(ct), Some(b)) => r.color_temperature == Some(
                map_color_temperature_spec(ct as int, b.min as int, b.max as int) as u16,
            ) && (b.min <= map_color_temperature_spec(ct as int, b.min as int, b.max as int)
                <= b.max),
            _ => r.color_temperature is None,
        }),
{
    let ct = match (sample.color_temperature, bounds) {
        (Some(ct), Some(b)) => Some(map_color_temperature(ct, b)),
        _ => None,
    };
    DeviceSetting { brightness: map_brightness(sample.brightness), color_temperature: ct }
}

} // verus!
