//! Day-window computation: combines the natural sunrise/sunset instants with
//! the configured wake-up and bed times (each widened by a slack buffer) into
//! the effective `[start_of_day, end_of_day]` interval the curves run over.

use vstd::prelude::*;

verus! {

/// Default slack buffer around the configured wake-up and bed times, seconds.
pub const DEFAULT_SLACK_SECONDS: i64 = 1800;

/// Largest number of seconds from midnight a valid configured time can name
/// (23 hours, 59 minutes).
pub const MAX_SECONDS_FROM_MIDNIGHT: u32 = 86340;

/// A wall-clock target (wake-up or bed time) for the current local day.
#[derive(Clone, Copy, Debug, PartialEq, Eq)]
pub struct ConfiguredTime {
    pub hour: u8,
    pub minute: u8,
}

impl ConfiguredTime {
    /// A configured time is well formed when it names a real wall-clock time.
    pub open spec fn wf(self) -> bool {
        self.hour < 24 && self.minute < 60
    }

    /// Seconds from local midnight to this wall-clock time.
    pub open spec fn spec_seconds_from_midnight(self) -> int {
        self.hour * 3600 + self.minute * 60
    }

    /// Builds a configured time, rejecting out-of-range fields.
    pub fn new(hour: u8, minute: u8) -> (r: Option<ConfiguredTime>)
        ensures
            r == (if hour < 24 && minute < 60 {
                Some(ConfiguredTime { hour, minute })
            } else {
                None::<ConfiguredTime>
            }),
    {
        if hour < 24 && minute < 60 {
            Some(ConfiguredTime { hour, minute })
        } else {
            None
        }
    }

    /// Seconds from local midnight to this wall-clock time.
    pub fn seconds_from_midnight(&self) -> (r: u32)
        requires
            self.wf(),
        ensures
            r == self.spec_seconds_from_midnight(),
            r <= MAX_SECONDS_FROM_MIDNIGHT,
    {
        (self.hour as u32) * 3600 + (self.minute as u32) * 60
    }

    /// Absolute instant of this wall-clock time on the day that starts at
    /// `day_start` (the local midnight, as epoch seconds).
    pub fn resolve(&self, day_start: i64) -> (r: i64)
        requires
            self.wf(),
            day_start + self.spec_seconds_from_midnight() <= i64::MAX,
        ensures
            r == day_start + self.spec_seconds_from_midnight(),
    {
        day_start + self.seconds_from_midnight() as i64
    }
}

/// The effective lighting interval for one day, as epoch seconds.
#[derive(Clone, Copy, Debug, PartialEq, Eq)]
pub struct DayWindow {
    pub start_of_day: i64,
    pub end_of_day: i64,
}

impl DayWindow {
    /// A day window is well formed when it has positive duration.
    pub open spec fn wf(self) -> bool {
        self.start_of_day < self.end_of_day
    }
}

/// Configuration failures that abort startup.
#[derive(Clone, Copy, Debug, PartialEq, Eq)]
pub enum ConfigError {
    /// The combined inputs produced an inverted (non-positive) day window.
    InvertedWindow,
}

/// Start of the effective day: whichever comes first of the natural sunrise
/// and the slack-adjusted wake-up instant.
pub open spec fn spec_start_of_day(sunrise: int, wake_up: int, slack: int) -> int {
    let adjusted = wake_up - slack;
    if sunrise <= adjusted {
        sunrise
    } else {
        adjusted
    }
}

/// End of the effective day: whichever comes last of the natural sunset and
/// the slack-adjusted bed-time instant.
pub open spec fn spec_end_of_day(sunset: int, bed_time: int, slack: int) -> int {
    let adjusted = bed_time + slack;
    if sunset >= adjusted {
        sunset
    } else {
        adjusted
    }
}

/// Combines natural sunrise/sunset with the resolved wake-up and bed-time
/// instants into the effective day window.
///
/// The wake-up instant is moved `slack` seconds earlier and the bed-time
/// instant `slack` seconds later, so lighting starts a little before the
/// configured wake time and ends a little after the configured bed time.
/// The window then covers whichever is broader: natural daylight or the
/// user's active hours.  An inverted window is rejected rather than handed
/// to the curves.
pub fn compute_window(sunrise: i64, sunset: i64, wake_up: i64, bed_time: i64, slack: i64) -> (r:
    Result<DayWindow, ConfigError>)
    requires
        0 <= slack,
        i64::MIN <= wake_up - slack,
        bed_time + slack <= i64::MAX,
    ensures
        ({
            let s = spec_start_of_day(sunrise as int, wake_up as int, slack as int);
            let e = spec_end_of_day(sunset as int, bed_time as int, slack as int);
            if s < e {
                r == Ok::<DayWindow, ConfigError>(DayWindow { start_of_day: s as i64, end_of_day: e as i64 })
            } else {
                r == Err::<DayWindow, ConfigError>(ConfigError::InvertedWindow)
            }
        }),
        (r matches Ok(w) ==> w.wf()),
{
    let adjusted_wake = wake_up - slack;
    let adjusted_bed = bed_time + slack;
    let start_of_day = if sunrise <= adjusted_wake {
        sunrise
    } else {
        adjusted_wake
    };
    let end_of_day = if sunset >= adjusted_bed {
        sunset
    } else {
        adjusted_bed
    };
    if start_of_day < end_of_day {
        Ok(DayWindow { start_of_day, end_of_day })
    } else {
        Err(ConfigError::InvertedWindow)
    }
}

} // verus!
