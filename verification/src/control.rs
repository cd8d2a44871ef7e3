//! Control-loop decisions: a small state machine stepped once per loop
//! iteration.  The surrounding loop performs the outside work (reading the
//! light, dispatching a setting, sleeping, watching for cancellation) and
//! hands each observation in as an event; every decision about what happens
//! next is made here.

use vstd::prelude::*;

use crate::curve::{brightness_spec, color_temperature_spec};
use crate::mapper::{
    evaluate, map_brightness_spec, map_color_temperature_spec, map_setting,
    ColorTemperatureBounds, DeviceSetting,
};
use crate::window::DayWindow;

verus! {

/// Lifecycle of the control loop.
#[derive(Clone, Copy, Debug, PartialEq, Eq)]
pub enum Phase {
    /// Iterating normally.
    Running,
    /// Cancellation observed; the loop is on its way out.
    Stopping,
    /// The loop has ended (after a shutdown, or a fatal startup failure).
    Stopped,
}

/// What the surrounding iteration observed before asking for a decision.
#[derive(Clone, Copy, Debug, PartialEq, Eq)]
pub enum IterationEvent {
    /// The cancellation signal was observed.
    Cancelled,
    /// Reading the target light from the bridge failed.
    ReadFailed,
    /// The target light was read; the payload is its color-temperature
    /// capability, if it reports one.
    LightRead(Option<ColorTemperatureBounds>),
}

/// What the surrounding loop must do next.
#[derive(Clone, Copy, Debug, PartialEq, Eq)]
pub enum Action {
    /// The very first read failed: the target light cannot be found, which
    /// is fatal at startup.
    AbortStartup,
    /// A later read failed: skip this iteration and carry on.
    SkipIteration,
    /// Dispatch this setting to the bridge (a dispatch failure is tolerated:
    /// the loop logs it and carries on).
    Dispatch(DeviceSetting),
    /// Cancellation observed: leave the loop.
    Shutdown,
}

/// The device setting the loop owes the bridge for instant `now`, given the
/// light's color-temperature capability: both curves evaluated over the day
/// window and mapped to device units.
pub open spec fn setting_for(window: DayWindow, now: int, bounds: Option<
    ColorTemperatureBounds,
>) -> DeviceSetting {
    let sod = window.start_of_day as int;
    let eod = window.end_of_day as int;
    DeviceSetting {
        brightness: map_brightness_spec(brightness_spec(sod, eod, now)) as u8,
        color_temperature: match bounds {
            Some(b) => Some(
                map_color_temperature_spec(
                    color_temperature_spec(sod, eod, now),
                    b.min as int,
                    b.max as int,
                ) as u16,
            ),
            None => None,
        },
    }
}

/// The per-iteration decision maker: holds the day window computed once at
/// startup (read-only thereafter) and the little state the loop needs.
#[derive(Clone, Copy, Debug, PartialEq, Eq)]
pub struct Controller {
    pub window: DayWindow,
    pub first_read_done: bool,
    pub phase: Phase,
}

impl Controller {
    /// A controller is well formed when its day window is.
    pub open spec fn wf(self) -> bool {
        self.window.wf()
    }

    /// Builds a controller for one run over `window`.
    pub fn new(window: DayWindow) -> (r: Controller)
        requires
            window.wf(),
        ensures
            r.wf(),
            r.window == window,
            !r.first_read_done,
            r.phase is Running,
    {
        Controller { window, first_read_done: false, phase: Phase::Running }
    }

    /// Decides one iteration: cancellation wins and moves the controller to
    /// `Stopping`; a failed first read is fatal; a failed later read is
    /// skipped; a successful read yields exactly the setting the curves owe
    /// the bridge for `now`.
    pub fn step(&mut self, now: i64, event: IterationEvent) -> (r: Action)
        requires
            old(self).wf(),
            old(self).phase is Running,
            (event matches IterationEvent::LightRead(Some(b)) ==> b.wf()),
        ensures
            final(self).wf(),
            final(self).window == old(self).window,
            (event is Cancelled ==> final(self).phase is Stopping && r is Shutdown
                && final(self).first_read_done == old(self).first_read_done),
            (event is ReadFailed && !old(self).first_read_done ==> final(self).phase is Stopped
                && r is AbortStartup),
            (event is ReadFailed && old(self).first_read_done ==> final(self).phase is Running
                && final(self).first_read_done && r is SkipIteration),
            (event matches IterationEvent::LightRead(bounds) ==> final(self).phase is Running
                && final(self).first_read_done && r == Action::Dispatch(
                setting_for(old(self).window, now as int, bounds),
            )),
    {
        match event {
            IterationEvent::Cancelled => {
                self.phase = Phase::Stopping;
                Action::Shutdown
            },
            IterationEvent::ReadFailed => {
                if self.first_read_done {
                    Action::SkipIteration
                } else {
                    self.phase = Phase::Stopped;
                    Action::AbortStartup
                }
            },
            IterationEvent::LightRead(bounds) => {
                self.first_read_done = true;
                let sample = evaluate(&self.window, now, bounds.is_some());
                Action::Dispatch(map_setting(sample, bounds))
            },
        }
    }

    /// Settles the controller once the shutdown action has been performed.
    pub fn finish(&mut self)
        requires
            old(self).phase is Stopping,
        ensures
            final(self).phase is Stopped,
            final(self).window == old(self).window,
            final(self).first_read_done == old(self).first_read_done,
    {
        self.phase = Phase::Stopped;
    }
}

} // verus!
