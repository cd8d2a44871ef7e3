//! Daylight-following light control: computes an effective day window from
//! astronomical sunrise/sunset and configured wake-up/bed times, evaluates
//! continuous brightness and color-temperature curves over that window, and
//! maps the normalized results to device-native units.
//!
//! Normalized curve values are fixed-point integers in micro-units:
//! `0` stands for 0.0 and [`curve::SCALE`] (one million) stands for 1.0.

pub mod control;
pub mod curve;
pub mod mapper;
pub mod window;
