//! Core of a gamepad-driven application launcher: input normalization
//! (hysteresis mapping of stick axes to directional buttons, deadzone and
//! jitter filtering, duplicate suppression, timed auto-repeat) and live
//! tracking of connected devices with battery status for a bound display
//! list.

pub mod clock;
pub mod config;
pub mod device_input;
pub mod events;
pub mod filter_axis_to_dpad_buttons;
pub mod filter_dpad_button_events;
pub mod gamepad_manager;
pub mod keymap;
pub mod launcher;
pub mod laws;
pub mod model;

use vstd::prelude::*;

verus! {

/// Axis values are fixed-point: one unit is 1/1000 of full deflection.
pub const AXIS_UNIT: i32 = 1000;

/// A stick axis entering the pressed zone must cross this magnitude.
pub const PRESS_THRESHOLD: i32 = 600;

/// A latched direction is released when the axis drops below this magnitude.
pub const RELEASE_THRESHOLD: i32 = 500;

/// Axis readings of smaller magnitude are noise and are clamped to zero.
pub const DEADZONE: i32 = 100;

/// A synthetic directional transition that reverses within this window of
/// the previous transition on the same axis is jitter and is vetoed.
pub const JITTER_WINDOW_MS: u64 = 20;

/// A held button starts auto-repeating after this initial delay.
pub const REPEAT_AFTER_MS: u64 = 600;

/// Interval between auto-repeat events once repeating has started.
pub const REPEAT_EVERY_MS: u64 = 50;

/// Minimum interval between two battery-status queries for one device.
pub const REFRESH_INTERVAL_MS: u64 = 500;

} // verus!
