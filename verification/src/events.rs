//! Plain data model of raw gamepad input: the physical buttons and axes the
//! pipeline cares about, raw event payloads, and the battery snapshot a
//! backend reports for a device.
//!
//! Axis deflections are fixed-point integers: the value `v` stands for the
//! fraction `v / 1000` of full deflection, so valid readings lie in
//! `[-1000, 1000]`. Timestamps are milliseconds on a monotonic clock.

use crate::AXIS_UNIT;
use vstd::prelude::*;

verus! {

/// A physical button as reported by the hardware backend. Buttons outside
/// the launcher's vocabulary are collapsed into `Other`.
#[derive(Clone, Copy, Debug, PartialEq, Eq, Structural)]
pub enum Button {
    South,
    East,
    DPadUp,
    DPadDown,
    DPadLeft,
    DPadRight,
    Other,
}

/// A physical stick axis. Only the left stick is mapped to directions;
/// every other axis is collapsed into `Other`.
#[derive(Clone, Copy, Debug, PartialEq, Eq, Structural)]
pub enum Axis {
    LeftStickX,
    LeftStickY,
    Other,
}

/// The payload of one raw input event.
#[derive(Clone, Copy, Debug, PartialEq, Eq, Structural)]
pub enum EventType {
    ButtonPressed(Button),
    ButtonRepeated(Button),
    ButtonReleased(Button),
    /// New axis reading, fixed-point in `[-1000, 1000]`.
    AxisChanged(Axis, i32),
    Connected,
    Disconnected,
}

/// One raw input event: which device, what happened, and when (milliseconds
/// on a monotonic clock).
#[derive(Clone, Copy, Debug, PartialEq, Eq, Structural)]
pub struct Event {
    pub id: u64,
    pub event: EventType,
    pub time: u64,
}

/// Battery snapshot for one device, as the backend reports it. The raw
/// charge percentage is unclamped here; clamping happens when the snapshot
/// is turned into a display row.
#[derive(Clone, Copy, Debug, PartialEq, Eq, Structural)]
pub enum PowerInfo {
    Unknown,
    Wired,
    Discharging(u8),
    Charging(u8),
    Charged,
}

/// A valid fixed-point axis reading: within one unit of full deflection
/// either way.
pub open spec fn valid_axis_value(v: int) -> bool {
    -AXIS_UNIT <= v <= AXIS_UNIT
}

impl Button {
    /// Whether this is one of the four directional buttons; only those are
    /// subject to duplicate suppression.
    pub open spec fn spec_is_dpad(self) -> bool {
        self == Button::DPadUp || self == Button::DPadDown || self == Button::DPadLeft
            || self == Button::DPadRight
    }
}

} // verus!
