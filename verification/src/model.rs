//! Display-facing model of one tracked device: the battery status enum and
//! charge percentage a bound list row shows, and the per-device throttle
//! state for battery refresh.

use crate::events::PowerInfo;
use crate::REFRESH_INTERVAL_MS;
use vstd::prelude::*;

verus! {

/// Battery status as shown by the display list.
#[derive(Clone, Copy, Debug, PartialEq, Eq, Structural)]
pub enum QmlPowerStatus {
    Wired,
    Discharging,
    Charging,
    Charged,
}

impl QmlPowerStatus {
    /// The integer role value of this status.
    pub open spec fn spec_code(self) -> i32 {
        match self {
            QmlPowerStatus::Wired => 1,
            QmlPowerStatus::Discharging => 2,
            QmlPowerStatus::Charging => 3,
            QmlPowerStatus::Charged => 4,
        }
    }

    /// The integer value this status is exposed under, following
    /// `spec_code` exactly.
    pub fn code(self) -> (r: i32)
        ensures
            r == self.spec_code(),
    {
        match self {
            QmlPowerStatus::Wired => 1,
            QmlPowerStatus::Discharging => 2,
            QmlPowerStatus::Charging => 3,
            QmlPowerStatus::Charged => 4,
        }
    }
}

/// A raw charge percentage clamped to the displayable range.
pub open spec fn clamp_charge(c: int) -> int {
    if c > 100 {
        100
    } else if c < 0 {
        0
    } else {
        c
    }
}

/// The displayed (status, charge) pair for a raw battery snapshot: wired or
/// unknown power always shows a full charge, a full battery shows as
/// charging at 100, and a reported percentage is clamped to `[0, 100]`.
pub open spec fn convert_power_info_spec(power_info: PowerInfo) -> (QmlPowerStatus, i32) {
    match power_info {
        PowerInfo::Unknown => (QmlPowerStatus::Wired, 100),
        PowerInfo::Wired => (QmlPowerStatus::Wired, 100),
        PowerInfo::Discharging(c) => (
            QmlPowerStatus::Discharging,
            clamp_charge(c as int) as i32,
        ),
        PowerInfo::Charging(c) => (QmlPowerStatus::Charging, clamp_charge(c as int) as i32),
        PowerInfo::Charged => (QmlPowerStatus::Charging, 100),
    }
}

/// Converts a raw battery snapshot to the displayed (status, charge) pair,
/// following `convert_power_info_spec` exactly. The result is always inside
/// `[0, 100]`, and wired power is always shown fully charged.
pub fn convert_power_info(power_info: PowerInfo) -> (r: (QmlPowerStatus, i32))
    ensures
        r == convert_power_info_spec(power_info),
        0 <= r.1 <= 100,
        r.0 == QmlPowerStatus::Wired ==> r.1 == 100,
{
    match power_info {
        PowerInfo::Unknown => (QmlPowerStatus::Wired, 100),
        PowerInfo::Wired => (QmlPowerStatus::Wired, 100),
        PowerInfo::Discharging(c) => (
            QmlPowerStatus::Discharging,
            if c > 100 {
                100
            } else {
                c as i32
            },
        ),
        PowerInfo::Charging(c) => (
            QmlPowerStatus::Charging,
            if c > 100 {
                100
            } else {
                c as i32
            },
        ),
        PowerInfo::Charged => (QmlPowerStatus::Charging, 100),
    }
}

/// One row of the bound device list: the fields the display reads.
#[derive(Clone, Debug)]
pub struct GamepadModel {
    pub name: String,
    pub status: QmlPowerStatus,
    pub charge: i32,
}

impl GamepadModel {
    /// The displayed fields stay inside their documented ranges.
    pub open spec fn wf(self) -> bool {
        0 <= self.charge <= 100 && (self.status == QmlPowerStatus::Wired ==> self.charge == 100)
    }

    /// Recomputes this row from a fresh battery snapshot. Returns whether
    /// either displayed battery field actually changed, so the caller
    /// knows whether to notify the bound list; the name never changes.
    pub fn update_power_info(&mut self, power_info: PowerInfo) -> (r: bool)
        ensures
            final(self).status == convert_power_info_spec(power_info).0,
            final(self).charge == convert_power_info_spec(power_info).1,
            final(self).name == old(self).name,
            r == (old(self).status != convert_power_info_spec(power_info).0 || old(self).charge
                != convert_power_info_spec(power_info).1),
            final(self).wf(),
    {
        let (status, charge) = convert_power_info(power_info);

        if self.status != status || self.charge != charge {
            self.status = status;
            self.charge = charge;
            return true;
        }

        false
    }
}

/// Per-device throttle state for battery refresh: which device, and when
/// its battery was last queried.
#[derive(Clone, Copy, Debug, PartialEq, Eq, Structural)]
pub struct GamepadTrackingState {
    pub gamepad_id: u64,
    pub update_time: u64,
}

impl GamepadTrackingState {
    /// Fresh throttle state: the device counts as just refreshed at `now`.
    pub fn new(gamepad_id: u64, now: u64) -> (r: GamepadTrackingState)
        ensures
            r == (GamepadTrackingState { gamepad_id, update_time: now }),
    {
        GamepadTrackingState { gamepad_id, update_time: now }
    }

    /// Whether a refresh is owed at `now`: the last query lies at least the
    /// throttle interval in the past.
    pub open spec fn spec_refresh_due(self, now: int) -> bool {
        now - self.update_time >= REFRESH_INTERVAL_MS
    }

    /// Whether this device's battery should be queried again at `now`,
    /// following `spec_refresh_due` exactly.
    pub fn refresh_due(&self, now: u64) -> (r: bool)
        requires
            now >= self.update_time,
        ensures
            r == self.spec_refresh_due(now as int),
    {
        now - self.update_time >= REFRESH_INTERVAL_MS
    }

    /// Restarts the throttle interval at `now`.
    pub fn reset_update_time(&mut self, now: u64)
        ensures
            *final(self) == (GamepadTrackingState {
                gamepad_id: old(self).gamepad_id,
                update_time: now,
            }),
    {
        self.update_time = now;
    }
}

/// Builds the display row and the throttle state for a device that just
/// connected, from the snapshot taken at connect time.
pub fn create_model_and_tracking_state(id: u64, name: String, power_info: PowerInfo, now: u64) -> (r:
    (GamepadModel, GamepadTrackingState))
    ensures
        r.0.name == name,
        r.0.status == convert_power_info_spec(power_info).0,
        r.0.charge == convert_power_info_spec(power_info).1,
        r.0.wf(),
        r.1 == (GamepadTrackingState { gamepad_id: id, update_time: now }),
{
    let (status, charge) = convert_power_info(power_info);
    (GamepadModel { name, status, charge }, GamepadTrackingState::new(id, now))
}

} // verus!
