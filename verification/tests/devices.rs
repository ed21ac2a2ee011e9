use gpcl::events::{Axis, Button, Event, EventType, PowerInfo};
use gpcl::gamepad_manager::{GamepadManager, ItemField, StateChange};
use gpcl::keymap::{Key, KeyState};
use gpcl::model::{convert_power_info, GamepadModel, QmlPowerStatus};

fn connect(m: &mut GamepadManager, id: u64, name: &str, power: PowerInfo, now: u64) -> Option<usize> {
    m.on_connect(id, name.to_string(), power, now)
}

#[test]
fn connect_yields_exactly_one_added_row() {
    let mut m = GamepadManager::new();
    assert_eq!(connect(&mut m, 7, "Pad A", PowerInfo::Wired, 100), Some(0));
    assert_eq!(m.model().len(), 1);
    // Connecting the same device again adds nothing.
    assert_eq!(connect(&mut m, 7, "Pad A", PowerInfo::Wired, 200), None);
    assert_eq!(m.model().len(), 1);
    // A second device lands at the end of the table.
    assert_eq!(connect(&mut m, 9, "Pad B", PowerInfo::Discharging(40), 300), Some(1));
    assert_eq!(m.model().len(), 2);
}

#[test]
fn disconnect_removes_exactly_one_row_at_its_index() {
    let mut m = GamepadManager::new();
    connect(&mut m, 7, "Pad A", PowerInfo::Wired, 100);
    connect(&mut m, 9, "Pad B", PowerInfo::Wired, 100);
    connect(&mut m, 11, "Pad C", PowerInfo::Wired, 100);
    // The middle device leaves: removed at its current index.
    assert_eq!(m.on_disconnect(9), Some(1));
    assert_eq!(m.model().len(), 2);
    // No record for it remains; a second disconnect is a no-op.
    assert_eq!(m.on_disconnect(9), None);
    // The rows behind it moved up.
    match m.get_item_field(1, 1) {
        Some(ItemField::Name(n)) => assert_eq!(n, "Pad C"),
        other => panic!("unexpected field: {:?}", other),
    }
}

#[test]
fn unknown_device_disconnect_is_noop() {
    let mut m = GamepadManager::new();
    assert_eq!(m.on_disconnect(42), None);
    assert_eq!(m.model().len(), 0);
}

#[test]
fn lifecycle_markers_from_event_stream() {
    let mut m = GamepadManager::new();
    let r = m.handle_event(Event { id: 5, event: EventType::Connected, time: 10 });
    assert_eq!(r, Some(StateChange::AddGamepad(5)));
    let r = m.handle_event(Event { id: 5, event: EventType::Disconnected, time: 20 });
    assert_eq!(r, Some(StateChange::RemoveGamepad(5)));
}

#[test]
fn key_dispatch_through_manager() {
    let mut m = GamepadManager::new();
    let r = m.handle_event(Event {
        id: 3,
        event: EventType::ButtonPressed(Button::East),
        time: 50,
    });
    assert_eq!(r, Some(StateChange::UpdateKey(Key::Escape, KeyState::Pressed(false))));
    let r = m.handle_event(Event {
        id: 3,
        event: EventType::AxisChanged(Axis::LeftStickY, -800),
        time: 100,
    });
    assert_eq!(r, Some(StateChange::UpdateKey(Key::DownArrow, KeyState::Pressed(false))));
    // Per-device state is independent: the same axis move on another
    // device presses again.
    let r = m.handle_event(Event {
        id: 4,
        event: EventType::AxisChanged(Axis::LeftStickY, -800),
        time: 150,
    });
    assert_eq!(r, Some(StateChange::UpdateKey(Key::DownArrow, KeyState::Pressed(false))));
}

#[test]
fn manager_tick_collects_repeats() {
    let mut m = GamepadManager::new();
    m.handle_event(Event { id: 1, event: EventType::ButtonPressed(Button::South), time: 0 });
    assert_eq!(m.tick(640), vec![]);
    assert_eq!(m.tick(650), vec![(Key::Return, KeyState::Pressed(true))]);
    assert_eq!(m.tick(700), vec![(Key::Return, KeyState::Pressed(true))]);
}

#[test]
fn battery_conversion_clamps() {
    assert_eq!(convert_power_info(PowerInfo::Unknown), (QmlPowerStatus::Wired, 100));
    assert_eq!(convert_power_info(PowerInfo::Wired), (QmlPowerStatus::Wired, 100));
    assert_eq!(
        convert_power_info(PowerInfo::Discharging(42)),
        (QmlPowerStatus::Discharging, 42)
    );
    // A raw value past 100 is clamped, never shown as-is.
    assert_eq!(
        convert_power_info(PowerInfo::Discharging(255)),
        (QmlPowerStatus::Discharging, 100)
    );
    assert_eq!(convert_power_info(PowerInfo::Charging(7)), (QmlPowerStatus::Charging, 7));
    assert_eq!(
        convert_power_info(PowerInfo::Charging(101)),
        (QmlPowerStatus::Charging, 100)
    );
    assert_eq!(convert_power_info(PowerInfo::Charged), (QmlPowerStatus::Charging, 100));
}

#[test]
fn update_power_info_reports_change() {
    let mut model = GamepadModel {
        name: "Pad".to_string(),
        status: QmlPowerStatus::Wired,
        charge: 100,
    };
    // Same displayed values: no change, no notification.
    assert!(!model.update_power_info(PowerInfo::Unknown));
    // A real change is reported once and applied in place.
    assert!(model.update_power_info(PowerInfo::Discharging(55)));
    assert_eq!(model.status, QmlPowerStatus::Discharging);
    assert_eq!(model.charge, 55);
    assert!(!model.update_power_info(PowerInfo::Discharging(55)));
    assert_eq!(model.name, "Pad");
}

#[test]
fn refresh_throttled_to_interval() {
    let mut m = GamepadManager::new();
    connect(&mut m, 7, "Pad A", PowerInfo::Wired, 1000);
    // Less than half a second since the connect-time snapshot: not due.
    assert_eq!(m.power_refresh_due(1400), vec![]);
    // Due at 500 ms, and the timer restarts.
    assert_eq!(m.power_refresh_due(1500), vec![7]);
    assert_eq!(m.power_refresh_due(1600), vec![]);
    assert_eq!(m.power_refresh_due(2000), vec![7]);
}

#[test]
fn apply_power_info_notifies_only_real_changes() {
    let mut m = GamepadManager::new();
    connect(&mut m, 7, "Pad A", PowerInfo::Discharging(50), 1000);
    // Same reading: row untouched, no notification.
    assert_eq!(m.apply_power_info(7, PowerInfo::Discharging(50)), None);
    // Changed charge: the row's index comes back.
    assert_eq!(m.apply_power_info(7, PowerInfo::Discharging(49)), Some(0));
    match m.get_item_field(0, 3) {
        Some(ItemField::Charge(c)) => assert_eq!(c, 49),
        other => panic!("unexpected field: {:?}", other),
    }
    // A device no longer tracked: no-op.
    assert_eq!(m.apply_power_info(42, PowerInfo::Wired), None);
}

#[test]
fn wired_always_shows_full_charge() {
    let mut m = GamepadManager::new();
    connect(&mut m, 7, "Pad A", PowerInfo::Discharging(10), 1000);
    assert_eq!(m.apply_power_info(7, PowerInfo::Wired), Some(0));
    match m.get_item_field(0, 3) {
        Some(ItemField::Charge(c)) => assert_eq!(c, 100),
        other => panic!("unexpected field: {:?}", other),
    }
    match m.get_item_field(0, 2) {
        Some(ItemField::Status(s)) => assert_eq!(s, 1),
        other => panic!("unexpected field: {:?}", other),
    }
}

#[test]
fn item_field_lookup_bounds() {
    let mut m = GamepadManager::new();
    connect(&mut m, 7, "Pad A", PowerInfo::Wired, 0);
    assert!(matches!(m.get_item_field(0, 1), Some(ItemField::Name(_))));
    // Index out of range or unknown role: empty result, no failure.
    assert!(m.get_item_field(1, 1).is_none());
    assert!(m.get_item_field(0, 0).is_none());
    assert!(m.get_item_field(0, 4).is_none());
}

#[test]
fn disconnect_drops_filter_state() {
    let mut m = GamepadManager::new();
    // Latch a press, then disconnect and reconnect the event stream:
    // the fresh device state accepts a new press.
    let r = m.handle_event(Event {
        id: 2,
        event: EventType::ButtonPressed(Button::DPadLeft),
        time: 10,
    });
    assert_eq!(r, Some(StateChange::UpdateKey(Key::LeftArrow, KeyState::Pressed(false))));
    let r = m.handle_event(Event {
        id: 2,
        event: EventType::ButtonPressed(Button::DPadLeft),
        time: 20,
    });
    assert_eq!(r, None);
    m.handle_event(Event { id: 2, event: EventType::Disconnected, time: 30 });
    let r = m.handle_event(Event {
        id: 2,
        event: EventType::ButtonPressed(Button::DPadLeft),
        time: 40,
    });
    assert_eq!(r, Some(StateChange::UpdateKey(Key::LeftArrow, KeyState::Pressed(false))));
}
