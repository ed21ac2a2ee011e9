use gpcl::device_input::DeviceInput;
use gpcl::events::{Axis, Button, EventType};
use gpcl::filter_axis_to_dpad_buttons::{axis_to_btn, left_axis_to_dpad_btn};
use gpcl::keymap::{btn_to_key, key_to_code, Key, KeyState};

#[test]
fn hysteresis_trace_mapper() {
    // Axis trace 0.0 -> 0.7 -> 0.4 -> 0.8 -> 0.3 in fixed-point milli units.
    let neg = Button::DPadLeft;
    let pos = Button::DPadRight;
    assert_eq!(
        axis_to_btn(0, 700, neg, pos),
        Some(EventType::ButtonPressed(Button::DPadRight))
    );
    assert_eq!(
        axis_to_btn(700, 400, neg, pos),
        Some(EventType::ButtonReleased(Button::DPadRight))
    );
    assert_eq!(
        axis_to_btn(400, 800, neg, pos),
        Some(EventType::ButtonPressed(Button::DPadRight))
    );
    assert_eq!(
        axis_to_btn(800, 300, neg, pos),
        Some(EventType::ButtonReleased(Button::DPadRight))
    );
}

#[test]
fn hysteresis_no_event_inside_band() {
    let neg = Button::DPadLeft;
    let pos = Button::DPadRight;
    // 0.55 lies between release (0.5) and press (0.6): no event either way.
    assert_eq!(axis_to_btn(0, 550, neg, pos), None);
    assert_eq!(axis_to_btn(550, 580, neg, pos), None);
    // Dropping from the pressed zone to 0.55 stays latched: no event.
    assert_eq!(axis_to_btn(700, 550, neg, pos), None);
}

#[test]
fn hysteresis_negative_direction() {
    let neg = Button::DPadDown;
    let pos = Button::DPadUp;
    assert_eq!(
        axis_to_btn(0, -700, neg, pos),
        Some(EventType::ButtonPressed(Button::DPadDown))
    );
    assert_eq!(
        axis_to_btn(-700, -450, neg, pos),
        Some(EventType::ButtonReleased(Button::DPadDown))
    );
}

#[test]
fn axis_mapping_pairs() {
    assert_eq!(
        left_axis_to_dpad_btn(Axis::LeftStickX, 0, -700),
        Some(EventType::ButtonPressed(Button::DPadLeft))
    );
    assert_eq!(
        left_axis_to_dpad_btn(Axis::LeftStickY, 0, 700),
        Some(EventType::ButtonPressed(Button::DPadUp))
    );
    assert_eq!(left_axis_to_dpad_btn(Axis::Other, 0, 700), None);
}

#[test]
fn hysteresis_trace_full_chain() {
    // The same trace fed through the whole per-device chain, samples
    // spaced far apart so the jitter window plays no role.
    let mut d = DeviceInput::new(1, 0);
    let out1 = d.process_event(EventType::AxisChanged(Axis::LeftStickX, 700), 1000);
    assert_eq!(out1, Some((Key::RightArrow, KeyState::Pressed(false))));
    let out2 = d.process_event(EventType::AxisChanged(Axis::LeftStickX, 400), 2000);
    assert_eq!(out2, Some((Key::RightArrow, KeyState::Released)));
    let out3 = d.process_event(EventType::AxisChanged(Axis::LeftStickX, 800), 3000);
    assert_eq!(out3, Some((Key::RightArrow, KeyState::Pressed(false))));
    let out4 = d.process_event(EventType::AxisChanged(Axis::LeftStickX, 300), 4000);
    assert_eq!(out4, Some((Key::RightArrow, KeyState::Released)));
}

#[test]
fn deadzone_clamps_noise_to_zero() {
    let mut d = DeviceInput::new(1, 0);
    // Below the noise floor: clamped to zero, equal to the stored value,
    // so the change is suppressed outright.
    assert_eq!(d.process_event(EventType::AxisChanged(Axis::LeftStickX, 50), 100), None);
    assert_eq!(d.process_event(EventType::AxisChanged(Axis::LeftStickX, -90), 200), None);
    // A real deflection still passes.
    let out = d.process_event(EventType::AxisChanged(Axis::LeftStickX, 700), 300);
    assert_eq!(out, Some((Key::RightArrow, KeyState::Pressed(false))));
}

#[test]
fn jitter_vetoes_quick_reversal() {
    let mut d = DeviceInput::new(1, 0);
    let out1 = d.process_event(EventType::AxisChanged(Axis::LeftStickX, 700), 1000);
    assert_eq!(out1, Some((Key::RightArrow, KeyState::Pressed(false))));
    // Reversal 10 ms after the transition: inside the jitter window, vetoed.
    let out2 = d.process_event(EventType::AxisChanged(Axis::LeftStickX, 400), 1010);
    assert_eq!(out2, None);
    // The same reading well past the window produces the release.
    let out3 = d.process_event(EventType::AxisChanged(Axis::LeftStickX, 400), 1100);
    assert_eq!(out3, Some((Key::RightArrow, KeyState::Released)));
}

#[test]
fn duplicate_press_suppressed() {
    let mut d = DeviceInput::new(1, 0);
    // The native digital button reports the direction first.
    let out1 = d.process_event(EventType::ButtonPressed(Button::DPadRight), 1000);
    assert_eq!(out1, Some((Key::RightArrow, KeyState::Pressed(false))));
    // The equivalent analog deflection would synthesize the same press:
    // suppressed, no double-fire.
    let out2 = d.process_event(EventType::AxisChanged(Axis::LeftStickX, 700), 2000);
    assert_eq!(out2, None);
}

#[test]
fn duplicate_release_suppressed() {
    let mut d = DeviceInput::new(1, 0);
    // Nothing is latched pressed: a stray release is dropped.
    assert_eq!(d.process_event(EventType::ButtonReleased(Button::DPadLeft), 100), None);
    // A repeated native press with no release in between is dropped too.
    let out1 = d.process_event(EventType::ButtonPressed(Button::DPadLeft), 200);
    assert_eq!(out1, Some((Key::LeftArrow, KeyState::Pressed(false))));
    assert_eq!(d.process_event(EventType::ButtonPressed(Button::DPadLeft), 300), None);
}

#[test]
fn unmapped_button_dropped_silently() {
    let mut d = DeviceInput::new(1, 0);
    assert_eq!(d.process_event(EventType::ButtonPressed(Button::Other), 100), None);
    assert_eq!(d.process_event(EventType::ButtonReleased(Button::Other), 200), None);
}

#[test]
fn repeat_timing() {
    // after = 600 ms, every = 50 ms; held from t = 0.
    let mut d = DeviceInput::new(1, 0);
    let out = d.process_event(EventType::ButtonPressed(Button::South), 0);
    assert_eq!(out, Some((Key::Return, KeyState::Pressed(false))));
    // By 640 ms: no repeat yet.
    assert_eq!(d.tick(640), vec![]);
    // By 650 ms: exactly one repeat.
    assert_eq!(d.tick(650), vec![(Key::Return, KeyState::Pressed(true))]);
    // By 700 ms: exactly one more.
    assert_eq!(d.tick(700), vec![(Key::Return, KeyState::Pressed(true))]);
}

#[test]
fn repeat_cancelled_by_release() {
    let mut d = DeviceInput::new(1, 0);
    d.process_event(EventType::ButtonPressed(Button::South), 0);
    assert_eq!(d.tick(600), vec![]);
    // Released at 640 ms: zero repeat events, then and ever after.
    let out = d.process_event(EventType::ButtonReleased(Button::South), 640);
    assert_eq!(out, Some((Key::Return, KeyState::Released)));
    assert_eq!(d.tick(650), vec![]);
    assert_eq!(d.tick(5000), vec![]);
}

#[test]
fn repeat_catches_up_in_batches() {
    let mut d = DeviceInput::new(1, 0);
    d.process_event(EventType::ButtonPressed(Button::DPadUp), 0);
    // First tick long after the delay: every elapsed interval is owed.
    let batch = d.tick(800);
    assert_eq!(batch.len(), 4);
    assert!(batch.iter().all(|e| *e == (Key::UpArrow, KeyState::Pressed(true))));
    // Nothing new half an interval later.
    assert_eq!(d.tick(820), vec![]);
}

#[test]
fn keymap_forward_and_codes() {
    assert_eq!(btn_to_key(Button::South), Some(Key::Return));
    assert_eq!(btn_to_key(Button::East), Some(Key::Escape));
    assert_eq!(btn_to_key(Button::DPadUp), Some(Key::UpArrow));
    assert_eq!(btn_to_key(Button::DPadDown), Some(Key::DownArrow));
    assert_eq!(btn_to_key(Button::DPadLeft), Some(Key::LeftArrow));
    assert_eq!(btn_to_key(Button::DPadRight), Some(Key::RightArrow));
    assert_eq!(btn_to_key(Button::Other), None);

    assert_eq!(key_to_code(Key::Return), 0x01000004);
    assert_eq!(key_to_code(Key::Escape), 0x01000000);
    assert_eq!(key_to_code(Key::LeftArrow), 0x01000012);
    assert_eq!(key_to_code(Key::UpArrow), 0x01000013);
    assert_eq!(key_to_code(Key::RightArrow), 0x01000014);
    assert_eq!(key_to_code(Key::DownArrow), 0x01000015);
}
