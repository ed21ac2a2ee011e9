//! Mapping between the physical button vocabulary and the key events
//! dispatched to the focused window.
//!
//! The forward map is partial: unrecognized physical buttons map to `None`
//! and are dropped silently, which is not an error. The key-code map is
//! total over the logical keys.

use crate::events::Button;
use vstd::prelude::*;

verus! {

/// A logical key understood by the window layer.
#[derive(Clone, Copy, Debug, PartialEq, Eq, Structural)]
pub enum Key {
    Return,
    Escape,
    UpArrow,
    DownArrow,
    LeftArrow,
    RightArrow,
}

/// What happened to a key. The `bool` of `Pressed` marks a synthetic
/// auto-repeat, so one-shot consumers can distinguish it from the initial
/// press.
#[derive(Clone, Copy, Debug, PartialEq, Eq, Structural)]
pub enum KeyState {
    Pressed(bool),
    Released,
}

/// The logical key a physical button stands for, if any.
pub open spec fn btn_to_key_spec(value: Button) -> Option<Key> {
    match value {
        Button::South => Some(Key::Return),
        Button::East => Some(Key::Escape),
        Button::DPadUp => Some(Key::UpArrow),
        Button::DPadDown => Some(Key::DownArrow),
        Button::DPadLeft => Some(Key::LeftArrow),
        Button::DPadRight => Some(Key::RightArrow),
        Button::Other => None,
    }
}

/// Maps a physical button to its logical key, following `btn_to_key_spec`
/// exactly; unrecognized buttons yield `None`.
pub fn btn_to_key(value: Button) -> (r: Option<Key>)
    ensures
        r == btn_to_key_spec(value),
{
    match value {
        Button::South => Some(Key::Return),
        Button::East => Some(Key::Escape),
        Button::DPadUp => Some(Key::UpArrow),
        Button::DPadDown => Some(Key::DownArrow),
        Button::DPadLeft => Some(Key::LeftArrow),
        Button::DPadRight => Some(Key::RightArrow),
        Button::Other => None,
    }
}

/// The external key code of a logical key.
pub open spec fn key_to_code_spec(key: Key) -> i32 {
    match key {
        Key::Return => 0x01000004,
        Key::Escape => 0x01000000,
        Key::UpArrow => 0x01000013,
        Key::DownArrow => 0x01000015,
        Key::LeftArrow => 0x01000012,
        Key::RightArrow => 0x01000014,
    }
}

/// The total map from a logical key to the external key code dispatched to
/// the focused window, following `key_to_code_spec` exactly.
pub fn key_to_code(key: Key) -> (r: i32)
    ensures
        r == key_to_code_spec(key),
{
    match key {
        Key::Return => 0x01000004,
        Key::Escape => 0x01000000,
        Key::UpArrow => 0x01000013,
        Key::DownArrow => 0x01000015,
        Key::LeftArrow => 0x01000012,
        Key::RightArrow => 0x01000014,
    }
}

} // verus!
