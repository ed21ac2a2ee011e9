//! Hysteresis mapping of a stick-axis movement to synthetic directional
//! button events.
//!
//! Each mapped axis is bound to a pair of opposite directions (negative and
//! positive deflection). Entering the pressed zone requires crossing
//! `PRESS_THRESHOLD`; leaving it requires dropping below the smaller
//! `RELEASE_THRESHOLD`, so a reading oscillating around a single crossing
//! point cannot generate press/release chatter.

use crate::events::{Axis, Button, EventType};
use crate::{PRESS_THRESHOLD, RELEASE_THRESHOLD};
use vstd::prelude::*;

verus! {

/// The event, if any, that the movement from reading `v0` to reading `v1`
/// generates on an axis bound to the direction pair (`neg`, `pos`).
///
/// The four guards are tried in this order; the first that holds decides.
/// For readings that stay inside `[-1000, 1000]` and move by one threshold
/// band at a time, at most one guard can hold.
pub open spec fn axis_to_btn_spec(v0: int, v1: int, neg: Button, pos: Button) -> Option<
    EventType,
> {
    if v0 > -PRESS_THRESHOLD && v1 <= -PRESS_THRESHOLD {
        Some(EventType::ButtonPressed(neg))
    } else if v0 <= -RELEASE_THRESHOLD && v1 > -RELEASE_THRESHOLD {
        Some(EventType::ButtonReleased(neg))
    } else if v0 < PRESS_THRESHOLD && v1 >= PRESS_THRESHOLD {
        Some(EventType::ButtonPressed(pos))
    } else if v0 >= RELEASE_THRESHOLD && v1 < RELEASE_THRESHOLD {
        Some(EventType::ButtonReleased(pos))
    } else {
        None
    }
}

/// Maps one axis movement to at most one synthetic button event, following
/// `axis_to_btn_spec` exactly.
pub fn axis_to_btn(v0: i32, v1: i32, neg: Button, pos: Button) -> (r: Option<EventType>)
    ensures
        r == axis_to_btn_spec(v0 as int, v1 as int, neg, pos),
{
    if v0 > -PRESS_THRESHOLD && v1 <= -PRESS_THRESHOLD {
        Some(EventType::ButtonPressed(neg))
    } else if v0 <= -RELEASE_THRESHOLD && v1 > -RELEASE_THRESHOLD {
        Some(EventType::ButtonReleased(neg))
    } else if v0 < PRESS_THRESHOLD && v1 >= PRESS_THRESHOLD {
        Some(EventType::ButtonPressed(pos))
    } else if v0 >= RELEASE_THRESHOLD && v1 < RELEASE_THRESHOLD {
        Some(EventType::ButtonReleased(pos))
    } else {
        None
    }
}

/// The direction pair a mapped axis is bound to: negative deflection first,
/// positive second. Unmapped axes have no pair.
pub open spec fn axis_button_pair_spec(axis: Axis) -> Option<(Button, Button)> {
    match axis {
        Axis::LeftStickX => Some((Button::DPadLeft, Button::DPadRight)),
        Axis::LeftStickY => Some((Button::DPadDown, Button::DPadUp)),
        Axis::Other => None,
    }
}

/// Returns the direction pair bound to `axis`, following
/// `axis_button_pair_spec` exactly.
pub fn axis_button_pair(axis: Axis) -> (r: Option<(Button, Button)>)
    ensures
        r == axis_button_pair_spec(axis),
{
    match axis {
        Axis::LeftStickX => Some((Button::DPadLeft, Button::DPadRight)),
        Axis::LeftStickY => Some((Button::DPadDown, Button::DPadUp)),
        Axis::Other => None,
    }
}

/// The synthetic directional event, if any, for a movement of `axis` from
/// `v0` to `v1`: the hysteresis decision on the axis's direction pair.
pub open spec fn left_axis_to_dpad_btn_spec(axis: Axis, v0: int, v1: int) -> Option<EventType> {
    match axis_button_pair_spec(axis) {
        Some((neg, pos)) => axis_to_btn_spec(v0, v1, neg, pos),
        None => None,
    }
}

/// Maps a movement of the left stick to at most one synthetic directional
/// button event; movements of unmapped axes yield nothing.
pub fn left_axis_to_dpad_btn(axis: Axis, v0: i32, v1: i32) -> (r: Option<EventType>)
    ensures
        r == left_axis_to_dpad_btn_spec(axis, v0 as int, v1 as int),
{
    match axis_button_pair(axis) {
        Some((neg, pos)) => axis_to_btn(v0, v1, neg, pos),
        None => None,
    }
}

/// Any event the hysteresis mapper emits is a press or release of one of
/// the two directions its axis is bound to.
pub proof fn lemma_axis_event_is_directional(axis: Axis, v0: int, v1: int)
    ensures
        match left_axis_to_dpad_btn_spec(axis, v0, v1) {
            Some(ev) => match ev {
                EventType::ButtonPressed(b) => b.spec_is_dpad(),
                EventType::ButtonReleased(b) => b.spec_is_dpad(),
                _ => false,
            },
            None => true,
        },
{
}

} // verus!
