//! Duplicate suppression for directional button events.
//!
//! Some hardware reports a physical direction twice: as a native digital
//! button and as an equivalent analog stick deflection. The device's
//! latched digital state is the single point where the two sources are
//! reconciled: a press of a direction that is already latched pressed, and
//! a release of one that is already latched released, are vetoed.

use crate::events::{Button, EventType};
use vstd::prelude::*;

verus! {

/// Latched digital state of the four directional buttons of one device.
/// Updated only from events that survive the whole filter chain, so it
/// mirrors what a downstream consumer has seen.
#[derive(Clone, Copy, Debug, PartialEq, Eq, Structural)]
pub struct DpadState {
    pub up: bool,
    pub down: bool,
    pub left: bool,
    pub right: bool,
}

impl DpadState {
    /// All four directions latched released.
    pub open spec fn spec_released() -> DpadState {
        DpadState { up: false, down: false, left: false, right: false }
    }

    /// The latch of one directional button.
    pub open spec fn spec_get(self, b: Button) -> bool {
        match b {
            Button::DPadUp => self.up,
            Button::DPadDown => self.down,
            Button::DPadLeft => self.left,
            Button::DPadRight => self.right,
            _ => false,
        }
    }

    /// The state after latching button `b` to `v`; non-directional buttons
    /// leave the state unchanged.
    pub open spec fn spec_set(self, b: Button, v: bool) -> DpadState {
        match b {
            Button::DPadUp => DpadState { up: v, ..self },
            Button::DPadDown => DpadState { down: v, ..self },
            Button::DPadLeft => DpadState { left: v, ..self },
            Button::DPadRight => DpadState { right: v, ..self },
            _ => self,
        }
    }

    pub fn released() -> (r: DpadState)
        ensures
            r == DpadState::spec_released(),
    {
        DpadState { up: false, down: false, left: false, right: false }
    }

    pub fn get(&self, b: Button) -> (r: bool)
        ensures
            r == self.spec_get(b),
    {
        match b {
            Button::DPadUp => self.up,
            Button::DPadDown => self.down,
            Button::DPadLeft => self.left,
            Button::DPadRight => self.right,
            _ => false,
        }
    }

    pub fn set(&mut self, b: Button, v: bool)
        ensures
            *final(self) == old(self).spec_set(b, v),
    {
        match b {
            Button::DPadUp => self.up = v,
            Button::DPadDown => self.down = v,
            Button::DPadLeft => self.left = v,
            Button::DPadRight => self.right = v,
            _ => (),
        }
    }
}

/// Whether `btn` is one of the four directional buttons.
pub fn is_dpad_btn(btn: Button) -> (r: bool)
    ensures
        r == btn.spec_is_dpad(),
{
    match btn {
        Button::DPadUp | Button::DPadDown | Button::DPadLeft | Button::DPadRight => true,
        _ => false,
    }
}

/// The duplicate-suppression decision: `None` exactly when the event is a
/// directional press already latched pressed, or a directional release
/// already latched released. Everything else passes through unchanged.
pub open spec fn filter_wrong_dpad_events_spec(ev: EventType, latched: DpadState) -> Option<
    EventType,
> {
    match ev {
        EventType::ButtonPressed(b) => if b.spec_is_dpad() && latched.spec_get(b) {
            None
        } else {
            Some(ev)
        },
        EventType::ButtonReleased(b) => if b.spec_is_dpad() && !latched.spec_get(b) {
            None
        } else {
            Some(ev)
        },
        _ => Some(ev),
    }
}

/// Duplicate suppression stated as a law: when the latched digital state
/// already reports a direction pressed, a press of that direction is
/// vetoed; when it reports it released, a release is vetoed.
pub proof fn lemma_duplicate_suppression(b: Button, latched: DpadState)
    requires
        b.spec_is_dpad(),
    ensures
        latched.spec_get(b) ==> filter_wrong_dpad_events_spec(
            EventType::ButtonPressed(b),
            latched,
        ) is None,
        !latched.spec_get(b) ==> filter_wrong_dpad_events_spec(
            EventType::ButtonReleased(b),
            latched,
        ) is None,
{
}

/// Vetoes directional button events that duplicate the latched digital
/// state, following `filter_wrong_dpad_events_spec` exactly.
pub fn filter_wrong_dpad_events(ev: EventType, latched: &DpadState) -> (r: Option<EventType>)
    ensures
        r == filter_wrong_dpad_events_spec(ev, *latched),
{
    match ev {
        EventType::ButtonPressed(b) => {
            if is_dpad_btn(b) && latched.get(b) {
                None
            } else {
                Some(ev)
            }
        },
        EventType::ButtonReleased(b) => {
            if is_dpad_btn(b) && !latched.get(b) {
                None
            } else {
                Some(ev)
            }
        },
        _ => Some(ev),
    }
}

} // verus!
