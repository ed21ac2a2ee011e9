//! System-wide laws of the event pipeline, stated over the spec-level
//! step function and proved once for every possible event sequence.

use crate::device_input::{apply_deadzone_spec, step_event, DeviceInput};
use crate::events::{Button, Event, EventType};
use crate::filter_axis_to_dpad_buttons::left_axis_to_dpad_btn_spec;
use crate::gamepad_manager::GamepadManager;
use crate::keymap::{btn_to_key_spec, Key, KeyState};
use crate::model::QmlPowerStatus;
use vstd::prelude::*;

verus! {

/// The key-event stream one device emits for a raw event sequence fed
/// through the filter chain in order, together with the final state.
pub open spec fn run_events(s: DeviceInput, evs: Seq<Event>) -> (DeviceInput, Seq<(Key, KeyState)>)
    decreases evs.len(),
{
    if evs.len() == 0 {
        (s, Seq::empty())
    } else {
        let r = step_event(s, evs[0].event, evs[0].time as int);
        let rest = run_events(r.0, evs.drop_first());
        (
            rest.0,
            match r.1 {
                Some(o) => seq![o] + rest.1,
                None => rest.1,
            },
        )
    }
}

/// Presses and releases of key `k` alternate in `out`, starting from
/// latch state `latch`: an initial press only out of the released state,
/// a release only out of the pressed state. Auto-repeat presses are
/// flagged and not constrained.
pub open spec fn presses_alternate(latch: bool, out: Seq<(Key, KeyState)>, k: Key) -> bool
    decreases out.len(),
{
    if out.len() == 0 {
        true
    } else {
        let h = out[0];
        if h.0 == k && h.1 == KeyState::Pressed(false) {
            !latch && presses_alternate(true, out.drop_first(), k)
        } else if h.0 == k && h.1 == KeyState::Released {
            latch && presses_alternate(false, out.drop_first(), k)
        } else {
            presses_alternate(latch, out.drop_first(), k)
        }
    }
}

/// One chain step moves the latched digital state of a directional button
/// exactly as its emitted key events say: an initial press of its key
/// happens only with the latch released and sets it, a release only with
/// the latch pressed and clears it, and any other outcome leaves it
/// untouched.
proof fn lemma_step_tracks_latch(s: DeviceInput, ev: EventType, now: int, b: Button, k: Key)
    requires
        b.spec_is_dpad(),
        btn_to_key_spec(b) == Some(k),
    ensures
        ({
            let r = step_event(s, ev, now);
            &&& r.1 == Some((k, KeyState::Pressed(false))) ==> !s.digital.spec_get(b)
                && r.0.digital.spec_get(b)
            &&& r.1 == Some((k, KeyState::Released)) ==> s.digital.spec_get(b)
                && !r.0.digital.spec_get(b)
            &&& (r.1 != Some((k, KeyState::Pressed(false))) && r.1 != Some((k, KeyState::Released)))
                ==> r.0.digital.spec_get(b) == s.digital.spec_get(b)
        }),
{
    match ev {
        EventType::AxisChanged(axis, v) => {
            // The synthetic candidate the mapper may emit is always a
            // directional press or release; naming each case lets the
            // suppressor's effect on the latch be checked per button.
            match left_axis_to_dpad_btn_spec(
                axis,
                s.spec_axis(axis).value as int,
                apply_deadzone_spec(v as int),
            ) {
                Some(cand) => {
                    match cand {
                        EventType::ButtonPressed(b2) => {
                            assert(b2.spec_is_dpad());
                        },
                        EventType::ButtonReleased(b2) => {
                            assert(b2.spec_is_dpad());
                        },
                        _ => {},
                    }
                },
                None => {},
            }
        },
        _ => {},
    }
}

/// No double press, per device: however a raw event sequence drives one
/// device's filter chain, the emitted key stream never contains two
/// initial presses of a directional button's key without an intervening
/// release of it — starting from that button's latched digital state.
pub proof fn lemma_no_double_press(s: DeviceInput, evs: Seq<Event>, b: Button, k: Key)
    requires
        b.spec_is_dpad(),
        btn_to_key_spec(b) == Some(k),
    ensures
        presses_alternate(s.digital.spec_get(b), run_events(s, evs).1, k),
    decreases evs.len(),
{
    if evs.len() > 0 {
        let r = step_event(s, evs[0].event, evs[0].time as int);
        lemma_step_tracks_latch(s, evs[0].event, evs[0].time as int, b, k);
        lemma_no_double_press(r.0, evs.drop_first(), b, k);
        let rest = run_events(r.0, evs.drop_first());
        match r.1 {
            Some(o) => {
                assert((seq![o] + rest.1).drop_first() =~= rest.1);
            },
            None => {},
        }
    }
}

/// The bound view stays parallel to the tracking table: one display row
/// per record, in the same order, and at most one record per device id.
pub proof fn lemma_view_matches_table(m: GamepadManager)
    requires
        m.wf(),
    ensures
        m.models@.len() == m.states@.len(),
        forall|i: int, j: int|
            0 <= i < j < m.states@.len() ==> m.states@[i].gamepad_id != m.states@[j].gamepad_id,
{
}

/// Battery clamping as a law: in a well-formed manager, every display row
/// shows a charge in `[0, 100]`, and a wired row always shows 100.
pub proof fn lemma_rows_clamped(m: GamepadManager)
    requires
        m.wf(),
    ensures
        forall|i: int|
            0 <= i < m.models@.len() ==> 0 <= #[trigger] m.models@[i].charge <= 100 && (
            m.models@[i].status == QmlPowerStatus::Wired ==> m.models@[i].charge == 100),
{
}

} // verus!
