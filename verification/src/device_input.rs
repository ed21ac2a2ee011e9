//! Filter-chain state of one device: the ordered pipeline that turns raw
//! axis and button events into a clean stream of key events.
//!
//! One raw event enters, zero or one key event leaves. An axis event runs
//! through deadzone clamping, jitter veto, the hysteresis mapper and
//! duplicate suppression; a native button event runs through duplicate
//! suppression alone. Events that survive update the latched digital state
//! and the per-button runtime used for auto-repeat.

use crate::events::{valid_axis_value, Axis, Button, EventType};
use crate::filter_axis_to_dpad_buttons::left_axis_to_dpad_btn_spec;
use crate::filter_axis_to_dpad_buttons::{axis_button_pair, axis_to_btn};
use crate::filter_dpad_button_events::{filter_wrong_dpad_events, filter_wrong_dpad_events_spec};
use crate::filter_dpad_button_events::DpadState;
use crate::keymap::{btn_to_key, btn_to_key_spec, Key, KeyState};
use crate::{DEADZONE, JITTER_WINDOW_MS, REPEAT_AFTER_MS, REPEAT_EVERY_MS};
use vstd::prelude::*;

verus! {

/// Runtime of one mapped axis: the last reading that survived the filters
/// (post deadzone), and when it last produced a directional transition.
#[derive(Clone, Copy, Debug, PartialEq, Eq, Structural)]
pub struct AxisState {
    pub value: i32,
    pub last_transition: u64,
    pub has_transitioned: bool,
}

/// Runtime of one vocabulary button, owned by the filter chain: the latch,
/// the time of its last transition, and how many auto-repeats have been
/// emitted for the current hold.
#[derive(Clone, Copy, Debug, PartialEq, Eq, Structural)]
pub struct ButtonRuntime {
    pub pressed: bool,
    pub last_transition_time: u64,
    pub repeats_emitted: u64,
}

/// Complete filter-chain state of one device.
#[derive(Clone, Copy, Debug, PartialEq, Eq, Structural)]
pub struct DeviceInput {
    pub id: u64,
    pub stick_x: AxisState,
    pub stick_y: AxisState,
    pub south: ButtonRuntime,
    pub east: ButtonRuntime,
    pub up: ButtonRuntime,
    pub down: ButtonRuntime,
    pub left: ButtonRuntime,
    pub right: ButtonRuntime,
    /// Latched digital state of the four directions, the reference the
    /// duplicate suppressor checks against.
    pub digital: DpadState,
    /// Latest timestamp this state has seen; all stored times are at or
    /// before it.
    pub clock: u64,
}

/// Deadzone clamping: readings of magnitude below the noise floor become
/// zero, everything else passes unchanged.
pub open spec fn apply_deadzone_spec(v: int) -> int {
    if -DEADZONE < v < DEADZONE {
        0
    } else {
        v
    }
}

/// Auto-repeats owed for a button continuously held since `press_time`,
/// evaluated at `now`: none during the initial delay, then one per interval.
pub open spec fn due_repeats(press_time: int, now: int) -> int
    recommends
        press_time <= now,
{
    if now - press_time >= REPEAT_AFTER_MS {
        (now - press_time - REPEAT_AFTER_MS) / (REPEAT_EVERY_MS as int)
    } else {
        0
    }
}

impl AxisState {
    pub open spec fn wf(self, clock: int) -> bool {
        valid_axis_value(self.value as int) && (self.value == 0 || self.value <= -DEADZONE
            || self.value >= DEADZONE) && (self.has_transitioned ==> self.last_transition
            <= clock)
    }
}

impl ButtonRuntime {
    pub open spec fn initial() -> ButtonRuntime {
        ButtonRuntime { pressed: false, last_transition_time: 0, repeats_emitted: 0 }
    }

    pub open spec fn wf(self, clock: int) -> bool {
        self.last_transition_time <= clock && (self.pressed ==> self.repeats_emitted
            <= due_repeats(self.last_transition_time as int, clock))
    }
}

impl DeviceInput {
    /// The axis runtime tracked for `axis`; unmapped axes are not tracked.
    pub open spec fn spec_axis(self, axis: Axis) -> AxisState {
        match axis {
            Axis::LeftStickX => self.stick_x,
            Axis::LeftStickY => self.stick_y,
            Axis::Other => AxisState { value: 0, last_transition: 0, has_transitioned: false },
        }
    }

    /// The button runtime tracked for `b`; buttons outside the vocabulary
    /// are not tracked.
    pub open spec fn spec_runtime(self, b: Button) -> ButtonRuntime {
        match b {
            Button::South => self.south,
            Button::East => self.east,
            Button::DPadUp => self.up,
            Button::DPadDown => self.down,
            Button::DPadLeft => self.left,
            Button::DPadRight => self.right,
            Button::Other => ButtonRuntime::initial(),
        }
    }

    pub open spec fn with_clock(self, now: int) -> DeviceInput {
        DeviceInput { clock: now as u64, ..self }
    }

    pub open spec fn with_axis(self, axis: Axis, a: AxisState) -> DeviceInput {
        match axis {
            Axis::LeftStickX => DeviceInput { stick_x: a, ..self },
            Axis::LeftStickY => DeviceInput { stick_y: a, ..self },
            Axis::Other => self,
        }
    }

    pub open spec fn with_runtime(self, b: Button, rt: ButtonRuntime) -> DeviceInput {
        match b {
            Button::South => DeviceInput { south: rt, ..self },
            Button::East => DeviceInput { east: rt, ..self },
            Button::DPadUp => DeviceInput { up: rt, ..self },
            Button::DPadDown => DeviceInput { down: rt, ..self },
            Button::DPadLeft => DeviceInput { left: rt, ..self },
            Button::DPadRight => DeviceInput { right: rt, ..self },
            Button::Other => self,
        }
    }

    /// Every stored time is at or before the clock, axis values are valid
    /// and in deadzone-normal form, and no held button owes fewer repeats
    /// than it has already emitted.
    pub open spec fn wf(self) -> bool {
        self.stick_x.wf(self.clock as int) && self.stick_y.wf(self.clock as int) && self.south.wf(
            self.clock as int,
        ) && self.east.wf(self.clock as int) && self.up.wf(self.clock as int) && self.down.wf(
            self.clock as int,
        ) && self.left.wf(self.clock as int) && self.right.wf(self.clock as int)
    }

    /// Fresh state for a device first seen at `now`: axes centered, all
    /// buttons released.
    pub open spec fn spec_new(id: u64, now: u64) -> DeviceInput {
        DeviceInput {
            id,
            stick_x: AxisState { value: 0, last_transition: 0, has_transitioned: false },
            stick_y: AxisState { value: 0, last_transition: 0, has_transitioned: false },
            south: ButtonRuntime::initial(),
            east: ButtonRuntime::initial(),
            up: ButtonRuntime::initial(),
            down: ButtonRuntime::initial(),
            left: ButtonRuntime::initial(),
            right: ButtonRuntime::initial(),
            digital: DpadState::spec_released(),
            clock: now,
        }
    }
}

/// State change caused by a button event that survived the filters: the
/// digital latch and the button runtime move to the event's side, a press
/// restarting the auto-repeat hold. Repeats leave the latches untouched.
pub open spec fn apply_button_event(s: DeviceInput, ev: EventType, now: int) -> DeviceInput {
    match ev {
        EventType::ButtonPressed(b) => DeviceInput {
            digital: s.digital.spec_set(b, true),
            ..s
        }.with_runtime(
            b,
            ButtonRuntime { pressed: true, last_transition_time: now as u64, repeats_emitted: 0 },
        ),
        EventType::ButtonReleased(b) => DeviceInput {
            digital: s.digital.spec_set(b, false),
            ..s
        }.with_runtime(
            b,
            ButtonRuntime { pressed: false, last_transition_time: now as u64, repeats_emitted: 0 },
        ),
        _ => s,
    }
}

/// One axis reading through the chain: deadzone clamping, the no-change
/// veto, the jitter veto on a reversal inside the jitter window, the
/// hysteresis mapper, then duplicate suppression of the synthetic event.
/// Yields the new state and the surviving synthetic button event, if any.
pub open spec fn step_axis(s: DeviceInput, axis: Axis, v1: int, now: int) -> (DeviceInput, Option<
    EventType,
>) {
    let sc = s.with_clock(now);
    if axis == Axis::Other {
        (sc, None)
    } else {
        let a = s.spec_axis(axis);
        let v = apply_deadzone_spec(v1);
        if v == a.value {
            (sc, None)
        } else {
            match left_axis_to_dpad_btn_spec(axis, a.value as int, v) {
                None => (
                    sc.with_axis(axis, AxisState { value: v as i32, ..a }),
                    None,
                ),
                Some(ev) => {
                    if a.has_transitioned && now - a.last_transition < JITTER_WINDOW_MS {
                        (sc, None)
                    } else {
                        let a2 = AxisState {
                            value: v as i32,
                            last_transition: now as u64,
                            has_transitioned: true,
                        };
                        let s2 = sc.with_axis(axis, a2);
                        match filter_wrong_dpad_events_spec(ev, s.digital) {
                            None => (s2, None),
                            Some(ev2) => (apply_button_event(s2, ev2, now), Some(ev2)),
                        }
                    }
                },
            }
        }
    }
}

/// One native button event through the chain: presses and releases pass
/// duplicate suppression and, surviving, update the latches; repeats pass
/// through untouched.
pub open spec fn step_button(s: DeviceInput, ev: EventType, now: int) -> (DeviceInput, Option<
    EventType,
>) {
    let sc = s.with_clock(now);
    match ev {
        EventType::ButtonPressed(_) | EventType::ButtonReleased(_) => {
            match filter_wrong_dpad_events_spec(ev, s.digital) {
                None => (sc, None),
                Some(e) => (apply_button_event(sc, e, now), Some(e)),
            }
        },
        EventType::ButtonRepeated(_) => (sc, Some(ev)),
        _ => (sc, None),
    }
}

/// The key event dispatched for a surviving button event; buttons outside
/// the mapped vocabulary are dropped silently.
pub open spec fn key_output(ev: Option<EventType>) -> Option<(Key, KeyState)> {
    match ev {
        Some(EventType::ButtonPressed(b)) => match btn_to_key_spec(b) {
            Some(k) => Some((k, KeyState::Pressed(false))),
            None => None,
        },
        Some(EventType::ButtonRepeated(b)) => match btn_to_key_spec(b) {
            Some(k) => Some((k, KeyState::Pressed(true))),
            None => None,
        },
        Some(EventType::ButtonReleased(b)) => match btn_to_key_spec(b) {
            Some(k) => Some((k, KeyState::Released)),
            None => None,
        },
        _ => None,
    }
}

/// One raw event through the whole chain, to the key event it dispatches.
/// Connect and disconnect events bypass the chain and yield nothing here.
pub open spec fn step_event(s: DeviceInput, ev: EventType, now: int) -> (DeviceInput, Option<
    (Key, KeyState),
>) {
    match ev {
        EventType::AxisChanged(axis, v) => {
            let r = step_axis(s, axis, v as int, now);
            (r.0, key_output(r.1))
        },
        EventType::ButtonPressed(_) | EventType::ButtonRepeated(_) | EventType::ButtonReleased(_) => {
            let r = step_button(s, ev, now);
            (r.0, key_output(r.1))
        },
        _ => (s.with_clock(now), None),
    }
}

impl DeviceInput {
    /// Fresh filter-chain state for a device first seen at `now`.
    pub fn new(id: u64, now: u64) -> (r: DeviceInput)
        ensures
            r == DeviceInput::spec_new(id, now),
            r.wf(),
    {
        DeviceInput {
            id,
            stick_x: AxisState { value: 0, last_transition: 0, has_transitioned: false },
            stick_y: AxisState { value: 0, last_transition: 0, has_transitioned: false },
            south: ButtonRuntime { pressed: false, last_transition_time: 0, repeats_emitted: 0 },
            east: ButtonRuntime { pressed: false, last_transition_time: 0, repeats_emitted: 0 },
            up: ButtonRuntime { pressed: false, last_transition_time: 0, repeats_emitted: 0 },
            down: ButtonRuntime { pressed: false, last_transition_time: 0, repeats_emitted: 0 },
            left: ButtonRuntime { pressed: false, last_transition_time: 0, repeats_emitted: 0 },
            right: ButtonRuntime { pressed: false, last_transition_time: 0, repeats_emitted: 0 },
            digital: DpadState { up: false, down: false, left: false, right: false },
            clock: now,
        }
    }

    fn set_axis(&mut self, axis: Axis, a: AxisState)
        ensures
            *final(self) == old(self).with_axis(axis, a),
    {
        match axis {
            Axis::LeftStickX => self.stick_x = a,
            Axis::LeftStickY => self.stick_y = a,
            Axis::Other => (),
        }
    }

    fn set_runtime(&mut self, b: Button, rt: ButtonRuntime)
        ensures
            *final(self) == old(self).with_runtime(b, rt),
    {
        match b {
            Button::South => self.south = rt,
            Button::East => self.east = rt,
            Button::DPadUp => self.up = rt,
            Button::DPadDown => self.down = rt,
            Button::DPadLeft => self.left = rt,
            Button::DPadRight => self.right = rt,
            Button::Other => (),
        }
    }

    fn get_axis(&self, axis: Axis) -> (r: AxisState)
        ensures
            r == self.spec_axis(axis),
    {
        match axis {
            Axis::LeftStickX => self.stick_x,
            Axis::LeftStickY => self.stick_y,
            Axis::Other => AxisState { value: 0, last_transition: 0, has_transitioned: false },
        }
    }

    /// Latches and runtime after a surviving button event, following
    /// `apply_button_event` exactly.
    fn apply_event(&mut self, ev: EventType, now: u64)
        ensures
            *final(self) == apply_button_event(*old(self), ev, now as int),
    {
        match ev {
            EventType::ButtonPressed(b) => {
                self.digital.set(b, true);
                self.set_runtime(
                    b,
                    ButtonRuntime { pressed: true, last_transition_time: now, repeats_emitted: 0 },
                );
            },
            EventType::ButtonReleased(b) => {
                self.digital.set(b, false);
                self.set_runtime(
                    b,
                    ButtonRuntime { pressed: false, last_transition_time: now, repeats_emitted: 0 },
                );
            },
            _ => (),
        }
    }

    /// The axis part of the chain: deadzone, jitter veto, hysteresis
    /// mapper and duplicate suppression, following `step_axis` exactly.
    fn process_axis(&mut self, axis: Axis, v1: i32, now: u64) -> (r: Option<EventType>)
        requires
            old(self).wf(),
            now >= old(self).clock,
            valid_axis_value(v1 as int),
        ensures
            *final(self) == step_axis(*old(self), axis, v1 as int, now as int).0,
            r == step_axis(*old(self), axis, v1 as int, now as int).1,
    {
        self.clock = now;
        if let Axis::Other = axis {
            return None;
        }
        let a = self.get_axis(axis);
        let v: i32 = if -DEADZONE < v1 && v1 < DEADZONE {
            0
        } else {
            v1
        };
        if v == a.value {
            return None;
        }
        let cand = match axis_button_pair(axis) {
            Some((neg, pos)) => axis_to_btn(a.value, v, neg, pos),
            None => None,
        };
        match cand {
            None => {
                self.set_axis(axis, AxisState { value: v, ..a });
                None
            },
            Some(sev) => {
                if a.has_transitioned && now - a.last_transition < JITTER_WINDOW_MS {
                    return None;
                }
                let a2 = AxisState { value: v, last_transition: now, has_transitioned: true };
                self.set_axis(axis, a2);
                match filter_wrong_dpad_events(sev, &self.digital) {
                    None => None,
                    Some(ev2) => {
                        self.apply_event(ev2, now);
                        Some(ev2)
                    },
                }
            },
        }
    }

    /// The native-button part of the chain: duplicate suppression and the
    /// latch updates, following `step_button` exactly.
    fn process_button(&mut self, ev: EventType, now: u64) -> (r: Option<EventType>)
        requires
            now >= old(self).clock,
            ev matches EventType::ButtonPressed(_) || ev matches EventType::ButtonReleased(_)
                || ev matches EventType::ButtonRepeated(_),
        ensures
            *final(self) == step_button(*old(self), ev, now as int).0,
            r == step_button(*old(self), ev, now as int).1,
    {
        self.clock = now;
        match ev {
            EventType::ButtonPressed(_) | EventType::ButtonReleased(_) => {
                match filter_wrong_dpad_events(ev, &self.digital) {
                    None => None,
                    Some(e) => {
                        self.apply_event(e, now);
                        Some(e)
                    },
                }
            },
            _ => Some(ev),
        }
    }

    /// Feeds one raw event of this device through the filter chain and
    /// returns the key event to dispatch, if any. `now` is the event's
    /// timestamp and may not run backwards.
    pub fn process_event(&mut self, ev: EventType, now: u64) -> (r: Option<(Key, KeyState)>)
        requires
            old(self).wf(),
            now >= old(self).clock,
            forall|axis: Axis, v: i32|
                ev == EventType::AxisChanged(axis, v) ==> valid_axis_value(v as int),
        ensures
            *final(self) == step_event(*old(self), ev, now as int).0,
            r == step_event(*old(self), ev, now as int).1,
            final(self).wf(),
            final(self).clock == now,
    {
        proof {
            lemma_step_event_wf(*self, ev, now as int);
        }
        match ev {
            EventType::AxisChanged(axis, v1) => {
                let e = self.process_axis(axis, v1, now);
                key_output_exec(e)
            },
            EventType::ButtonPressed(_) | EventType::ButtonReleased(_)
            | EventType::ButtonRepeated(_) => {
                let e = self.process_button(ev, now);
                key_output_exec(e)
            },
            _ => {
                self.clock = now;
                None
            },
        }
    }
}

/// A chain step never invalidates the state: the clock advances to the
/// event's time and every stored time and axis value stays well-formed.
pub proof fn lemma_step_event_wf(s: DeviceInput, ev: EventType, now: int)
    requires
        s.wf(),
        now >= s.clock,
        now <= u64::MAX,
        forall|axis: Axis, v: i32|
            ev == EventType::AxisChanged(axis, v) ==> valid_axis_value(v as int),
    ensures
        step_event(s, ev, now).0.wf(),
        step_event(s, ev, now).0.clock == now,
        step_event(s, ev, now).0.id == s.id,
{
    lemma_due_repeats_monotonic(s.south.last_transition_time as int, s.clock as int, now);
    lemma_due_repeats_monotonic(s.east.last_transition_time as int, s.clock as int, now);
    lemma_due_repeats_monotonic(s.up.last_transition_time as int, s.clock as int, now);
    lemma_due_repeats_monotonic(s.down.last_transition_time as int, s.clock as int, now);
    lemma_due_repeats_monotonic(s.left.last_transition_time as int, s.clock as int, now);
    lemma_due_repeats_monotonic(s.right.last_transition_time as int, s.clock as int, now);
    let sc = s.with_clock(now);
    assert(sc.wf());
    match ev {
        EventType::AxisChanged(axis, v) => {
            assert(valid_axis_value(v as int)) by {
                assert(ev == EventType::AxisChanged(axis, v));
            }
            lemma_step_axis_wf(s, axis, v as int, now);
        },
        EventType::ButtonPressed(b) | EventType::ButtonReleased(b) => {
            match filter_wrong_dpad_events_spec(ev, s.digital) {
                None => {},
                Some(e) => {
                    lemma_apply_button_event_wf(sc, e, now);
                },
            }
        },
        _ => {},
    }
}

/// The axis path of the chain preserves well-formedness.
proof fn lemma_step_axis_wf(s: DeviceInput, axis: Axis, v1: int, now: int)
    requires
        s.wf(),
        now >= s.clock,
        now <= u64::MAX,
        valid_axis_value(v1),
    ensures
        step_axis(s, axis, v1, now).0.wf(),
        step_axis(s, axis, v1, now).0.clock == now,
{
    lemma_due_repeats_monotonic(s.south.last_transition_time as int, s.clock as int, now);
    lemma_due_repeats_monotonic(s.east.last_transition_time as int, s.clock as int, now);
    lemma_due_repeats_monotonic(s.up.last_transition_time as int, s.clock as int, now);
    lemma_due_repeats_monotonic(s.down.last_transition_time as int, s.clock as int, now);
    lemma_due_repeats_monotonic(s.left.last_transition_time as int, s.clock as int, now);
    lemma_due_repeats_monotonic(s.right.last_transition_time as int, s.clock as int, now);
    let sc = s.with_clock(now);
    assert(sc.wf());
    if axis != Axis::Other {
        let a = s.spec_axis(axis);
        let v = apply_deadzone_spec(v1);
        assert(v == 0 || v <= -DEADZONE || v >= DEADZONE);
        if v != a.value {
            match left_axis_to_dpad_btn_spec(axis, a.value as int, v) {
                None => {
                    assert(step_axis(s, axis, v1, now).0.wf());
                },
                Some(ev) => {
                    if !(a.has_transitioned && now - a.last_transition < JITTER_WINDOW_MS) {
                        let a2 = AxisState {
                            value: v as i32,
                            last_transition: now as u64,
                            has_transitioned: true,
                        };
                        let s2 = sc.with_axis(axis, a2);
                        assert(s2.wf());
                        match filter_wrong_dpad_events_spec(ev, s.digital) {
                            None => {},
                            Some(ev2) => {
                                lemma_apply_button_event_wf(s2, ev2, now);
                            },
                        }
                    }
                },
            }
        }
    }
}

/// Applying a surviving button event preserves well-formedness.
proof fn lemma_apply_button_event_wf(s: DeviceInput, ev: EventType, now: int)
    requires
        s.wf(),
        s.clock == now,
        now <= u64::MAX,
    ensures
        apply_button_event(s, ev, now).wf(),
        apply_button_event(s, ev, now).clock == now,
{
}

/// Repeats owed can only grow as time advances.
pub proof fn lemma_due_repeats_monotonic(press_time: int, t1: int, t2: int)
    requires
        0 <= press_time,
        t1 <= t2,
    ensures
        due_repeats(press_time, t1) <= due_repeats(press_time, t2),
{
    if t1 - press_time >= REPEAT_AFTER_MS {
        vstd::arithmetic::div_mod::lemma_div_is_ordered(
            t1 - press_time - REPEAT_AFTER_MS,
            t2 - press_time - REPEAT_AFTER_MS,
            REPEAT_EVERY_MS as int,
        );
    } else if t2 - press_time >= REPEAT_AFTER_MS {
        vstd::arithmetic::div_mod::lemma_div_pos_is_pos(
            t2 - press_time - REPEAT_AFTER_MS,
            REPEAT_EVERY_MS as int,
        );
    }
}

/// A button runtime after a repeat tick at `now`: a held button has caught
/// up with every repeat it owes; a released button is untouched.
pub open spec fn tick_runtime(rt: ButtonRuntime, now: int) -> ButtonRuntime {
    if rt.pressed {
        ButtonRuntime {
            repeats_emitted: due_repeats(rt.last_transition_time as int, now) as u64,
            ..rt
        }
    } else {
        rt
    }
}

/// The auto-repeat events one button contributes to a tick at `now`: one
/// flagged press per repeat owed and not yet emitted.
pub open spec fn repeat_batch(rt: ButtonRuntime, key: Key, now: int) -> Seq<(Key, KeyState)> {
    if rt.pressed {
        Seq::new(
            (due_repeats(rt.last_transition_time as int, now) - rt.repeats_emitted) as nat,
            |i: int| (key, KeyState::Pressed(true)),
        )
    } else {
        Seq::empty()
    }
}

/// The device state after a repeat tick at `now`.
pub open spec fn tick_state(s: DeviceInput, now: int) -> DeviceInput {
    DeviceInput {
        south: tick_runtime(s.south, now),
        east: tick_runtime(s.east, now),
        up: tick_runtime(s.up, now),
        down: tick_runtime(s.down, now),
        left: tick_runtime(s.left, now),
        right: tick_runtime(s.right, now),
        clock: now as u64,
        ..s
    }
}

/// Everything a repeat tick at `now` emits, in fixed button order.
pub open spec fn tick_output(s: DeviceInput, now: int) -> Seq<(Key, KeyState)> {
    repeat_batch(s.south, Key::Return, now) + repeat_batch(s.east, Key::Escape, now)
        + repeat_batch(s.up, Key::UpArrow, now) + repeat_batch(s.down, Key::DownArrow, now)
        + repeat_batch(s.left, Key::LeftArrow, now) + repeat_batch(s.right, Key::RightArrow, now)
}

/// Emits the repeats one button owes at `now` and marks them emitted,
/// following `tick_runtime` and `repeat_batch` exactly.
fn tick_button(rt: &mut ButtonRuntime, key: Key, now: u64, out: &mut Vec<(Key, KeyState)>)
    requires
        old(rt).last_transition_time <= now,
        old(rt).pressed ==> old(rt).repeats_emitted <= due_repeats(
            old(rt).last_transition_time as int,
            now as int,
        ),
    ensures
        *final(rt) == tick_runtime(*old(rt), now as int),
        final(out)@ == old(out)@ + repeat_batch(*old(rt), key, now as int),
{
    if !rt.pressed {
        assert(final(out)@ =~= old(out)@ + repeat_batch(*old(rt), key, now as int));
        return ;
    }
    let due: u64 = if now - rt.last_transition_time >= REPEAT_AFTER_MS {
        (now - rt.last_transition_time - REPEAT_AFTER_MS) / REPEAT_EVERY_MS
    } else {
        0
    };
    assert(due == due_repeats(rt.last_transition_time as int, now as int));
    while rt.repeats_emitted < due
        invariant
            old(rt).repeats_emitted <= rt.repeats_emitted <= due,
            rt.pressed == old(rt).pressed,
            rt.last_transition_time == old(rt).last_transition_time,
            due == due_repeats(rt.last_transition_time as int, now as int),
            out@ == old(out)@ + Seq::new(
                (rt.repeats_emitted - old(rt).repeats_emitted) as nat,
                |i: int| (key, KeyState::Pressed(true)),
            ),
        decreases due - rt.repeats_emitted,
    {
        out.push((key, KeyState::Pressed(true)));
        rt.repeats_emitted = rt.repeats_emitted + 1;
        assert(out@ =~= old(out)@ + Seq::new(
            (rt.repeats_emitted - old(rt).repeats_emitted) as nat,
            |i: int| (key, KeyState::Pressed(true)),
        ));
    }
    assert(out@ =~= old(out)@ + repeat_batch(*old(rt), key, now as int));
}

impl DeviceInput {
    /// Emits every auto-repeat owed at `now`: for each button continuously
    /// held past the initial delay, one flagged press per elapsed repeat
    /// interval not yet emitted. A release always cancels the hold before
    /// this is reached, so released buttons contribute nothing.
    pub fn tick(&mut self, now: u64) -> (r: Vec<(Key, KeyState)>)
        requires
            old(self).wf(),
            now >= old(self).clock,
        ensures
            *final(self) == tick_state(*old(self), now as int),
            r@ == tick_output(*old(self), now as int),
            final(self).wf(),
            final(self).clock == now,
    {
        proof {
            lemma_due_repeats_monotonic(
                self.south.last_transition_time as int,
                self.clock as int,
                now as int,
            );
            lemma_due_repeats_monotonic(
                self.east.last_transition_time as int,
                self.clock as int,
                now as int,
            );
            lemma_due_repeats_monotonic(
                self.up.last_transition_time as int,
                self.clock as int,
                now as int,
            );
            lemma_due_repeats_monotonic(
                self.down.last_transition_time as int,
                self.clock as int,
                now as int,
            );
            lemma_due_repeats_monotonic(
                self.left.last_transition_time as int,
                self.clock as int,
                now as int,
            );
            lemma_due_repeats_monotonic(
                self.right.last_transition_time as int,
                self.clock as int,
                now as int,
            );
        }
        let mut out: Vec<(Key, KeyState)> = Vec::new();
        tick_button(&mut self.south, Key::Return, now, &mut out);
        tick_button(&mut self.east, Key::Escape, now, &mut out);
        tick_button(&mut self.up, Key::UpArrow, now, &mut out);
        tick_button(&mut self.down, Key::DownArrow, now, &mut out);
        tick_button(&mut self.left, Key::LeftArrow, now, &mut out);
        tick_button(&mut self.right, Key::RightArrow, now, &mut out);
        self.clock = now;
        assert(out@ =~= tick_output(*old(self), now as int));
        out
    }
}

/// The key event for a surviving button event, following `key_output`
/// exactly.
fn key_output_exec(ev: Option<EventType>) -> (r: Option<(Key, KeyState)>)
    ensures
        r == key_output(ev),
{
    match ev {
        Some(EventType::ButtonPressed(b)) => match btn_to_key(b) {
            Some(k) => Some((k, KeyState::Pressed(false))),
            None => None,
        },
        Some(EventType::ButtonRepeated(b)) => match btn_to_key(b) {
            Some(k) => Some((k, KeyState::Pressed(true))),
            None => None,
        },
        Some(EventType::ButtonReleased(b)) => match btn_to_key(b) {
            Some(k) => Some((k, KeyState::Released)),
            None => None,
        },
        _ => None,
    }
}

} // verus!
