//! The manager owning the whole subsystem state: one filter-chain state
//! per device seen on the event stream, and the device tracking table (one
//! throttle record plus one display row per connected device) that backs
//! the bound list.
//!
//! The display rows and the structural changes to them are reported to the
//! caller through return values: connecting appends exactly one row and
//! reports its index, disconnecting removes exactly one row and reports
//! its index, and a battery refresh reports the index of a row whose
//! fields actually changed. Index positions of rows always correspond 1:1,
//! in order, to tracking-table entries.

use crate::device_input::{step_event, tick_output, tick_state, DeviceInput};
use crate::events::{valid_axis_value, Axis, Event, EventType, PowerInfo};
use crate::keymap::{Key, KeyState};
use crate::model::{
    convert_power_info_spec,
    create_model_and_tracking_state,
    GamepadModel,
    GamepadTrackingState,
};
use vstd::prelude::*;

verus! {

/// A field of one display row, as handed out by role-based lookup.
#[derive(Clone, Debug)]
pub enum ItemField {
    Name(String),
    Status(i32),
    Charge(i32),
}

/// What one drained raw event asks the caller to do: dispatch a key event
/// to the focused window, or adjust the tracked device set. Connect and
/// disconnect markers carry the device id; the caller takes the
/// connect-time snapshot and drives the tracking table.
#[derive(Clone, Copy, Debug, PartialEq, Eq, Structural)]
pub enum StateChange {
    UpdateKey(Key, KeyState),
    AddGamepad(u64),
    RemoveGamepad(u64),
}

/// The state change a surviving key event asks for.
pub open spec fn spec_key_change(o: Option<(Key, KeyState)>) -> Option<StateChange> {
    match o {
        Some((k, st)) => Some(StateChange::UpdateKey(k, st)),
        None => None,
    }
}

/// The auto-repeat events every device together emits at `now`, in device
/// order.
pub open spec fn tick_all(inputs: Seq<DeviceInput>, now: int) -> Seq<(Key, KeyState)>
    decreases inputs.len(),
{
    if inputs.len() == 0 {
        Seq::empty()
    } else {
        tick_all(inputs.drop_last(), now) + tick_output(inputs.last(), now)
    }
}

/// The ids whose battery refresh is owed at `now`, in table order.
pub open spec fn due_ids(states: Seq<GamepadTrackingState>, now: int) -> Seq<u64>
    decreases states.len(),
{
    if states.len() == 0 {
        Seq::empty()
    } else {
        let rest = due_ids(states.drop_last(), now);
        if states.last().spec_refresh_due(now) {
            rest.push(states.last().gamepad_id)
        } else {
            rest
        }
    }
}

pub struct GamepadManager {
    /// Filter-chain state, one entry per device that has sent input.
    pub inputs: Vec<DeviceInput>,
    /// Battery-refresh throttle records, one per connected device.
    pub states: Vec<GamepadTrackingState>,
    /// Display rows, parallel to `states`.
    pub models: Vec<GamepadModel>,
    /// Latest timestamp seen; time handed to the manager never runs
    /// backwards.
    pub clock: u64,
}

impl GamepadManager {
    /// Whether a device with this id is in the tracking table.
    pub open spec fn spec_has_device(self, id: u64) -> bool {
        exists|i: int| 0 <= i < self.states@.len() && self.states@[i].gamepad_id == id
    }

    /// Whether a filter-chain state exists for this id.
    pub open spec fn spec_has_input(self, id: u64) -> bool {
        exists|i: int| 0 <= i < self.inputs@.len() && self.inputs@[i].id == id
    }

    /// The table and the rows stay parallel and uniquely keyed, every row
    /// shows a clamped charge, and no stored time lies after the clock.
    pub open spec fn wf(self) -> bool {
        &&& self.states@.len() == self.models@.len()
        &&& forall|i: int, j: int|
            0 <= i < j < self.states@.len() ==> self.states@[i].gamepad_id
                != self.states@[j].gamepad_id
        &&& forall|i: int, j: int|
            0 <= i < j < self.inputs@.len() ==> self.inputs@[i].id != self.inputs@[j].id
        &&& forall|i: int| 0 <= i < self.models@.len() ==> self.models@[i].wf()
        &&& forall|i: int|
            0 <= i < self.inputs@.len() ==> self.inputs@[i].wf() && self.inputs@[i].clock
                <= self.clock
        &&& forall|i: int|
            0 <= i < self.states@.len() ==> self.states@[i].update_time <= self.clock
    }

    /// An empty manager: no devices tracked, no input state.
    pub fn new() -> (r: GamepadManager)
        ensures
            r.wf(),
            r.inputs@.len() == 0,
            r.states@.len() == 0,
            r.models@.len() == 0,
            r.clock == 0,
    {
        GamepadManager { inputs: Vec::new(), states: Vec::new(), models: Vec::new(), clock: 0 }
    }

    /// Read access to the display rows backing the bound list.
    pub fn model(&self) -> (r: &Vec<GamepadModel>)
        ensures
            r@ == self.models@,
    {
        &self.models
    }

    /// The index of the tracking record for `id`, if the device is
    /// tracked.
    fn find_state(&self, id: u64) -> (r: Option<usize>)
        ensures
            match r {
                Some(i) => 0 <= i < self.states@.len() && self.states@[i as int].gamepad_id == id,
                None => !self.spec_has_device(id),
            },
    {
        let n = self.states.len();
        let mut i: usize = 0;
        while i < n
            invariant
                n == self.states@.len(),
                0 <= i <= n,
                forall|k: int| 0 <= k < i ==> self.states@[k].gamepad_id != id,
            decreases n - i,
        {
            if self.states[i].gamepad_id == id {
                return Some(i);
            }
            i = i + 1;
        }
        None
    }

    /// The index of the filter-chain state for `id`, if one exists.
    fn find_input(&self, id: u64) -> (r: Option<usize>)
        ensures
            match r {
                Some(i) => 0 <= i < self.inputs@.len() && self.inputs@[i as int].id == id,
                None => !self.spec_has_input(id),
            },
    {
        let n = self.inputs.len();
        let mut i: usize = 0;
        while i < n
            invariant
                n == self.inputs@.len(),
                0 <= i <= n,
                forall|k: int| 0 <= k < i ==> self.inputs@[k].id != id,
            decreases n - i,
        {
            if self.inputs[i].id == id {
                return Some(i);
            }
            i = i + 1;
        }
        None
    }

    /// Tracks a device that just connected: appends exactly one tracking
    /// record and one display row built from the connect-time snapshot,
    /// and reports the appended row's index — the old table length. A
    /// device already tracked is left untouched and reported as `None`,
    /// so one connection yields at most one structural addition.
    pub fn on_connect(&mut self, id: u64, name: String, power_info: PowerInfo, now: u64) -> (r:
        Option<usize>)
        requires
            old(self).wf(),
            now >= old(self).clock,
        ensures
            final(self).wf(),
            final(self).inputs@ == old(self).inputs@,
            match r {
                Some(idx) => {
                    &&& !old(self).spec_has_device(id)
                    &&& idx == old(self).states@.len()
                    &&& final(self).states@ == old(self).states@.push(
                        GamepadTrackingState { gamepad_id: id, update_time: now },
                    )
                    &&& final(self).models@.len() == old(self).models@.len() + 1
                    &&& forall|j: int|
                        0 <= j < old(self).models@.len() ==> final(self).models@[j]
                            == old(self).models@[j]
                    &&& final(self).models@[idx as int].name == name
                    &&& final(self).models@[idx as int].status == convert_power_info_spec(
                        power_info,
                    ).0
                    &&& final(self).models@[idx as int].charge == convert_power_info_spec(
                        power_info,
                    ).1
                    &&& final(self).spec_has_device(id)
                    &&& final(self).clock == now
                },
                None => {
                    &&& old(self).spec_has_device(id)
                    &&& final(self).states@ == old(self).states@
                    &&& final(self).models@ == old(self).models@
                    &&& final(self).clock == now
                },
            },
    {
        self.clock = now;
        if let Some(_) = self.find_state(id) {
            return None;
        }
        let idx = self.states.len();
        let (model, state) = create_model_and_tracking_state(id, name, power_info, now);
        self.states.push(state);
        self.models.push(model);
        proof {
            assert(self.states@[idx as int].gamepad_id == id);
        }
        Some(idx)
    }

    /// Removes the tracking record and display row of a device that
    /// disconnected and reports the removed index; rows behind it move up
    /// one position. Disconnecting is the only operation that removes a
    /// record, and afterwards no record for the device remains. An
    /// untracked device is a no-op reported as `None`.
    pub fn on_disconnect(&mut self, id: u64) -> (r: Option<usize>)
        requires
            old(self).wf(),
        ensures
            final(self).wf(),
            final(self).inputs@ == old(self).inputs@,
            final(self).clock == old(self).clock,
            match r {
                Some(idx) => {
                    &&& 0 <= idx < old(self).states@.len()
                    &&& old(self).states@[idx as int].gamepad_id == id
                    &&& final(self).states@ == old(self).states@.remove(idx as int)
                    &&& final(self).models@ == old(self).models@.remove(idx as int)
                    &&& !final(self).spec_has_device(id)
                },
                None => {
                    &&& !old(self).spec_has_device(id)
                    &&& final(self).states@ == old(self).states@
                    &&& final(self).models@ == old(self).models@
                },
            },
    {
        match self.find_state(id) {
            Some(idx) => {
                self.states.remove(idx);
                self.models.remove(idx);
                proof {
                    assert forall|k: int|
                        0 <= k < self.states@.len() implies self.states@[k].gamepad_id
                        != id by {
                        if k < idx {
                            assert(self.states@[k] == old(self).states@[k]);
                        } else {
                            assert(self.states@[k] == old(self).states@[k + 1]);
                        }
                    }
                }
                Some(idx)
            },
            None => None,
        }
    }

    /// Drains one raw event through the subsystem. A button or axis event
    /// runs through the filter chain of its device — created fresh on
    /// first sight — and may ask for one key dispatch; a connect or
    /// disconnect event bypasses the chain and is handed back as a
    /// lifecycle marker, a disconnect also dropping the device's
    /// filter-chain state. The tracking table itself is driven by
    /// `on_connect` and `on_disconnect`.
    pub fn handle_event(&mut self, ev: Event) -> (r: Option<StateChange>)
        requires
            old(self).wf(),
            ev.time >= old(self).clock,
            forall|axis: Axis, v: i32|
                ev.event == EventType::AxisChanged(axis, v) ==> valid_axis_value(v as int),
        ensures
            final(self).wf(),
            final(self).clock == ev.time,
            final(self).states@ == old(self).states@,
            final(self).models@ == old(self).models@,
            match ev.event {
                EventType::Connected => {
                    &&& r == Some(StateChange::AddGamepad(ev.id))
                    &&& final(self).inputs@ == old(self).inputs@
                },
                EventType::Disconnected => {
                    &&& r == Some(StateChange::RemoveGamepad(ev.id))
                    &&& if old(self).spec_has_input(ev.id) {
                        exists|i: int|
                            0 <= i < old(self).inputs@.len() && old(self).inputs@[i].id == ev.id
                                && final(self).inputs@ == old(self).inputs@.remove(i)
                    } else {
                        final(self).inputs@ == old(self).inputs@
                    }
                    &&& !final(self).spec_has_input(ev.id)
                },
                _ => {
                    &&& if old(self).spec_has_input(ev.id) {
                        &&& final(self).inputs@.len() == old(self).inputs@.len()
                        &&& forall|j: int|
                            0 <= j < old(self).inputs@.len() && old(self).inputs@[j].id != ev.id
                                ==> final(self).inputs@[j] == old(self).inputs@[j]
                        &&& forall|j: int|
                            0 <= j < old(self).inputs@.len() && old(self).inputs@[j].id == ev.id
                                ==> final(self).inputs@[j] == step_event(
                                old(self).inputs@[j],
                                ev.event,
                                ev.time as int,
                            ).0 && r == spec_key_change(
                                step_event(old(self).inputs@[j], ev.event, ev.time as int).1,
                            )
                    } else {
                        final(self).inputs@ == old(self).inputs@.push(
                            step_event(
                                DeviceInput::spec_new(ev.id, ev.time),
                                ev.event,
                                ev.time as int,
                            ).0,
                        ) && r == spec_key_change(
                            step_event(
                                DeviceInput::spec_new(ev.id, ev.time),
                                ev.event,
                                ev.time as int,
                            ).1,
                        )
                    }
                },
            },
    {
        let now = ev.time;
        self.clock = now;
        match ev.event {
            EventType::Connected => Some(StateChange::AddGamepad(ev.id)),
            EventType::Disconnected => {
                match self.find_input(ev.id) {
                    Some(i) => {
                        let ghost gi = i as int;
                        self.inputs.remove(i);
                        proof {
                            assert(old(self).inputs@[gi].id == ev.id);
                            assert forall|k: int|
                                0 <= k < self.inputs@.len() implies self.inputs@[k].id
                                != ev.id by {
                                if k < gi {
                                    assert(self.inputs@[k] == old(self).inputs@[k]);
                                } else {
                                    assert(self.inputs@[k] == old(self).inputs@[k + 1]);
                                }
                            }
                        }
                    },
                    None => (),
                }
                Some(StateChange::RemoveGamepad(ev.id))
            },
            _ => {
                let idx: usize = match self.find_input(ev.id) {
                    Some(i) => i,
                    None => {
                        let fresh = DeviceInput::new(ev.id, now);
                        let i = self.inputs.len();
                        self.inputs.push(fresh);
                        i
                    },
                };
                let mut d = self.inputs[idx];
                let out = d.process_event(ev.event, now);
                self.inputs[idx] = d;
                proof {
                    assert forall|j: int|
                        0 <= j < old(self).inputs@.len() && old(self).inputs@[j].id
                            == ev.id implies j == idx as int by {
                        if j != idx as int {
                            assert(old(self).inputs@[j].id != old(self).inputs@[idx as int].id);
                        }
                    }
                }
                match out {
                    Some((k, st)) => Some(StateChange::UpdateKey(k, st)),
                    None => None,
                }
            },
        }
    }

    /// Emits every auto-repeat owed at `now` across all devices, in
    /// device order: for each held button past its initial delay, one
    /// flagged press per elapsed interval not yet emitted.
    pub fn tick(&mut self, now: u64) -> (r: Vec<(Key, KeyState)>)
        requires
            old(self).wf(),
            now >= old(self).clock,
        ensures
            final(self).wf(),
            final(self).clock == now,
            final(self).states@ == old(self).states@,
            final(self).models@ == old(self).models@,
            final(self).inputs@.len() == old(self).inputs@.len(),
            forall|j: int|
                0 <= j < old(self).inputs@.len() ==> final(self).inputs@[j] == tick_state(
                    old(self).inputs@[j],
                    now as int,
                ),
            r@ == tick_all(old(self).inputs@, now as int),
    {
        let mut out: Vec<(Key, KeyState)> = Vec::new();
        let n = self.inputs.len();
        let mut j: usize = 0;
        while j < n
            invariant
                old(self).wf(),
                now >= old(self).clock,
                n == old(self).inputs@.len(),
                0 <= j <= n,
                self.inputs@.len() == n,
                self.states@ == old(self).states@,
                self.models@ == old(self).models@,
                self.clock == old(self).clock,
                forall|k: int|
                    0 <= k < j ==> self.inputs@[k] == tick_state(
                        old(self).inputs@[k],
                        now as int,
                    ),
                forall|k: int| j <= k < n ==> self.inputs@[k] == old(self).inputs@[k],
                out@ == tick_all(old(self).inputs@.take(j as int), now as int),
            decreases n - j,
        {
            let mut d = self.inputs[j];
            let mut batch = d.tick(now);
            self.inputs[j] = d;
            out.append(&mut batch);
            proof {
                assert(old(self).inputs@.take(j + 1 as int).drop_last() =~= old(
                    self,
                ).inputs@.take(j as int));
                assert(old(self).inputs@.take(j + 1 as int).last() == old(self).inputs@[j as int]);
            }
            j = j + 1;
        }
        self.clock = now;
        proof {
            assert(old(self).inputs@.take(n as int) =~= old(self).inputs@);
        }
        out
    }

    /// Marks every device whose battery query is owed at `now` as
    /// refreshed and returns their ids in table order. The caller queries
    /// each id and feeds the answers to `apply_power_info`; a failed query
    /// is simply not fed back, leaving the row untouched until the next
    /// owed refresh.
    pub fn power_refresh_due(&mut self, now: u64) -> (r: Vec<u64>)
        requires
            old(self).wf(),
            now >= old(self).clock,
        ensures
            final(self).wf(),
            final(self).clock == now,
            final(self).models@ == old(self).models@,
            final(self).inputs@ == old(self).inputs@,
            final(self).states@.len() == old(self).states@.len(),
            forall|j: int|
                0 <= j < old(self).states@.len() ==> final(self).states@[j] == (if old(
                    self,
                ).states@[j].spec_refresh_due(now as int) {
                    GamepadTrackingState {
                        gamepad_id: old(self).states@[j].gamepad_id,
                        update_time: now,
                    }
                } else {
                    old(self).states@[j]
                }),
            r@ == due_ids(old(self).states@, now as int),
    {
        let mut out: Vec<u64> = Vec::new();
        let n = self.states.len();
        let mut j: usize = 0;
        while j < n
            invariant
                old(self).wf(),
                now >= old(self).clock,
                n == old(self).states@.len(),
                0 <= j <= n,
                self.states@.len() == n,
                self.models@ == old(self).models@,
                self.inputs@ == old(self).inputs@,
                self.clock == old(self).clock,
                forall|k: int|
                    0 <= k < j ==> self.states@[k] == (if old(self).states@[k].spec_refresh_due(
                        now as int,
                    ) {
                        GamepadTrackingState {
                            gamepad_id: old(self).states@[k].gamepad_id,
                            update_time: now,
                        }
                    } else {
                        old(self).states@[k]
                    }),
                forall|k: int| j <= k < n ==> self.states@[k] == old(self).states@[k],
                out@ == due_ids(old(self).states@.take(j as int), now as int),
            decreases n - j,
        {
            proof {
                assert(old(self).states@.take(j + 1 as int).drop_last() =~= old(
                    self,
                ).states@.take(j as int));
                assert(old(self).states@.take(j + 1 as int).last() == old(self).states@[j as int]);
            }
            let mut st = self.states[j];
            if st.refresh_due(now) {
                st.reset_update_time(now);
                self.states[j] = st;
                out.push(st.gamepad_id);
            }
            j = j + 1;
        }
        self.clock = now;
        proof {
            assert(old(self).states@.take(n as int) =~= old(self).states@);
        }
        out
    }

    /// Applies a fresh battery snapshot to the tracked device's display
    /// row. Returns the row's index exactly when a displayed battery
    /// field actually changed — the one case the bound list must be told
    /// about — and `None` when nothing changed or the device is no longer
    /// tracked (a vanished device is left for `on_disconnect`).
    pub fn apply_power_info(&mut self, id: u64, power_info: PowerInfo) -> (r: Option<usize>)
        requires
            old(self).wf(),
        ensures
            final(self).wf(),
            final(self).clock == old(self).clock,
            final(self).inputs@ == old(self).inputs@,
            final(self).states@ == old(self).states@,
            !old(self).spec_has_device(id) ==> final(self).models@ == old(self).models@ && r
                == None::<usize>,
            forall|i: int|
                0 <= i < old(self).states@.len() && old(self).states@[i].gamepad_id == id ==> {
                    &&& final(self).models@.len() == old(self).models@.len()
                    &&& forall|j: int|
                        0 <= j < old(self).models@.len() && j != i ==> final(self).models@[j]
                            == old(self).models@[j]
                    &&& final(self).models@[i].status == convert_power_info_spec(power_info).0
                    &&& final(self).models@[i].charge == convert_power_info_spec(power_info).1
                    &&& final(self).models@[i].name == old(self).models@[i].name
                    &&& r == (if old(self).models@[i].status != convert_power_info_spec(
                        power_info,
                    ).0 || old(self).models@[i].charge != convert_power_info_spec(power_info).1 {
                        Some(i as usize)
                    } else {
                        None::<usize>
                    })
                },
    {
        match self.find_state(id) {
            Some(idx) => {
                let changed = self.models[idx].update_power_info(power_info);
                proof {
                    assert forall|i: int|
                        0 <= i < old(self).states@.len() && old(self).states@[i].gamepad_id
                            == id implies i == idx as int by {
                        if i != idx as int {
                            assert(old(self).states@[i].gamepad_id != old(
                                self,
                            ).states@[idx as int].gamepad_id);
                        }
                    }
                }
                if changed {
                    Some(idx)
                } else {
                    None
                }
            },
            None => None,
        }
    }

    /// Role-based access to one display row: role 1 is the name, role 2
    /// the status code, role 3 the charge. An index outside the table or
    /// an unknown role yields an empty result, never a failure.
    pub fn get_item_field(&self, index: usize, role: i32) -> (r: Option<ItemField>)
        ensures
            match r {
                Some(f) => index < self.models@.len() && match f {
                    ItemField::Name(n) => role == 1 && n@ == self.models@[index as int].name@,
                    ItemField::Status(s) => role == 2 && s == self.models@[index as int].status.spec_code(),
                    ItemField::Charge(c) => role == 3 && c == self.models@[index as int].charge,
                },
                None => index >= self.models@.len() || !(1 <= role <= 3),
            },
    {
        if index >= self.models.len() {
            return None;
        }
        let item = &self.models[index];
        if role == 1 {
            Some(ItemField::Name(item.name.clone()))
        } else if role == 2 {
            Some(ItemField::Status(item.status.code()))
        } else if role == 3 {
            Some(ItemField::Charge(item.charge))
        } else {
            None
        }
    }
}

} // verus!
