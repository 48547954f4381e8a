//! The camera panel's state: building it from what the camera reports and what
//! is saved, and changing the camera.
//!
//! The caller reads and writes the camera. A write of several settings is not
//! atomic: one that failed may have landed in part, so that the panel is built
//! anew from what the camera then reports.

use crate::features::camera::device::{
    auto_at, control_at, find_auto, find_control, AutoReading, AutoToggle, CameraControl,
    CameraControls, CameraState, ControlRange, ControlReading,
};
use crate::device::DeviceKind;
use crate::state::AppState;
use crate::table::Table;
use crate::text::{owned_view, same_text};
use vstd::prelude::*;

verus! {

/// A mode as the panel shows it.
#[derive(Debug, Clone, Copy, PartialEq, Eq, Structural)]
pub struct AutoRow {
    pub toggle: AutoToggle,
    pub on: bool,
    pub default: bool,
}

/// A control as the panel shows it.
#[derive(Debug, Clone, Copy, PartialEq, Eq, Structural)]
pub struct ControlSlider {
    pub control: CameraControl,
    pub range: ControlRange,
    pub value: i32,
}

/// The value for a mode.
#[derive(Debug, Clone, Copy, PartialEq, Eq, Structural)]
pub struct AutoSetting {
    pub toggle: AutoToggle,
    pub on: bool,
}

/// The value for a control.
#[derive(Debug, Clone, Copy, PartialEq, Eq, Structural)]
pub struct ControlSetting {
    pub control: CameraControl,
    pub value: i32,
}

/// What is written to the camera at once: the modes first, then the values.
#[derive(Debug)]
pub struct DeviceWrite {
    pub autos: Vec<AutoSetting>,
    pub values: Vec<ControlSetting>,
}

/// What is saved for one camera.
#[derive(Debug)]
pub struct CameraSettings {
    pub saved: CameraControls,
    pub profiles: Table<CameraControls>,
    pub active_profile: Option<String>,
}

/// What came of writing the saved settings to the camera.
#[derive(Debug)]
pub enum Reapplied {
    /// There was nothing to write, or it was taken.
    Clean,
    /// It was refused, and this is what the camera reports now.
    Live(CameraState),
    /// It was refused, and the camera reports nothing.
    Unknown,
}

/// Whether a mode is wanted: as saved, else as it is.
pub open spec fn wanted(saved: CameraControls, reading: AutoReading) -> bool {
    match saved.saved_auto(reading.toggle) {
        Some(on) => on,
        None => reading.current,
    }
}

/// The modes among the first `upto` that have to change.
pub open spec fn changed_autos(
    autos: Seq<AutoReading>,
    saved: CameraControls,
    upto: int,
) -> Seq<AutoSetting>
    decreases upto,
{
    if upto <= 0 {
        seq![]
    } else {
        let rest = changed_autos(autos, saved, upto - 1);
        let reading = autos[upto - 1];
        let on = wanted(saved, reading);
        if on != reading.current {
            rest.push(AutoSetting { toggle: reading.toggle, on })
        } else {
            rest
        }
    }
}

/// Whether a mode that is wanted owns `control`.
pub open spec fn owned(
    autos: Seq<AutoReading>,
    saved: CameraControls,
    control: CameraControl,
) -> bool {
    match control.owner() {
        None => false,
        Some(toggle) => match auto_at(autos, toggle, 0) {
            Some(at) => wanted(saved, autos[at]),
            None => false,
        },
    }
}

/// The value that a control is wanted to have: as saved, else as it is, within
/// its range.
pub open spec fn initial(saved: CameraControls, reading: ControlReading) -> int {
    reading.range.clamped(
        match saved.saved(reading.control) {
            Some(value) => value as int,
            None => reading.range.current as int,
        },
    )
}

/// Whether the value of a control has to be written: it is saved, differs from
/// the camera's, and no mode owns it.
pub open spec fn has_to_change(
    autos: Seq<AutoReading>,
    saved: CameraControls,
    reading: ControlReading,
) -> bool {
    saved.saved(reading.control) matches Some(value) && value != reading.range.current && !owned(
        autos,
        saved,
        reading.control,
    )
}

/// The controls among the first `upto` that have to change.
pub open spec fn changed_values(
    state: CameraState,
    saved: CameraControls,
    upto: int,
) -> Seq<ControlSetting>
    decreases upto,
{
    if upto <= 0 {
        seq![]
    } else {
        let rest = changed_values(state, saved, upto - 1);
        let reading = state.controls@[upto - 1];
        if has_to_change(state.autos@, saved, reading) {
            rest.push(
                ControlSetting {
                    control: reading.control,
                    value: initial(saved, reading) as i32,
                },
            )
        } else {
            rest
        }
    }
}

fn wants(saved: &CameraControls, reading: AutoReading) -> (on: bool)
    ensures
        on == wanted(*saved, reading),
{
    match saved.auto(reading.toggle) {
        Some(on) => on,
        None => reading.current,
    }
}

fn is_owned(autos: &Vec<AutoReading>, saved: &CameraControls, control: CameraControl) -> (by: bool)
    ensures
        by == owned(autos@, *saved, control),
{
    match control.auto_toggle() {
        None => false,
        Some(toggle) => match find_auto(autos, toggle) {
            Some(at) => wants(saved, autos[at]),
            None => false,
        },
    }
}

fn initial_value(saved: &CameraControls, reading: ControlReading) -> (value: i32)
    requires
        reading.range.valid(),
    ensures
        value == initial(*saved, reading),
{
    let value: i32 = match saved.value(reading.control) {
        Some(value) => value,
        None => reading.range.current,
    };
    reading.range.clamp(value as i64)
}

/// What has to be written so that the camera is as it was saved.
pub fn plan_build(state: &CameraState, saved: &CameraControls) -> (write: DeviceWrite)
    requires
        state.valid(),
    ensures
        write.autos@ == changed_autos(state.autos@, *saved, state.autos@.len() as int),
        write.values@ == changed_values(*state, *saved, state.controls@.len() as int),
{
    let mut autos: Vec<AutoSetting> = Vec::new();
    let mut i: usize = 0;
    while i < state.autos.len()
        invariant
            i <= state.autos@.len(),
            autos@ == changed_autos(state.autos@, *saved, i as int),
        decreases state.autos@.len() - i,
    {
        let reading = state.autos[i];
        let on = wants(saved, reading);
        if on != reading.current {
            autos.push(AutoSetting { toggle: reading.toggle, on });
        }
        i += 1;
    }
    let mut values: Vec<ControlSetting> = Vec::new();
    let mut k: usize = 0;
    while k < state.controls.len()
        invariant
            k <= state.controls@.len(),
            state.valid(),
            values@ == changed_values(*state, *saved, k as int),
        decreases state.controls@.len() - k,
    {
        assert(state.controls@[k as int].range.valid());
        let reading = state.controls[k];
        let differs = match saved.value(reading.control) {
            Some(value) => value != reading.range.current,
            None => false,
        };
        if differs && !is_owned(&state.autos, saved, reading.control) {
            values.push(
                ControlSetting { control: reading.control, value: initial_value(saved, reading) },
            );
        }
        k += 1;
    }
    DeviceWrite { autos, values }
}

/// What came of writing the saved settings: `applied` says whether they were
/// taken, and `live` is what the camera reports if not.
pub fn reapply_saved(write: &DeviceWrite, applied: bool, live: Option<CameraState>) -> (outcome:
    Reapplied)
    ensures
        outcome == if write.autos@.len() == 0 && write.values@.len() == 0 || applied {
            Reapplied::Clean
        } else {
            match live {
                Some(live) => Reapplied::Live(live),
                None => Reapplied::Unknown,
            }
        },
{
    if write.autos.len() == 0 && write.values.len() == 0 || applied {
        return Reapplied::Clean;
    }
    match live {
        Some(live) => Reapplied::Live(live),
        None => Reapplied::Unknown,
    }
}

/// Whether a mode is shown as on: as wanted, or as the camera reported after it
/// refused.
pub open spec fn shown_on(
    saved: CameraControls,
    reading: AutoReading,
    outcome: Reapplied,
) -> bool {
    match outcome {
        Reapplied::Live(live) => match auto_at(live.autos@, reading.toggle, 0) {
            Some(at) => live.autos@[at].current,
            None => reading.current,
        },
        _ => wanted(saved, reading),
    }
}

/// The value that a control is shown at: as wanted, or as the camera reported
/// after it refused.
pub open spec fn shown_value(
    saved: CameraControls,
    reading: ControlReading,
    outcome: Reapplied,
) -> int {
    match outcome {
        Reapplied::Live(live) => match control_at(live.controls@, reading.control, 0) {
            Some(at) => live.controls@[at].range.current as int,
            None => reading.range.current as int,
        },
        _ => initial(saved, reading),
    }
}

/// The panel.
#[derive(Debug)]
pub struct CameraControlsPanel {
    /// The camera that the rows were built for: the key that its settings are
    /// kept under, and the id that it is opened by.
    pub key: Option<String>,
    pub uid: Option<String>,
    pub sliders: Vec<ControlSlider>,
    pub autos: Vec<AutoRow>,
}

/// The key and the capture id of the selected camera, if a camera is selected
/// and the system has it.
pub open spec fn selected_camera(state: Option<&AppState>) -> Option<(Seq<char>, Seq<char>)> {
    match state {
        Some(state) => match state.current() {
            Some(record) => match record.capture_id {
                Some(id) if record.kind == DeviceKind::Camera => Some((record.config_key@, id@)),
                _ => None,
            },
            None => None,
        },
        None => None,
    }
}

/// Whether the rows show the modes and controls of `state`.
pub open spec fn rows_show(
    panel: CameraControlsPanel,
    state: CameraState,
    saved: CameraControls,
    outcome: Reapplied,
) -> bool {
    &&& panel.autos@.len() == state.autos@.len()
    &&& forall|i: int|
        #![trigger panel.autos@[i]]
        0 <= i < panel.autos@.len() ==> panel.autos@[i] == (AutoRow {
            toggle: state.autos@[i].toggle,
            on: shown_on(saved, state.autos@[i], outcome),
            default: state.autos@[i].default,
        })
    &&& panel.sliders@.len() == state.controls@.len()
    &&& forall|i: int|
        #![trigger panel.sliders@[i]]
        0 <= i < panel.sliders@.len() ==> panel.sliders@[i].control == state.controls@[i].control
            && panel.sliders@[i].range == state.controls@[i].range && panel.sliders@[i].value
            == shown_value(saved, state.controls@[i], outcome)
}

impl CameraControlsPanel {
    /// No camera.
    pub fn new() -> (panel: Self)
        ensures
            panel.empty(),
    {
        CameraControlsPanel { key: None, uid: None, sliders: Vec::new(), autos: Vec::new() }
    }

    /// Whether there is neither a camera nor a row.
    pub open spec fn empty(self) -> bool {
        &&& self.key is None
        &&& self.uid is None
        &&& self.sliders@.len() == 0
        &&& self.autos@.len() == 0
    }

    /// Whether every range of a row holds a value.
    pub open spec fn valid(self) -> bool {
        forall|i: int| 0 <= i < self.sliders@.len() ==> (#[trigger] self.sliders@[i]).range.valid()
    }

    /// Whether the rows were built for this camera.
    pub open spec fn built_for(self, key: Seq<char>, uid: Seq<char>) -> bool {
        owned_view(self.key) == Some(key) && owned_view(self.uid) == Some(uid)
    }

    /// The selected camera's key and capture id, if a camera is selected and
    /// the system has it.
    pub fn active_camera(state: Option<&AppState>) -> (camera: Option<(String, String)>)
        ensures
            match camera {
                Some(camera) => selected_camera(state) == Some((camera.0@, camera.1@)),
                None => selected_camera(state) is None,
            },
    {
        let record = match state {
            Some(state) => match state.current_record() {
                Some(record) => record,
                None => {
                    return None;
                },
            },
            None => {
                return None;
            },
        };
        if record.kind != DeviceKind::Camera {
            return None;
        }
        match &record.capture_id {
            Some(capture_id) => Some((record.config_key.clone(), capture_id.clone())),
            None => None,
        }
    }

    /// No camera is selected.
    pub fn deselect(&mut self)
        ensures
            final(self).empty(),
    {
        self.key = None;
        self.uid = None;
        self.sliders = Vec::new();
        self.autos = Vec::new();
    }

    /// Whether the rows have still to be built for this camera.
    pub fn needs_build(&self, key: &str, uid: &str) -> (build: bool)
        ensures
            build == !self.built_for(key@, uid@),
    {
        let same_camera = match &self.key {
            Some(built) => same_text(built.as_str(), key),
            None => false,
        };
        let same_port = match &self.uid {
            Some(built) => same_text(built.as_str(), uid),
            None => false,
        };
        !(same_camera && same_port)
    }

    /// Builds the rows from what the camera reported and what came of writing
    /// the saved settings. Where the camera reports nothing, nothing is kept,
    /// so that the next attempt builds again. Where it refused the settings, no
    /// profile counts as active, so that a later change cannot overwrite a
    /// saved profile with what the camera fell back to.
    pub fn finish_build(
        &mut self,
        settings: &mut CameraSettings,
        key: &str,
        uid: &str,
        state: Option<&CameraState>,
        outcome: Reapplied,
    )
        requires
            state matches Some(state) ==> state.valid(),
        ensures
            state is None || outcome is Unknown ==> final(self).empty(),
            state matches Some(state) ==> !(outcome is Unknown) ==> {
                &&& final(self).built_for(key@, uid@)
                &&& rows_show(*final(self), *state, old(settings).saved, outcome)
            },
            final(self).valid(),
            *final(settings) == if state is Some && !(outcome is Clean) {
                CameraSettings { active_profile: None, ..*old(settings) }
            } else {
                *old(settings)
            },
    {
        self.deselect();
        let state = match state {
            Some(state) => state,
            None => {
                return;
            },
        };
        match &outcome {
            Reapplied::Clean => {},
            Reapplied::Live(_) => {
                settings.active_profile = None;
            },
            Reapplied::Unknown => {
                settings.active_profile = None;
                return;
            },
        }
        let saved = settings.saved;
        let mut i: usize = 0;
        while i < state.autos.len()
            invariant
                i <= state.autos@.len(),
                self.autos@.len() == i,
                self.key is None,
                self.uid is None,
                self.sliders@.len() == 0,
                !(outcome is Unknown),
                forall|j: int|
                    #![trigger self.autos@[j]]
                    0 <= j < i ==> self.autos@[j] == (AutoRow {
                        toggle: state.autos@[j].toggle,
                        on: shown_on(saved, state.autos@[j], outcome),
                        default: state.autos@[j].default,
                    }),
            decreases state.autos@.len() - i,
        {
            let reading = state.autos[i];
            let on = match &outcome {
                Reapplied::Live(live) => match find_auto(&live.autos, reading.toggle) {
                    Some(at) => live.autos[at].current,
                    None => reading.current,
                },
                _ => wants(&saved, reading),
            };
            self.autos.push(AutoRow { toggle: reading.toggle, on, default: reading.default });
            i += 1;
        }
        let mut k: usize = 0;
        while k < state.controls.len()
            invariant
                k <= state.controls@.len(),
                state.valid(),
                self.sliders@.len() == k,
                self.key is None,
                self.uid is None,
                !(outcome is Unknown),
                self.autos@.len() == state.autos@.len(),
                forall|j: int|
                    #![trigger self.autos@[j]]
                    0 <= j < self.autos@.len() ==> self.autos@[j] == (AutoRow {
                        toggle: state.autos@[j].toggle,
                        on: shown_on(saved, state.autos@[j], outcome),
                        default: state.autos@[j].default,
                    }),
                forall|j: int|
                    #![trigger self.sliders@[j]]
                    0 <= j < k ==> self.sliders@[j].control == state.controls@[j].control
                        && self.sliders@[j].range == state.controls@[j].range
                        && self.sliders@[j].value == shown_value(
                        saved,
                        state.controls@[j],
                        outcome,
                    ),
            decreases state.controls@.len() - k,
        {
            assert(state.controls@[k as int].range.valid());
            let reading = state.controls[k];
            let value: i32 = match &outcome {
                Reapplied::Live(live) => match find_control(&live.controls, reading.control) {
                    Some(at) => live.controls[at].range.current,
                    None => reading.range.current,
                },
                _ => initial_value(&saved, reading),
            };
            self.sliders.push(
                ControlSlider { control: reading.control, range: reading.range, value },
            );
            k += 1;
        }
        self.key = Some(key.to_owned());
        self.uid = Some(uid.to_owned());
        assert forall|j: int| 0 <= j < self.sliders@.len() implies (
        #[trigger] self.sliders@[j]).range.valid() by {
            assert(state.controls@[j].range.valid());
        }
    }

    /// The place of the first row of `toggle`, from position `from` on.
    pub open spec fn auto_row(self, toggle: AutoToggle, from: int) -> Option<int>
        decreases self.autos@.len() - from,
    {
        if from < 0 || from >= self.autos@.len() {
            None
        } else if self.autos@[from].toggle == toggle {
            Some(from)
        } else {
            self.auto_row(toggle, from + 1)
        }
    }

    pub(crate) fn find_auto_row(&self, toggle: AutoToggle) -> (found: Option<usize>)
        ensures
            match found {
                Some(at) => self.auto_row(toggle, 0) == Some(at as int) && at < self.autos@.len()
                    && self.autos@[at as int].toggle == toggle,
                None => self.auto_row(toggle, 0) is None,
            },
    {
        let mut i: usize = 0;
        while i < self.autos.len()
            invariant
                i <= self.autos@.len(),
                self.auto_row(toggle, 0) == self.auto_row(toggle, i as int),
            decreases self.autos@.len() - i,
        {
            if self.autos[i].toggle == toggle {
                return Some(i);
            }
            i += 1;
        }
        None
    }

    /// Whether a mode is on that owns `control`; `None` if the camera has no
    /// such mode.
    pub open spec fn auto_state(self, control: CameraControl) -> Option<bool> {
        match control.owner() {
            None => None,
            Some(toggle) => match self.auto_row(toggle, 0) {
                Some(at) => Some(self.autos@[at].on),
                None => None,
            },
        }
    }

    /// Whether a mode is on that owns `control`.
    pub fn auto_state_for(&self, control: CameraControl) -> (on: Option<bool>)
        ensures
            on == self.auto_state(control),
    {
        match control.auto_toggle() {
            None => None,
            Some(toggle) => match self.find_auto_row(toggle) {
                Some(at) => Some(self.autos[at].on),
                None => None,
            },
        }
    }

    /// The place of the first row of `toggle` that is on, from position `from`
    /// on.
    pub open spec fn on_row(self, toggle: AutoToggle, from: int) -> Option<int>
        decreases self.autos@.len() - from,
    {
        if from < 0 || from >= self.autos@.len() {
            None
        } else if self.autos@[from].toggle == toggle && self.autos@[from].on {
            Some(from)
        } else {
            self.on_row(toggle, from + 1)
        }
    }

    /// The place of the row that loses `control` when its slider is grabbed:
    /// the first of the mode that owns it which is on.
    pub open spec fn takeover(self, control: CameraControl) -> Option<int> {
        match control.owner() {
            Some(toggle) => self.on_row(toggle, 0),
            None => None,
        }
    }

    /// What a grabbed slider turns off.
    pub open spec fn released_autos(self, control: CameraControl) -> Seq<AutoSetting> {
        if self.takeover(control) is Some {
            seq![AutoSetting { toggle: control.owner()->0, on: false }]
        } else {
            seq![]
        }
    }

    pub(crate) fn find_takeover(&self, control: CameraControl) -> (found: Option<usize>)
        ensures
            match found {
                Some(at) => self.takeover(control) == Some(at as int) && at < self.autos@.len(),
                None => self.takeover(control) is None,
            },
    {
        let toggle = match control.auto_toggle() {
            Some(toggle) => toggle,
            None => {
                return None;
            },
        };
        let mut i: usize = 0;
        while i < self.autos.len()
            invariant
                i <= self.autos@.len(),
                control.owner() == Some(toggle),
                self.on_row(toggle, 0) == self.on_row(toggle, i as int),
            decreases self.autos@.len() - i,
        {
            if self.autos[i].toggle == toggle && self.autos[i].on {
                return Some(i);
            }
            i += 1;
        }
        None
    }

    /// A slider was moved to `value`; the camera is not told before it is let
    /// go.
    pub fn move_slider(&mut self, ix: usize, value: i32)
        ensures
            final(self).sliders@ == if ix < old(self).sliders@.len() {
                old(self).sliders@.update(
                    ix as int,
                    ControlSlider { value, ..old(self).sliders@[ix as int] },
                )
            } else {
                old(self).sliders@
            },
            *final(self) == (CameraControlsPanel { sliders: final(self).sliders, ..*old(self) }),
    {
        if ix < self.sliders.len() {
            let mut slider = self.sliders[ix];
            slider.value = value;
            self.sliders.set(ix, slider);
        }
    }

    /// What is written when a slider is let go at `value`. Grabbing the slider
    /// of a control that a mode owns takes it over: the mode goes off first,
    /// since the camera refuses values that a mode owns.
    pub fn commit_release(&self, control: CameraControl, value: i32) -> (write: DeviceWrite)
        ensures
            write.autos@ == self.released_autos(control),
            write.values@ == seq![ControlSetting { control, value }],
    {
        let mut autos: Vec<AutoSetting> = Vec::new();
        if let (Some(_), Some(toggle)) = (self.find_takeover(control), control.auto_toggle()) {
            autos.push(AutoSetting { toggle, on: false });
        }
        let mut values: Vec<ControlSetting> = Vec::new();
        values.push(ControlSetting { control, value });
        DeviceWrite { autos, values }
    }

    /// The place of the first slider whose control `toggle` owns, from position
    /// `from` on.
    pub open spec fn owned_slider(self, toggle: AutoToggle, from: int) -> Option<int>
        decreases self.sliders@.len() - from,
    {
        if from < 0 || from >= self.sliders@.len() {
            None
        } else if self.sliders@[from].control.owner() == Some(toggle) {
            Some(from)
        } else {
            self.owned_slider(toggle, from + 1)
        }
    }

    fn find_owned_slider(&self, toggle: AutoToggle) -> (found: Option<usize>)
        ensures
            match found {
                Some(at) => self.owned_slider(toggle, 0) == Some(at as int) && at
                    < self.sliders@.len(),
                None => self.owned_slider(toggle, 0) is None,
            },
    {
        let mut i: usize = 0;
        while i < self.sliders.len()
            invariant
                i <= self.sliders@.len(),
                self.owned_slider(toggle, 0) == self.owned_slider(toggle, i as int),
            decreases self.sliders@.len() - i,
        {
            if let Some(owner) = self.sliders[i].control.auto_toggle() {
                if owner == toggle {
                    return Some(i);
                }
            }
            i += 1;
        }
        None
    }

    /// What is written when a mode is flipped. Turning it off asserts the value
    /// that the slider shows, so that the camera ends where the panel is.
    pub fn toggle_auto(&self, ix: usize) -> (write: Option<DeviceWrite>)
        ensures
            write is Some == (self.key is Some && self.uid is Some && ix < self.autos@.len()),
            write matches Some(write) ==> {
                let row = self.autos@[ix as int];
                &&& write.autos@ == seq![AutoSetting { toggle: row.toggle, on: !row.on }]
                &&& write.values@ == match self.owned_slider(row.toggle, 0) {
                    Some(at) if row.on => seq![
                        ControlSetting {
                            control: self.sliders@[at].control,
                            value: self.sliders@[at].value,
                        },
                    ],
                    _ => seq![],
                }
            },
    {
        if self.key.is_none() || self.uid.is_none() || ix >= self.autos.len() {
            return None;
        }
        let row = self.autos[ix];
        let mut autos: Vec<AutoSetting> = Vec::new();
        autos.push(AutoSetting { toggle: row.toggle, on: !row.on });
        let mut values: Vec<ControlSetting> = Vec::new();
        if row.on {
            if let Some(at) = self.find_owned_slider(row.toggle) {
                values.push(
                    ControlSetting {
                        control: self.sliders[at].control,
                        value: self.sliders[at].value,
                    },
                );
            }
        }
        Some(DeviceWrite { autos, values })
    }

    /// The defaults of all modes.
    pub open spec fn default_autos(self) -> Seq<AutoSetting> {
        self.autos@.map_values(
            |row: AutoRow| AutoSetting { toggle: row.toggle, on: row.default },
        )
    }

    /// The defaults of all controls.
    pub open spec fn default_values(self) -> Seq<ControlSetting> {
        self.sliders@.map_values(
            |slider: ControlSlider|
                ControlSetting { control: slider.control, value: slider.range.default },
        )
    }

    fn reset_autos(&self) -> (autos: Vec<AutoSetting>)
        ensures
            autos@ == self.default_autos(),
    {
        let mut autos: Vec<AutoSetting> = Vec::new();
        let mut i: usize = 0;
        while i < self.autos.len()
            invariant
                i <= self.autos@.len(),
                autos@ =~= self.default_autos().take(i as int),
            decreases self.autos@.len() - i,
        {
            let row = self.autos[i];
            autos.push(AutoSetting { toggle: row.toggle, on: row.default });
            i += 1;
        }
        assert(self.default_autos().take(i as int) =~= self.default_autos());
        autos
    }

    /// What is written to put everything back to the camera's defaults, at
    /// once: all of it is saved or none.
    pub fn reset(&self) -> (write: Option<DeviceWrite>)
        ensures
            write is Some == (self.key is Some && self.uid is Some),
            write matches Some(write) ==> write.autos@ == self.default_autos() && write.values@
                == self.default_values(),
    {
        if self.key.is_none() || self.uid.is_none() {
            return None;
        }
        let mut values: Vec<ControlSetting> = Vec::new();
        let mut i: usize = 0;
        while i < self.sliders.len()
            invariant
                i <= self.sliders@.len(),
                values@ =~= self.default_values().take(i as int),
            decreases self.sliders@.len() - i,
        {
            let slider = self.sliders[i];
            values.push(
                ControlSetting { control: slider.control, value: slider.range.default },
            );
            i += 1;
        }
        assert(self.default_values().take(i as int) =~= self.default_values());
        Some(DeviceWrite { autos: self.reset_autos(), values })
    }

    /// What is written to put one control back to its default, with the mode
    /// that owns it.
    pub fn reset_control(&self, ix: usize) -> (write: Option<DeviceWrite>)
        ensures
            write is Some == (self.key is Some && self.uid is Some && ix < self.sliders@.len()),
            write matches Some(write) ==> {
                let slider = self.sliders@[ix as int];
                &&& write.values@ == seq![
                    ControlSetting { control: slider.control, value: slider.range.default },
                ]
                &&& write.autos@ == match slider.control.owner() {
                    None => seq![],
                    Some(toggle) => match self.auto_row(toggle, 0) {
                        Some(at) => seq![AutoSetting { toggle, on: self.autos@[at].default }],
                        None => seq![],
                    },
                }
            },
    {
        if self.key.is_none() || self.uid.is_none() || ix >= self.sliders.len() {
            return None;
        }
        let slider = self.sliders[ix];
        let mut autos: Vec<AutoSetting> = Vec::new();
        if let Some(toggle) = slider.control.auto_toggle() {
            if let Some(at) = self.find_auto_row(toggle) {
                autos.push(AutoSetting { toggle, on: self.autos[at].default });
            }
        }
        let mut values: Vec<ControlSetting> = Vec::new();
        values.push(ControlSetting { control: slider.control, value: slider.range.default });
        Some(DeviceWrite { autos, values })
    }
}

/// What is built from settings that the camera refused is what the camera
/// itself reports, wherever it reports it.
pub proof fn refused_settings_are_not_shown(
    panel: CameraControlsPanel,
    state: CameraState,
    saved: CameraControls,
    live: CameraState,
    i: int,
)
    requires
        rows_show(panel, state, saved, Reapplied::Live(live)),
        0 <= i < panel.sliders@.len(),
        control_at(live.controls@, panel.sliders@[i].control, 0) is Some,
    ensures
        panel.sliders@[i].value == live.controls@[control_at(
            live.controls@,
            panel.sliders@[i].control,
            0,
        )->0].range.current,
{
}

/// A value that is written while the panel is built lies in its control's range.
pub proof fn built_values_are_in_range(state: CameraState, saved: CameraControls, upto: int, i: int)
    requires
        state.valid(),
        0 <= upto <= state.controls@.len(),
        0 <= i < changed_values(state, saved, upto).len(),
    ensures
        exists|k: int|
            0 <= k < upto && (#[trigger] state.controls@[k]).control == changed_values(
                state,
                saved,
                upto,
            )[i].control && state.controls@[k].range.min <= changed_values(state, saved, upto)[i].value
                <= state.controls@[k].range.max && !owned(
                state.autos@,
                saved,
                state.controls@[k].control,
            ),
    decreases upto,
{
    let rest = changed_values(state, saved, upto - 1);
    let reading = state.controls@[upto - 1];
    if i < rest.len() {
        built_values_are_in_range(state, saved, upto - 1, i);
        let k = choose|k: int|
            0 <= k < upto - 1 && (#[trigger] state.controls@[k]).control == rest[i].control
                && state.controls@[k].range.min <= rest[i].value <= state.controls@[k].range.max
                && !owned(state.autos@, saved, state.controls@[k].control);
        assert(state.controls@[k].control == changed_values(state, saved, upto)[i].control);
    } else {
        assert(reading.range.valid());
        assert(reading.control == changed_values(state, saved, upto)[i].control);
    }
}

} // verus!
