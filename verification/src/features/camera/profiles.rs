//! Camera profiles, and what becomes of a write to the camera.

use crate::features::camera::controls::{
    AutoRow, AutoSetting, CameraControlsPanel, CameraSettings, ControlSetting, ControlSlider,
    DeviceWrite,
};
use crate::features::camera::device::{AutoToggle, CameraControl, CameraControls};
use crate::table::{key_at, map_of, Table};
use crate::text::{
    decimal, digits_are_read_back, owned_view, push_decimal, push_text, same_text,
};
use vstd::prelude::*;

verus! {

/// A profile that every camera has.
#[derive(Debug, Clone, Copy, PartialEq, Eq, Structural)]
pub enum BuiltinProfile {
    Default,
    Streaming,
    VideoCall,
}

impl BuiltinProfile {
    /// The id that a profile is remembered by.
    pub open spec fn name(self) -> Seq<char> {
        match self {
            BuiltinProfile::Default => "default"@,
            BuiltinProfile::Streaming => "streaming"@,
            BuiltinProfile::VideoCall => "video_call"@,
        }
    }

    /// The id that a profile is remembered by.
    pub fn id(self) -> (id: &'static str)
        ensures
            id@ == self.name(),
    {
        match self {
            BuiltinProfile::Default => "default",
            BuiltinProfile::Streaming => "streaming",
            BuiltinProfile::VideoCall => "video_call",
        }
    }

    /// The message that names a profile.
    pub fn builtin_label(self) -> (key: &'static str)
        ensures
            key@ == match self {
                BuiltinProfile::Default => "common.default"@,
                BuiltinProfile::Streaming => "camera.streaming"@,
                BuiltinProfile::VideoCall => "camera.video_call"@,
            },
    {
        match self {
            BuiltinProfile::Default => "common.default",
            BuiltinProfile::Streaming => "camera.streaming",
            BuiltinProfile::VideoCall => "camera.video_call",
        }
    }

    /// The profile with this id.
    pub fn find(id: &str) -> (found: Option<BuiltinProfile>)
        ensures
            match found {
                Some(profile) => profile.name() == id@,
                None => forall|profile: BuiltinProfile|
                    #![trigger profile.name()]
                    profile.name() != id@,
            },
    {
        if same_text(id, "default") {
            Some(BuiltinProfile::Default)
        } else if same_text(id, "streaming") {
            Some(BuiltinProfile::Streaming)
        } else if same_text(id, "video_call") {
            Some(BuiltinProfile::VideoCall)
        } else {
            None
        }
    }

    /// Where a profile puts a control, in hundredths of the control's range.
    pub open spec fn percent(self, control: CameraControl) -> Option<int> {
        match (self, control) {
            (BuiltinProfile::Streaming, CameraControl::Brightness) => Some(50),
            (BuiltinProfile::Streaming, CameraControl::Contrast) => Some(58),
            (BuiltinProfile::Streaming, CameraControl::Saturation) => Some(62),
            (BuiltinProfile::Streaming, CameraControl::Sharpness) => Some(60),
            (BuiltinProfile::VideoCall, CameraControl::Brightness) => Some(55),
            (BuiltinProfile::VideoCall, CameraControl::Contrast) => Some(52),
            (BuiltinProfile::VideoCall, CameraControl::Saturation) => Some(55),
            (BuiltinProfile::VideoCall, CameraControl::Sharpness) => Some(48),
            _ => None,
        }
    }

    fn target_percent(self, control: CameraControl) -> (percent: Option<i64>)
        ensures
            match percent {
                Some(percent) => self.percent(control) == Some(percent as int) && 0 <= percent
                    <= 100,
                None => self.percent(control) is None,
            },
    {
        match (self, control) {
            (BuiltinProfile::Streaming, CameraControl::Brightness) => Some(50),
            (BuiltinProfile::Streaming, CameraControl::Contrast) => Some(58),
            (BuiltinProfile::Streaming, CameraControl::Saturation) => Some(62),
            (BuiltinProfile::Streaming, CameraControl::Sharpness) => Some(60),
            (BuiltinProfile::VideoCall, CameraControl::Brightness) => Some(55),
            (BuiltinProfile::VideoCall, CameraControl::Contrast) => Some(52),
            (BuiltinProfile::VideoCall, CameraControl::Saturation) => Some(55),
            (BuiltinProfile::VideoCall, CameraControl::Sharpness) => Some(48),
            _ => None,
        }
    }

    /// The value that a profile gives a control: its share of the range,
    /// rounded to the nearest; else the default, but the mains frequency and
    /// the low-light compensation stay as they are, except in the default
    /// profile.
    pub open spec fn target(self, slider: ControlSlider) -> int {
        slider.range.clamped(
            match self.percent(slider.control) {
                Some(percent) => slider.range.min + ((slider.range.max - slider.range.min)
                    * percent + 50) / 100,
                None => if self != BuiltinProfile::Default && (slider.control
                    == CameraControl::PowerLineFrequency || slider.control
                    == CameraControl::LowLightCompensation) {
                    slider.value as int
                } else {
                    slider.range.default as int
                },
            },
        )
    }

    fn target_value(self, slider: ControlSlider) -> (value: i32)
        requires
            slider.range.valid(),
        ensures
            value == self.target(slider),
    {
        let wanted: i64 = match self.target_percent(slider.control) {
            Some(percent) => {
                let span: i64 = slider.range.max as i64 - slider.range.min as i64;
                assert(0 <= span * percent <= span * 100) by (nonlinear_arith)
                    requires
                        0 <= span,
                        0 <= percent <= 100,
                ;
                slider.range.min as i64 + (span * percent + 50) / 100
            },
            None => {
                let kept = slider.control == CameraControl::PowerLineFrequency || slider.control
                    == CameraControl::LowLightCompensation;
                if self != BuiltinProfile::Default && kept {
                    slider.value as i64
                } else {
                    slider.range.default as i64
                }
            },
        };
        slider.range.clamp(wanted)
    }

    /// Whether a profile turns a mode on: all of them, but the default profile
    /// puts each back to the camera's default.
    pub open spec fn engages(self, row: AutoRow) -> bool {
        self != BuiltinProfile::Default || row.default
    }
}

/// The modes as a built-in profile sets them.
pub open spec fn builtin_autos(
    profile: BuiltinProfile,
    panel: CameraControlsPanel,
) -> Seq<AutoSetting> {
    panel.autos@.map_values(
        |row: AutoRow| AutoSetting { toggle: row.toggle, on: profile.engages(row) },
    )
}

/// The controls as a built-in profile sets them.
pub open spec fn builtin_values(
    profile: BuiltinProfile,
    panel: CameraControlsPanel,
) -> Seq<ControlSetting> {
    panel.sliders@.map_values(
        |slider: ControlSlider|
            ControlSetting { control: slider.control, value: profile.target(slider) as i32 },
    )
}

/// Whether a saved profile turns a mode on; a mode that it does not record
/// stays as it is.
pub open spec fn recorded_on(snap: CameraControls, row: AutoRow) -> bool {
    match snap.saved_auto(row.toggle) {
        Some(on) => on,
        None => row.on,
    }
}

/// The modes as a saved profile sets them.
pub open spec fn custom_autos(snap: CameraControls, panel: CameraControlsPanel) -> Seq<AutoSetting> {
    panel.autos@.map_values(
        |row: AutoRow| AutoSetting { toggle: row.toggle, on: recorded_on(snap, row) },
    )
}

/// The controls among the first `upto` as a saved profile sets them: those that
/// it records, within their range.
pub open spec fn custom_values(
    snap: CameraControls,
    panel: CameraControlsPanel,
    upto: int,
) -> Seq<ControlSetting>
    decreases upto,
{
    if upto <= 0 {
        seq![]
    } else {
        let rest = custom_values(snap, panel, upto - 1);
        let slider = panel.sliders@[upto - 1];
        match snap.saved(slider.control) {
            Some(value) => rest.push(
                ControlSetting {
                    control: slider.control,
                    value: slider.range.clamped(value as int) as i32,
                },
            ),
            None => rest,
        }
    }
}

/// The last value for `toggle` among the first `upto` settings.
pub open spec fn last_auto(autos: Seq<AutoSetting>, toggle: AutoToggle, upto: int) -> Option<bool>
    decreases upto,
{
    if upto <= 0 {
        None
    } else if autos[upto - 1].toggle == toggle {
        Some(autos[upto - 1].on)
    } else {
        last_auto(autos, toggle, upto - 1)
    }
}

/// The last value for `control` among the first `upto` settings.
pub open spec fn last_value(
    values: Seq<ControlSetting>,
    control: CameraControl,
    upto: int,
) -> Option<i32>
    decreases upto,
{
    if upto <= 0 {
        None
    } else if values[upto - 1].control == control {
        Some(values[upto - 1].value)
    } else {
        last_value(values, control, upto - 1)
    }
}

/// The place of the first slider of `control`, from position `from` on.
pub open spec fn slider_at(
    sliders: Seq<ControlSlider>,
    control: CameraControl,
    from: int,
) -> Option<int>
    decreases sliders.len() - from,
{
    if from < 0 || from >= sliders.len() {
        None
    } else if sliders[from].control == control {
        Some(from)
    } else {
        slider_at(sliders, control, from + 1)
    }
}

/// A row after a write: the first row of a mode shows what was written.
pub open spec fn row_after(
    panel: CameraControlsPanel,
    autos: Seq<AutoSetting>,
    upto: int,
    i: int,
) -> AutoRow {
    let row = panel.autos@[i];
    match last_auto(autos, row.toggle, upto) {
        Some(on) if panel.auto_row(row.toggle, 0) == Some(i) => AutoRow { on, ..row },
        _ => row,
    }
}

/// A slider after a write: the first slider of a control shows what was written.
pub open spec fn slider_after(
    panel: CameraControlsPanel,
    values: Seq<ControlSetting>,
    upto: int,
    i: int,
) -> ControlSlider {
    let slider = panel.sliders@[i];
    match last_value(values, slider.control, upto) {
        Some(value) if slider_at(panel.sliders@, slider.control, 0) == Some(i) => ControlSlider {
            value,
            ..slider
        },
        _ => slider,
    }
}

/// Whether `after` is the panel after a write.
pub open spec fn rows_after(
    before: CameraControlsPanel,
    after: CameraControlsPanel,
    write: DeviceWrite,
) -> bool {
    &&& after.key == before.key
    &&& after.uid == before.uid
    &&& after.autos@.len() == before.autos@.len()
    &&& forall|i: int|
        #![trigger after.autos@[i]]
        0 <= i < after.autos@.len() ==> after.autos@[i] == row_after(
            before,
            write.autos@,
            write.autos@.len() as int,
            i,
        )
    &&& after.sliders@.len() == before.sliders@.len()
    &&& forall|i: int|
        #![trigger after.sliders@[i]]
        0 <= i < after.sliders@.len() ==> after.sliders@[i] == slider_after(
            before,
            write.values@,
            write.values@.len() as int,
            i,
        )
}

/// Whether `after` holds what was saved before and what was written.
pub open spec fn saved_after(
    before: CameraControls,
    after: CameraControls,
    autos: Seq<AutoSetting>,
    values: Seq<ControlSetting>,
) -> bool {
    &&& forall|control: CameraControl| #[trigger]
        after.saved(control) == match last_value(values, control, values.len() as int) {
            Some(value) => Some(value),
            None => before.saved(control),
        }
    &&& forall|toggle: AutoToggle| #[trigger]
        after.saved_mode(toggle) == match last_auto(autos, toggle, autos.len() as int) {
            Some(on) => Some(
                if on {
                    1i32
                } else {
                    0i32
                },
            ),
            None => before.saved_mode(toggle),
        }
}

/// Whether `snap` holds what the panel shows.
pub open spec fn holds_rows(snap: CameraControls, panel: CameraControlsPanel) -> bool {
    &&& forall|control: CameraControl| #[trigger]
        snap.saved(control) == last_shown(panel.sliders@, control, panel.sliders@.len() as int)
    &&& forall|toggle: AutoToggle| #[trigger]
        snap.saved_mode(toggle) == last_mode(panel.autos@, toggle, panel.autos@.len() as int)
}

/// What the last of the first `upto` sliders of `control` shows.
pub open spec fn last_shown(
    sliders: Seq<ControlSlider>,
    control: CameraControl,
    upto: int,
) -> Option<i32>
    decreases upto,
{
    if upto <= 0 {
        None
    } else if sliders[upto - 1].control == control {
        Some(sliders[upto - 1].value)
    } else {
        last_shown(sliders, control, upto - 1)
    }
}

/// What the last of the first `upto` rows of `toggle` shows.
pub open spec fn last_mode(rows: Seq<AutoRow>, toggle: AutoToggle, upto: int) -> Option<i32>
    decreases upto,
{
    if upto <= 0 {
        None
    } else if rows[upto - 1].toggle == toggle {
        Some(
            if rows[upto - 1].on {
                1i32
            } else {
                0i32
            },
        )
    } else {
        last_mode(rows, toggle, upto - 1)
    }
}

proof fn rows_keep_their_places(
    a: CameraControlsPanel,
    b: CameraControlsPanel,
    toggle: AutoToggle,
    from: int,
)
    requires
        a.autos@.len() == b.autos@.len(),
        forall|i: int|
            #![trigger b.autos@[i]]
            0 <= i < a.autos@.len() ==> a.autos@[i].toggle == b.autos@[i].toggle,
    ensures
        a.auto_row(toggle, from) == b.auto_row(toggle, from),
    decreases a.autos@.len() - from,
{
    if 0 <= from < a.autos@.len() {
        assert(a.autos@[from].toggle == b.autos@[from].toggle);
        rows_keep_their_places(a, b, toggle, from + 1);
    }
}

proof fn sliders_keep_their_places(
    a: Seq<ControlSlider>,
    b: Seq<ControlSlider>,
    control: CameraControl,
    from: int,
)
    requires
        a.len() == b.len(),
        forall|i: int|
            #![trigger b[i]]
            0 <= i < a.len() ==> a[i].control == b[i].control,
    ensures
        slider_at(a, control, from) == slider_at(b, control, from),
    decreases a.len() - from,
{
    if 0 <= from < a.len() {
        assert(a[from].control == b[from].control);
        sliders_keep_their_places(a, b, control, from + 1);
    }
}

impl CameraControlsPanel {
    fn find_slider(&self, control: CameraControl) -> (found: Option<usize>)
        ensures
            match found {
                Some(at) => slider_at(self.sliders@, control, 0) == Some(at as int) && at
                    < self.sliders@.len() && self.sliders@[at as int].control == control,
                None => slider_at(self.sliders@, control, 0) is None,
            },
    {
        let mut i: usize = 0;
        while i < self.sliders.len()
            invariant
                i <= self.sliders@.len(),
                slider_at(self.sliders@, control, 0) == slider_at(
                    self.sliders@,
                    control,
                    i as int,
                ),
            decreases self.sliders@.len() - i,
        {
            if self.sliders[i].control == control {
                return Some(i);
            }
            i += 1;
        }
        None
    }

    fn show_autos(&mut self, autos: &Vec<AutoSetting>)
        ensures
            final(self).key == old(self).key,
            final(self).uid == old(self).uid,
            final(self).sliders == old(self).sliders,
            final(self).autos@.len() == old(self).autos@.len(),
            forall|i: int|
                #![trigger final(self).autos@[i]]
                0 <= i < final(self).autos@.len() ==> final(self).autos@[i] == row_after(
                    *old(self),
                    autos@,
                    autos@.len() as int,
                    i,
                ),
    {
        let mut k: usize = 0;
        while k < autos.len()
            invariant
                k <= autos@.len(),
                self.key == old(self).key,
                self.uid == old(self).uid,
                self.sliders == old(self).sliders,
                self.autos@.len() == old(self).autos@.len(),
                forall|i: int|
                    #![trigger self.autos@[i]]
                    0 <= i < self.autos@.len() ==> self.autos@[i] == row_after(
                        *old(self),
                        autos@,
                        k as int,
                        i,
                    ),
            decreases autos@.len() - k,
        {
            let setting = autos[k];
            let ghost before = *self;
            let found = self.find_auto_row(setting.toggle);
            proof {
                rows_keep_their_places(*old(self), before, setting.toggle, 0);
            }
            if let Some(at) = found {
                let mut row = self.autos[at];
                row.on = setting.on;
                self.autos.set(at, row);
            }
            assert forall|i: int|
                #![trigger self.autos@[i]]
                0 <= i < self.autos@.len() implies self.autos@[i] == row_after(
                *old(self),
                autos@,
                k + 1,
                i,
            ) by {
                assert(before.autos@[i] == row_after(*old(self), autos@, k as int, i));
            }
            k += 1;
        }
    }

    fn show_values(&mut self, values: &Vec<ControlSetting>)
        ensures
            final(self).key == old(self).key,
            final(self).uid == old(self).uid,
            final(self).autos == old(self).autos,
            final(self).sliders@.len() == old(self).sliders@.len(),
            forall|i: int|
                #![trigger final(self).sliders@[i]]
                0 <= i < final(self).sliders@.len() ==> final(self).sliders@[i] == slider_after(
                    *old(self),
                    values@,
                    values@.len() as int,
                    i,
                ),
    {
        let mut k: usize = 0;
        while k < values.len()
            invariant
                k <= values@.len(),
                self.key == old(self).key,
                self.uid == old(self).uid,
                self.autos == old(self).autos,
                self.sliders@.len() == old(self).sliders@.len(),
                forall|i: int|
                    #![trigger self.sliders@[i]]
                    0 <= i < self.sliders@.len() ==> self.sliders@[i] == slider_after(
                        *old(self),
                        values@,
                        k as int,
                        i,
                    ),
            decreases values@.len() - k,
        {
            let setting = values[k];
            let ghost before = *self;
            let found = self.find_slider(setting.control);
            proof {
                sliders_keep_their_places(old(self).sliders@, before.sliders@, setting.control, 0);
            }
            if let Some(at) = found {
                let mut slider = self.sliders[at];
                slider.value = setting.value;
                self.sliders.set(at, slider);
            }
            assert forall|i: int|
                #![trigger self.sliders@[i]]
                0 <= i < self.sliders@.len() implies self.sliders@[i] == slider_after(
                *old(self),
                values@,
                k + 1,
                i,
            ) by {
                assert(before.sliders@[i] == slider_after(*old(self), values@, k as int, i));
            }
            k += 1;
        }
    }

    /// What the panel shows, as a profile.
    pub fn snapshot(&self) -> (snap: CameraControls)
        ensures
            holds_rows(snap, *self),
    {
        let mut snap = CameraControls::new();
        let mut i: usize = 0;
        while i < self.sliders.len()
            invariant
                i <= self.sliders@.len(),
                forall|control: CameraControl| #[trigger]
                    snap.saved(control) == last_shown(self.sliders@, control, i as int),
                forall|toggle: AutoToggle| (#[trigger] snap.saved_mode(toggle)) is None,
            decreases self.sliders@.len() - i,
        {
            snap.set_value(self.sliders[i].control, self.sliders[i].value);
            i += 1;
        }
        let mut k: usize = 0;
        while k < self.autos.len()
            invariant
                k <= self.autos@.len(),
                forall|control: CameraControl| #[trigger]
                    snap.saved(control) == last_shown(
                        self.sliders@,
                        control,
                        self.sliders@.len() as int,
                    ),
                forall|toggle: AutoToggle| #[trigger]
                    snap.saved_mode(toggle) == last_mode(self.autos@, toggle, k as int),
            decreases self.autos@.len() - k,
        {
            snap.set_auto(self.autos[k].toggle, self.autos[k].on);
            k += 1;
        }
        snap
    }

    /// What is written to apply a profile: a built-in one, else a saved one
    /// with this name.
    pub fn apply_profile(&self, id: &str, settings: &CameraSettings) -> (write: Option<DeviceWrite>)
        requires
            self.valid(),
        ensures
            write is Some ==> self.key is Some && self.uid is Some,
            self.key is Some && self.uid is Some ==> match write {
                None => !settings.profiles@.contains_key(id@) && forall|profile: BuiltinProfile|
                    (#[trigger] profile.name()) != id@,
                Some(write) => {
                    ||| exists|profile: BuiltinProfile|
                        (#[trigger] profile.name()) == id@ && write.autos@ == builtin_autos(
                            profile,
                            *self,
                        ) && write.values@ == builtin_values(profile, *self)
                    ||| (forall|profile: BuiltinProfile| (#[trigger] profile.name()) != id@)
                        && settings.profiles@.contains_key(id@) && write.autos@ == custom_autos(
                        settings.profiles@[id@],
                        *self,
                    ) && write.values@ == custom_values(
                        settings.profiles@[id@],
                        *self,
                        self.sliders@.len() as int,
                    )
                },
            },
    {
        if self.key.is_none() || self.uid.is_none() {
            return None;
        }
        match BuiltinProfile::find(id) {
            Some(profile) => Some(self.builtin_write(profile)),
            None => match settings.profiles.get(id) {
                Some(snap) => Some(self.custom_write(snap)),
                None => None,
            },
        }
    }

    fn builtin_write(&self, profile: BuiltinProfile) -> (write: DeviceWrite)
        requires
            self.valid(),
        ensures
            write.autos@ == builtin_autos(profile, *self),
            write.values@ == builtin_values(profile, *self),
    {
        let mut autos: Vec<AutoSetting> = Vec::new();
        let mut i: usize = 0;
        while i < self.autos.len()
            invariant
                i <= self.autos@.len(),
                autos@ =~= builtin_autos(profile, *self).take(i as int),
            decreases self.autos@.len() - i,
        {
            let row = self.autos[i];
            let on = profile != BuiltinProfile::Default || row.default;
            autos.push(AutoSetting { toggle: row.toggle, on });
            i += 1;
        }
        let mut values: Vec<ControlSetting> = Vec::new();
        let mut k: usize = 0;
        while k < self.sliders.len()
            invariant
                k <= self.sliders@.len(),
                self.valid(),
                values@ =~= builtin_values(profile, *self).take(k as int),
            decreases self.sliders@.len() - k,
        {
            assert(self.sliders@[k as int].range.valid());
            let slider = self.sliders[k];
            values.push(
                ControlSetting { control: slider.control, value: profile.target_value(slider) },
            );
            k += 1;
        }
        assert(builtin_autos(profile, *self).take(i as int) =~= builtin_autos(profile, *self));
        assert(builtin_values(profile, *self).take(k as int) =~= builtin_values(profile, *self));
        DeviceWrite { autos, values }
    }

    fn custom_write(&self, snap: &CameraControls) -> (write: DeviceWrite)
        requires
            self.valid(),
        ensures
            write.autos@ == custom_autos(*snap, *self),
            write.values@ == custom_values(*snap, *self, self.sliders@.len() as int),
    {
        let mut autos: Vec<AutoSetting> = Vec::new();
        let mut i: usize = 0;
        while i < self.autos.len()
            invariant
                i <= self.autos@.len(),
                autos@ =~= custom_autos(*snap, *self).take(i as int),
            decreases self.autos@.len() - i,
        {
            let row = self.autos[i];
            let on = match snap.auto(row.toggle) {
                Some(on) => on,
                None => row.on,
            };
            autos.push(AutoSetting { toggle: row.toggle, on });
            i += 1;
        }
        let mut values: Vec<ControlSetting> = Vec::new();
        let mut k: usize = 0;
        while k < self.sliders.len()
            invariant
                k <= self.sliders@.len(),
                self.valid(),
                values@ == custom_values(*snap, *self, k as int),
            decreases self.sliders@.len() - k,
        {
            assert(self.sliders@[k as int].range.valid());
            let slider = self.sliders[k];
            if let Some(value) = snap.value(slider.control) {
                values.push(
                    ControlSetting {
                        control: slider.control,
                        value: slider.range.clamp(value as i64),
                    },
                );
            }
            k += 1;
        }
        assert(custom_autos(*snap, *self).take(i as int) =~= custom_autos(*snap, *self));
        DeviceWrite { autos, values }
    }

    /// A write to the camera failed, and may have landed in part: the rows are
    /// built anew before they are used again, and no profile counts as active,
    /// so that a later change cannot overwrite a saved profile with what the
    /// camera fell back to.
    pub fn resync_after_failed_write(&mut self, settings: &mut CameraSettings)
        ensures
            resynced(*old(self), *final(self), *old(settings), *final(settings)),
    {
        self.uid = None;
        if self.key.is_some() {
            settings.active_profile = None;
        }
        self.key = None;
    }

    /// Ends a write of many settings to the camera. Of one that was taken, the
    /// rows show it and it is saved; then either `profile` is the active one, or
    /// the active profile, if it is a saved one, follows what the panel shows.
    pub fn finish_write(
        &mut self,
        settings: &mut CameraSettings,
        write: DeviceWrite,
        written: bool,
        profile: Option<&str>,
    )
        ensures
            if old(self).key is None || old(self).uid is None {
                *final(self) == *old(self) && *final(settings) == *old(settings)
            } else if !written {
                resynced(*old(self), *final(self), *old(settings), *final(settings))
            } else {
                &&& rows_after(*old(self), *final(self), write)
                &&& saved_after(
                    old(settings).saved,
                    final(settings).saved,
                    write.autos@,
                    write.values@,
                )
                &&& match profile {
                    Some(id) => owned_view(final(settings).active_profile) == Some(id@)
                        && final(settings).profiles == old(settings).profiles,
                    None => follows(*final(self), *old(settings), *final(settings)),
                }
            },
    {
        if self.key.is_none() || self.uid.is_none() {
            return;
        }
        if !written {
            self.resync_after_failed_write(settings);
            return;
        }
        self.show_autos(&write.autos);
        self.show_values(&write.values);
        save_write(&mut settings.saved, &write);
        match profile {
            Some(id) => {
                settings.active_profile = Some(id.to_owned());
            },
            None => {
                self.sync_active_custom(settings);
            },
        }
    }

    /// Ends the write of a slider that was let go at `value`. The row of the
    /// mode that lost the control shows that it is off.
    pub fn finish_release(
        &mut self,
        settings: &mut CameraSettings,
        control: CameraControl,
        value: i32,
        written: bool,
    )
        ensures
            !written ==> resynced(*old(self), *final(self), *old(settings), *final(settings)),
            written ==> {
                &&& *final(self) == (CameraControlsPanel {
                    autos: final(self).autos,
                    ..*old(self)
                })
                &&& final(self).autos@ == match old(self).takeover(control) {
                    Some(at) => old(self).autos@.update(
                        at,
                        AutoRow { on: false, ..old(self).autos@[at] },
                    ),
                    None => old(self).autos@,
                }
                &&& saved_after(
                    old(settings).saved,
                    final(settings).saved,
                    old(self).released_autos(control),
                    seq![ControlSetting { control, value }],
                )
                &&& follows(*final(self), *old(settings), *final(settings))
            },
    {
        if !written {
            self.resync_after_failed_write(settings);
            return;
        }
        let write = self.commit_release(control, value);
        if let Some(at) = self.find_takeover(control) {
            let mut row = self.autos[at];
            row.on = false;
            self.autos.set(at, row);
        }
        save_write(&mut settings.saved, &write);
        self.sync_active_custom(settings);
    }

    /// Ends the write of a flipped mode. Its row shows it, and the mode alone is
    /// saved: the value that was asserted with it was not changed by the user.
    pub fn finish_toggle(&mut self, settings: &mut CameraSettings, ix: usize, written: bool)
        ensures
            if old(self).key is None || old(self).uid is None || ix >= old(self).autos@.len() {
                *final(self) == *old(self) && *final(settings) == *old(settings)
            } else if !written {
                resynced(*old(self), *final(self), *old(settings), *final(settings))
            } else {
                let row = old(self).autos@[ix as int];
                &&& *final(self) == (CameraControlsPanel {
                    autos: final(self).autos,
                    ..*old(self)
                })
                &&& final(self).autos@ == old(self).autos@.update(
                    ix as int,
                    AutoRow { on: !row.on, ..row },
                )
                &&& saved_after(
                    old(settings).saved,
                    final(settings).saved,
                    seq![AutoSetting { toggle: row.toggle, on: !row.on }],
                    seq![],
                )
                &&& follows(*final(self), *old(settings), *final(settings))
            },
    {
        if self.key.is_none() || self.uid.is_none() || ix >= self.autos.len() {
            return;
        }
        if !written {
            self.resync_after_failed_write(settings);
            return;
        }
        let mut row = self.autos[ix];
        row.on = !row.on;
        self.autos.set(ix, row);
        let mut autos: Vec<AutoSetting> = Vec::new();
        autos.push(AutoSetting { toggle: row.toggle, on: row.on });
        let write = DeviceWrite { autos, values: Vec::new() };
        save_write(&mut settings.saved, &write);
        self.sync_active_custom(settings);
    }

    /// Ends the write that put one control back to its default.
    pub fn finish_reset_control(
        &mut self,
        settings: &mut CameraSettings,
        ix: usize,
        written: bool,
    )
        ensures
            if old(self).key is None || old(self).uid is None || ix >= old(self).sliders@.len() {
                *final(self) == *old(self) && *final(settings) == *old(settings)
            } else if !written {
                resynced(*old(self), *final(self), *old(settings), *final(settings))
            } else {
                let slider = old(self).sliders@[ix as int];
                let at = match slider.control.owner() {
                    Some(toggle) => old(self).auto_row(toggle, 0),
                    None => None,
                };
                &&& final(self).key == old(self).key
                &&& final(self).uid == old(self).uid
                &&& final(self).sliders@ == old(self).sliders@.update(
                    ix as int,
                    ControlSlider { value: slider.range.default, ..slider },
                )
                &&& final(self).autos@ == match at {
                    Some(at) => old(self).autos@.update(
                        at,
                        AutoRow { on: old(self).autos@[at].default, ..old(self).autos@[at] },
                    ),
                    None => old(self).autos@,
                }
                &&& saved_after(
                    old(settings).saved,
                    final(settings).saved,
                    match at {
                        Some(at) => seq![
                            AutoSetting {
                                toggle: slider.control.owner()->0,
                                on: old(self).autos@[at].default,
                            },
                        ],
                        None => seq![],
                    },
                    seq![ControlSetting { control: slider.control, value: slider.range.default }],
                )
                &&& follows(*final(self), *old(settings), *final(settings))
            },
    {
        let write = match self.reset_control(ix) {
            Some(write) => write,
            None => {
                return;
            },
        };
        if !written {
            self.resync_after_failed_write(settings);
            return;
        }
        let slider = self.sliders[ix];
        if let Some(toggle) = slider.control.auto_toggle() {
            if let Some(at) = self.find_auto_row(toggle) {
                let mut row = self.autos[at];
                row.on = row.default;
                self.autos.set(at, row);
            }
        }
        self.move_slider(ix, slider.range.default);
        save_write(&mut settings.saved, &write);
        self.sync_active_custom(settings);
    }

    fn sync_active_custom(&self, settings: &mut CameraSettings)
        ensures
            final(settings).saved == old(settings).saved,
            follows(*self, *old(settings), *final(settings)),
            self.key is None ==> final(settings).profiles == old(settings).profiles,
    {
        if self.key.is_none() {
            return;
        }
        let active = match &settings.active_profile {
            Some(active) => active.clone(),
            None => {
                return;
            },
        };
        if settings.profiles.contains_key(active.as_str()) {
            let snap = self.snapshot();
            settings.profiles.insert(active.as_str(), snap);
        }
    }
}

/// Whether a panel and the settings are what they are after a write that failed.
pub open spec fn resynced(
    before: CameraControlsPanel,
    after: CameraControlsPanel,
    settings: CameraSettings,
    kept: CameraSettings,
) -> bool {
    &&& after == (CameraControlsPanel { key: None, uid: None, ..before })
    &&& kept == (CameraSettings {
        active_profile: if before.key is Some {
            None
        } else {
            settings.active_profile
        },
        ..settings
    })
}

/// Whether the active profile, if it is a saved one, holds what the panel shows,
/// and no other profile changed. A panel without a camera edits none.
pub open spec fn follows(
    panel: CameraControlsPanel,
    before: CameraSettings,
    after: CameraSettings,
) -> bool {
    &&& after.active_profile == before.active_profile
    &&& followed(before.profiles@, after.profiles@, before.active_profile, panel)
}

/// Whether `after` are the profiles in which the active one, if it is saved,
/// holds what the panel shows.
pub open spec fn followed(
    before: Map<Seq<char>, CameraControls>,
    after: Map<Seq<char>, CameraControls>,
    active: Option<String>,
    panel: CameraControlsPanel,
) -> bool {
    match active {
        Some(active) if panel.key is Some && before.contains_key(active@) => after.contains_key(
            active@,
        ) && holds_rows(after[active@], panel) && after == before.insert(active@, after[active@]),
        _ => after == before,
    }
}

fn save_write(saved: &mut CameraControls, write: &DeviceWrite)
    ensures
        saved_after(*old(saved), *final(saved), write.autos@, write.values@),
{
    let mut i: usize = 0;
    while i < write.autos.len()
        invariant
            i <= write.autos@.len(),
            forall|control: CameraControl| #[trigger]
                saved.saved(control) == old(saved).saved(control),
            forall|toggle: AutoToggle| #[trigger]
                saved.saved_mode(toggle) == match last_auto(write.autos@, toggle, i as int) {
                    Some(on) => Some(
                        if on {
                            1i32
                        } else {
                            0i32
                        },
                    ),
                    None => old(saved).saved_mode(toggle),
                },
        decreases write.autos@.len() - i,
    {
        saved.set_auto(write.autos[i].toggle, write.autos[i].on);
        i += 1;
    }
    let mut k: usize = 0;
    while k < write.values.len()
        invariant
            k <= write.values@.len(),
            forall|control: CameraControl| #[trigger]
                saved.saved(control) == match last_value(write.values@, control, k as int) {
                    Some(value) => Some(value),
                    None => old(saved).saved(control),
                },
            forall|toggle: AutoToggle| #[trigger]
                saved.saved_mode(toggle) == match last_auto(
                    write.autos@,
                    toggle,
                    write.autos@.len() as int,
                ) {
                    Some(on) => Some(
                        if on {
                            1i32
                        } else {
                            0i32
                        },
                    ),
                    None => old(saved).saved_mode(toggle),
                },
        decreases write.values@.len() - k,
    {
        saved.set_value(write.values[k].control, write.values[k].value);
        k += 1;
    }
}

/// The name of the saved profile with this number, between the parts of its
/// message before and after the number.
pub open spec fn numbered_name(prefix: Seq<char>, number: int, suffix: Seq<char>) -> Seq<char> {
    prefix + decimal(number as nat) + suffix
}

proof fn numbers_name_apart(prefix: Seq<char>, a: int, b: int, suffix: Seq<char>)
    requires
        0 <= a,
        0 <= b,
        numbered_name(prefix, a, suffix) == numbered_name(prefix, b, suffix),
    ensures
        a == b,
{
    let x = numbered_name(prefix, a, suffix);
    let y = numbered_name(prefix, b, suffix);
    assert(decimal(a as nat) =~= x.subrange(prefix.len() as int, x.len() - suffix.len()));
    assert(decimal(b as nat) =~= y.subrange(prefix.len() as int, y.len() - suffix.len()));
    digits_are_read_back(a as nat, 10, 0);
    digits_are_read_back(b as nat, 10, 0);
}

spec fn some_place<V>(entries: Seq<(String, V)>, key: Seq<char>) -> int {
    choose|i: int| key_at(entries, key, i)
}

proof fn not_all_are_taken<V>(
    entries: Seq<(String, V)>,
    prefix: Seq<char>,
    from: int,
    suffix: Seq<char>,
)
    requires
        0 <= from,
        forall|n: int|
            from <= n <= from + entries.len() ==> #[trigger] map_of(entries).contains_key(
                numbered_name(prefix, n, suffix),
            ),
    ensures
        entries.len() < entries.len(),
{
    let count = (entries.len() + 1) as nat;
    let places = Seq::new(
        count,
        |k: int| some_place(entries, numbered_name(prefix, from + k, suffix)),
    );
    assert forall|k: int| 0 <= k < count implies key_at(
        entries,
        numbered_name(prefix, from + k, suffix),
        #[trigger] places[k],
    ) by {
        assert(map_of(entries).contains_key(numbered_name(prefix, from + k, suffix)));
    }
    assert(places.no_duplicates()) by {
        assert forall|i: int, j: int|
            0 <= i < places.len() && 0 <= j < places.len() && i != j implies places[i]
            != places[j] by {
            assert(key_at(entries, numbered_name(prefix, from + i, suffix), places[i]));
            assert(key_at(entries, numbered_name(prefix, from + j, suffix), places[j]));
            if places[i] == places[j] {
                numbers_name_apart(prefix, from + i, from + j, suffix);
            }
        }
    }
    let all = vstd::set_lib::set_int_range(0, entries.len() as int);
    vstd::set_lib::lemma_int_range(0, entries.len() as int);
    places.unique_seq_to_set();
    assert(places.to_set().subset_of(all)) by {
        assert forall|r: int| places.to_set().contains(r) implies all.contains(r) by {
            let k = choose|k: int| 0 <= k < places.len() && places[k] == r;
            assert(key_at(entries, numbered_name(prefix, from + k, suffix), places[k]));
        }
    }
    vstd::set_lib::lemma_len_subset(places.to_set(), all);
}

/// The name of a new profile: with the first number that is free, from one more
/// than there are profiles on.
pub fn new_profile_name(profiles: &Table<CameraControls>, prefix: &str, suffix: &str) -> (name:
    String)
    requires
        profiles.in_order().len() < u32::MAX,
    ensures
        !profiles@.contains_key(name@),
        exists|n: int|
            n > profiles.in_order().len() && name@ == numbered_name(prefix@, n, suffix@) && forall|
                m: int,
            |
                profiles.in_order().len() < m < n ==> profiles@.contains_key(
                    #[trigger] numbered_name(prefix@, m, suffix@),
                ),
{
    let count = profiles.len();
    let first: u64 = count as u64 + 1;
    let mut n: u64 = first;
    loop
        invariant
            count == profiles.in_order().len(),
            count < u32::MAX,
            first == count + 1,
            first <= n <= first + count,
            profiles@ == map_of(profiles.in_order()),
            forall|m: int|
                first <= m < n ==> profiles@.contains_key(
                    #[trigger] numbered_name(prefix@, m, suffix@),
                ),
        decreases first + count - n,
    {
        let mut name = prefix.to_owned();
        push_decimal(&mut name, n);
        push_text(&mut name, suffix);
        assert(name@ == numbered_name(prefix@, n as int, suffix@));
        if !profiles.contains_key(name.as_str()) {
            return name;
        }
        proof {
            if n == first + count {
                assert forall|m: int|
                    first <= m <= first + profiles.in_order().len() implies #[trigger] map_of(
                    profiles.in_order(),
                ).contains_key(numbered_name(prefix@, m, suffix@)) by {}
                not_all_are_taken(profiles.in_order(), prefix@, first as int, suffix@);
            }
        }
        n += 1;
    }
}

impl CameraSettings {
    /// Saves what the panel shows as a new profile, and makes it the active one.
    pub fn save_profile(&mut self, panel: &CameraControlsPanel, prefix: &str, suffix: &str) -> (name:
        Option<String>)
        requires
            old(self).profiles.in_order().len() < u32::MAX,
        ensures
            name is Some == panel.key is Some,
            name is None ==> *final(self) == *old(self),
            name matches Some(name) ==> {
                &&& !old(self).profiles@.contains_key(name@)
                &&& final(self).profiles@.contains_key(name@)
                &&& final(self).profiles@ == old(self).profiles@.insert(
                    name@,
                    final(self).profiles@[name@],
                )
                &&& holds_rows(final(self).profiles@[name@], *panel)
                &&& owned_view(final(self).active_profile) == Some(name@)
                &&& final(self).saved == old(self).saved
                &&& exists|n: int|
                    n > old(self).profiles.in_order().len() && name@ == numbered_name(
                        prefix@,
                        n,
                        suffix@,
                    ) && forall|m: int|
                        old(self).profiles.in_order().len() < m < n ==> old(
                            self).profiles@.contains_key(
                            #[trigger] numbered_name(prefix@, m, suffix@),
                        )
            },
    {
        if panel.key.is_none() {
            return None;
        }
        let name = new_profile_name(&self.profiles, prefix, suffix);
        let snap = panel.snapshot();
        self.profiles.insert(name.as_str(), snap);
        self.active_profile = Some(name.clone());
        Some(name)
    }

    /// Deletes a saved profile of the panel's camera. The camera stays as it is;
    /// only the snapshot goes, and with it the selection if it was this one.
    pub fn delete_profile(&mut self, panel: &CameraControlsPanel, name: &str)
        ensures
            if panel.key is None {
                *final(self) == *old(self)
            } else {
                &&& final(self).profiles@ == old(self).profiles@.remove(name@)
                &&& final(self).saved == old(self).saved
                &&& final(self).active_profile == if owned_view(old(self).active_profile) == Some(
                    name@,
                ) {
                    None
                } else {
                    old(self).active_profile
                }
            },
    {
        if panel.key.is_none() {
            return;
        }
        self.profiles.remove(name);
        let active = match &self.active_profile {
            Some(active) => same_text(active.as_str(), name),
            None => false,
        };
        if active {
            self.active_profile = None;
        }
    }
}

/// Every value that a profile writes lies in its control's range.
pub proof fn profiles_stay_in_range(profile: BuiltinProfile, panel: CameraControlsPanel, i: int)
    requires
        panel.valid(),
        0 <= i < panel.sliders@.len(),
    ensures
        panel.sliders@[i].range.min <= builtin_values(profile, panel)[i].value
            <= panel.sliders@[i].range.max,
{
    assert(panel.sliders@[i].range.valid());
}

/// Changing something edits at most the active saved profile.
pub proof fn only_the_active_profile_follows(
    before: Map<Seq<char>, CameraControls>,
    after: Map<Seq<char>, CameraControls>,
    active: Option<String>,
    panel: CameraControlsPanel,
    name: Seq<char>,
)
    requires
        followed(before, after, active, panel),
        owned_view(active) != Some(name),
    ensures
        after.contains_key(name) == before.contains_key(name),
        before.contains_key(name) ==> after[name] == before[name],
{
}

/// A profile that was just saved, applied to the panel that it was saved from,
/// writes what the panel shows, for controls that are there once with a value
/// in range.
pub proof fn a_saved_profile_is_applied_again(snap: CameraControls, panel: CameraControlsPanel, i: int)
    requires
        holds_rows(snap, panel),
        0 <= i < panel.sliders@.len(),
        forall|j: int|
            0 <= j < panel.sliders@.len() && j != i ==> (#[trigger] panel.sliders@[j]).control
                != panel.sliders@[i].control,
        panel.sliders@[i].range.min <= panel.sliders@[i].value <= panel.sliders@[i].range.max,
    ensures
        custom_values(snap, panel, i + 1).last() == (ControlSetting {
            control: panel.sliders@[i].control,
            value: panel.sliders@[i].value,
        }),
{
    shown_once(panel.sliders@, i, panel.sliders@.len() as int);
}

proof fn shown_once(sliders: Seq<ControlSlider>, i: int, upto: int)
    requires
        0 <= i < upto <= sliders.len(),
        forall|j: int|
            0 <= j < sliders.len() && j != i ==> (#[trigger] sliders[j]).control
                != sliders[i].control,
    ensures
        last_shown(sliders, sliders[i].control, upto) == Some(sliders[i].value),
    decreases upto,
{
    if upto - 1 > i {
        assert(sliders[upto - 1].control != sliders[i].control);
        shown_once(sliders, i, upto - 1);
    }
}

} // verus!
