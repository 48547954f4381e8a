//! What the camera panel shows of a camera, and what it keeps of a write.

use crate::device::DeviceKind;
use crate::features::camera::controls::{
    changed_autos, changed_values, plan_build, reapply_saved, AutoRow, AutoSetting,
    CameraControlsPanel, CameraSettings, ControlSetting, ControlSlider, DeviceWrite, Reapplied,
};
use crate::features::camera::device::{
    auto_at, control_at, AutoReading, AutoToggle, CameraControl, CameraControls, CameraState,
    ControlRange, ControlReading,
};
use crate::features::camera::laws::brought_into;
use crate::features::camera::profiles::{
    last_auto, last_value, new_profile_name, slider_at, BuiltinProfile,
};
use crate::features::camera::rows::{
    control_row, frequency_row, panel_body, profiles_row, section_indices,
    sections_hold_every_slider, switched, ControlRow, FrequencyChoice,
    PanelBody, ProfileChip,
};
use crate::state::AppState;
use crate::table::Table;
use vstd::prelude::*;

verus! {

/// The mode in which the camera sets a control itself.
pub open spec fn mode_of(control: CameraControl) -> Option<AutoToggle> {
    if control == CameraControl::Focus {
        Some(AutoToggle::Focus)
    } else if control == CameraControl::Exposure {
        Some(AutoToggle::Exposure)
    } else if control == CameraControl::WhiteBalance {
        Some(AutoToggle::WhiteBalance)
    } else {
        None
    }
}

/// Focus, exposure and white balance have a mode each, and nothing else has one.
pub proof fn three_controls_have_a_mode(control: CameraControl, toggle: Option<AutoToggle>)
    requires
        call_ensures(CameraControl::auto_toggle, (control,), toggle),
    ensures
        toggle == mode_of(control),
{
}

/// Each control has its name.
pub proof fn controls_have_their_names(control: CameraControl, key: &'static str)
    requires
        call_ensures(CameraControl::control_label, (control,), key),
    ensures
        control == CameraControl::Zoom ==> key@ == "common.zoom"@,
        control == CameraControl::Focus ==> key@ == "camera.focus"@,
        control == CameraControl::Exposure ==> key@ == "camera.exposure"@,
        control == CameraControl::PowerLineFrequency ==> key@ == "camera.anti_flicker"@,
        control == CameraControl::LowLightCompensation ==> key@
            == "camera.low_light_compensation"@,
        control == CameraControl::Brightness ==> key@ == "camera.brightness"@,
        control == CameraControl::Contrast ==> key@ == "camera.contrast"@,
        control == CameraControl::Saturation ==> key@ == "camera.saturation"@,
        control == CameraControl::Sharpness ==> key@ == "camera.sharpness"@,
        control == CameraControl::WhiteBalance ==> key@ == "camera.white_balance"@,
        control == CameraControl::Tint ==> key@ == "camera.tint"@,
{
}

/// A value is brought into a range by the nearest that the range holds.
pub proof fn a_range_holds_its_values(range: &ControlRange, value: i64, clamped: i32)
    requires
        range.min <= range.max,
        call_ensures(ControlRange::clamp, (range, value), clamped),
    ensures
        brought_into(clamped as int, value as int, range.min as int, range.max as int),
{
}

/// `at` is where the first reading of `toggle` is, or the end.
pub open spec fn first_reading(autos: Seq<AutoReading>, toggle: AutoToggle, at: int) -> bool {
    &&& 0 <= at <= autos.len()
    &&& forall|k: int| 0 <= k < at ==> (#[trigger] autos[k]).toggle != toggle
    &&& at < autos.len() ==> autos[at].toggle == toggle
}

/// `at` is where the first reading of `control` is, or the end.
pub open spec fn first_control(
    controls: Seq<ControlReading>,
    control: CameraControl,
    at: int,
) -> bool {
    &&& 0 <= at <= controls.len()
    &&& forall|k: int| 0 <= k < at ==> (#[trigger] controls[k]).control != control
    &&& at < controls.len() ==> controls[at].control == control
}

/// `at` is where the first row of `toggle` is, or the end.
pub open spec fn first_row(autos: Seq<AutoRow>, toggle: AutoToggle, at: int) -> bool {
    &&& 0 <= at <= autos.len()
    &&& forall|k: int| 0 <= k < at ==> (#[trigger] autos[k]).toggle != toggle
    &&& at < autos.len() ==> autos[at].toggle == toggle
}

proof fn reading_is_found(autos: Seq<AutoReading>, toggle: AutoToggle, at: int, from: int)
    requires
        first_reading(autos, toggle, at),
        0 <= from <= at,
    ensures
        auto_at(autos, toggle, from) == if at < autos.len() {
            Some(at)
        } else {
            None
        },
    decreases at - from,
{
    if from < at {
        assert(autos[from].toggle != toggle);
        reading_is_found(autos, toggle, at, from + 1);
    }
}

proof fn control_is_found(
    controls: Seq<ControlReading>,
    control: CameraControl,
    at: int,
    from: int,
)
    requires
        first_control(controls, control, at),
        0 <= from <= at,
    ensures
        control_at(controls, control, from) == if at < controls.len() {
            Some(at)
        } else {
            None
        },
    decreases at - from,
{
    if from < at {
        assert(controls[from].control != control);
        control_is_found(controls, control, at, from + 1);
    }
}

proof fn row_is_found(panel: CameraControlsPanel, toggle: AutoToggle, at: int, from: int)
    requires
        first_row(panel.autos@, toggle, at),
        0 <= from <= at,
    ensures
        panel.auto_row(toggle, from) == if at < panel.autos@.len() {
            Some(at)
        } else {
            None
        },
    decreases at - from,
{
    if from < at {
        assert(panel.autos@[from].toggle != toggle);
        row_is_found(panel, toggle, at, from + 1);
    }
}

proof fn modes_that_change(autos: Seq<AutoReading>, saved: CameraControls, upto: int, i: int, k: int)
    requires
        0 <= upto <= autos.len(),
    ensures
        0 <= i < upto && (saved.saved_mode(autos[i].toggle) matches Some(v) && (v != 0)
            != autos[i].current) ==> changed_autos(autos, saved, upto).contains(
            AutoSetting { toggle: autos[i].toggle, on: !autos[i].current },
        ),
        0 <= k < changed_autos(autos, saved, upto).len() ==> exists|j: int|
            0 <= j < upto && (#[trigger] autos[j]).toggle == changed_autos(
                autos,
                saved,
                upto,
            )[k].toggle && autos[j].current != changed_autos(autos, saved, upto)[k].on && (
            saved.saved_mode(autos[j].toggle) matches Some(v) && (v != 0) == changed_autos(
                autos,
                saved,
                upto,
            )[k].on),
    decreases upto,
{
    if upto > 0 {
        modes_that_change(autos, saved, upto - 1, i, k);
        let rest = changed_autos(autos, saved, upto - 1);
        let all = changed_autos(autos, saved, upto);
        let reading = autos[upto - 1];
        if 0 <= i < upto - 1 && rest.contains(
            AutoSetting { toggle: autos[i].toggle, on: !autos[i].current },
        ) {
            let at = rest.index_of(
                AutoSetting { toggle: autos[i].toggle, on: !autos[i].current },
            );
            assert(all[at] == rest[at]);
        }
        if all.len() > rest.len() {
            assert(all[rest.len() as int] == all.last());
            if k == rest.len() {
                assert(autos[upto - 1].toggle == all[k].toggle);
            }
        }
    }
}

/// A mode that is saved otherwise than the camera has it is written as saved;
/// nothing else is written of the modes.
pub proof fn modes_are_put_back_as_saved(
    state: &CameraState,
    saved: &CameraControls,
    write: DeviceWrite,
    i: int,
    k: int,
)
    requires
        call_ensures(plan_build, (state, saved), write),
    ensures
        0 <= i < state.autos@.len() && (saved.saved_mode(state.autos@[i].toggle) matches Some(v)
            && (v != 0) != state.autos@[i].current) ==> write.autos@.contains(
            AutoSetting { toggle: state.autos@[i].toggle, on: !state.autos@[i].current },
        ),
        0 <= k < write.autos@.len() ==> exists|j: int|
            0 <= j < state.autos@.len() && (#[trigger] state.autos@[j]).toggle
                == write.autos@[k].toggle && state.autos@[j].current != write.autos@[k].on && (
            saved.saved_mode(state.autos@[j].toggle) matches Some(v) && (v != 0)
                == write.autos@[k].on),
{
    modes_that_change(state.autos@, *saved, state.autos@.len() as int, i, k);
}

/// Whether the camera will set the control itself, by a mode whose first reading
/// is at `at`.
pub open spec fn sets_itself(
    autos: Seq<AutoReading>,
    saved: CameraControls,
    control: CameraControl,
    at: int,
) -> bool {
    mode_of(control) is Some && first_reading(autos, mode_of(control)->0, at) && at < autos.len()
        && (match saved.saved_mode(mode_of(control)->0) {
        Some(v) => v != 0,
        None => autos[at].current,
    })
}

/// Whether the camera leaves the control to the user: there is no mode for it, or
/// its first reading is at `at` and is not to be on.
pub open spec fn leaves_it(
    autos: Seq<AutoReading>,
    saved: CameraControls,
    control: CameraControl,
    at: int,
) -> bool {
    mode_of(control) is None || (first_reading(autos, mode_of(control)->0, at) && (at
        == autos.len() || (match saved.saved_mode(mode_of(control)->0) {
        Some(v) => v == 0,
        None => !autos[at].current,
    })))
}

proof fn values_that_change(
    state: CameraState,
    saved: CameraControls,
    upto: int,
    i: int,
    at: int,
    k: int,
)
    requires
        0 <= upto <= state.controls@.len(),
        state.valid(),
    ensures
        0 <= i < upto && (saved.saved(state.controls@[i].control) matches Some(v) && v
            != state.controls@[i].range.current) && leaves_it(
            state.autos@,
            saved,
            state.controls@[i].control,
            at,
        ) ==> exists|m: int|
            0 <= m < changed_values(state, saved, upto).len() && (
            #[trigger] changed_values(state, saved, upto)[m]).control
                == state.controls@[i].control && brought_into(
                changed_values(state, saved, upto)[m].value as int,
                saved.saved(state.controls@[i].control)->0 as int,
                state.controls@[i].range.min as int,
                state.controls@[i].range.max as int,
            ),
        0 <= k < changed_values(state, saved, upto).len() ==> exists|j: int|
            0 <= j < upto && (#[trigger] state.controls@[j]).control == changed_values(
                state,
                saved,
                upto,
            )[k].control && (saved.saved(state.controls@[j].control) matches Some(v) && v
                != state.controls@[j].range.current),
        0 <= k < changed_values(state, saved, upto).len() ==> !sets_itself(
            state.autos@,
            saved,
            changed_values(state, saved, upto)[k].control,
            at,
        ),
    decreases upto,
{
    if upto > 0 {
        values_that_change(state, saved, upto - 1, i, at, k);
        let rest = changed_values(state, saved, upto - 1);
        let all = changed_values(state, saved, upto);
        let reading = state.controls@[upto - 1];
        let control = reading.control;
        assert(reading.range.valid());
        if mode_of(control) is Some && first_reading(state.autos@, mode_of(control)->0, at) {
            reading_is_found(state.autos@, mode_of(control)->0, at, 0);
        }
        if 0 <= i < upto - 1 && (saved.saved(state.controls@[i].control) matches Some(v) && v
            != state.controls@[i].range.current) && leaves_it(
            state.autos@,
            saved,
            state.controls@[i].control,
            at,
        ) {
            let m = choose|m: int|
                0 <= m < rest.len() && (#[trigger] rest[m]).control == state.controls@[i].control
                    && brought_into(
                    rest[m].value as int,
                    saved.saved(state.controls@[i].control)->0 as int,
                    state.controls@[i].range.min as int,
                    state.controls@[i].range.max as int,
                );
            assert(all[m] == rest[m]);
        }
        if all.len() > rest.len() {
            assert(all[rest.len() as int] == all.last());
        }
        if 0 <= k < rest.len() {
            assert(all[k] == rest[k]);
        }
    }
}

/// A value that is saved otherwise than the camera has it is written, within its
/// range, unless the camera sets the control itself; nothing else is written of
/// the controls.
pub proof fn values_are_put_back_as_saved(
    state: &CameraState,
    saved: &CameraControls,
    write: DeviceWrite,
    i: int,
    at: int,
    k: int,
)
    requires
        state.valid(),
        call_ensures(plan_build, (state, saved), write),
    ensures
        0 <= i < state.controls@.len() && (saved.saved(state.controls@[i].control) matches Some(v)
            && v != state.controls@[i].range.current) && leaves_it(
            state.autos@,
            *saved,
            state.controls@[i].control,
            at,
        ) ==> exists|m: int|
            0 <= m < write.values@.len() && (#[trigger] write.values@[m]).control
                == state.controls@[i].control && brought_into(
                write.values@[m].value as int,
                saved.saved(state.controls@[i].control)->0 as int,
                state.controls@[i].range.min as int,
                state.controls@[i].range.max as int,
            ),
        0 <= k < write.values@.len() ==> exists|j: int|
            0 <= j < state.controls@.len() && (#[trigger] state.controls@[j]).control
                == write.values@[k].control && (saved.saved(state.controls@[j].control) matches Some(
                v,
            ) && v != state.controls@[j].range.current),
        0 <= k < write.values@.len() ==> !sets_itself(
            state.autos@,
            *saved,
            write.values@[k].control,
            at,
        ),
{
    values_that_change(*state, *saved, state.controls@.len() as int, i, at, k);
}

/// Settings that were taken, or of which there were none, leave nothing to ask;
/// after a refusal the camera's own report counts, if there is one.
pub proof fn a_refusal_is_looked_into(
    write: &DeviceWrite,
    applied: bool,
    live: Option<CameraState>,
    outcome: Reapplied,
)
    requires
        call_ensures(reapply_saved, (write, applied, live), outcome),
    ensures
        outcome is Clean <==> applied || (write.autos@.len() == 0 && write.values@.len() == 0),
        outcome matches Reapplied::Live(state) ==> live == Some(state),
        outcome is Unknown ==> live is None,
{
}

/// The rows of a camera that took its settings show them: each mode and control
/// as saved, else as reported, and within its range.
pub proof fn built_rows_show_what_is_saved(
    panel: &mut CameraControlsPanel,
    settings: &mut CameraSettings,
    key: &str,
    uid: &str,
    state: &CameraState,
    i: int,
)
    requires
        state.valid(),
        call_ensures(
            CameraControlsPanel::finish_build,
            (panel, settings, key, uid, Some(state), Reapplied::Clean),
            (),
        ),
    ensures
        final(panel).key matches Some(now) && now@ == key@,
        final(panel).uid matches Some(now) && now@ == uid@,
        final(panel).autos@.len() == state.autos@.len(),
        final(panel).sliders@.len() == state.controls@.len(),
        0 <= i < state.autos@.len() ==> {
            let row = final(panel).autos@[i];
            let reading = state.autos@[i];
            &&& row.toggle == reading.toggle
            &&& row.default == reading.default
            &&& old(settings).saved.saved_mode(reading.toggle) is None ==> row.on
                == reading.current
            &&& old(settings).saved.saved_mode(reading.toggle) matches Some(v) ==> row.on == (v
                != 0)
        },
        0 <= i < state.controls@.len() ==> {
            let slider = final(panel).sliders@[i];
            let reading = state.controls@[i];
            &&& slider.control == reading.control
            &&& slider.range == reading.range
            &&& brought_into(
                slider.value as int,
                match old(settings).saved.saved(reading.control) {
                    Some(value) => value as int,
                    None => reading.range.current as int,
                },
                reading.range.min as int,
                reading.range.max as int,
            )
        },
        *final(settings) == *old(settings),
{
    if 0 <= i < state.autos@.len() {
        assert(final(panel).autos@[i] == final(panel).autos@[i]);
    }
    if 0 <= i < state.controls@.len() {
        assert(state.controls@[i].range.valid());
        assert(final(panel).sliders@[i] == final(panel).sliders@[i]);
    }
}

/// The rows of a camera that refused its settings show what it then reported, and
/// no profile counts as active any more.
pub proof fn refused_rows_show_the_camera(
    panel: &mut CameraControlsPanel,
    settings: &mut CameraSettings,
    key: &str,
    uid: &str,
    state: &CameraState,
    live: CameraState,
    i: int,
    at: int,
)
    requires
        state.valid(),
        call_ensures(
            CameraControlsPanel::finish_build,
            (panel, settings, key, uid, Some(state), Reapplied::Live(live)),
            (),
        ),
    ensures
        final(settings).active_profile is None,
        final(settings).saved == old(settings).saved,
        final(settings).profiles == old(settings).profiles,
        final(panel).autos@.len() == state.autos@.len(),
        final(panel).sliders@.len() == state.controls@.len(),
        0 <= i < state.autos@.len() && first_reading(live.autos@, state.autos@[i].toggle, at) ==> {
            let row = final(panel).autos@[i];
            &&& row.toggle == state.autos@[i].toggle
            &&& at < live.autos@.len() ==> row.on == live.autos@[at].current
            &&& at == live.autos@.len() ==> row.on == state.autos@[i].current
        },
        0 <= i < state.controls@.len() && first_control(
            live.controls@,
            state.controls@[i].control,
            at,
        ) ==> {
            let slider = final(panel).sliders@[i];
            &&& slider.control == state.controls@[i].control
            &&& at < live.controls@.len() ==> slider.value == live.controls@[at].range.current
            &&& at == live.controls@.len() ==> slider.value == state.controls@[i].range.current
        },
{
    if 0 <= i < state.autos@.len() {
        assert(final(panel).autos@[i] == final(panel).autos@[i]);
        if first_reading(live.autos@, state.autos@[i].toggle, at) {
            reading_is_found(live.autos@, state.autos@[i].toggle, at, 0);
        }
    }
    if 0 <= i < state.controls@.len() {
        assert(final(panel).sliders@[i] == final(panel).sliders@[i]);
        if first_control(live.controls@, state.controls@[i].control, at) {
            control_is_found(live.controls@, state.controls@[i].control, at, 0);
        }
    }
}

/// A camera that reports nothing has no rows, so that they are built again.
pub proof fn a_silent_camera_has_no_rows(
    panel: &mut CameraControlsPanel,
    settings: &mut CameraSettings,
    key: &str,
    uid: &str,
    state: Option<&CameraState>,
    outcome: Reapplied,
)
    requires
        state matches Some(state) ==> state.valid(),
        call_ensures(
            CameraControlsPanel::finish_build,
            (panel, settings, key, uid, state, outcome),
            (),
        ),
        state is None || outcome is Unknown,
    ensures
        final(panel).key is None,
        final(panel).uid is None,
        final(panel).autos@.len() == 0,
        final(panel).sliders@.len() == 0,
        state is None ==> *final(settings) == *old(settings),
        state is Some ==> final(settings).active_profile is None && final(settings).saved == old(settings).saved,
{
}

/// The camera of the panel is the selected device, if that is a camera that the
/// system has; the rows are built once for it.
pub proof fn the_selected_camera_is_shown(
    state: &AppState,
    camera: Option<(String, String)>,
    i: usize,
    panel: &CameraControlsPanel,
    key: &str,
    uid: &str,
    build: bool,
)
    requires
        call_ensures(CameraControlsPanel::active_camera, (Some(state),), camera),
        call_ensures(CameraControlsPanel::needs_build, (panel, key, uid), build),
    ensures
        state.devices.selected is None ==> camera is None,
        state.devices.selected == Some(i) && i < state.devices.records@.len() ==> {
            let record = state.devices.records@[i as int];
            &&& camera is Some <==> record.kind == DeviceKind::Camera && record.capture_id is Some
            &&& camera matches Some(camera) ==> camera.0@ == record.config_key@ && (
            record.capture_id matches Some(id) && camera.1@ == id@)
        },
        !build <==> (panel.key matches Some(k) && k@ == key@) && (panel.uid matches Some(u) && u@
            == uid@),
{
}

/// A slider says whether its mode is on, by the mode's first row.
pub proof fn a_slider_knows_its_mode(
    panel: &CameraControlsPanel,
    control: CameraControl,
    on: Option<bool>,
    at: int,
)
    requires
        call_ensures(CameraControlsPanel::auto_state_for, (panel, control), on),
    ensures
        mode_of(control) is None ==> on is None,
        mode_of(control) matches Some(toggle) ==> first_row(panel.autos@, toggle, at) ==> {
            &&& at < panel.autos@.len() ==> on == Some(panel.autos@[at].on)
            &&& at == panel.autos@.len() ==> on is None
        },
{
    if mode_of(control) is Some && first_row(panel.autos@, mode_of(control)->0, at) {
        row_is_found(*panel, mode_of(control)->0, at, 0);
    }
}

proof fn the_last_auto_counts(autos: Seq<AutoSetting>, toggle: AutoToggle, upto: int, k: int)
    requires
        0 <= k < upto <= autos.len(),
        autos[k].toggle == toggle,
        forall|j: int| k < j < upto ==> (#[trigger] autos[j]).toggle != toggle,
    ensures
        last_auto(autos, toggle, upto) == Some(autos[k].on),
    decreases upto,
{
    if k < upto - 1 {
        assert(autos[upto - 1].toggle != toggle);
        the_last_auto_counts(autos, toggle, upto - 1, k);
    }
}

proof fn the_last_value_counts(
    values: Seq<ControlSetting>,
    control: CameraControl,
    upto: int,
    k: int,
)
    requires
        0 <= k < upto <= values.len(),
        values[k].control == control,
        forall|j: int| k < j < upto ==> (#[trigger] values[j]).control != control,
    ensures
        last_value(values, control, upto) == Some(values[k].value),
    decreases upto,
{
    if k < upto - 1 {
        assert(values[upto - 1].control != control);
        the_last_value_counts(values, control, upto - 1, k);
    }
}

proof fn no_value_counts(values: Seq<ControlSetting>, control: CameraControl, upto: int)
    requires
        0 <= upto <= values.len(),
        forall|j: int| 0 <= j < upto ==> (#[trigger] values[j]).control != control,
    ensures
        last_value(values, control, upto) is None,
    decreases upto,
{
    if upto > 0 {
        assert(values[upto - 1].control != control);
        no_value_counts(values, control, upto - 1);
    }
}

proof fn no_auto_counts(autos: Seq<AutoSetting>, toggle: AutoToggle, upto: int)
    requires
        0 <= upto <= autos.len(),
        forall|j: int| 0 <= j < upto ==> (#[trigger] autos[j]).toggle != toggle,
    ensures
        last_auto(autos, toggle, upto) is None,
    decreases upto,
{
    if upto > 0 {
        assert(autos[upto - 1].toggle != toggle);
        no_auto_counts(autos, toggle, upto - 1);
    }
}

proof fn slider_is_found(sliders: Seq<ControlSlider>, control: CameraControl, at: int, from: int)
    requires
        0 <= from <= at < sliders.len(),
        forall|k: int| 0 <= k < at ==> (#[trigger] sliders[k]).control != control,
        sliders[at].control == control,
    ensures
        slider_at(sliders, control, from) == Some(at),
    decreases at - from,
{
    if from < at {
        assert(sliders[from].control != control);
        slider_is_found(sliders, control, at, from + 1);
    }
}

/// Of a write that the camera took, the last value for each control is saved and
/// shown by the control's first row; what was not written stays.
pub proof fn a_taken_write_is_kept(
    panel: &mut CameraControlsPanel,
    settings: &mut CameraSettings,
    write: DeviceWrite,
    profile: Option<&str>,
    control: CameraControl,
    k: int,
    at: int,
)
    requires
        old(panel).key is Some,
        old(panel).uid is Some,
        call_ensures(
            CameraControlsPanel::finish_write,
            (panel, settings, write, true, profile),
            (),
        ),
    ensures
        0 <= k < write.values@.len() && write.values@[k].control == control && (forall|j: int|
            k < j < write.values@.len() ==> (#[trigger] write.values@[j]).control != control) ==> {
            &&& final(settings).saved.saved(control) == Some(write.values@[k].value)
            &&& 0 <= at < old(panel).sliders@.len() && old(panel).sliders@[at].control == control
                && (forall|j: int|
                0 <= j < at ==> (#[trigger] old(panel).sliders@[j]).control != control)
                ==> final(panel).sliders@[at].value == write.values@[k].value
        },
        (forall|j: int|
            0 <= j < write.values@.len() ==> (#[trigger] write.values@[j]).control != control)
            ==> final(settings).saved.saved(control) == old(settings).saved.saved(control),
        final(panel).sliders@.len() == old(panel).sliders@.len(),
        0 <= at < old(panel).sliders@.len() ==> final(panel).sliders@[at].control == old(panel).sliders@[at].control && final(panel).sliders@[at].range == old(panel).sliders@[at].range,
        final(panel).key == old(panel).key,
        final(panel).uid == old(panel).uid,
        profile matches Some(id) ==> (final(settings).active_profile matches Some(active) && active@
            == id@) && final(settings).profiles == old(settings).profiles,
        profile is None ==> final(settings).active_profile == old(settings).active_profile,
{
    let values = write.values@;
    if 0 <= at < old(panel).sliders@.len() {
        assert(final(panel).sliders@[at] == final(panel).sliders@[at]);
    }
    if 0 <= k < values.len() && values[k].control == control && (forall|j: int|
        k < j < values.len() ==> (#[trigger] values[j]).control != control) {
        the_last_value_counts(values, control, values.len() as int, k);
        if 0 <= at < old(panel).sliders@.len() && old(panel).sliders@[at].control == control && (
        forall|j: int| 0 <= j < at ==> (#[trigger] old(panel).sliders@[j]).control != control) {
            slider_is_found(old(panel).sliders@, control, at, 0);
        }
    }
    if forall|j: int| 0 <= j < values.len() ==> (#[trigger] values[j]).control != control {
        no_value_counts(values, control, values.len() as int);
    }
}

/// Of a write that the camera took, the last setting of each mode is saved and
/// shown by the mode's first row; what was not written stays.
pub proof fn taken_modes_are_kept(
    panel: &mut CameraControlsPanel,
    settings: &mut CameraSettings,
    write: DeviceWrite,
    profile: Option<&str>,
    toggle: AutoToggle,
    k: int,
    at: int,
)
    requires
        old(panel).key is Some,
        old(panel).uid is Some,
        call_ensures(
            CameraControlsPanel::finish_write,
            (panel, settings, write, true, profile),
            (),
        ),
    ensures
        0 <= k < write.autos@.len() && write.autos@[k].toggle == toggle && (forall|j: int|
            k < j < write.autos@.len() ==> (#[trigger] write.autos@[j]).toggle != toggle) ==> {
            &&& final(settings).saved.saved_mode(toggle) matches Some(v) && (v != 0)
                == write.autos@[k].on
            &&& first_row(old(panel).autos@, toggle, at) && at < old(panel).autos@.len()
                ==> final(panel).autos@[at].on == write.autos@[k].on
        },
        (forall|j: int|
            0 <= j < write.autos@.len() ==> (#[trigger] write.autos@[j]).toggle != toggle)
            ==> final(settings).saved.saved_mode(toggle) == old(settings).saved.saved_mode(toggle),
        final(panel).autos@.len() == old(panel).autos@.len(),
        0 <= at < old(panel).autos@.len() ==> final(panel).autos@[at].toggle == old(panel).autos@[at].toggle && final(panel).autos@[at].default == old(panel).autos@[at].default,
{
    let autos = write.autos@;
    if 0 <= at < old(panel).autos@.len() {
        assert(final(panel).autos@[at] == final(panel).autos@[at]);
    }
    if 0 <= k < autos.len() && autos[k].toggle == toggle && (forall|j: int|
        k < j < autos.len() ==> (#[trigger] autos[j]).toggle != toggle) {
        the_last_auto_counts(autos, toggle, autos.len() as int, k);
        if first_row(old(panel).autos@, toggle, at) {
            row_is_found(*old(panel), toggle, at, 0);
        }
    }
    if forall|j: int| 0 <= j < autos.len() ==> (#[trigger] autos[j]).toggle != toggle {
        no_auto_counts(autos, toggle, autos.len() as int);
    }
}

/// After a write that failed the rows have to be built again, no profile is
/// active, and nothing was saved.
pub proof fn a_failed_write_is_not_kept(
    panel: &mut CameraControlsPanel,
    settings: &mut CameraSettings,
    write: DeviceWrite,
    profile: Option<&str>,
)
    requires
        old(panel).key is Some,
        old(panel).uid is Some,
        call_ensures(
            CameraControlsPanel::finish_write,
            (panel, settings, write, false, profile),
            (),
        ),
    ensures
        final(panel).key is None,
        final(panel).uid is None,
        final(settings).active_profile is None,
        final(settings).saved == old(settings).saved,
        final(settings).profiles == old(settings).profiles,
{
}

/// A slider that was let go is saved at its value, and the mode that lost the
/// control is saved and shown as off.
pub proof fn a_released_slider_is_saved(
    panel: &mut CameraControlsPanel,
    settings: &mut CameraSettings,
    control: CameraControl,
    value: i32,
    other: CameraControl,
    at: int,
)
    requires
        call_ensures(
            CameraControlsPanel::finish_release,
            (panel, settings, control, value, true),
            (),
        ),
    ensures
        final(settings).saved.saved(control) == Some(value),
        other != control ==> final(settings).saved.saved(other) == old(settings).saved.saved(
            other,
        ),
        final(panel).sliders == old(panel).sliders,
        final(panel).autos@.len() == old(panel).autos@.len(),
        mode_of(control) is None ==> final(panel).autos@ == old(panel).autos@,
        mode_of(control) matches Some(toggle) ==> first_row(old(panel).autos@, toggle, at) && at
            < old(panel).autos@.len() && old(panel).autos@[at].on ==> !final(panel).autos@[at].on
            && final(settings).saved.saved_mode(toggle) == Some(0i32),
        mode_of(control) matches Some(toggle) ==> (forall|j: int|
            0 <= j < old(panel).autos@.len() ==> (#[trigger] old(panel).autos@[j]).toggle != toggle)
            ==> final(settings).saved.saved_mode(toggle) == old(settings).saved.saved_mode(toggle),
        final(settings).active_profile == old(settings).active_profile,
{
    let values = seq![ControlSetting { control, value }];
    the_last_value_counts(values, control, 1, 0);
    if other != control {
        no_value_counts(values, other, 1);
    }
    if mode_of(control) is Some {
        let toggle = mode_of(control)->0;
        let off = seq![AutoSetting { toggle, on: false }];
        a_row_that_is_on_is_a_row(*old(panel), toggle, 0);
        the_last_auto_counts(off, toggle, 1, 0);
        no_auto_counts(seq![], toggle, 0);
        if first_row(old(panel).autos@, toggle, at) && at < old(panel).autos@.len() && old(panel).autos@[at].on {
            first_row_is_on(*old(panel), toggle, at, 0);
        }
        if forall|j: int|
            0 <= j < old(panel).autos@.len() ==> (#[trigger] old(panel).autos@[j]).toggle
                != toggle {
            no_row_is_on(*old(panel), toggle, 0);
        }
    }
}

proof fn first_row_is_on(panel: CameraControlsPanel, toggle: AutoToggle, at: int, from: int)
    requires
        first_row(panel.autos@, toggle, at),
        0 <= from <= at < panel.autos@.len(),
        panel.autos@[at].on,
    ensures
        panel.on_row(toggle, from) == Some(at),
    decreases at - from,
{
    if from < at {
        assert(panel.autos@[from].toggle != toggle);
        first_row_is_on(panel, toggle, at, from + 1);
    }
}

proof fn a_row_that_is_on_is_a_row(panel: CameraControlsPanel, toggle: AutoToggle, from: int)
    requires
        0 <= from,
    ensures
        panel.on_row(toggle, from) matches Some(at) ==> from <= at < panel.autos@.len(),
    decreases panel.autos@.len() - from,
{
    if from < panel.autos@.len() {
        a_row_that_is_on_is_a_row(panel, toggle, from + 1);
    }
}

proof fn no_row_is_on(panel: CameraControlsPanel, toggle: AutoToggle, from: int)
    requires
        forall|j: int|
            0 <= j < panel.autos@.len() ==> (#[trigger] panel.autos@[j]).toggle != toggle,
        0 <= from <= panel.autos@.len(),
    ensures
        panel.on_row(toggle, from) is None,
    decreases panel.autos@.len() - from,
{
    if from < panel.autos@.len() {
        assert(panel.autos@[from].toggle != toggle);
        no_row_is_on(panel, toggle, from + 1);
    }
}

/// A flipped mode is shown and saved the other way; no value is saved with it.
pub proof fn a_flipped_mode_is_saved(
    panel: &mut CameraControlsPanel,
    settings: &mut CameraSettings,
    ix: usize,
    control: CameraControl,
    other: AutoToggle,
    k: int,
)
    requires
        old(panel).key is Some,
        old(panel).uid is Some,
        ix < old(panel).autos@.len(),
        call_ensures(CameraControlsPanel::finish_toggle, (panel, settings, ix, true), ()),
    ensures
        final(panel).autos@.len() == old(panel).autos@.len(),
        final(panel).autos@[ix as int].on == !old(panel).autos@[ix as int].on,
        0 <= k < old(panel).autos@.len() && k != ix ==> final(panel).autos@[k] == old(panel).autos@[k],
        final(settings).saved.saved_mode(old(panel).autos@[ix as int].toggle) matches Some(v) && (v
            != 0) == !old(panel).autos@[ix as int].on,
        other != old(panel).autos@[ix as int].toggle ==> final(settings).saved.saved_mode(other)
            == old(settings).saved.saved_mode(other),
        final(settings).saved.saved(control) == old(settings).saved.saved(control),
        final(panel).sliders == old(panel).sliders,
        final(settings).active_profile == old(settings).active_profile,
{
    let row = old(panel).autos@[ix as int];
    let autos = seq![AutoSetting { toggle: row.toggle, on: !row.on }];
    the_last_auto_counts(autos, row.toggle, 1, 0);
    if other != row.toggle {
        no_auto_counts(autos, other, 1);
    }
    no_value_counts(seq![], control, 0);
}

/// A control that was put back is shown and saved at its default, and so is its
/// mode.
pub proof fn a_control_put_back_is_saved(
    panel: &mut CameraControlsPanel,
    settings: &mut CameraSettings,
    ix: usize,
    other: CameraControl,
    at: int,
    k: int,
)
    requires
        old(panel).key is Some,
        old(panel).uid is Some,
        ix < old(panel).sliders@.len(),
        call_ensures(CameraControlsPanel::finish_reset_control, (panel, settings, ix, true), ()),
    ensures
        ({
            let slider = old(panel).sliders@[ix as int];
            &&& final(panel).sliders@[ix as int].value == slider.range.default
            &&& final(panel).sliders@[ix as int].range == slider.range
            &&& final(panel).sliders@[ix as int].control == slider.control
            &&& 0 <= k < old(panel).sliders@.len() && k != ix ==> final(panel).sliders@[k] == old(panel).sliders@[k]
            &&& final(settings).saved.saved(slider.control) == Some(slider.range.default)
            &&& other != slider.control ==> final(settings).saved.saved(other) == old(settings).saved.saved(other)
            &&& mode_of(slider.control) matches Some(toggle) ==> first_row(
                old(panel).autos@,
                toggle,
                at,
            ) && at < old(panel).autos@.len() ==> final(panel).autos@[at].on == old(panel).autos@[at].default && (final(settings).saved.saved_mode(toggle) matches Some(v) && (v
                != 0) == old(panel).autos@[at].default)
            &&& mode_of(slider.control) is None ==> final(panel).autos@ == old(panel).autos@
        }),
{
    let slider = old(panel).sliders@[ix as int];
    let values = seq![ControlSetting { control: slider.control, value: slider.range.default }];
    the_last_value_counts(values, slider.control, 1, 0);
    if other != slider.control {
        no_value_counts(values, other, 1);
    }
    if mode_of(slider.control) is Some && first_row(
        old(panel).autos@,
        mode_of(slider.control)->0,
        at,
    ) && at < old(panel).autos@.len() {
        let toggle = mode_of(slider.control)->0;
        row_is_found(*old(panel), toggle, at, 0);
        the_last_auto_counts(
            seq![AutoSetting { toggle, on: old(panel).autos@[at].default }],
            toggle,
            1,
            0,
        );
    }
}

/// A new profile's name is free, and is its message around a number.
pub proof fn a_new_name_is_free(
    profiles: &Table<CameraControls>,
    prefix: &str,
    suffix: &str,
    name: String,
)
    requires
        call_ensures(new_profile_name, (profiles, prefix, suffix), name),
    ensures
        !profiles@.contains_key(name@),
        name@.len() >= prefix@.len() + suffix@.len(),
        name@.take(prefix@.len() as int) == prefix@,
        name@.skip(name@.len() - suffix@.len()) == suffix@,
{
    let n = choose|n: int|
        n > profiles.in_order().len() && name@
            == #[trigger] crate::features::camera::profiles::numbered_name(prefix@, n, suffix@);
    let number = crate::text::decimal(n as nat);
    assert(name@ =~= prefix@ + number + suffix@);
    assert(name@.take(prefix@.len() as int) =~= prefix@);
    assert(name@.skip(name@.len() - suffix@.len()) =~= suffix@);
}

/// A saved profile is a new one and the active one; the others stay.
pub proof fn a_profile_is_saved_anew(
    settings: &mut CameraSettings,
    panel: &CameraControlsPanel,
    prefix: &str,
    suffix: &str,
    name: Option<String>,
    other: Seq<char>,
)
    requires
        call_ensures(CameraSettings::save_profile, (settings, panel, prefix, suffix), name),
    ensures
        name is Some <==> panel.key is Some,
        name matches Some(name) ==> {
            &&& !old(settings).profiles@.contains_key(name@)
            &&& final(settings).profiles@.contains_key(name@)
            &&& final(settings).active_profile matches Some(active) && active@ == name@
        },
        old(settings).profiles@.contains_key(other) ==> final(settings).profiles@.contains_key(
            other,
        ) && final(settings).profiles@[other] == old(settings).profiles@[other],
        final(settings).saved == old(settings).saved,
{
}

/// A deleted profile is gone, and is not the active one; the others stay.
pub proof fn a_deleted_profile_is_gone(
    settings: &mut CameraSettings,
    panel: &CameraControlsPanel,
    name: &str,
    other: Seq<char>,
)
    requires
        panel.key is Some,
        call_ensures(CameraSettings::delete_profile, (settings, panel, name), ()),
    ensures
        !final(settings).profiles@.contains_key(name@),
        !(final(settings).active_profile matches Some(active) && active@ == name@),
        old(settings).active_profile matches Some(active) ==> active@ != name@ ==> final(settings).active_profile == old(settings).active_profile,
        other != name@ && old(settings).profiles@.contains_key(other) ==> final(settings).profiles@.contains_key(other) && final(settings).profiles@[other] == old(settings).profiles@[other],
        final(settings).saved == old(settings).saved,
{
}

/// The sections hold each slider once: zoom, focus and exposure are the lens's,
/// all others the picture's, in the order of the panel.
pub proof fn each_slider_has_its_section(
    sliders: &Vec<ControlSlider>,
    lens: Vec<usize>,
    image: Vec<usize>,
    i: usize,
    j: int,
    k: int,
)
    requires
        call_ensures(section_indices, (sliders, true), lens),
        call_ensures(section_indices, (sliders, false), image),
        i < sliders@.len(),
    ensures
        ({
            let control = sliders@[i as int].control;
            lens@.contains(i) <==> control == CameraControl::Zoom || control
                == CameraControl::Focus || control == CameraControl::Exposure
        }),
        image@.contains(i) <==> !lens@.contains(i),
        lens@.len() + image@.len() == sliders@.len(),
{
    assert(sliders@.len() == sliders.len());
    sections_hold_every_slider(sliders@, sliders@.len() as int, i as int);
}

/// A panel without sliders says so; sections are headed where both have rows.
pub proof fn sections_are_headed_where_both_are_there(
    panel: &CameraControlsPanel,
    body: PanelBody,
    one: Vec<usize>,
    two: Vec<usize>,
)
    requires
        call_ensures(panel_body, (panel,), body),
        call_ensures(section_indices, (&panel.sliders, true), one),
        call_ensures(section_indices, (&panel.sliders, false), two),
    ensures
        body is Unavailable <==> panel.sliders@.len() == 0,
        body matches PanelBody::Sections { lens, image, headed } ==> {
            &&& lens@ == one@
            &&& image@ == two@
            &&& headed <==> one@.len() > 0 && two@.len() > 0
        },
{
}

/// The frequencies that the camera supports are offered, the current one marked.
pub proof fn supported_frequencies_are_offered(
    slider: &ControlSlider,
    choices: Vec<FrequencyChoice>,
    i: int,
)
    requires
        call_ensures(frequency_row, (slider,), choices),
    ensures
        slider.range.supports_one ==> choices@.len() > 0 && choices@[0].value == 1,
        slider.range.supports_three ==> choices@.len() > 0 && choices@.last().value == 3,
        slider.range.supports_two ==> exists|j: int|
            0 <= j < choices@.len() && (#[trigger] choices@[j]).value == 2,
        0 <= i < choices@.len() ==> {
            let choice = choices@[i];
            &&& choice.value == 1 || choice.value == 2 || choice.value == 3
            &&& choice.value == 1 ==> slider.range.supports_one && choice.label@ == "50 Hz"@
            &&& choice.value == 2 ==> slider.range.supports_two && choice.label@ == "60 Hz"@
            &&& choice.value == 3 ==> slider.range.supports_three && choice.label@
                == "common.auto"@
            &&& choice.active <==> slider.value == choice.value
            &&& i + 1 < choices@.len() ==> choice.value < choices@[i + 1].value
        },
{
    if choices@.len() > 0 {
        assert(choices@[0].value == choices@[0].value);
        assert(choices@.last() == choices@[choices@.len() - 1]);
    }
    if slider.range.supports_two {
        let j: int = if slider.range.supports_one {
            1
        } else {
            0
        };
        assert(choices@[j].value == 2);
    }
    if 0 <= i < choices@.len() {
        assert(choices@[i].value == choices@[i].value);
        if i + 1 < choices@.len() {
            assert(choices@[i + 1].value == choices@[i + 1].value);
        }
    }
}

/// How a control is shown: the mains frequency by chips where the camera names
/// its frequencies, the low-light compensation by a switch where it has two
/// values, all else by a slider, which is dim while its mode is on.
pub proof fn each_control_has_its_row(
    panel: &CameraControlsPanel,
    ix: usize,
    row: ControlRow,
    at: int,
)
    requires
        ix < panel.sliders@.len(),
        call_ensures(control_row, (panel, ix), row),
    ensures
        ({
            let slider = panel.sliders@[ix as int];
            let named = slider.range.supports_one || slider.range.supports_two
                || slider.range.supports_three;
            &&& row is Frequency <==> slider.control == CameraControl::PowerLineFrequency && named
            &&& row is Binary <==> slider.control == CameraControl::LowLightCompensation
                && slider.range.min == 0 && slider.range.max == 1
            &&& row matches ControlRow::Binary { on } ==> (on <==> slider.value != 0)
            &&& row matches ControlRow::Slider { value, dimmed, auto } ==> {
                &&& value == slider.value
                &&& mode_of(slider.control) is None ==> !dimmed && auto is None
                &&& mode_of(slider.control) matches Some(toggle) ==> first_row(
                    panel.autos@,
                    toggle,
                    at,
                ) ==> {
                    &&& at == panel.autos@.len() ==> !dimmed && auto is None
                    &&& at < panel.autos@.len() ==> dimmed == panel.autos@[at].on && (auto matches
                        Some((shown, on)) && shown == at && on == panel.autos@[at].on)
                }
            }
        }),
{
    let control = panel.sliders@[ix as int].control;
    if mode_of(control) is Some && first_row(panel.autos@, mode_of(control)->0, at) {
        row_is_found(*panel, mode_of(control)->0, at, 0);
    }
}

/// A click on a switch turns it the other way.
pub proof fn a_switch_is_turned(on: bool, value: i32)
    requires
        call_ensures(switched, (on,), value),
    ensures
        (value != 0) == !on,
        0 <= value <= 1,
{
}

/// The profiles are offered with the built-in ones first, and only the user's own
/// can be deleted.
pub proof fn built_in_profiles_come_first(
    settings: &CameraSettings,
    chips: Vec<ProfileChip>,
    k: int,
)
    requires
        call_ensures(profiles_row, (settings,), chips),
    ensures
        chips@.len() == settings.profiles.in_order().len() + 3,
        chips@[0].id@ == "default"@,
        chips@[1].id@ == "streaming"@,
        chips@[2].id@ == "video_call"@,
        0 <= k < chips@.len() ==> {
            let chip = chips@[k];
            &&& chip.deletable <==> k >= 3
            &&& chip.selected <==> (settings.active_profile matches Some(active) && active@
                == chip.id@)
            &&& k >= 3 ==> chip.id@ == settings.profiles.in_order()[k - 3].0@
        },
{
    if 3 <= k < chips@.len() {
        assert(chips@[k].id@ == chips@[k].id@);
    }
}

/// A built-in profile is found by its id, and by no other.
pub proof fn profiles_are_found_by_their_id(
    id: &str,
    found: Option<BuiltinProfile>,
    profile: BuiltinProfile,
    own: &'static str,
)
    requires
        call_ensures(BuiltinProfile::find, (id,), found),
        call_ensures(BuiltinProfile::id, (profile,), own),
    ensures
        profile == BuiltinProfile::Default ==> own@ == "default"@,
        profile == BuiltinProfile::Streaming ==> own@ == "streaming"@,
        profile == BuiltinProfile::VideoCall ==> own@ == "video_call"@,
        found is None ==> id@ != own@,
        found == Some(profile) ==> id@ == own@,
        found is Some && found != Some(profile) ==> id@ != own@,
{
    reveal_strlit("default");
    reveal_strlit("streaming");
    reveal_strlit("video_call");
    assert("default"@.len() == 7);
    assert("streaming"@.len() == 9);
    assert("video_call"@.len() == 10);
}

} // verus!
