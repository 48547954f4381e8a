//! What the camera panel writes to the camera, and what becomes of it.

use crate::features::camera::controls::{
    AutoRow, CameraControlsPanel, CameraSettings, ControlSlider, DeviceWrite,
};
use crate::features::camera::device::{AutoToggle, CameraControl, CameraControls};
use crate::features::camera::profiles::{custom_values, last_mode, last_shown, BuiltinProfile};
use vstd::prelude::*;

verus! {

/// Where the profile with this id puts a control, in hundredths of its range.
pub open spec fn share(id: Seq<char>, control: CameraControl) -> Option<int> {
    if id == "streaming"@ {
        match control {
            CameraControl::Brightness => Some(50int),
            CameraControl::Contrast => Some(58int),
            CameraControl::Saturation => Some(62int),
            CameraControl::Sharpness => Some(60int),
            _ => None,
        }
    } else if id == "video_call"@ {
        match control {
            CameraControl::Brightness => Some(55int),
            CameraControl::Contrast => Some(52int),
            CameraControl::Saturation => Some(55int),
            CameraControl::Sharpness => Some(48int),
            _ => None,
        }
    } else {
        None
    }
}

/// Whether `value` is `wanted` brought into the range from `min` to `max`.
pub open spec fn brought_into(value: int, wanted: int, min: int, max: int) -> bool {
    &&& min <= value <= max
    &&& wanted < min ==> value == min
    &&& wanted > max ==> value == max
    &&& min <= wanted <= max ==> value == wanted
}

proof fn ids_differ()
    ensures
        "default"@ != "streaming"@,
        "default"@ != "video_call"@,
        "streaming"@ != "video_call"@,
{
    reveal_strlit("default");
    reveal_strlit("streaming");
    reveal_strlit("video_call");
    assert("default"@.len() == 7);
    assert("streaming"@.len() == 9);
    assert("video_call"@.len() == 10);
}

/// A profile that gives a control a share of its range writes the value that is
/// nearest to it, off by half a step at most. Every mode goes on.
pub proof fn a_share_is_met(
    panel: &CameraControlsPanel,
    id: &str,
    settings: &CameraSettings,
    write: Option<DeviceWrite>,
    i: int,
    k: int,
    p: int,
)
    requires
        panel.valid(),
        panel.key is Some,
        panel.uid is Some,
        call_ensures(CameraControlsPanel::apply_profile, (panel, id, settings), write),
        id@ == "streaming"@ || id@ == "video_call"@,
        0 <= i < panel.sliders@.len(),
        share(id@, panel.sliders@[i].control) == Some(p),
    ensures
        write matches Some(write) && {
            &&& write.values@.len() == panel.sliders@.len()
            &&& write.values@[i].control == panel.sliders@[i].control
            &&& -50 <= 100 * (write.values@[i].value - panel.sliders@[i].range.min) - p * (
            panel.sliders@[i].range.max - panel.sliders@[i].range.min) <= 50
            &&& panel.sliders@[i].range.min <= write.values@[i].value
                <= panel.sliders@[i].range.max
            &&& write.autos@.len() == panel.autos@.len()
            &&& 0 <= k < panel.autos@.len() ==> write.autos@[k].toggle == panel.autos@[k].toggle
                && write.autos@[k].on
        },
{
    ids_differ();
    assert(BuiltinProfile::Streaming.name() == "streaming"@);
    assert(BuiltinProfile::VideoCall.name() == "video_call"@);
    let range = panel.sliders@[i].range;
    assert(range.valid());
    let span = range.max - range.min;
    assert(0 <= span * p <= span * 100 && span * p == p * span) by (nonlinear_arith)
        requires
            0 <= span,
            0 <= p <= 100,
    ;
}

/// Of two controls with one range, or of one control in two profiles, the one
/// with the greater share is not written lower.
pub proof fn a_greater_share_is_no_less(
    panel: &CameraControlsPanel,
    settings: &CameraSettings,
    id: &str,
    write: Option<DeviceWrite>,
    i: int,
    other_id: &str,
    other: Option<DeviceWrite>,
    j: int,
    p: int,
    q: int,
)
    requires
        panel.valid(),
        panel.key is Some,
        panel.uid is Some,
        call_ensures(CameraControlsPanel::apply_profile, (panel, id, settings), write),
        call_ensures(CameraControlsPanel::apply_profile, (panel, other_id, settings), other),
        0 <= i < panel.sliders@.len(),
        0 <= j < panel.sliders@.len(),
        panel.sliders@[i].range == panel.sliders@[j].range,
        share(id@, panel.sliders@[i].control) == Some(p),
        share(other_id@, panel.sliders@[j].control) == Some(q),
        p <= q,
    ensures
        write matches Some(write) && other matches Some(other) && write.values@[i].value
            <= other.values@[j].value,
{
    a_share_is_met(panel, id, settings, write, i, 0, p);
    a_share_is_met(panel, other_id, settings, other, j, 0, q);
    let range = panel.sliders@[i].range;
    let span = range.max - range.min;
    ids_differ();
    assert(BuiltinProfile::Streaming.name() == "streaming"@);
    assert(BuiltinProfile::VideoCall.name() == "video_call"@);
    assert(p * span <= q * span && p * span == span * p && q * span == span * q)
        by (nonlinear_arith)
        requires
            0 <= span,
            p <= q,
    ;
}

/// A built-in profile puts a control without a share to the camera's default,
/// except that the mains frequency and the low-light compensation stay as they
/// are. The default profile puts back those too, and each mode.
pub proof fn controls_without_a_share_go_to_their_default(
    panel: &CameraControlsPanel,
    id: &str,
    settings: &CameraSettings,
    write: Option<DeviceWrite>,
    i: int,
    k: int,
)
    requires
        panel.valid(),
        panel.key is Some,
        panel.uid is Some,
        call_ensures(CameraControlsPanel::apply_profile, (panel, id, settings), write),
        id@ == "default"@ || id@ == "streaming"@ || id@ == "video_call"@,
        0 <= i < panel.sliders@.len(),
        share(id@, panel.sliders@[i].control) is None,
    ensures
        write matches Some(write) && {
            &&& write.values@.len() == panel.sliders@.len()
            &&& write.values@[i].control == panel.sliders@[i].control
            &&& id@ != "default"@ && (panel.sliders@[i].control is PowerLineFrequency
                || panel.sliders@[i].control is LowLightCompensation) ==> brought_into(
                write.values@[i].value as int,
                panel.sliders@[i].value as int,
                panel.sliders@[i].range.min as int,
                panel.sliders@[i].range.max as int,
            )
            &&& id@ == "default"@ || !(panel.sliders@[i].control is PowerLineFrequency
                || panel.sliders@[i].control is LowLightCompensation) ==> brought_into(
                write.values@[i].value as int,
                panel.sliders@[i].range.default as int,
                panel.sliders@[i].range.min as int,
                panel.sliders@[i].range.max as int,
            )
            &&& write.autos@.len() == panel.autos@.len()
            &&& 0 <= k < panel.autos@.len() ==> write.autos@[k].toggle == panel.autos@[k].toggle
                && write.autos@[k].on == (id@ != "default"@ || panel.autos@[k].default)
        },
{
    ids_differ();
    assert(BuiltinProfile::Default.name() == "default"@);
    assert(BuiltinProfile::Streaming.name() == "streaming"@);
    assert(BuiltinProfile::VideoCall.name() == "video_call"@);
    assert(panel.sliders@[i].range.valid());
}

proof fn no_builtin(id: Seq<char>)
    requires
        id != "default"@,
        id != "streaming"@,
        id != "video_call"@,
    ensures
        forall|profile: BuiltinProfile| (#[trigger] profile.name()) != id,
{
}

proof fn recorded_is_written(
    snap: CameraControls,
    panel: CameraControlsPanel,
    upto: int,
    i: int,
    v: i32,
) -> (at: int)
    requires
        panel.valid(),
        0 <= i < upto <= panel.sliders@.len(),
        snap.saved(panel.sliders@[i].control) == Some(v),
    ensures
        0 <= at < custom_values(snap, panel, upto).len(),
        custom_values(snap, panel, upto)[at].control == panel.sliders@[i].control,
        brought_into(
            custom_values(snap, panel, upto)[at].value as int,
            v as int,
            panel.sliders@[i].range.min as int,
            panel.sliders@[i].range.max as int,
        ),
    decreases upto,
{
    let rest = custom_values(snap, panel, upto - 1);
    assert(panel.sliders@[i].range.valid());
    if i == upto - 1 {
        rest.len() as int
    } else {
        recorded_is_written(snap, panel, upto - 1, i, v)
    }
}

proof fn written_is_recorded(
    snap: CameraControls,
    panel: CameraControlsPanel,
    upto: int,
    at: int,
) -> (i: int)
    requires
        panel.valid(),
        0 <= upto <= panel.sliders@.len(),
        0 <= at < custom_values(snap, panel, upto).len(),
    ensures
        0 <= i < upto,
        custom_values(snap, panel, upto)[at].control == panel.sliders@[i].control,
        snap.saved(panel.sliders@[i].control) matches Some(v) && brought_into(
            custom_values(snap, panel, upto)[at].value as int,
            v as int,
            panel.sliders@[i].range.min as int,
            panel.sliders@[i].range.max as int,
        ),
    decreases upto,
{
    let rest = custom_values(snap, panel, upto - 1);
    if at < rest.len() {
        written_is_recorded(snap, panel, upto - 1, at)
    } else {
        assert(panel.sliders@[upto - 1].range.valid());
        upto - 1
    }
}

/// A saved profile writes every value that it records, brought into the range of
/// its control, and nothing for a control that it does not record. A mode that
/// it does not record stays as it is.
pub proof fn a_saved_profile_is_written(
    panel: &CameraControlsPanel,
    id: &str,
    settings: &CameraSettings,
    write: Option<DeviceWrite>,
    i: int,
    k: int,
    at: int,
)
    requires
        panel.valid(),
        panel.key is Some,
        panel.uid is Some,
        call_ensures(CameraControlsPanel::apply_profile, (panel, id, settings), write),
        id@ != "default"@,
        id@ != "streaming"@,
        id@ != "video_call"@,
        settings.profiles@.contains_key(id@),
    ensures
        write is Some,
        0 <= i < panel.sliders@.len() ==> (settings.profiles@[id@].saved(
            panel.sliders@[i].control,
        ) matches Some(v) ==> exists|n: int|
            0 <= n < write->0.values@.len() && (#[trigger] write->0.values@[n]).control
                == panel.sliders@[i].control && brought_into(
                write->0.values@[n].value as int,
                v as int,
                panel.sliders@[i].range.min as int,
                panel.sliders@[i].range.max as int,
            )),
        0 <= at < write->0.values@.len() ==> settings.profiles@[id@].saved(
            write->0.values@[at].control,
        ) is Some,
        write->0.autos@.len() == panel.autos@.len(),
        0 <= k < panel.autos@.len() ==> {
            &&& write->0.autos@[k].toggle == panel.autos@[k].toggle
            &&& write->0.autos@[k].on == match settings.profiles@[id@].saved_mode(
                panel.autos@[k].toggle,
            ) {
                Some(mode) => mode != 0,
                None => panel.autos@[k].on,
            }
        },
{
    no_builtin(id@);
    let snap = settings.profiles@[id@];
    let n = panel.sliders@.len() as int;
    assert(write->0.values@ == custom_values(snap, *panel, n));
    if 0 <= i < n {
        if let Some(v) = snap.saved(panel.sliders@[i].control) {
            let place = recorded_is_written(snap, *panel, n, i, v);
            assert(write->0.values@[place].control == panel.sliders@[i].control);
        }
    }
    if 0 <= at < write->0.values@.len() {
        let from = written_is_recorded(snap, *panel, n, at);
    }
}

/// An id that names no profile, and a panel without a camera, write nothing.
pub proof fn unknown_profiles_write_nothing(
    panel: &CameraControlsPanel,
    id: &str,
    settings: &CameraSettings,
    write: Option<DeviceWrite>,
)
    requires
        panel.valid(),
        call_ensures(CameraControlsPanel::apply_profile, (panel, id, settings), write),
        panel.key is None || panel.uid is None || id@ != "default"@ && id@ != "streaming"@ && id@
            != "video_call"@ && !settings.profiles@.contains_key(id@),
    ensures
        write is None,
{
    if panel.key is Some && panel.uid is Some {
        no_builtin(id@);
    }
}

proof fn shown_once(sliders: Seq<ControlSlider>, i: int, upto: int)
    requires
        0 <= i < upto <= sliders.len(),
        forall|j: int|
            0 <= j < sliders.len() && j != i ==> (#[trigger] sliders[j]).control
                != sliders[i].control,
    ensures
        last_shown(sliders, sliders[i].control, upto) == Some(sliders[i].value),
    decreases upto,
{
    if upto - 1 > i {
        assert(sliders[upto - 1].control != sliders[i].control);
        shown_once(sliders, i, upto - 1);
    }
}

proof fn mode_once(rows: Seq<AutoRow>, i: int, upto: int)
    requires
        0 <= i < upto <= rows.len(),
        forall|j: int| 0 <= j < rows.len() && j != i ==> (#[trigger] rows[j]).toggle != rows[i].toggle,
    ensures
        last_mode(rows, rows[i].toggle, upto) == Some(
            if rows[i].on {
                1i32
            } else {
                0i32
            },
        ),
    decreases upto,
{
    if upto - 1 > i {
        assert(rows[upto - 1].toggle != rows[i].toggle);
        mode_once(rows, i, upto - 1);
    }
}

/// What the panel shows is saved, as a profile and under the active one's name:
/// the value of each control and the state of each mode that is there once.
pub proof fn a_snapshot_holds_what_is_shown(
    panel: &CameraControlsPanel,
    snap: CameraControls,
    i: int,
    k: int,
)
    requires
        call_ensures(CameraControlsPanel::snapshot, (panel,), snap),
    ensures
        0 <= i < panel.sliders@.len() && (forall|j: int|
            0 <= j < panel.sliders@.len() && j != i ==> (#[trigger] panel.sliders@[j]).control
                != panel.sliders@[i].control) ==> snap.saved(panel.sliders@[i].control) == Some(
            panel.sliders@[i].value,
        ),
        0 <= k < panel.autos@.len() && (forall|j: int|
            0 <= j < panel.autos@.len() && j != k ==> (#[trigger] panel.autos@[j]).toggle
                != panel.autos@[k].toggle) ==> (snap.saved_mode(panel.autos@[k].toggle) matches Some(
            mode,
        ) && (mode != 0) == panel.autos@[k].on),
{
    if 0 <= i < panel.sliders@.len() && (forall|j: int|
        0 <= j < panel.sliders@.len() && j != i ==> (#[trigger] panel.sliders@[j]).control
            != panel.sliders@[i].control) {
        shown_once(panel.sliders@, i, panel.sliders@.len() as int);
    }
    if 0 <= k < panel.autos@.len() && (forall|j: int|
        0 <= j < panel.autos@.len() && j != k ==> (#[trigger] panel.autos@[j]).toggle
            != panel.autos@[k].toggle) {
        mode_once(panel.autos@, k, panel.autos@.len() as int);
    }
}

/// The mode that the camera runs a control by, if it has one.
pub open spec fn run_by(control: CameraControl, toggle: AutoToggle) -> bool {
    ||| control is Focus && toggle is Focus
    ||| control is Exposure && toggle is Exposure
    ||| control is WhiteBalance && toggle is WhiteBalance
}

proof fn first_on(panel: CameraControlsPanel, toggle: AutoToggle, from: int, k: int)
    requires
        0 <= from <= k < panel.autos@.len(),
        panel.autos@[k].toggle == toggle,
        panel.autos@[k].on,
    ensures
        panel.on_row(toggle, from) is Some,
    decreases k - from,
{
    if from < k {
        first_on(panel, toggle, from + 1, k);
    }
}

proof fn none_on(panel: CameraControlsPanel, toggle: AutoToggle, from: int)
    requires
        0 <= from <= panel.autos@.len(),
        forall|k: int|
            0 <= k < panel.autos@.len() && (#[trigger] panel.autos@[k]).toggle == toggle
                ==> !panel.autos@[k].on,
    ensures
        panel.on_row(toggle, from) is None,
    decreases panel.autos@.len() - from,
{
    if from < panel.autos@.len() {
        assert(panel.autos@[from].toggle == toggle ==> !panel.autos@[from].on);
        none_on(panel, toggle, from + 1);
    }
}

/// A slider that is let go writes its value. Where a mode runs the control, it
/// goes off with it; no other mode is touched.
pub proof fn a_grabbed_slider_turns_its_mode_off(
    panel: &CameraControlsPanel,
    control: CameraControl,
    value: i32,
    write: DeviceWrite,
    k: int,
)
    requires
        call_ensures(CameraControlsPanel::commit_release, (panel, control, value), write),
    ensures
        write.values@.len() == 1,
        write.values@[0].control == control,
        write.values@[0].value == value,
        0 <= k < panel.autos@.len() && panel.autos@[k].on && run_by(control, panel.autos@[k].toggle)
            ==> write.autos@.len() == 1 && write.autos@[0].toggle == panel.autos@[k].toggle
            && !write.autos@[0].on,
        (forall|j: int|
            0 <= j < panel.autos@.len() && (#[trigger] panel.autos@[j]).on ==> !run_by(
                control,
                panel.autos@[j].toggle,
            )) ==> write.autos@.len() == 0,
{
    if 0 <= k < panel.autos@.len() && panel.autos@[k].on && run_by(control, panel.autos@[k].toggle) {
        first_on(*panel, panel.autos@[k].toggle, 0, k);
    }
    if forall|j: int|
        0 <= j < panel.autos@.len() && (#[trigger] panel.autos@[j]).on ==> !run_by(
            control,
            panel.autos@[j].toggle,
        ) {
        match control {
            CameraControl::Focus => none_on(*panel, AutoToggle::Focus, 0),
            CameraControl::Exposure => none_on(*panel, AutoToggle::Exposure, 0),
            CameraControl::WhiteBalance => none_on(*panel, AutoToggle::WhiteBalance, 0),
            _ => {},
        }
    }
}

proof fn first_run(panel: CameraControlsPanel, toggle: AutoToggle, from: int, i: int)
    requires
        0 <= from <= i < panel.sliders@.len(),
        run_by(panel.sliders@[i].control, toggle),
        forall|j: int|
            0 <= j < i ==> !run_by((#[trigger] panel.sliders@[j]).control, toggle),
    ensures
        panel.owned_slider(toggle, from) == Some(i),
    decreases i - from,
{
    if from < i {
        assert(!run_by(panel.sliders@[from].control, toggle));
        first_run(panel, toggle, from + 1, i);
    }
}

/// A mode is flipped. Turning it off asserts the value that the first slider of
/// its control shows; turning it on asserts none.
pub proof fn a_flipped_mode_is_written(
    panel: &CameraControlsPanel,
    ix: usize,
    write: Option<DeviceWrite>,
    i: int,
)
    requires
        panel.key is Some,
        panel.uid is Some,
        ix < panel.autos@.len(),
        call_ensures(CameraControlsPanel::toggle_auto, (panel, ix), write),
    ensures
        write matches Some(write) && {
            &&& write.autos@.len() == 1
            &&& write.autos@[0].toggle == panel.autos@[ix as int].toggle
            &&& write.autos@[0].on != panel.autos@[ix as int].on
            &&& !panel.autos@[ix as int].on ==> write.values@.len() == 0
            &&& panel.autos@[ix as int].on && 0 <= i < panel.sliders@.len() && run_by(
                panel.sliders@[i].control,
                panel.autos@[ix as int].toggle,
            ) && (forall|j: int|
                0 <= j < i ==> !run_by(
                    (#[trigger] panel.sliders@[j]).control,
                    panel.autos@[ix as int].toggle,
                )) ==> write.values@.len() == 1 && write.values@[0].control
                == panel.sliders@[i].control && write.values@[0].value == panel.sliders@[i].value
        },
{
    let toggle = panel.autos@[ix as int].toggle;
    if panel.autos@[ix as int].on && 0 <= i < panel.sliders@.len() && run_by(
        panel.sliders@[i].control,
        toggle,
    ) && (forall|j: int| 0 <= j < i ==> !run_by((#[trigger] panel.sliders@[j]).control, toggle)) {
        first_run(*panel, toggle, 0, i);
    }
}

/// A reset puts every mode and every control back to the camera's default.
pub proof fn a_reset_writes_every_default(
    panel: &CameraControlsPanel,
    write: Option<DeviceWrite>,
    i: int,
    k: int,
)
    requires
        panel.key is Some,
        panel.uid is Some,
        call_ensures(CameraControlsPanel::reset, (panel,), write),
    ensures
        write matches Some(write) && {
            &&& write.values@.len() == panel.sliders@.len()
            &&& 0 <= i < panel.sliders@.len() ==> write.values@[i].control
                == panel.sliders@[i].control && write.values@[i].value
                == panel.sliders@[i].range.default
            &&& write.autos@.len() == panel.autos@.len()
            &&& 0 <= k < panel.autos@.len() ==> write.autos@[k].toggle == panel.autos@[k].toggle
                && write.autos@[k].on == panel.autos@[k].default
        },
{
}

proof fn first_row(panel: CameraControlsPanel, toggle: AutoToggle, from: int, k: int)
    requires
        0 <= from <= k < panel.autos@.len(),
        panel.autos@[k].toggle == toggle,
        forall|j: int| 0 <= j < k ==> (#[trigger] panel.autos@[j]).toggle != toggle,
    ensures
        panel.auto_row(toggle, from) == Some(k),
    decreases k - from,
{
    if from < k {
        assert(panel.autos@[from].toggle != toggle);
        first_row(panel, toggle, from + 1, k);
    }
}

/// One control is put back to its default, together with the mode that runs it.
pub proof fn one_control_is_reset_with_its_mode(
    panel: &CameraControlsPanel,
    ix: usize,
    write: Option<DeviceWrite>,
    k: int,
)
    requires
        panel.key is Some,
        panel.uid is Some,
        ix < panel.sliders@.len(),
        call_ensures(CameraControlsPanel::reset_control, (panel, ix), write),
    ensures
        write matches Some(write) && {
            let slider = panel.sliders@[ix as int];
            &&& write.values@.len() == 1
            &&& write.values@[0].control == slider.control
            &&& write.values@[0].value == slider.range.default
            &&& !(slider.control is Focus || slider.control is Exposure
                || slider.control is WhiteBalance) ==> write.autos@.len() == 0
            &&& 0 <= k < panel.autos@.len() && run_by(slider.control, panel.autos@[k].toggle) && (
            forall|j: int|
                0 <= j < k ==> (#[trigger] panel.autos@[j]).toggle != panel.autos@[k].toggle)
                ==> write.autos@.len() == 1 && write.autos@[0].toggle == panel.autos@[k].toggle
                && write.autos@[0].on == panel.autos@[k].default
        },
{
    let slider = panel.sliders@[ix as int];
    if 0 <= k < panel.autos@.len() && run_by(slider.control, panel.autos@[k].toggle) && (forall|
        j: int,
    |
        0 <= j < k ==> (#[trigger] panel.autos@[j]).toggle != panel.autos@[k].toggle) {
        first_row(*panel, panel.autos@[k].toggle, 0, k);
    }
}

} // verus!
