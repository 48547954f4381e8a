//! What the pointer panels show and write.

use crate::features::pointer::dpi::{
    applied_preset, dpi_panel_snapshot, dpi_range_label, first_match, highlighted_preset,
    slider_element, snaps, with_preset, without_preset, DpiPanel, DpiPanelSnapshot, RangeLabel,
    SliderElement,
};
use crate::features::pointer::report_rate::{
    rate_body, report_rate_panel_snapshot, RateBody, ReportRatePanelSnapshot,
};
use crate::features::pointer::smartshift::{
    clamp_threshold, flip_permanent, smartshift_content, smartshift_write_feedback,
    threshold_from_slider, ReadyBody, SmartShiftContent, SmartShiftPanel, WheelRow, WriteFeedback,
};
use crate::hid::{
    first_nearest, not_decreasing, Dpi, ReportRateHz, SmartShiftAutoDisengage, SmartShiftStatus,
    SmartShiftThreshold, SupportedValues,
};
use crate::state::load::{DpiStatus, Load, ReportRateStatus, SmartShiftLoad};
use crate::state::smartshift::SmartShiftWriteStatus;
use crate::state::AppState;
use vstd::prelude::*;

verus! {

/// How far two values are from each other.
pub open spec fn gap(a: int, b: int) -> int {
    if a <= b {
        b - a
    } else {
        a - b
    }
}

/// Whether `value` is supported and no other supported value is nearer to
/// `wanted`, nor as near and less.
pub open spec fn is_nearest(values: Seq<u16>, wanted: int, value: int) -> bool {
    &&& exists|i: int| 0 <= i < values.len() && #[trigger] values[i] == value
    &&& forall|i: int|
        0 <= i < values.len() ==> gap(value, wanted) <= gap(#[trigger] values[i] as int, wanted)
    &&& forall|i: int|
        0 <= i < values.len() && (#[trigger] values[i]) < value ==> gap(value, wanted) < gap(
            values[i] as int,
            wanted,
        )
}

proof fn the_first_is_nearest(values: Seq<u16>, wanted: int, at: int)
    requires
        not_decreasing(values),
        first_nearest(values, wanted, at),
    ensures
        is_nearest(values, wanted, values[at] as int),
{
    assert(values[at] == values[at]);
    assert forall|i: int|
        0 <= i < values.len() && (#[trigger] values[i]) < values[at] implies gap(
        values[at] as int,
        wanted,
    ) < gap(values[i] as int, wanted) by {
        if i >= at {
            assert(values[at] <= values[i]);
        }
    }
}

proof fn one_is_nearest(values: Seq<u16>, wanted: int, a: int, b: int)
    requires
        is_nearest(values, wanted, a),
        is_nearest(values, wanted, b),
    ensures
        a == b,
{
    let i = choose|i: int| 0 <= i < values.len() && #[trigger] values[i] == a;
    let k = choose|k: int| 0 <= k < values.len() && #[trigger] values[k] == b;
    assert(values[i] == a && values[k] == b);
}

/// The value that a list has for a wanted one is the nearest that it supports;
/// of two as near it is the lesser.
pub proof fn the_nearest_value_is_taken(list: &SupportedValues, wanted: u16, value: u16)
    requires
        not_decreasing(list@),
        call_ensures(SupportedValues::nearest, (list, wanted), value),
    ensures
        is_nearest(list@, wanted as int, value as int),
{
    let at = choose|at: int| #[trigger]
        first_nearest(list@, wanted as int, at) && value == list@[at];
    the_first_is_nearest(list@, wanted as int, at);
}

/// A click on a preset writes the supported resolution nearest to it, and
/// nothing while none is known.
pub proof fn a_preset_writes_what_is_supported(
    capabilities: Option<&SupportedValues>,
    value: Dpi,
    dpi: Option<Dpi>,
)
    requires
        capabilities matches Some(list) ==> not_decreasing(list@),
        call_ensures(applied_preset, (capabilities, value), dpi),
    ensures
        capabilities is None ==> dpi is None,
        capabilities matches Some(list) ==> dpi matches Some(dpi) && is_nearest(
            list@,
            value as int,
            dpi as int,
        ),
{
    if let Some(list) = capabilities {
        let at = choose|at: int| #[trigger]
            first_nearest(list@, value as int, at) && dpi->0 == list@[at];
        the_first_is_nearest(list@, value as int, at);
    }
}

proof fn matches_first(values: Seq<Dpi>, dpi: Dpi, from: int, i: int)
    requires
        0 <= from <= i <= values.len(),
        forall|k: int| from <= k < i ==> #[trigger] values[k] != dpi,
        i < values.len() ==> values[i] == dpi,
    ensures
        first_match(values, dpi, from) == if i < values.len() {
            Some(i)
        } else {
            None
        },
    decreases i - from,
{
    if from < i {
        assert(values[from] != dpi);
        matches_first(values, dpi, from + 1, i);
    }
}

/// The preset that is highlighted is the first that stands for the resolution in
/// use; where none does, none is.
pub proof fn the_preset_in_use_is_highlighted(
    normalized: &Vec<Dpi>,
    dpi: Dpi,
    active: Option<usize>,
    i: int,
)
    requires
        call_ensures(highlighted_preset, (normalized, dpi), active),
        0 <= i <= normalized@.len(),
        forall|k: int| 0 <= k < i ==> #[trigger] normalized@[k] != dpi,
        i < normalized@.len() ==> normalized@[i] == dpi,
    ensures
        i < normalized@.len() ==> (active matches Some(at) && at == i),
        i == normalized@.len() ==> active is None,
{
    matches_first(normalized@, dpi, 0, i);
}

/// A preset that is removed is gone, one that is added stands at the end, and
/// the others keep their order.
pub proof fn presets_keep_their_order(
    presets: &Vec<Dpi>,
    idx: usize,
    dpi: Dpi,
    fewer: Vec<Dpi>,
    more: Vec<Dpi>,
    i: int,
)
    requires
        call_ensures(without_preset, (presets, idx), fewer),
        call_ensures(with_preset, (presets, dpi), more),
    ensures
        more@.len() == presets@.len() + 1,
        more@.last() == dpi,
        0 <= i < presets@.len() ==> more@[i] == presets@[i],
        idx < presets@.len() ==> fewer@.len() == presets@.len() - 1,
        idx >= presets@.len() ==> fewer@ == presets@,
        0 <= i < idx < presets@.len() ==> fewer@[i] == presets@[i],
        idx < i < presets@.len() ==> fewer@[i - 1] == presets@[i],
{
}

/// Whether a slider's thumb is at `thumb`.
pub open spec fn rests_at(panel: DpiPanel, thumb: int) -> bool {
    panel.slider matches Some(slider) && slider.thumb == thumb
}

/// A slider is made for a device and the ends of its range, with the thumb on
/// the supported resolution nearest to the one in use. A thumb that stands for
/// that one already stays where it was dragged.
pub proof fn a_thumb_moves_only_to_another_resolution(
    panel: &mut DpiPanel,
    key: &str,
    capabilities: &SupportedValues,
    dpi: Dpi,
    shown: int,
    rested: int,
)
    requires
        not_decreasing(capabilities@),
        call_ensures(DpiPanel::ensure_slider, (panel, key, capabilities, dpi), ()),
        is_nearest(capabilities@, dpi as int, shown),
        old(panel).slider matches Some(slider) ==> is_nearest(
            capabilities@,
            slider.thumb as int,
            rested,
        ),
    ensures
        final(panel).slider matches Some(slider) && {
            &&& slider.key@ == key@
            &&& slider.shape.min == capabilities@[0]
            &&& slider.shape.max == capabilities@.last()
            &&& slider.shape.step == capabilities.spec_step_hint()
        },
        (old(panel).slider matches Some(slider) && slider.key@ == key@ && slider.shape.min
            == capabilities@[0] && slider.shape.max == capabilities@.last() && slider.shape.step
            == capabilities.spec_step_hint()) ==> rests_at(
            *final(panel),
            if rested == shown {
                old(panel).slider->0.thumb as int
            } else {
                shown
            },
        ),
        !(old(panel).slider matches Some(slider) && slider.key@ == key@ && slider.shape.min
            == capabilities@[0] && slider.shape.max == capabilities@.last() && slider.shape.step
            == capabilities.spec_step_hint()) ==> rests_at(*final(panel), shown),
{
    let values = capabilities@;
    let made = final(panel).slider->0;
    assert forall|wanted: Dpi, value: Dpi| #[trigger] snaps(values, wanted, value) implies is_nearest(
        values,
        wanted as int,
        value as int,
    ) by {
        let at = choose|at: int| #[trigger]
            first_nearest(values, wanted as int, at) && value == values[at];
        the_first_is_nearest(values, wanted as int, at);
    }
    assert forall|wanted: Dpi, value: Dpi| #[trigger]
        is_nearest(values, wanted as int, value as int) implies snaps(values, wanted, value) by {
        snaps_somewhere(values, wanted);
        let other = choose|other: Dpi| #[trigger] snaps(values, wanted, other);
        one_is_nearest(values, wanted as int, value as int, other as int);
    }
    if old(panel).made_for(key@, crate::features::pointer::dpi::shape_of(*capabilities)) {
        let before = old(panel).slider->0.thumb;
        if made.thumb == before && exists|target: Dpi| #[trigger]
            snaps(values, dpi, target) && snaps(values, before, target) {
            let target = choose|target: Dpi| #[trigger]
                snaps(values, dpi, target) && snaps(values, before, target);
            one_is_nearest(values, dpi as int, shown, target as int);
            one_is_nearest(values, before as int, rested, target as int);
        } else {
            one_is_nearest(values, dpi as int, shown, made.thumb as int);
            if rested == shown {
                assert(is_nearest(values, before as int, made.thumb as int));
            }
        }
    } else {
        one_is_nearest(values, dpi as int, shown, made.thumb as int);
    }
}

proof fn snaps_somewhere(values: Seq<u16>, wanted: Dpi)
    requires
        exists|value: Dpi| is_nearest(values, wanted as int, value as int),
        not_decreasing(values),
    ensures
        exists|value: Dpi| #[trigger] snaps(values, wanted, value),
{
    let value = choose|value: Dpi| is_nearest(values, wanted as int, value as int);
    let i = choose|i: int| 0 <= i < values.len() && #[trigger] values[i] == value;
    let at = first_of(values, value, i);
    assert forall|k: int| #![trigger values[k]] 0 <= k < at implies crate::hid::distance(
        values[at] as int,
        wanted as int,
    ) < crate::hid::distance(values[k] as int, wanted as int) by {
        assert(values[k] <= values[at]);
        assert(values[k] != value);
        assert(gap(value as int, wanted as int) < gap(values[k] as int, wanted as int));
    }
    assert forall|k: int| #![trigger values[k]] 0 <= k < values.len() implies crate::hid::distance(
        values[at] as int,
        wanted as int,
    ) <= crate::hid::distance(values[k] as int, wanted as int) by {
        assert(gap(value as int, wanted as int) <= gap(values[k] as int, wanted as int));
    }
    assert(first_nearest(values, wanted as int, at));
    assert(snaps(values, wanted, value));
}

proof fn first_of(values: Seq<u16>, value: u16, i: int) -> (at: int)
    requires
        0 <= i < values.len(),
        values[i] == value,
    ensures
        0 <= at <= i,
        values[at] == value,
        forall|k: int| 0 <= k < at ==> #[trigger] values[k] != value,
    decreases i,
{
    if exists|k: int| 0 <= k < i && #[trigger] values[k] == value {
        let k = choose|k: int| 0 <= k < i && #[trigger] values[k] == value;
        first_of(values, value, k)
    } else {
        i
    }
}

/// The resolution panel says why there is no slider: a read that failed can be
/// tried again, a device out of reach is not said to be read, and a device with
/// one resolution shows it.
pub proof fn the_panel_says_why_there_is_no_slider(
    status: &DpiStatus,
    has_slider: bool,
    reachable: bool,
    element: SliderElement,
    label: RangeLabel,
)
    requires
        call_ensures(slider_element, (status, has_slider, reachable), element),
        call_ensures(dpi_range_label, (status, reachable), label),
    ensures
        *status matches Load::Ready(info) ==> {
            &&& label is Range
            &&& info.capabilities@[0] == info.capabilities@.last() ==> element
                == SliderElement::Fixed(info.capabilities@[0])
            &&& info.capabilities@[0] != info.capabilities@.last() ==> element == if has_slider {
                SliderElement::Slider
            } else {
                SliderElement::Preparing
            }
        },
        *status matches Load::Failed(why) ==> element == SliderElement::Retry && (label matches
            RangeLabel::Failed(reason) && reason@ == why@),
        *status matches Load::Unsupported(why) ==> element == SliderElement::Unsupported && (
        label matches RangeLabel::Unavailable(reason) && reason@ == why@),
        *status is Unknown || *status is Loading ==> (element == SliderElement::Reading && label
            is Loading <==> reachable) && (element == SliderElement::Offline && label is Offline
            <==> !reachable),
{
}

/// What the resolution panel shows is the selected device's; without one there
/// is nothing to set.
pub proof fn the_resolution_shown_is_the_selected_devices(
    state: &AppState,
    presets: Vec<Dpi>,
    default: Dpi,
    no_device: &str,
    snapshot: DpiPanelSnapshot,
    i: usize,
)
    requires
        call_ensures(dpi_panel_snapshot, (Some(state), presets, default, no_device), snapshot),
    ensures
        state.devices.selected == Some(i) && i < state.devices.records@.len() ==> {
            let record = state.devices.records@[i as int];
            &&& snapshot.device_key@ == record.config_key@
            &&& snapshot.dpi == state.pointer.dpi
            &&& snapshot.presets@ == presets@
            &&& snapshot.reachable == (record.route is Some)
            &&& state.pointer.reads.dpi@.contains_key(record.config_key@) ==> snapshot.status
                == state.pointer.reads.dpi@[record.config_key@].load
            &&& !state.pointer.reads.dpi@.contains_key(record.config_key@)
                ==> snapshot.status is Unknown
        },
        state.devices.selected is None ==> snapshot.dpi == default && snapshot.presets@.len() == 0
            && !snapshot.reachable && snapshot.status is Unsupported,
{
}

/// The frequency panel shows a chip for each supported frequency, in their
/// order, with the one in use marked, and says why it shows none.
pub proof fn each_frequency_has_a_chip(
    status: &ReportRateStatus,
    rate: ReportRateHz,
    reachable: bool,
    body: RateBody,
    i: int,
)
    requires
        call_ensures(rate_body, (status, rate, reachable), body),
    ensures
        *status matches Load::Ready(info) ==> body matches RateBody::Chips { chips, min, max } && {
            &&& chips@.len() == info.capabilities@.len()
            &&& 0 <= i < chips@.len() ==> chips@[i].rate == info.capabilities@[i]
                && chips@[i].active == (info.capabilities@[i] == rate)
            &&& min == info.capabilities@[0]
            &&& max == info.capabilities@.last()
        },
        *status is Failed ==> body is Retry,
        *status is Unsupported ==> body is Unsupported,
        *status is Unknown || *status is Loading ==> if reachable {
            body is Reading
        } else {
            body is Offline
        },
{
}

/// What the frequency panel shows is the selected device's.
pub proof fn the_frequency_shown_is_the_selected_devices(
    state: &AppState,
    no_device: &str,
    snapshot: ReportRatePanelSnapshot,
    i: usize,
)
    requires
        call_ensures(report_rate_panel_snapshot, (Some(state), no_device), snapshot),
    ensures
        state.devices.selected == Some(i) && i < state.devices.records@.len() ==> {
            let record = state.devices.records@[i as int];
            &&& snapshot.device_key@ == record.config_key@
            &&& snapshot.rate == state.pointer.report_rate
            &&& snapshot.reachable == (record.route is Some)
            &&& state.pointer.reads.report_rate@.contains_key(record.config_key@)
                ==> snapshot.status == state.pointer.reads.report_rate@[record.config_key@].load
            &&& !state.pointer.reads.report_rate@.contains_key(record.config_key@)
                ==> snapshot.status is Unknown
        },
        state.devices.selected is None ==> !snapshot.reachable && snapshot.status is Unsupported,
{
}

/// A threshold is shown and set within the slider's band. One that the device
/// reports below it is shown as the default, one above it as the greatest.
pub proof fn thresholds_stay_in_their_band(
    value: SmartShiftThreshold,
    shown: SmartShiftThreshold,
    raw: u8,
    slid: SmartShiftThreshold,
)
    requires
        call_ensures(clamp_threshold, (value,), shown),
        call_ensures(threshold_from_slider, (raw,), slid),
    ensures
        8 <= shown.value <= 50,
        8 <= value.value <= 50 ==> shown == value,
        value.value < 8 ==> shown.value == 16,
        value.value > 50 ==> shown.value == 50,
        8 <= slid.value <= 50,
        8 <= raw <= 50 ==> slid.value == raw,
        raw < 8 ==> slid.value == 8,
        raw > 50 ==> slid.value == 50,
{
}

/// A threshold that is let go is written with the ratchet on and the torque as
/// it was; while the configuration is not known nothing is.
pub proof fn a_released_threshold_is_written(
    panel: &mut SmartShiftPanel,
    raw: u8,
    status: Option<SmartShiftStatus>,
    write: Option<SmartShiftStatus>,
)
    requires
        old(panel).well_formed(),
        call_ensures(SmartShiftPanel::release_threshold, (panel, raw, status), write),
    ensures
        write is Some <==> status is Some,
        write matches Some(write) ==> {
            &&& write.mode is Ratchet
            &&& write.auto_disengage matches SmartShiftAutoDisengage::Threshold(threshold)
            &&& 8 <= threshold.value <= 50
            &&& 8 <= raw <= 50 ==> threshold.value == raw
            &&& write.tunable_torque == status->0.tunable_torque
        },
        final(panel).pending_threshold is None,
        8 <= raw <= 50 ==> final(panel).last_threshold.value == raw,
        final(panel).last_wheel_sensitivity == old(panel).last_wheel_sensitivity,
{
}

/// What the panel shows of a configuration, and what its switches write. The
/// threshold can be changed while the ratchet is on and lets go; a slider that
/// is dragged shows where it is, and is not moved.
pub proof fn the_panel_shows_the_configuration(
    panel: &mut SmartShiftPanel,
    status: SmartShiftStatus,
    sensitivity: Option<u8>,
    default: u8,
    body: ReadyBody,
)
    requires
        old(panel).well_formed(),
        call_ensures(SmartShiftPanel::ready_body, (panel, status, sensitivity, default), body),
    ensures
        body.ratchet <==> status.mode is Ratchet,
        body.permanent <==> status.auto_disengage is Permanent,
        body.sensitivity_enabled <==> status.mode is Ratchet && !(status.auto_disengage
            is Permanent),
        old(panel).pending_threshold matches Some(pending) ==> body.display == pending
            && body.reseat is None && final(panel).last_threshold == old(panel).last_threshold,
        old(panel).pending_threshold is None ==> match status.auto_disengage {
            SmartShiftAutoDisengage::Permanent => {
                &&& body.display == old(panel).last_threshold
                &&& body.reseat is None
            },
            SmartShiftAutoDisengage::Threshold(threshold) => {
                &&& 8 <= threshold.value <= 50 ==> body.display == threshold
                &&& body.reseat is Some <==> body.display != old(panel).last_threshold
                &&& body.reseat matches Some(to) ==> to == body.display
                &&& final(panel).last_threshold == body.display
            },
        },
        body.free.mode is Free,
        body.free.auto_disengage == status.auto_disengage,
        body.free.tunable_torque == status.tunable_torque,
        body.ratcheted.mode is Ratchet,
        body.ratcheted.auto_disengage == SmartShiftAutoDisengage::Threshold(body.restore),
        body.ratcheted.tunable_torque == status.tunable_torque,
        status.auto_disengage is Permanent ==> body.restore == old(panel).last_threshold,
        status.auto_disengage matches SmartShiftAutoDisengage::Threshold(threshold) ==> 8
            <= threshold.value <= 50 ==> body.restore == threshold,
        body.wheel.display == match old(panel).pending_wheel_sensitivity {
            Some(pending) => pending,
            None => match sensitivity {
                Some(value) => value,
                None => default,
            },
        },
        old(panel).pending_wheel_sensitivity is Some ==> body.wheel.reseat is None,
{
}

/// The permanent ratchet is written as asked; leaving it brings back the
/// threshold that is given.
pub proof fn the_permanent_ratchet_is_left_as_it_was_entered(
    status: SmartShiftStatus,
    restore: SmartShiftThreshold,
    entered: SmartShiftStatus,
    left: SmartShiftStatus,
)
    requires
        call_ensures(flip_permanent, (status, true, restore), entered),
        call_ensures(flip_permanent, (entered, false, restore), left),
    ensures
        entered.mode is Ratchet,
        entered.auto_disengage is Permanent,
        entered.tunable_torque == status.tunable_torque,
        left.mode is Ratchet,
        left.auto_disengage == SmartShiftAutoDisengage::Threshold(restore),
        left.tunable_torque == status.tunable_torque,
{
}

/// A read that failed can be tried again, a missing feature is told, and a
/// device out of reach is not said to be read. Only a configuration that is
/// shown says what became of the last write.
pub proof fn the_panel_tells_what_became_of_a_read(
    status: &SmartShiftLoad,
    reachable: bool,
    content: SmartShiftContent,
    write: Option<SmartShiftWriteStatus>,
    feedback: Option<WriteFeedback>,
)
    requires
        call_ensures(smartshift_content, (status, reachable), content),
        call_ensures(smartshift_write_feedback, (content, write), feedback),
    ensures
        *status matches Load::Ready(value) ==> content == SmartShiftContent::Ready(*value),
        *status is Failed ==> content == SmartShiftContent::Retry,
        *status is Unsupported ==> content == SmartShiftContent::Unsupported,
        *status is Unknown || *status is Loading ==> content == if reachable {
            SmartShiftContent::Reading
        } else {
            SmartShiftContent::Offline
        },
        feedback is Some <==> *status is Ready && write is Some,
        *status is Ready ==> (write matches Some(write) ==> match write {
            SmartShiftWriteStatus::Applying { .. } => feedback == Some(WriteFeedback::Reading),
            SmartShiftWriteStatus::Confirmed => feedback == Some(WriteFeedback::Done),
            SmartShiftWriteStatus::Failed => feedback == Some(WriteFeedback::Retry),
        }),
{
}

/// The wheel's sensitivity is that of the device, or else the default; the
/// slider follows a change from elsewhere, but not while it is dragged.
pub proof fn the_wheel_slider_follows_unless_dragged(
    panel: &mut SmartShiftPanel,
    committed: Option<u8>,
    default: u8,
    row: WheelRow,
)
    requires
        call_ensures(SmartShiftPanel::wheel_sensitivity_row, (panel, committed, default), row),
    ensures
        old(panel).pending_wheel_sensitivity matches Some(pending) ==> row.display == pending
            && row.reseat is None,
        old(panel).pending_wheel_sensitivity is None ==> {
            let value = match committed {
                Some(value) => value,
                None => default,
            };
            &&& row.display == value
            &&& row.reseat is Some <==> value != old(panel).last_wheel_sensitivity
            &&& row.reseat matches Some(to) ==> to == value
            &&& final(panel).last_wheel_sensitivity == value
        },
        final(panel).last_threshold == old(panel).last_threshold,
{
}

} // verus!
