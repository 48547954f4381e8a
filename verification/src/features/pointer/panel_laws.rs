//! How the pointer panels are drawn, and what dragging does.

use crate::features::pointer::dpi::{
    highlighted_preset, slider_element, DpiPanel, DpiPanelSnapshot, DpiView, SliderElement,
};
use crate::features::pointer::report_rate::{
    rate_text, ReportRatePanel, ReportRatePanelSnapshot, ReportRateView,
};
use crate::features::pointer::smartshift::{
    smartshift_content, smartshift_write_feedback, threshold_from_slider, SensitivityChange,
    SmartShiftContent, SmartShiftPanel, SmartShiftView, WriteFeedback,
};
use crate::hid::{Dpi, ReportRateHz, SmartShiftThreshold};
use crate::state::event::StateEvent;
use crate::state::load::{Load, SmartShiftLoad};
use crate::state::smartshift::SmartShiftWriteStatus;
use crate::state::AppState;
use crate::text::push_decimal;
use vstd::prelude::*;

verus! {

/// A dragged thumb moves, and nothing else of the slider does; without a slider
/// nothing happens.
pub proof fn a_dragged_thumb_moves(panel: &mut DpiPanel, thumb: Dpi)
    requires
        call_ensures(DpiPanel::drag, (panel, thumb), ()),
    ensures
        old(panel).slider is None ==> final(panel).slider is None,
        old(panel).slider matches Some(was) ==> (final(panel).slider matches Some(now) && now.thumb
            == thumb && now.key == was.key && now.shape == was.shape),
{
}

/// The resolution panel shows the device's resolution, the element for what was
/// read of it and the preset in use; a slider is there only once it was read.
pub proof fn the_resolution_is_drawn(
    panel: &mut DpiPanel,
    snapshot: &DpiPanelSnapshot,
    normalized: &Vec<Dpi>,
    view: DpiView,
    element: SliderElement,
    active: Option<usize>,
)
    requires
        call_ensures(DpiPanel::render, (panel, snapshot, normalized), view),
        call_ensures(slider_element, (&snapshot.status, true, snapshot.reachable), element),
        call_ensures(highlighted_preset, (normalized, snapshot.dpi), active),
    ensures
        view.dpi == snapshot.dpi,
        view.element == element,
        view.active == active,
        !(snapshot.status is Ready) ==> final(panel).slider is None,
        snapshot.status matches Load::Ready(info) ==> (final(panel).slider matches Some(slider)
            ==> slider.key@ == snapshot.device_key@),
{
}

/// A frequency is written as its number in hertz.
pub proof fn a_frequency_is_in_hertz(
    rate: ReportRateHz,
    text: String,
    number: &mut String,
    panel: &ReportRatePanel,
    snapshot: &ReportRatePanelSnapshot,
    view: ReportRateView,
)
    requires
        call_ensures(rate_text, (rate,), text),
        old(number)@ == Seq::<char>::empty(),
        call_ensures(push_decimal, (number, rate as u64), ()),
        call_ensures(ReportRatePanel::render, (panel, snapshot), view),
    ensures
        text@ == final(number)@ + " Hz"@,
        snapshot.rate == rate ==> view.value@ == text@,
{
    assert(final(number)@ =~= crate::text::decimal(rate as nat));
}

/// A dragged threshold is pending, within its band, until it is let go.
pub proof fn a_dragged_threshold_is_pending(
    panel: &mut SmartShiftPanel,
    raw: u8,
    threshold: SmartShiftThreshold,
)
    requires
        old(panel).well_formed(),
        call_ensures(SmartShiftPanel::drag_threshold, (panel, raw), ()),
        call_ensures(threshold_from_slider, (raw,), threshold),
    ensures
        final(panel).pending_threshold matches Some(pending) && pending.value == threshold.value,
        final(panel).last_threshold == old(panel).last_threshold,
        final(panel).pending_wheel_sensitivity == old(panel).pending_wheel_sensitivity,
        final(panel).last_wheel_sensitivity == old(panel).last_wheel_sensitivity,
{
}

/// A dragged sensitivity is pending until it is let go; then it is the selected
/// device's.
pub proof fn a_released_sensitivity_is_the_devices(
    dragged: &mut SmartShiftPanel,
    panel: &mut SmartShiftPanel,
    value: u8,
    state: &AppState,
    change: Option<SensitivityChange>,
    i: usize,
)
    requires
        call_ensures(SmartShiftPanel::drag_wheel_sensitivity, (dragged, value), ()),
        call_ensures(
            SmartShiftPanel::release_wheel_sensitivity,
            (panel, value, Some(state)),
            change,
        ),
    ensures
        final(dragged).pending_wheel_sensitivity == Some(value),
        final(dragged).last_wheel_sensitivity == old(dragged).last_wheel_sensitivity,
        final(dragged).pending_threshold == old(dragged).pending_threshold,
        final(panel).pending_wheel_sensitivity is None,
        final(panel).last_wheel_sensitivity == value,
        final(panel).pending_threshold == old(panel).pending_threshold,
        final(panel).last_threshold == old(panel).last_threshold,
        state.devices.selected is None ==> change is None,
        state.devices.selected == Some(i) && i < state.devices.records@.len() ==> {
            let key = state.devices.records@[i as int].config_key@;
            change matches Some(change) && change.config_key@ == key && change.value == value && (
            change.event matches StateEvent::DeviceConfigChanged(told) && told@ == key)
        },
{
}

/// The SmartShift panel shows what was read of the selected device, and tells
/// what became of the last write.
pub proof fn the_selected_configuration_is_drawn(
    panel: &mut SmartShiftPanel,
    state: &AppState,
    sensitivity: Option<u8>,
    default: u8,
    view: SmartShiftView,
    i: usize,
    key: &str,
    load: SmartShiftLoad,
    content: SmartShiftContent,
    write: Option<SmartShiftWriteStatus>,
    feedback: Option<WriteFeedback>,
)
    requires
        old(panel).well_formed(),
        call_ensures(SmartShiftPanel::render, (panel, Some(state), sensitivity, default), view),
        state.devices.selected == Some(i),
        i < state.devices.records@.len(),
        key@ == state.devices.records@[i as int].config_key@,
        call_ensures(AppState::smartshift_status_for, (state, key), load),
        call_ensures(
            smartshift_content,
            (&load, state.devices.records@[i as int].route is Some),
            content,
        ),
        call_ensures(AppState::current_smartshift_write_status, (state,), write),
        call_ensures(smartshift_write_feedback, (content, write), feedback),
    ensures
        view.content == content,
        view.feedback == feedback,
        view.body is Some <==> content is Ready,
        !(content is Ready) ==> *final(panel) == *old(panel),
{
}

} // verus!
