//! The pointer panels.

use std::sync::Arc;

use openlogi_desktop::features::pointer::dpi::{
    applied_preset, dpi_panel_snapshot, dpi_range_label, highlighted_preset, slider_element,
    with_preset, without_preset, DpiPanel, DpiPanelSnapshot, RangeLabel, SliderElement,
};
use openlogi_desktop::features::pointer::report_rate::{
    rate_body, rate_text, report_rate_panel_snapshot, RateBody, ReportRatePanel,
};
use openlogi_desktop::features::pointer::smartshift::{
    clamp_threshold, flip_permanent, smartshift_content, smartshift_write_feedback,
    threshold_from_slider, SmartShiftContent, SmartShiftPanel, WheelRow, WriteFeedback,
    DEFAULT_THRESHOLD, THRESHOLD_MAX, THRESHOLD_MIN,
};
use openlogi_desktop::hid::{
    DpiInfo, ReportRateInfo, SmartShiftAutoDisengage, SmartShiftMode, SmartShiftStatus,
    SmartShiftThreshold, SupportedValues,
};
use openlogi_desktop::state::load::{DpiStatus, Load, ReportRateStatus, SmartShiftLoad};
use openlogi_desktop::state::smartshift::SmartShiftWriteStatus;

fn threshold(value: u8) -> SmartShiftThreshold {
    SmartShiftThreshold { value }
}

fn status(auto_disengage: SmartShiftAutoDisengage) -> SmartShiftStatus {
    SmartShiftStatus { mode: SmartShiftMode::Ratchet, auto_disengage, tunable_torque: Some(30) }
}

fn values(list: &[u16], step: u16) -> SupportedValues {
    SupportedValues::new(list.to_vec(), step).expect("a list of values")
}

fn ready_dpi(list: &[u16], step: u16) -> DpiStatus {
    Load::Ready(Arc::new(DpiInfo { current: list[0], capabilities: values(list, step) }))
}

#[test]
fn clamp_threshold_heals_sub_floor_to_default() {
    assert_eq!(clamp_threshold(threshold(1)), threshold(DEFAULT_THRESHOLD));
    assert_eq!(clamp_threshold(threshold(7)), threshold(DEFAULT_THRESHOLD));
}

#[test]
fn clamp_threshold_keeps_in_band_values_and_clamps_high() {
    assert_eq!(clamp_threshold(threshold(THRESHOLD_MIN)), threshold(THRESHOLD_MIN));
    let default = threshold(16);
    assert_eq!(clamp_threshold(default), default);
    assert_eq!(clamp_threshold(threshold(200)), threshold(THRESHOLD_MAX));
}

#[test]
fn a_slider_is_kept_in_the_band() {
    assert_eq!(threshold_from_slider(3).value, 8);
    assert_eq!(threshold_from_slider(30).value, 30);
    assert_eq!(threshold_from_slider(99).value, 50);
}

#[test]
fn switching_to_the_ratchet_never_makes_it_permanent() {
    let mut panel = SmartShiftPanel::new(5);
    let body = panel.ready_body(status(SmartShiftAutoDisengage::Permanent), None, 5);
    assert!(body.permanent && !body.sensitivity_enabled);
    assert_eq!(
        body.ratcheted.auto_disengage,
        SmartShiftAutoDisengage::Threshold(threshold(DEFAULT_THRESHOLD))
    );
    assert_eq!(body.free.mode, SmartShiftMode::Free);
    assert_eq!(body.free.tunable_torque, Some(30));
}

#[test]
fn leaving_the_permanent_ratchet_restores_the_threshold() {
    let mut panel = SmartShiftPanel::new(5);
    let shown = status(SmartShiftAutoDisengage::Threshold(threshold(33)));
    let body = panel.ready_body(shown, None, 5);
    assert_eq!(body.reseat, Some(threshold(33)));
    let permanent = flip_permanent(shown, true, body.restore);
    assert_eq!(permanent.auto_disengage, SmartShiftAutoDisengage::Permanent);
    let body = panel.ready_body(permanent, Some(8), 5);
    assert_eq!(body.wheel, WheelRow { display: 8, reseat: Some(8) });
    let back = flip_permanent(permanent, false, body.restore);
    assert_eq!(back.auto_disengage, SmartShiftAutoDisengage::Threshold(threshold(33)));
}

#[test]
fn a_drag_is_shown_and_written_on_release() {
    let mut panel = SmartShiftPanel::new(5);
    let shown = status(SmartShiftAutoDisengage::Threshold(threshold(20)));
    panel.drag_threshold(41);
    let body = panel.ready_body(shown, None, 5);
    assert_eq!(body.display, threshold(41));
    assert_eq!(body.reseat, None);
    let write = panel.release_threshold(41, Some(shown)).expect("a known device");
    assert_eq!(write.auto_disengage, SmartShiftAutoDisengage::Threshold(threshold(41)));
    assert_eq!(panel.last_threshold, threshold(41));
    assert!(panel.release_threshold(41, None).is_none());
}

#[test]
fn the_wheel_slider_follows_its_device() {
    let mut panel = SmartShiftPanel::new(5);
    let row = |display, reseat| WheelRow { display, reseat };
    assert_eq!(panel.wheel_sensitivity_row(Some(7), 5), row(7, Some(7)));
    assert_eq!(panel.wheel_sensitivity_row(Some(7), 5), row(7, None));
    panel.drag_wheel_sensitivity(9);
    assert_eq!(panel.wheel_sensitivity_row(Some(3), 5), row(9, None));
    assert!(panel.release_wheel_sensitivity(9, None).is_none());
    assert_eq!(panel.wheel_sensitivity_row(None, 5), row(5, Some(5)));
}

#[test]
fn the_smartshift_panel_says_how_its_read_went() {
    let offline: SmartShiftLoad = Load::Unknown;
    assert_eq!(smartshift_content(&offline, false), SmartShiftContent::Offline);
    assert_eq!(smartshift_content(&offline, true), SmartShiftContent::Reading);
    assert_eq!(smartshift_content(&Load::Failed("x".into()), true), SmartShiftContent::Retry);
    assert_eq!(
        smartshift_content(&Load::Unsupported("x".into()), false),
        SmartShiftContent::Unsupported
    );
    let known = status(SmartShiftAutoDisengage::Permanent);
    let ready = smartshift_content(&Load::Ready(Arc::new(known)), false);
    assert_eq!(ready, SmartShiftContent::Ready(known));
    assert_eq!(
        smartshift_write_feedback(ready, Some(SmartShiftWriteStatus::Confirmed)),
        Some(WriteFeedback::Done)
    );
    assert_eq!(
        smartshift_write_feedback(ready, Some(SmartShiftWriteStatus::Failed)),
        Some(WriteFeedback::Retry)
    );
    assert_eq!(
        smartshift_write_feedback(SmartShiftContent::Reading, Some(SmartShiftWriteStatus::Failed)),
        None
    );
    let view = SmartShiftPanel::new(5).render(None, None, 5);
    assert_eq!(view.content, SmartShiftContent::Offline);
    assert!(view.body.is_none() && view.feedback.is_none());
}

#[test]
fn a_drag_between_two_stops_is_left_alone() {
    let list = values(&[800, 1600, 3200], 50);
    let mut panel = DpiPanel::new();
    panel.ensure_slider("unit:1", &list, 1550);
    assert_eq!(panel.slider.as_ref().map(|slider| slider.thumb), Some(1600));
    panel.drag(1700);
    panel.ensure_slider("unit:1", &list, 1600);
    assert_eq!(panel.slider.as_ref().map(|slider| slider.thumb), Some(1700));
    panel.ensure_slider("unit:1", &list, 3200);
    assert_eq!(panel.slider.as_ref().map(|slider| slider.thumb), Some(3200));
    panel.ensure_slider("unit:2", &list, 900);
    assert_eq!(panel.slider.as_ref().map(|slider| slider.thumb), Some(800));
    panel.drop_slider();
    assert!(panel.slider.is_none());
}

#[test]
fn one_preset_is_highlighted() {
    assert_eq!(highlighted_preset(&vec![800, 1600, 1600], 1600), Some(1));
    assert_eq!(highlighted_preset(&vec![800], 1600), None);
    assert_eq!(with_preset(&vec![800], 800), [800, 800]);
    assert_eq!(without_preset(&vec![800, 1600], 0), [1600]);
    assert_eq!(without_preset(&vec![800, 1600], 7), [800, 1600]);
}

#[test]
fn presets_are_applied_as_the_device_supports_them() {
    let list = values(&[800, 1600], 800);
    assert_eq!(applied_preset(Some(&list), 1500), Some(1600));
    assert_eq!(applied_preset(None, 1500), None);
}

#[test]
fn the_resolution_panel_says_how_its_read_went() {
    match dpi_range_label(&ready_dpi(&[200, 8000], 50), true) {
        RangeLabel::Range(text) => assert_eq!(text, "200\u{2013}8000 \u{b7} step 50"),
        other => panic!("unexpected {other:?}"),
    }
    assert!(matches!(dpi_range_label(&Load::Loading, false), RangeLabel::Offline));
    assert!(matches!(dpi_range_label(&Load::Unknown, true), RangeLabel::Loading));
    assert!(matches!(dpi_range_label(&Load::Failed("x".into()), true), RangeLabel::Failed(_)));
    assert!(matches!(
        dpi_range_label(&Load::Unsupported("x".into()), true),
        RangeLabel::Unavailable(_)
    ));
    assert_eq!(slider_element(&ready_dpi(&[800], 1), true, true), SliderElement::Fixed(800));
    assert_eq!(slider_element(&ready_dpi(&[800, 900], 1), true, true), SliderElement::Slider);
    assert_eq!(slider_element(&ready_dpi(&[800, 900], 1), false, true), SliderElement::Preparing);
    assert_eq!(slider_element(&Load::Loading, true, false), SliderElement::Offline);
    assert_eq!(slider_element(&Load::Loading, true, true), SliderElement::Reading);
    assert_eq!(slider_element(&Load::Failed("x".into()), true, true), SliderElement::Retry);
    assert_eq!(
        slider_element(&Load::Unsupported("x".into()), true, true),
        SliderElement::Unsupported
    );
    let without = dpi_panel_snapshot(None, vec![800], 1000, "none");
    assert_eq!((without.dpi, without.presets.len(), without.reachable), (1000, 0, false));
}

#[test]
fn the_frequency_panel_marks_the_one_in_use() {
    let ready: ReportRateStatus = Load::Ready(Arc::new(ReportRateInfo {
        current: 500,
        capabilities: values(&[125, 500, 1000], 1),
    }));
    match rate_body(&ready, 500, true) {
        RateBody::Chips { chips, min, max } => {
            assert_eq!((min, max), (125, 1000));
            let active: Vec<bool> = chips.iter().map(|chip| chip.active).collect();
            assert_eq!(active, [false, true, false]);
        }
        other => panic!("unexpected {other:?}"),
    }
    assert!(matches!(rate_body(&Load::Loading, 500, false), RateBody::Offline));
    assert!(matches!(rate_body(&Load::Loading, 500, true), RateBody::Reading));
    assert!(matches!(rate_body(&Load::Failed("x".into()), 500, true), RateBody::Retry));
    assert!(matches!(rate_body(&Load::Unsupported("x".into()), 500, true), RateBody::Unsupported));
    assert_eq!(rate_text(1000), "1000 Hz");
    let without = report_rate_panel_snapshot(None, "none");
    assert_eq!((without.rate, without.reachable), (1000, false));
}

#[test]
fn the_resolution_slider_lives_while_the_device_is_known() {
    let mut panel = DpiPanel::new();
    let mut snapshot = DpiPanelSnapshot {
        device_key: "unit:1".into(),
        dpi: 1600,
        presets: vec![800, 1600],
        status: ready_dpi(&[800, 1600], 800),
        reachable: true,
    };
    let view = panel.render(&snapshot, &vec![800, 1600]);
    assert_eq!((view.dpi, view.active), (1600, Some(1)));
    assert_eq!(view.element, SliderElement::Slider);
    assert!(panel.slider.is_some());
    snapshot.status = Load::Failed("x".into());
    let view = panel.render(&snapshot, &vec![800, 1600]);
    assert_eq!(view.element, SliderElement::Retry);
    assert!(panel.slider.is_none());
}

#[test]
fn the_frequency_panel_shows_its_value() {
    let view = ReportRatePanel::new().render(&report_rate_panel_snapshot(None, "none"));
    assert_eq!(view.value, "1000 Hz");
    assert!(matches!(view.body, RateBody::Unsupported));
}
