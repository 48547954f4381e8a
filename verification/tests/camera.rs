//! The camera panel.

use openlogi_desktop::features::camera::controls::{
    plan_build, reapply_saved, CameraControlsPanel, CameraSettings, Reapplied,
};
use openlogi_desktop::features::camera::device::{
    AutoReading, AutoToggle, CameraControl, CameraControls, CameraState, ControlRange,
    ControlReading,
};
use openlogi_desktop::features::camera::profiles::{new_profile_name, BuiltinProfile};
use openlogi_desktop::features::camera::rows::{
    control_row, frequency_row, panel_body, profile_selected, profiles_row, section_indices,
    switched, CameraScreen, ControlRow, PanelBody, Preparation,
};
use openlogi_desktop::table::Table;

fn range(min: i32, max: i32, default: i32, current: i32) -> ControlRange {
    ControlRange {
        min,
        max,
        default,
        current,
        supports_one: true,
        supports_two: true,
        supports_three: false,
    }
}

fn state() -> CameraState {
    CameraState {
        controls: vec![
            ControlReading { control: CameraControl::Zoom, range: range(100, 400, 100, 100) },
            ControlReading { control: CameraControl::Focus, range: range(0, 255, 0, 30) },
            ControlReading { control: CameraControl::Brightness, range: range(0, 255, 128, 90) },
        ],
        autos: vec![AutoReading { toggle: AutoToggle::Focus, current: true, default: true }],
    }
}

fn settings() -> CameraSettings {
    CameraSettings { saved: CameraControls::new(), profiles: Table::new(), active_profile: None }
}

fn built(settings: &mut CameraSettings) -> CameraControlsPanel {
    let mut panel = CameraControlsPanel::new();
    assert!(panel.needs_build("cam", "uid"));
    panel.finish_build(settings, "cam", "uid", Some(&state()), Reapplied::Clean);
    assert!(!panel.needs_build("cam", "uid"));
    panel
}

#[test]
fn saved_values_are_applied_again_in_range() {
    let mut saved = CameraControls::new();
    saved.set_value(CameraControl::Zoom, 900);
    let write = plan_build(&state(), &saved);
    assert_eq!(write.values.len(), 1);
    assert_eq!(write.values[0].value, 400);
    assert!(matches!(reapply_saved(&write, false, None), Reapplied::Unknown));
    let nothing = plan_build(&state(), &CameraControls::new());
    assert!(nothing.values.is_empty() && nothing.autos.is_empty());
    assert!(matches!(reapply_saved(&nothing, true, None), Reapplied::Clean));
}

#[test]
fn a_panel_shows_what_the_camera_has() {
    let panel = built(&mut settings());
    assert_eq!(panel.sliders.len(), 3);
    assert_eq!(panel.sliders[1].value, 30);
    assert_eq!(panel.auto_state_for(CameraControl::Focus), Some(true));
    assert_eq!(panel.auto_state_for(CameraControl::Zoom), None);
    assert_eq!(section_indices(&panel.sliders, true), [0, 1]);
    assert_eq!(section_indices(&panel.sliders, false), [2]);
    assert!(matches!(panel_body(&panel), PanelBody::Sections { headed: true, .. }));
    assert!(matches!(panel_body(&CameraControlsPanel::new()), PanelBody::Unavailable));
    match control_row(&panel, 1) {
        ControlRow::Slider { dimmed, auto, .. } => {
            assert!(dimmed);
            assert_eq!(auto, Some((0, true)));
        }
        other => panic!("unexpected {other:?}"),
    }
}

#[test]
fn every_control_has_its_row() {
    let settings = &mut settings();
    let panel = built(settings);
    match panel.render(settings) {
        CameraScreen::Rows { chips, headed, lens, image } => {
            assert_eq!((chips.len(), lens.len(), image.len(), headed), (3, 2, 1, true));
            assert!(matches!(lens[1], ControlRow::Slider { value: 30, dimmed: true, .. }));
            assert!(matches!(image[0], ControlRow::Slider { value: 90, dimmed: false, .. }));
        }
        other => panic!("unexpected {other:?}"),
    }
    let empty = CameraControlsPanel::new();
    assert!(matches!(empty.render(settings), CameraScreen::Unavailable));
    let mut panel = panel;
    assert!(matches!(panel.prepare(None), Preparation::Blank));
    assert!(panel.sliders.is_empty());
}

#[test]
fn a_camera_that_is_gone_is_forgotten() {
    let mut panel = built(&mut settings());
    panel.deselect();
    assert!(panel.sliders.is_empty() && panel.key.is_none());
}

#[test]
fn a_refused_write_changes_nothing_that_is_saved() {
    let mut settings = settings();
    let mut panel = built(&mut settings);
    settings.active_profile = Some("streaming".into());
    let write = panel.reset().expect("a built panel");
    panel.finish_write(&mut settings, write, false, Some("default"));
    assert_eq!(settings.saved.value(CameraControl::Brightness), None);
    assert_eq!(settings.active_profile, None);
    assert!(panel.needs_build("cam", "uid"), "the rows are built anew");
    let mut panel = built(&mut settings);
    let write = panel.reset().expect("a built panel");
    panel.finish_write(&mut settings, write, true, Some("default"));
    assert_eq!(settings.saved.value(CameraControl::Brightness), Some(128));
    assert_eq!(settings.active_profile.as_deref(), Some("default"));
    assert_eq!(panel.sliders[2].value, 128);
}

#[test]
fn a_grabbed_slider_takes_its_control_over() {
    let mut settings = settings();
    let mut panel = built(&mut settings);
    panel.move_slider(1, 60);
    let write = panel.commit_release(CameraControl::Focus, 60);
    assert_eq!((write.autos.len(), write.autos[0].on), (1, false));
    assert_eq!(write.values[0].value, 60);
    panel.finish_release(&mut settings, CameraControl::Focus, 60, true);
    assert_eq!(panel.auto_state_for(CameraControl::Focus), Some(false));
    assert_eq!(settings.saved.value(CameraControl::Focus), Some(60));
    assert_eq!(settings.saved.auto(AutoToggle::Focus), Some(false));
    assert!(panel.commit_release(CameraControl::Focus, 61).autos.is_empty());
    panel.finish_release(&mut settings, CameraControl::Focus, 61, false);
    assert_eq!(settings.saved.value(CameraControl::Focus), Some(60));
    assert!(panel.key.is_none());
}

#[test]
fn the_row_that_is_on_is_taken_over() {
    let mut settings = settings();
    let mut panel = built(&mut settings);
    let mut off = panel.autos[0];
    off.on = false;
    panel.autos.insert(0, off);
    assert_eq!(panel.commit_release(CameraControl::Focus, 60).autos.len(), 1);
    panel.finish_release(&mut settings, CameraControl::Focus, 60, true);
    assert!(!panel.autos[0].on && !panel.autos[1].on);
    assert!(panel.commit_release(CameraControl::Brightness, 60).autos.is_empty());
}

#[test]
fn a_flipped_mode_saves_no_value() {
    let mut settings = settings();
    let mut panel = built(&mut settings);
    assert_eq!(panel.toggle_auto(0).map(|write| write.values.len()), Some(1));
    panel.finish_toggle(&mut settings, 0, true);
    assert_eq!(settings.saved.auto(AutoToggle::Focus), Some(false));
    assert_eq!(settings.saved.value(CameraControl::Focus), None);
    assert_eq!(panel.auto_state_for(CameraControl::Focus), Some(false));
    panel.finish_toggle(&mut settings, 9, false);
    assert!(panel.key.is_some(), "there is no such row");
    panel.finish_toggle(&mut settings, 0, false);
    assert!(panel.key.is_none());
    assert_eq!(settings.saved.auto(AutoToggle::Focus), Some(false));
}

#[test]
fn one_control_goes_back_to_its_default() {
    let mut settings = settings();
    let mut panel = built(&mut settings);
    panel.finish_release(&mut settings, CameraControl::Focus, 60, true);
    panel.finish_reset_control(&mut settings, 1, true);
    assert_eq!(panel.sliders[1].value, 0);
    assert_eq!(panel.auto_state_for(CameraControl::Focus), Some(true));
    assert_eq!(settings.saved.value(CameraControl::Focus), Some(0));
    assert_eq!(settings.saved.auto(AutoToggle::Focus), Some(true));
}

#[test]
fn a_panel_without_a_camera_edits_no_profile() {
    let mut settings = settings();
    let mut panel = built(&mut settings);
    assert!(settings.save_profile(&panel, "Custom ", "").is_some());
    panel.move_slider(2, 200);
    panel.finish_release(&mut settings, CameraControl::Brightness, 200, true);
    let saved = settings.profiles.get("Custom 1").expect("a profile");
    assert_eq!(saved.value(CameraControl::Brightness), Some(200), "the active profile follows");
    panel.key = None;
    panel.move_slider(2, 10);
    panel.finish_release(&mut settings, CameraControl::Brightness, 10, true);
    let saved = settings.profiles.get("Custom 1").expect("a profile");
    assert_eq!(saved.value(CameraControl::Brightness), Some(200));
    settings.delete_profile(&panel, "Custom 1");
    assert!(settings.profiles.contains_key("Custom 1"));
    assert!(settings.save_profile(&panel, "Custom ", "").is_none());
}

#[test]
fn switching_an_automatic_off_is_a_write() {
    let panel = built(&mut settings());
    let write = panel.toggle_auto(0).expect("a row");
    assert_eq!((write.autos.len(), write.autos[0].on), (1, false));
    assert!(panel.toggle_auto(9).is_none());
    assert!(panel.reset().is_some());
    let one = panel.reset_control(2).expect("a slider");
    assert_eq!(one.values[0].value, 128);
}

#[test]
fn a_saved_profile_comes_back() {
    let mut settings = settings();
    let panel = built(&mut settings);
    let name = settings.save_profile(&panel, "Custom ", "").expect("a built panel");
    assert_eq!(name, "Custom 1");
    assert_eq!(settings.active_profile.as_deref(), Some("Custom 1"));
    assert!(profile_selected(settings.active_profile.as_deref(), "Custom 1"));
    let chips = profiles_row(&settings);
    let ids: Vec<&str> = chips.iter().map(|chip| chip.id.as_str()).collect();
    assert_eq!(ids, ["default", "streaming", "video_call", "Custom 1"]);
    assert!(chips[3].selected && chips[3].deletable && !chips[0].selected && !chips[0].deletable);
    let snapshot = panel.snapshot();
    assert_eq!(snapshot.value(CameraControl::Brightness), Some(90));
    let write = panel.apply_profile("Custom 1", &settings).expect("a saved profile");
    assert!(write.values.iter().all(|setting| setting.value <= 400));
    assert_eq!(new_profile_name(&settings.profiles, "Custom ", ""), "Custom 2");
    settings.delete_profile(&panel, "Custom 1");
    assert_eq!(settings.active_profile, None);
    assert!(panel.apply_profile("Custom 1", &settings).is_none());
}

#[test]
fn builtin_profiles_are_found_by_id() {
    for profile in [BuiltinProfile::Default, BuiltinProfile::Streaming, BuiltinProfile::VideoCall] {
        assert_eq!(BuiltinProfile::find(profile.id()), Some(profile));
        assert!(!profile.builtin_label().is_empty());
    }
    assert_eq!(BuiltinProfile::find("absent"), None);
}

#[test]
fn controls_have_labels_and_automatics() {
    assert_eq!(CameraControl::Focus.auto_toggle(), Some(AutoToggle::Focus));
    assert_eq!(CameraControl::Contrast.auto_toggle(), None);
    assert!(!CameraControl::Tint.control_label().is_empty());
    assert_eq!((switched(true), switched(false)), (0, 1));
}

#[test]
fn frequencies_are_those_that_the_camera_has() {
    let mut panel = built(&mut settings());
    panel.sliders[0].control = CameraControl::PowerLineFrequency;
    panel.sliders[0].value = 2;
    let choices = frequency_row(&panel.sliders[0]);
    let active: Vec<i32> =
        choices.iter().filter(|choice| choice.active).map(|choice| choice.value).collect();
    assert_eq!(active, [2]);
    assert!(choices.iter().all(|choice| choice.value != 3));
}
