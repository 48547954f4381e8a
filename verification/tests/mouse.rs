//! The mouse screen: picture geometry, labels, presets and the inspector.

use openlogi_desktop::binding::{Action, ButtonId, ButtonMap, GestureDirection, GestureMap};
use openlogi_desktop::device::DeviceKind;
use openlogi_desktop::features::mouse::geometry::{
    asset_dimensions, asset_dimensions_for_png, asset_has_button_labels, asset_hotspots_for_image,
    asset_hotspots_for_png, find_image, hotspot_image_key, map_slot_id, map_slot_name,
    marker_fractions,
};
use openlogi_desktop::features::mouse::hotspots::{
    default_hotspots, Hotspot, MouseControlId, MOUSE_MODEL_SIZE,
};
use openlogi_desktop::features::mouse::inspector::{
    binding_inspector, button_inspector, empty_inspector, gesture_action, gesture_directions,
    pick_target, thumbwheel_inspector, BindingInspectorData, BindingStatus, ButtonInspector,
    Inspector, PickTarget,
};
use openlogi_desktop::features::mouse::layout::{
    default_labels, labels_from_hotspots, LabelDistribution, Side, LABEL_H,
};
use openlogi_desktop::features::mouse::thumbwheel::ThumbwheelPreset;
use openlogi_desktop::services::assets::metadata::{
    Assignment, ImageEntry, Metadata, Origin, Point, ResolvedAsset,
};

fn same(a: &Action, b: &Action) -> bool {
    a.same(b)
}

fn spot(id: ButtonId, y: i32) -> Hotspot {
    Hotspot { id: MouseControlId::Button(id), x: 0, y, w: 10_000, h: 10_000 }
}

fn mouse_asset(key: &str, slot: &str, marker: (i32, i32)) -> ResolvedAsset {
    ResolvedAsset {
        depot: "mx".into(),
        display_name: "MX".into(),
        kind: Some(DeviceKind::Mouse),
        image_path: "side.png".into(),
        hero_image_path: None,
        side_image_path: None,
        glow: None,
        metadata: Metadata {
            images: vec![ImageEntry {
                key: key.into(),
                origin: Origin { width: 100, height: 200 },
                assignments: vec![Assignment {
                    slot_name: slot.into(),
                    slot_id: String::new(),
                    marker: Point { x: marker.0, y: marker.1 },
                }],
            }],
        },
        png_width: 100,
        png_height: 200,
    }
}

#[test]
fn default_labels_include_capability_gated_thumbwheel() {
    assert!(
        !default_labels(false, LabelDistribution::LeftOnly)
            .iter()
            .any(|label| label.id == MouseControlId::ThumbwheelRotation)
    );
    assert_eq!(
        default_labels(true, LabelDistribution::LeftOnly)
            .iter()
            .filter(|label| label.id == MouseControlId::ThumbwheelRotation)
            .count(),
        1
    );
}

#[test]
fn thumbwheel_metadata_maps_to_one_rotation_control() {
    assert_eq!(map_slot_name("SLOT_NAME_THUMBWHEEL"), Some(MouseControlId::ThumbwheelRotation));
}

#[test]
fn dpi_slot_names_map_to_dpi_toggle_button() {
    assert_eq!(
        map_slot_name("SLOT_NAME_MODESHIFT_BUTTON"),
        Some(MouseControlId::Button(ButtonId::DpiToggle))
    );
    assert_eq!(
        map_slot_name("SLOT_NAME_DPI_BUTTON"),
        Some(MouseControlId::Button(ButtonId::DpiToggle))
    );
}

#[test]
fn wheel_tilt_slot_names_map_to_their_own_controls() {
    for name in ["SLOT_NAME_LEFT_SCROLL_BUTTON", "SLOT_NAME_SCROLL_LEFT"] {
        assert_eq!(
            map_slot_name(name),
            Some(MouseControlId::Button(ButtonId::WheelTiltLeft))
        );
    }
    for name in ["SLOT_NAME_RIGHT_SCROLL_BUTTON", "SLOT_NAME_SCROLL_RIGHT"] {
        assert_eq!(
            map_slot_name(name),
            Some(MouseControlId::Button(ButtonId::WheelTiltRight))
        );
    }
}

#[test]
fn labels_track_hotspots_and_avoid_crossing() {
    let hotspots = default_hotspots(true);
    let labels = labels_from_hotspots(&hotspots, MOUSE_MODEL_SIZE.1, LabelDistribution::LeftOnly);
    assert_eq!(labels.len(), hotspots.len());
    let mut ys: Vec<u32> = labels.iter().map(|l| l.y).collect();
    ys.sort_unstable();
    ys.dedup();
    assert_eq!(ys.len(), labels.len(), "each label gets a distinct slot");
}

#[test]
fn navigation_labels_stay_together_when_haptic_marker_sits_between() {
    let hotspots = vec![
        spot(ButtonId::Forward, 100_000),
        spot(ButtonId::HapticPanel, 200_000),
        spot(ButtonId::Back, 300_000),
    ];
    let mut labels =
        labels_from_hotspots(&hotspots, MOUSE_MODEL_SIZE.1, LabelDistribution::LeftOnly);
    labels.sort_by_key(|label| label.y);
    assert_eq!(
        labels.iter().map(|label| label.id).collect::<Vec<_>>(),
        [
            MouseControlId::Button(ButtonId::Forward),
            MouseControlId::Button(ButtonId::Back),
            MouseControlId::Button(ButtonId::HapticPanel),
        ]
    );
    let navigation_gap = labels[1].y - labels[0].y;
    let haptic_gap = labels[2].y - labels[1].y;
    assert!(navigation_gap < haptic_gap);
    assert!(navigation_gap >= LABEL_H);
}

#[test]
fn a_two_sided_layout_uses_both_sides() {
    let hotspots = default_hotspots(true);
    let labels = labels_from_hotspots(&hotspots, MOUSE_MODEL_SIZE.1, LabelDistribution::BothSides);
    assert!(labels.iter().any(|label| label.side == Side::Left));
    assert!(labels.iter().any(|label| label.side == Side::Right));
}

#[test]
fn g502_slot_ids_map_to_g_keys() {
    assert_eq!(
        map_slot_id("g502core_g3_m1"),
        Some(MouseControlId::Button(ButtonId::MiddleClick))
    );
    assert_eq!(map_slot_id("g502core_g7_m1"), Some(MouseControlId::Button(ButtonId::DpiUp)));
    assert_eq!(
        map_slot_id("g502_spectrum_g10_m1"),
        Some(MouseControlId::Button(ButtonId::WheelTiltLeft))
    );
    assert_eq!(map_slot_id("g502core_g99_m1"), None);
}

#[test]
fn pixel_markers_are_fractions_of_origin() {
    let (fx, fy) = marker_fractions(538_000, 614_000, 1391, 2700);
    assert!((f64::from(fx) / 1e6 - 538. / 1391.).abs() < 0.0001);
    assert!((f64::from(fy) / 1e6 - 614. / 2700.).abs() < 0.0001);
    let (px, py) = marker_fractions(73_000, 18_000, 687, 1024);
    assert!((f64::from(px) / 1e6 - 0.73).abs() < 0.0001);
    assert!((f64::from(py) / 1e6 - 0.18).abs() < 0.0001);
}

#[test]
fn presets_map_backward_and_forward_in_physical_direction() {
    let expected = [
        (Action::MouseBack, Action::MouseForward),
        (Action::Undo, Action::Redo),
        (Action::BrowserBack, Action::BrowserForward),
        (Action::PrevTab, Action::NextTab),
        (Action::PreviousDesktop, Action::NextDesktop),
        (Action::PrevTrack, Action::NextTrack),
        (Action::VolumeDown, Action::VolumeUp),
        (Action::VolumeUp, Action::VolumeDown),
        (Action::CycleDpiPresets, Action::CycleDpiPresets),
        (Action::ScrollDown, Action::ScrollUp),
        (Action::ScrollUp, Action::ScrollDown),
        (Action::HorizontalScrollRight, Action::HorizontalScrollLeft),
        (Action::HorizontalScrollLeft, Action::HorizontalScrollRight),
    ];
    for (preset, (backward, forward)) in ThumbwheelPreset::all().into_iter().zip(expected) {
        let pair = preset.pair();
        assert!(same(&pair.backward, &backward) && same(&pair.forward, &forward));
    }
}

#[test]
fn recognition_requires_an_exact_approved_pair() {
    for preset in ThumbwheelPreset::all() {
        let pair = preset.pair();
        assert_eq!(ThumbwheelPreset::recognize(&pair.backward, &pair.forward), Some(preset));
    }
    assert_eq!(
        ThumbwheelPreset::recognize(&Action::NextTab, &Action::PrevTab),
        None,
        "reversed directions are custom"
    );
    assert_eq!(
        ThumbwheelPreset::recognize(&Action::VolumeDown, &Action::NextTrack),
        None,
        "mixed actions are custom"
    );
}

#[test]
fn cycle_dpi_uses_the_same_action_in_both_directions() {
    let pair = ThumbwheelPreset::CycleDpi.pair();
    assert!(same(&pair.backward, &Action::CycleDpiPresets));
    assert!(same(&pair.forward, &Action::CycleDpiPresets));
}

#[test]
fn presets_have_a_label_and_an_icon() {
    for preset in ThumbwheelPreset::all() {
        assert!(!preset.label().is_empty());
        assert!(preset.icon().ends_with(".svg"));
    }
    assert_eq!(ThumbwheelPreset::CycleDpi.icon(), "action-icons/gauge.svg");
}

#[test]
fn pictures_keep_their_proportions() {
    assert_eq!(asset_dimensions(100, 200, 420_000, 300_000), (210_000, 420_000));
    assert_eq!(asset_dimensions(400, 100, 420_000, 300_000), (300_000, 75_000));
    assert_eq!(asset_dimensions(100, 0, 420_000, 300_000), MOUSE_MODEL_SIZE);
    let asset = mouse_asset("device_buttons_image", "SLOT_NAME_MIDDLE_BUTTON", (50_000, 50_000));
    assert_eq!(asset_dimensions_for_png(&asset, 420_000, 300_000), (210_000, 420_000));
}

#[test]
fn a_marked_control_has_a_place_on_the_picture() {
    let asset = mouse_asset("device_buttons_image", "SLOT_NAME_MIDDLE_BUTTON", (50_000, 25_000));
    assert!(asset_has_button_labels(&asset));
    assert_eq!(hotspot_image_key(&asset), "device_buttons_image");
    assert_eq!(find_image(&asset.metadata.images, "device_buttons_image"), Some(0));
    assert_eq!(find_image(&asset.metadata.images, "device_side"), None);
    let spots = asset_hotspots_for_png(&asset, 210_000, 420_000);
    assert_eq!(spots.len(), 1);
    assert_eq!(spots[0].id, MouseControlId::Button(ButtonId::MiddleClick));
    assert_eq!(spots[0].x, 105_000 - 28_000);
    assert_eq!(spots[0].y, 105_000 - 28_000);
    assert!(asset_hotspots_for_image(&asset, 210_000, 420_000, "device_side", 100, 200).is_empty());
}

#[test]
fn unknown_slots_are_not_marked() {
    let asset = mouse_asset("device_buttons_image", "SLOT_NAME_UNHEARD_OF", (50_000, 50_000));
    assert!(!asset_has_button_labels(&asset));
    assert_eq!(map_slot_name("SLOT_NAME_UNHEARD_OF"), None);
}

fn data<'a>(
    selected: Option<MouseControlId>,
    bindings: &'a ButtonMap<Action>,
    gestures: &'a ButtonMap<GestureMap>,
    defaults: &'a ButtonMap<Action>,
    editing_app: Option<&'a str>,
    overridden: Option<&'a ButtonMap<Action>>,
) -> BindingInspectorData<'a> {
    BindingInspectorData {
        selected,
        gesture_direction: None,
        action_picker_open: false,
        bindings,
        gesture_maps: gestures,
        editing_app,
        overridden,
        defaults,
        gestures_possible: true,
    }
}

#[test]
fn an_overridden_button_offers_its_way_back() {
    let mut bindings = ButtonMap::new();
    bindings.insert(ButtonId::Back, Action::Undo);
    let mut overridden = ButtonMap::new();
    overridden.insert(ButtonId::Back, Action::Undo);
    let gestures = ButtonMap::new();
    let defaults = ButtonMap::new();
    let shown = button_inspector(
        ButtonId::Back,
        &data(None, &bindings, &gestures, &defaults, Some("app"), Some(&overridden)),
    );
    match &shown {
        ButtonInspector::Single { action, status, use_default, library, .. } => {
            assert!(!library);
            assert!(same(action, &Action::Undo));
            assert_eq!(*status, BindingStatus::OverriddenIn);
            assert!(*use_default);
        }
        other => panic!("unexpected {other:?}"),
    }
    assert_eq!(pick_target(ButtonId::Back, &shown), PickTarget::Binding(ButtonId::Back));
    assert!(!BindingStatus::OverriddenIn.message().is_empty());
}

#[test]
fn nothing_selected_shows_the_empty_inspector() {
    let bindings = ButtonMap::new();
    let gestures = ButtonMap::new();
    let defaults = ButtonMap::new();
    let shown = binding_inspector(&data(None, &bindings, &gestures, &defaults, None, None));
    match shown {
        Inspector::Empty(message) => assert_eq!(message, empty_inspector(None, 0)),
        other => panic!("unexpected {other:?}"),
    }
}

#[test]
fn the_thumbwheel_shows_the_preset_it_is_bound_to() {
    let mut bindings = ButtonMap::new();
    let pair = ThumbwheelPreset::Volume.pair();
    bindings.insert(ButtonId::ThumbwheelScrollDown, pair.backward);
    bindings.insert(ButtonId::ThumbwheelScrollUp, pair.forward);
    let gestures = ButtonMap::new();
    let defaults = ButtonMap::new();
    let shown = thumbwheel_inspector(&data(
        Some(MouseControlId::ThumbwheelRotation),
        &bindings,
        &gestures,
        &defaults,
        None,
        None,
    ));
    assert_eq!(shown.current, Some(ThumbwheelPreset::Volume));
    assert_eq!(shown.label, ThumbwheelPreset::Volume.label());
    assert!(shown.presets.is_none());
}

#[test]
fn an_open_picker_shows_what_can_be_picked() {
    let mut bindings = ButtonMap::new();
    let pair = ThumbwheelPreset::Volume.pair();
    bindings.insert(ButtonId::ThumbwheelScrollDown, pair.backward);
    bindings.insert(ButtonId::ThumbwheelScrollUp, pair.forward);
    let mut gestures = ButtonMap::new();
    gestures.insert(
        ButtonId::GestureButton,
        GestureMap { up: None, down: None, left: None, right: None, click: None },
    );
    let defaults = ButtonMap::new();
    let overridden = ButtonMap::new();
    let mut open = data(None, &bindings, &gestures, &defaults, None, None);
    open.action_picker_open = true;
    let presets = thumbwheel_inspector(&open).presets.expect("an open picker");
    let picked: Vec<ThumbwheelPreset> =
        presets.iter().filter(|row| row.selected).map(|row| row.preset).collect();
    assert_eq!((presets.len(), picked.as_slice()), (13, [ThumbwheelPreset::Volume].as_slice()));
    let shown = button_inspector(ButtonId::GestureButton, &open);
    assert!(matches!(shown, ButtonInspector::Gestures { library: true, .. }));
    assert_eq!(shown.heading(), BindingStatus::FiveDirections);
    let shown = button_inspector(ButtonId::Back, &open);
    assert!(matches!(shown, ButtonInspector::Single { library: true, .. }));
    open.editing_app = Some("app");
    open.overridden = Some(&overridden);
    let shown = button_inspector(ButtonId::GestureButton, &open);
    assert!(matches!(shown, ButtonInspector::InheritedGestures { library: true }));
    assert_eq!(shown.heading(), BindingStatus::Inherited);
    open.action_picker_open = false;
    let shown = button_inspector(ButtonId::GestureButton, &open);
    assert!(matches!(shown, ButtonInspector::InheritedGestures { library: false }));
}

#[test]
fn gestures_list_all_five_directions() {
    let map = GestureMap {
        up: Some(Action::VolumeUp),
        down: None,
        left: None,
        right: None,
        click: None,
    };
    let defaults = ButtonMap::new();
    let rows = gesture_directions(GestureDirection::Up, &map, &defaults, ButtonId::GestureButton);
    assert_eq!(rows.len(), 5);
    assert_eq!(rows.iter().filter(|row| row.selected).count(), 1);
    assert!(same(
        &gesture_action(&map, &defaults, ButtonId::GestureButton, GestureDirection::Up),
        &Action::VolumeUp
    ));
}
