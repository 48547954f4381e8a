//! The function row and its editors.

use openlogi_desktop::binding::{Action, WorkflowStep};
use openlogi_desktop::device::DeviceKind;
use openlogi_desktop::features::keyboard::editors::{
    editor_card, power_user_selected, saved_text, saved_workflow, step_kind, step_preview,
    text_editor_placeholder, text_editor_seed, workflow_editor_seed, EditorCard, Placeholder,
    PowerUserKind,
};
use openlogi_desktop::features::keyboard::function_row::{
    callout_center_x, callout_lane_is_lower, callout_left_px, callout_top_px, function_key,
    key_callout, key_is_highlighted, key_slots, key_target_left_px, key_target_top_px,
    keyboard_render_size, leader, next_selection_after_click, panel_action_rows, FunctionRowView,
    KeyBinding, KeyTrigger, Panel, FALLBACK_KEYBOARD_H, KEYBOARD_MIN_IMG_H, KEYBOARD_W,
    KEY_CALLOUT_W,
};
use openlogi_desktop::features::keyboard::key_points::{
    fallback_key_points, key_points, legacy_pixel_key_points, median_pitch, sorted_marker_points,
    KeyPoint, MarkerSet, EVEN_SPACING_END, EVEN_SPACING_START, ROW_KEYS,
};
use openlogi_desktop::services::assets::metadata::{
    Assignment, ImageEntry, Metadata, Origin, Point, ResolvedAsset,
};

fn thousandths(value: f64) -> i32 {
    (value * 1000.0).round() as i32
}

fn fraction(parts: i64) -> f64 {
    parts as f64 / 1_000_000.0
}

fn assert_approx_eq(actual: f64, expected: f64) {
    assert!((actual - expected).abs() < 0.0001, "expected {expected}, got {actual}");
}

fn legacy_asset(marker_xs: &[f64], marker_y: f64, origin: (u32, u32), png: (u32, u32)) -> ResolvedAsset {
    ResolvedAsset {
        depot: "g513".to_string(),
        display_name: "G513".to_string(),
        kind: Some(DeviceKind::Keyboard),
        image_path: "/tmp/g513.png".to_string(),
        hero_image_path: None,
        side_image_path: None,
        glow: None,
        metadata: Metadata {
            images: vec![ImageEntry {
                key: "device_image".to_string(),
                origin: Origin { width: origin.0, height: origin.1 },
                assignments: marker_xs
                    .iter()
                    .map(|x| Assignment {
                        slot_name: String::new(),
                        slot_id: String::new(),
                        marker: Point { x: thousandths(*x), y: thousandths(marker_y) },
                    })
                    .collect(),
            }],
        },
        png_width: png.0,
        png_height: png.1,
    }
}

fn assignments_from_markers(markers: &[f64]) -> Vec<Assignment> {
    markers
        .iter()
        .enumerate()
        .map(|(idx, x)| Assignment {
            slot_name: format!("slot-{idx}"),
            slot_id: String::new(),
            marker: Point { x: thousandths(*x), y: thousandths(13.0) },
        })
        .collect()
}

fn asset_with_markers(key_markers: &[f64], easy_switch_markers: &[f64]) -> ResolvedAsset {
    ResolvedAsset {
        depot: "mx_keys_s_for_mac".to_string(),
        display_name: "MX Keys S for Mac".to_string(),
        kind: Some(DeviceKind::Keyboard),
        image_path: "/tmp/mx-keys.png".to_string(),
        hero_image_path: None,
        side_image_path: None,
        glow: None,
        metadata: Metadata {
            images: vec![
                ImageEntry {
                    key: "device_keys_image".to_string(),
                    origin: Origin { width: 1872, height: 728 },
                    assignments: assignments_from_markers(key_markers),
                },
                ImageEntry {
                    key: "device_easyswitch_image".to_string(),
                    origin: Origin { width: 1872, height: 728 },
                    assignments: assignments_from_markers(easy_switch_markers),
                },
            ],
        },
        png_width: 1872,
        png_height: 728,
    }
}

fn mx_keys() -> ResolvedAsset {
    asset_with_markers(
        &[
            9.0, 13.4, 17.8, 22.3, 26.7, 31.15, 35.55, 40.05, 44.55, 49.1, 53.5, 57.9, 62.35, 81.5,
            85.9, 90.3, 94.7,
        ],
        &[67.5, 71.92, 76.3],
    )
}

#[test]
fn text_editor_seed_only_uses_matching_power_user_action() {
    assert_eq!(
        text_editor_seed(
            Some(&Action::RunAppleScript("tell app \"Finder\" to activate".into())),
            PowerUserKind::RunAppleScript,
        ),
        "tell app \"Finder\" to activate"
    );
    assert_eq!(
        text_editor_seed(
            Some(&Action::RunShellCommand("echo nope".into())),
            PowerUserKind::RunAppleScript,
        ),
        ""
    );
}

#[test]
fn workflow_editor_seed_only_uses_workflow_action() {
    let steps = || vec![WorkflowStep::TypeText("hello".into())];
    let seed = workflow_editor_seed(Some(&Action::Workflow(steps())));
    assert_eq!(format!("{seed:?}"), format!("{:?}", steps()));
    assert!(
        workflow_editor_seed(Some(&Action::RunAppleScript("display dialog \"Hello\"".into())))
            .is_empty()
    );
}

#[test]
fn clicking_the_selected_key_closes_the_panel() {
    assert_eq!(next_selection_after_click(None, 3), Some(3));
    assert_eq!(next_selection_after_click(Some(3), 3), None);
    assert_eq!(next_selection_after_click(Some(3), 4), Some(4));
}

#[test]
fn hover_or_selection_highlights_a_key() {
    assert!(key_is_highlighted(2, Some(2), None));
    assert!(key_is_highlighted(2, None, Some(2)));
    assert!(key_is_highlighted(2, Some(2), Some(7)));
    assert!(!key_is_highlighted(2, Some(1), Some(7)));
}

#[test]
fn function_row_covers_esc_through_f19() {
    let labels: Vec<&str> = (0..ROW_KEYS).map(|idx| function_key(idx).0).collect();
    assert_eq!(labels.len(), 20);
    assert_eq!(labels.first(), Some(&"Esc"));
    assert_eq!(labels.last(), Some(&"F19"));
    assert!(labels.contains(&"F13"));
    assert!(labels.contains(&"F19"));
}

#[test]
fn fallback_key_positions_cover_the_full_top_row() {
    let positions: Vec<i64> = key_points(None).iter().map(|point| point.x_frac).collect();
    assert_eq!(positions.len(), 20);
    assert_eq!(positions.first().copied(), Some(EVEN_SPACING_START));
    assert_eq!(positions.last().copied(), Some(EVEN_SPACING_END));
}

#[test]
fn mx_keys_markers_merge_function_and_easy_switch_groups() {
    let positions: Vec<f64> =
        key_points(Some(&mx_keys())).iter().map(|point| fraction(point.x_frac)).collect();
    assert_eq!(positions.len(), 20);
    assert_approx_eq(positions[0], 0.045);
    assert_approx_eq(positions[1], 0.11);
    assert_approx_eq(positions[12], 0.599);
    assert_approx_eq(positions[13], 0.695);
    assert_approx_eq(positions[15], 0.783);
    assert_approx_eq(positions[16], 0.835);
    assert_approx_eq(positions[19], 0.967);
    assert!(
        positions.windows(2).all(|pair| pair[0] < pair[1]),
        "positions should stay in physical left-to-right order"
    );
}

#[test]
fn mx_keys_markers_preserve_key_center_points() {
    let points = key_points(Some(&mx_keys()));
    assert_eq!(points.len(), 20);
    assert_approx_eq(fraction(points[19].x_frac), 0.967);
    assert_approx_eq(fraction(points[19].y_frac), 0.153);
    assert_approx_eq(
        f64::from(key_target_top_px(points[19].y_frac, 220_000, 30_000)) / 1000.0,
        18.66,
    );
}

#[test]
fn g513_pixel_markers_resolve_esc_plus_f1_to_f12() {
    let marker_xs = [
        285., 405., 525., 645., 840., 960., 1080., 1200., 1395., 1515., 1635., 1755.,
    ];
    let asset = legacy_asset(&marker_xs, 290., (2760, 1600), (2760, 1600));
    let points = key_points(Some(&asset));
    assert_eq!(points.len(), 13, "Esc + F1-F12, no phantom F13-F19");
    assert_approx_eq(fraction(points[1].x_frac), 285. / 2760.);
    assert_approx_eq(fraction(points[12].x_frac), 1755. / 2760.);
    assert_approx_eq(fraction(points[0].x_frac), (285. - 1.55 * 120.) / 2760.);
    for point in &points {
        assert_approx_eq(fraction(point.y_frac), 290. / 1600.);
    }
    assert!(
        points.windows(2).all(|pair| pair[0].x_frac < pair[1].x_frac),
        "points stay in physical left-to-right order"
    );
}

#[test]
fn pixel_markers_for_a_different_render_fall_back_to_even_spacing() {
    let marker_xs = [370., 525., 680., 835., 1090., 1250., 1400., 1555.];
    let asset = legacy_asset(&marker_xs, 300., (3598, 1315), (2760, 1600));
    let points = key_points(Some(&asset));
    assert_eq!(points.len(), ROW_KEYS);
    assert_eq!(points[0].x_frac, EVEN_SPACING_START);
    assert_eq!(points[19].x_frac, EVEN_SPACING_END);
    assert!(legacy_pixel_key_points(&asset).is_none());
}

#[test]
fn render_size_follows_the_png_aspect_up_to_the_width_cap() {
    let mx = legacy_asset(&[], 0., (1872, 728), (1872, 728));
    let (w, h) = keyboard_render_size(Some(&mx), 900_000);
    assert_eq!(w, 700_000);
    assert!((f64::from(h) / 1000. - 700. * 728. / 1872.).abs() < 0.01);

    let g513 = legacy_asset(&[], 0., (2760, 1600), (2760, 1600));
    let (w, h) = keyboard_render_size(Some(&g513), 900_000);
    assert_eq!(w, 700_000);
    assert!((f64::from(h) / 1000. - 700. * 1600. / 2760.).abs() < 0.01);

    let (w, h) = keyboard_render_size(Some(&g513), 500_000);
    assert_eq!(h, KEYBOARD_MIN_IMG_H);
    assert!((f64::from(w) - f64::from(KEYBOARD_MIN_IMG_H) * 2760. / 1600.).abs() / 1000. < 0.01);

    assert_eq!(keyboard_render_size(None, 900_000), (KEYBOARD_W, FALLBACK_KEYBOARD_H));
}

#[test]
fn callouts_spread_evenly_from_margin_to_margin() {
    let margin = i128::from(KEY_CALLOUT_W) / 2 + 4_000;
    assert_eq!(callout_center_x(0, 13, 700_000), margin);
    assert_eq!(callout_center_x(12, 13, 700_000), 700_000 - margin);
    assert_eq!(callout_center_x(0, 1, 700_000), 350_000);
    assert_eq!(callout_left_px(0, 13, 700_000, KEY_CALLOUT_W), 4_000);
    assert!(callout_left_px(12, 13, 700_000, KEY_CALLOUT_W) <= 700_000 - KEY_CALLOUT_W);
}

#[test]
fn same_lane_callouts_never_overlap() {
    for count in [13usize, 20] {
        for idx in 0..count.saturating_sub(2) {
            let gap = callout_center_x(idx + 2, count, KEYBOARD_W)
                - callout_center_x(idx, count, KEYBOARD_W);
            assert!(
                gap >= i128::from(KEY_CALLOUT_W),
                "lane neighbours {idx}/{} overlap at count {count}: gap {gap}",
                idx + 2
            );
        }
    }
}

#[test]
fn function_key_callouts_stagger_even_lower_odd_upper() {
    assert!(callout_top_px(0) > callout_top_px(1));
    assert_eq!(callout_top_px(0), callout_top_px(2));
    assert_eq!(callout_top_px(1), callout_top_px(3));
}

#[test]
fn staggered_function_key_callout_rows_fit_the_keyboard_width() {
    let lower_count = (0..ROW_KEYS).filter(|idx| callout_lane_is_lower(*idx)).count() as u32;
    let upper_count = ROW_KEYS as u32 - lower_count;
    assert!(
        KEY_CALLOUT_W * lower_count <= KEYBOARD_W,
        "lower callout lane overlaps before spacing is considered"
    );
    assert!(
        KEY_CALLOUT_W * upper_count <= KEYBOARD_W,
        "upper callout lane overlaps before spacing is considered"
    );
}

#[test]
fn headings_and_placeholders_belong_to_their_editor() {
    let kinds = [
        PowerUserKind::TypeText,
        PowerUserKind::RunAppleScript,
        PowerUserKind::RunShellCommand,
        PowerUserKind::Workflow,
    ];
    let mut keys: Vec<&str> = kinds.iter().map(|kind| kind.heading_key()).collect();
    keys.sort_unstable();
    keys.dedup();
    assert_eq!(keys.len(), 4);
    assert!(matches!(
        text_editor_placeholder(PowerUserKind::RunShellCommand),
        Placeholder::Literal(_) | Placeholder::Message(_)
    ));
}

#[test]
fn a_saved_text_comes_back_into_its_editor() {
    let saved = saved_text(PowerUserKind::TypeText, "hello".to_string()).expect("a text editor");
    assert_eq!(text_editor_seed(Some(&saved), PowerUserKind::TypeText), "hello");
    assert!(power_user_selected(Some(&saved), PowerUserKind::TypeText));
    assert!(!power_user_selected(Some(&saved), PowerUserKind::RunShellCommand));
    assert!(!power_user_selected(None, PowerUserKind::TypeText));
    assert!(saved_text(PowerUserKind::Workflow, "hello".to_string()).is_none());
}

#[test]
fn a_saved_workflow_keeps_its_steps() {
    let steps = vec![
        WorkflowStep::TypeText("a".into()),
        WorkflowStep::Delay { millis: 250 },
        WorkflowStep::PressKey("Enter".into()),
    ];
    let saved = saved_workflow(&steps);
    assert_eq!(format!("{:?}", workflow_editor_seed(Some(&saved))), format!("{steps:?}"));
    assert!(step_preview(&steps[1]).contains("250"));
    assert_ne!(step_kind(&steps[0]).0, step_kind(&steps[2]).0);
}

#[test]
fn an_editor_without_text_cannot_be_shown() {
    assert!(matches!(editor_card(PowerUserKind::TypeText, false), EditorCard::Unavailable));
    assert!(matches!(
        editor_card(PowerUserKind::TypeText, true),
        EditorCard::Text(PowerUserKind::TypeText)
    ));
    assert!(matches!(editor_card(PowerUserKind::Workflow, false), EditorCard::Workflow));
}

#[test]
fn key_codes_of_the_row_differ() {
    let mut codes: Vec<u16> = (0..ROW_KEYS).map(|idx| function_key(idx).1).collect();
    codes.sort_unstable();
    codes.dedup();
    assert_eq!(codes.len(), ROW_KEYS);
}

#[test]
fn selecting_another_key_drops_the_editor() {
    let mut view = FunctionRowView::new();
    assert_eq!(view.selected_key, None);
    view.click_key(3);
    assert_eq!(view.selected_key, Some(3));
    view.open_editor(PowerUserKind::Workflow);
    view.push_workflow_step(WorkflowStep::TypeText("x".into()));
    assert_eq!(view.workflow_draft.len(), 1);
    assert!(!view.remove_workflow_step(5));
    assert!(view.remove_workflow_step(0));
    assert!(view.set_hovered_key(Some(4)));
    assert!(!view.set_hovered_key(Some(4)));
    view.close_editor();
    assert_eq!((view.selected_key, view.active_editor), (Some(3), None));
    assert!(matches!(view.config_panel(), Panel::Actions));
    view.click_key(3);
    assert_eq!(view.selected_key, None);
    assert!(matches!(view.config_panel(), Panel::Closed));
}

#[test]
fn bound_keys_are_found_by_their_trigger() {
    let bindings = vec![KeyBinding {
        trigger: KeyTrigger { keycode: function_key(1).1, modifiers: 0 },
        action: Action::TypeText("hi".into()),
    }];
    let points = key_points(None);
    let slots = key_slots(&points, &bindings);
    assert_eq!(slots.len(), ROW_KEYS);
    assert_eq!(slots[1].bound, Some(0));
    assert_eq!(slots[2].bound, None);
    assert_eq!(slots[1].label, "F1");

    let mut view = FunctionRowView::new();
    view.select_key(Some(1));
    view.open_editor(PowerUserKind::TypeText);
    view.prepare(&slots, &bindings);
    assert_eq!(view.text.as_deref(), Some("hi"));
    assert!(matches!(
        view.config_panel(),
        Panel::Editor(EditorCard::Text(PowerUserKind::TypeText))
    ));

    let callout = key_callout(&slots[1], slots.len(), KEYBOARD_W, Some(1), None);
    assert!(callout.bound && callout.highlighted);
    assert_eq!(callout.top, callout_top_px(1));
    let line = leader(&slots[1], slots.len(), (KEYBOARD_W, FALLBACK_KEYBOARD_H), None, None);
    assert!(!line.highlighted);
    assert_eq!(line.callout_x, callout_center_x(1, slots.len(), KEYBOARD_W));
}

#[test]
fn the_row_is_drawn_from_its_art_and_its_bindings() {
    let bindings = vec![KeyBinding {
        trigger: KeyTrigger { keycode: function_key(1).1, modifiers: 0 },
        action: Action::TypeText("hi".into()),
    }];
    let mut view = FunctionRowView::new();
    view.select_key(Some(1));
    view.open_editor(PowerUserKind::TypeText);
    let screen = view.render(None, &bindings, false, 800_000);
    assert_eq!(screen.slots.len(), fallback_key_points().len());
    assert_eq!(screen.slots[1].bound, Some(0));
    assert_eq!(screen.size, (KEYBOARD_W, FALLBACK_KEYBOARD_H));
    assert!(screen.image.is_none() && screen.glow.is_none());
    assert_eq!(screen.panel, Panel::Editor(EditorCard::Text(PowerUserKind::TypeText)));
    assert_eq!(view.text.as_deref(), Some("hi"));

    view.select_key(Some(ROW_KEYS));
    let screen = view.render(None, &Vec::new(), false, 800_000);
    assert_eq!(screen.panel, Panel::Closed, "the row has no such key");
    assert_eq!(view.selected_key, None);
}

#[test]
fn key_targets_stay_on_the_picture() {
    assert_eq!(key_target_left_px(0, 700_000, 30_000), 0);
    assert_eq!(key_target_left_px(1_000_000, 700_000, 30_000), 670_000);
    assert_eq!(key_target_left_px(500_000, 700_000, 30_000), 335_000);
}

#[test]
fn even_keys_stand_in_a_row() {
    let points = fallback_key_points();
    assert!(points.windows(2).all(|pair| pair[0].x_frac < pair[1].x_frac));
    assert!(points.iter().all(|point| point.y_frac == 153_000));
}

#[test]
fn the_median_ignores_gaps_between_groups() {
    let points: Vec<KeyPoint> = [100_000, 140_000, 180_000, 300_000]
        .iter()
        .map(|x| KeyPoint { x_frac: *x, y_frac: 0 })
        .collect();
    assert_eq!(median_pitch(&points), Some(40_000));
    assert_eq!(median_pitch(&vec![KeyPoint { x_frac: 5, y_frac: 0 }]), None);
}

#[test]
fn markers_are_sorted_by_place() {
    let asset = asset_with_markers(&[62.35, 9.0, 13.4], &[67.5]);
    let points = sorted_marker_points(&asset, MarkerSet::Keys);
    assert_eq!(points.len(), 3);
    assert!(points.windows(2).all(|pair| pair[0].x_frac <= pair[1].x_frac));
    assert_eq!(sorted_marker_points(&asset, MarkerSet::EasySwitch).len(), 1);
}

#[test]
fn the_panel_offers_four_power_user_actions() {
    let offered = panel_action_rows(Some(&Action::RunShellCommand("ls".into())));
    let kinds: Vec<PowerUserKind> = offered.iter().map(|row| row.kind).collect();
    assert_eq!(
        kinds,
        [
            PowerUserKind::TypeText,
            PowerUserKind::RunAppleScript,
            PowerUserKind::RunShellCommand,
            PowerUserKind::Workflow,
        ]
    );
    let selected: Vec<bool> = offered.iter().map(|row| row.selected).collect();
    assert_eq!(selected, [false, false, true, false]);
    assert_eq!(offered[3].label, "Workflow\u{2026}");
    assert_eq!(offered[3].icon, "action-icons/list-checks.svg");
}
