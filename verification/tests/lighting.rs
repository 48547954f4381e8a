//! Device lighting and standalone lights.

use openlogi_desktop::device::{LightCapabilities, LightValueRange, LightValueUnit};
use openlogi_desktop::features::lighting::device::{
    color_text, edit_lighting, lighting_controls, palette, selected_prefab, swatch_selected,
    toggle_zone, zone_on, LightingEdit, LightingPanel,
};
use openlogi_desktop::features::lighting::preview::{dim, hue, next_phase, preview_rgb};
use openlogi_desktop::features::lighting::standalone::{
    format_light_value, format_range_endpoints, light_command_status, light_panel_view,
    light_status, midpoint, released_brightness, released_temperature, LightCommandStatus,
    LightPanel, LightSettings,
};
use openlogi_desktop::hid::{Lighting, LightingEffect, LightingInfo, LightingPrefab, Rgb};

fn lighting() -> Lighting {
    Lighting {
        enabled: true,
        color: Rgb { red: 1, green: 2, blue: 3 },
        brightness: 80,
        speed: 50,
        effect: LightingEffect::Solid,
        zones: Vec::new(),
    }
}

fn settings() -> LightSettings {
    LightSettings {
        enabled: true,
        brightness_percent: 40,
        temperature_kelvin: Some(4000),
        auto_camera: false,
    }
}

fn kelvin() -> LightValueRange {
    LightValueRange::new(3000, 5000, 250, LightValueUnit::Kelvin).expect("valid test range")
}

#[test]
fn sliders_use_the_advertised_range_and_grid() {
    let range = kelvin();
    assert_eq!(range.quantize(3120), 3000);
    assert_eq!(range.quantize(3370), 3250);
    assert_eq!(midpoint(range), 4000);
}

#[test]
fn range_values_use_capability_units() {
    assert_eq!(format_light_value(20, LightValueUnit::Lumens), "20 lm");
    assert_eq!(format_light_value(2700, LightValueUnit::Kelvin), "2700 K");
    assert_eq!(format_light_value(100, LightValueUnit::Percent), "100%");
}

#[test]
fn a_range_must_hold_values() {
    assert!(LightValueRange::new(5000, 3000, 250, LightValueUnit::Kelvin).is_none());
    assert_eq!(format_range_endpoints(kelvin()), ("3000 K".to_string(), "5000 K".to_string()));
    assert_eq!(kelvin().quantize(9000), 5000);
    assert_eq!(kelvin().quantize(4250), 4250);
}

#[test]
fn edits_change_one_setting() {
    let mut edited = lighting();
    edit_lighting(&mut edited, LightingEdit::Brightness(10));
    assert_eq!(edited.brightness, 10);
    edit_lighting(&mut edited, LightingEdit::Color(Rgb { red: 255, green: 0, blue: 10 }));
    assert_eq!(color_text(edited.color), "#FF000A");
    assert_eq!(edited.speed, 50);
}

#[test]
fn swatches_follow_the_color() {
    let mut current = lighting();
    current.color = palette()[2];
    let selected: Vec<bool> =
        palette().iter().map(|color| swatch_selected(*color, &current)).collect();
    assert_eq!(selected.iter().filter(|on| **on).count(), 1);
    assert!(selected[2]);
}

#[test]
fn one_zone_always_stays_lit() {
    let info = LightingInfo { prefabs: Vec::new(), zones: vec![1, 2] };
    let mut lit = lighting();
    assert!(zone_on(&lit, 1) && zone_on(&lit, 2));
    toggle_zone(&mut lit, &info, 1);
    assert!(!zone_on(&lit, 1) && zone_on(&lit, 2));
    toggle_zone(&mut lit, &info, 2);
    assert!(zone_on(&lit, 1) || zone_on(&lit, 2));
}

#[test]
fn a_second_click_lights_the_zone_again() {
    let info = LightingInfo { prefabs: Vec::new(), zones: vec![1, 2, 3] };
    let mut lit = lighting();
    toggle_zone(&mut lit, &info, 3);
    toggle_zone(&mut lit, &info, 3);
    assert!(zone_on(&lit, 1) && zone_on(&lit, 2) && zone_on(&lit, 3));
}

#[test]
fn controls_follow_the_effect() {
    let prefab = LightingPrefab {
        effect: LightingEffect::Solid,
        has_color: true,
        has_speed: false,
        has_brightness: true,
    };
    let info = LightingInfo { prefabs: vec![prefab], zones: vec![1] };
    assert!(selected_prefab(&info.prefabs, LightingEffect::Solid).is_some());
    assert_eq!(
        selected_prefab(&info.prefabs, LightingEffect::Ocean).map(|prefab| prefab.effect),
        Some(LightingEffect::Solid),
        "an effect that is not offered shows the first one's controls"
    );
    assert!(selected_prefab(&Vec::new(), LightingEffect::Ocean).is_none());
    let controls = lighting_controls(Some(&info), LightingEffect::Solid, false);
    assert!(controls.colors && !controls.speed);
}

#[test]
fn sliders_move_only_for_changes_from_elsewhere() {
    let mut panel = LightingPanel::new(&lighting());
    let still = panel.sync_sliders(&lighting());
    assert_eq!((still.brightness, still.speed), (None, None));
    let mut changed = lighting();
    changed.brightness = 20;
    let moved = panel.sync_sliders(&changed);
    assert_eq!((moved.brightness, moved.speed), (Some(20), None));
    assert_eq!((panel.last_brightness, panel.last_speed), (20, 50));
}

#[test]
fn without_a_state_the_panel_shows_the_default() {
    let mut panel = LightingPanel::new(&lighting());
    panel.tick();
    assert_eq!(panel.preview_t, 40_000);
    let mut default = lighting();
    default.speed = 10;
    let view = panel.render(None, &default, true);
    assert_eq!(view.lighting.speed, 10);
    assert_eq!((view.moves.brightness, view.moves.speed), (None, Some(10)));
    assert!(view.tiles.is_empty() && view.zones.is_empty() && !view.controls.effects);
    assert_eq!(panel.preview_t, 40_000);
}

#[test]
fn dimming_never_brightens() {
    let color = Rgb { red: 200, green: 100, blue: 0 };
    assert_eq!(dim(color, 1_000_000), 0x00c8_6400);
    assert_eq!(dim(color, 0), 0);
    assert_eq!(dim(color, 500_000), 0x0064_3200);
}

#[test]
fn the_preview_goes_round() {
    assert_eq!(next_phase(0), 40_000);
    assert_eq!(next_phase(960_000), 0);
    assert_eq!(hue(0), 0x00ff_0000);
    let color = Rgb { red: 9, green: 8, blue: 7 };
    assert_eq!(preview_rgb(LightingEffect::Solid, 0, 0, color), 0x0009_0807);
}

#[test]
fn a_light_panel_follows_its_light() {
    let capabilities = LightCapabilities { power: true, brightness: None, temperature: Some(kelvin()) };
    let mut panel = LightPanel::new(settings());
    panel.ensure_sliders(Some("light"), Some(capabilities), settings(), None);
    assert!(panel.brightness.is_none());
    assert_eq!(panel.temperature.map(|slider| slider.value), Some(4000));
    let mut warmer = settings();
    warmer.temperature_kelvin = Some(3000);
    panel.follow(warmer, None);
    assert_eq!(panel.temperature.map(|slider| slider.value), Some(3000));
    let view = light_panel_view(&panel, Some(capabilities), warmer, None, true, true);
    assert!(view.power && view.brightness.is_none());
    assert_eq!(view.temperature.expect("a slider").0, "3000 K");
}

#[test]
fn a_value_on_the_grid_is_kept() {
    let after = released_temperature(settings(), kelvin(), 4250, false);
    assert_eq!(after.temperature_kelvin, Some(4250));
    let after = released_brightness(settings(), Some(75), false).expect("a percentage");
    assert_eq!(after.brightness_percent, 75);
    assert!(released_brightness(settings(), None, false).is_none());
}

#[test]
fn a_light_says_how_it_is() {
    let on = light_status(true, true);
    let off = light_status(true, false);
    let away = light_status(false, true);
    assert!(on.0 != off.0 && off.0 != away.0 && on.0 != away.0);
    let failed = light_command_status(&LightCommandStatus::Failed("busy".into())).1.map(str::to_string);
    assert_eq!(failed.as_deref(), Some("busy"));
    assert_eq!(light_command_status(&LightCommandStatus::Pending).1, None);
}
