//! The main window: its cards, rows, frames and phrases.

use std::sync::Arc;

use openlogi_desktop::device::{
    BatteryInfo, Capabilities, DeviceKind, DeviceModelInfo, DeviceRoute, DeviceTransports,
    LightCapabilities, LightValueRange, LightValueUnit,
};
use openlogi_desktop::features::action_ring::{
    current_device_supports_haptics, toggle_label, ActionRingPanel, SlotIcon, SlotLabel,
};
use openlogi_desktop::features::keyboard::function_row::{keyboard_render_size, FunctionRowView};
use openlogi_desktop::features::lighting::standalone::{
    camera_automation, LightCommandStatus, LightPanel, LightSettings,
};
use openlogi_desktop::hid::{Lighting, LightingEffect, Rgb};
use openlogi_desktop::record::DeviceRecord;
use openlogi_desktop::services::assets::metadata::{
    GlowGeometry, GlowSegment, Metadata, ResolvedAsset,
};
use openlogi_desktop::services::device_reads::DeviceReads;
use openlogi_desktop::state::action_ring::{
    ActionRingEntry, ActionRingLayout, ActionRingSlot, RingDefaults,
};
use openlogi_desktop::state::catalog::DeviceCatalog;
use openlogi_desktop::state::config::Config;
use openlogi_desktop::state::event::{Panel, StateEvent};
use openlogi_desktop::state::{AppState, PointerState};
use openlogi_desktop::table::Table;
use openlogi_desktop::window::home::glow::{glow_quads, Bounds};
use openlogi_desktop::window::home::views::{
    carousel_position, carousel_selected, device_accessibility_description, device_card_element,
    device_gallery, device_grid, device_list, device_list_row, device_view_switcher, gallery_mode,
    ordered_device_indices, view_switched, DeviceViewMode, Gallery,
};
use openlogi_desktop::window::home::{
    connection_icon_path, connection_summary, custom_model_subtitle, device_count_label,
    device_image, device_menu, keyboard_glow, transport_glance, ConnectionIcon, DeviceFacts,
    DeviceImage, GlanceColor,
};
use openlogi_desktop::window::phrase::compose;
use openlogi_desktop::window::status::{
    attention_footer, config_issue_body, connecting_body, device_empty_state,
    device_scanning_state, outdated_gui_body, scanning_unavailable_state, unreachable_body, Frame,
    FrameButton,
};
use openlogi_desktop::window::widgets::{kind_label, main_window_title, route_label, status_badge};

fn record(key: &str, online: bool) -> DeviceRecord {
    DeviceRecord {
        config_key: key.into(),
        canonical_key: None,
        persistent: true,
        inventory_key: key.into(),
        record_key: format!("card:{key}"),
        direct_prefix: None,
        wire_pid: None,
        order_key: key.into(),
        route_key: "receiver:1".into(),
        model_key: "model".into(),
        model_name: "MX Keys".into(),
        display_name: "MX Keys".into(),
        asset: None,
        model_info: None,
        codename: None,
        serial_number: None,
        unit_id: 0,
        firmware_serial_number: None,
        firmware_unit_id: 0,
        driver_id: None,
        registry_model_id: None,
        route: Some(DeviceRoute::Bolt { endpoint: 1 }),
        capture_id: None,
        kind: DeviceKind::Keyboard,
        capabilities: None,
        light_capabilities: None,
        slot: 2,
        online,
        battery: None,
    }
}

fn art(depot: &str) -> ResolvedAsset {
    ResolvedAsset {
        depot: depot.into(),
        display_name: "MX Keys".into(),
        kind: Some(DeviceKind::Keyboard),
        image_path: format!("/cache/{depot}/front.png"),
        hero_image_path: None,
        side_image_path: None,
        glow: None,
        metadata: Metadata { images: Vec::new() },
        png_width: 600,
        png_height: 200,
    }
}

fn ring() -> RingDefaults {
    RingDefaults { enabled: true, haptics: false, layout: ActionRingLayout { slots: [None; 8] } }
}

fn state(records: Vec<DeviceRecord>) -> AppState {
    let mut devices = DeviceCatalog::new();
    devices.replace(records, 0);
    AppState {
        devices,
        config: Config::new(),
        pointer: PointerState {
            reads: DeviceReads::new(),
            dpi: 1000,
            report_rate: 1000,
            next_smartshift_write_id: 0,
        },
        editing_app: None,
        onboard_leds: Table::new(),
        ring_defaults: ring(),
        default_dpi: 1000,
        inventory_miss_grace: 2,
    }
}

fn facts() -> DeviceFacts {
    DeviceFacts { enabled: true, light_on: true, transient: false }
}

fn transports(usb: bool, equad: bool, btle: bool, bluetooth: bool) -> Option<DeviceTransports> {
    Some(DeviceTransports { usb, equad, btle, bluetooth })
}

fn english() -> Table<String> {
    let mut messages = Table::new();
    for (key, text) in [
        ("device.connected", "Connected"),
        ("device.offline", "Offline"),
        ("device.bolt_receiver", "Bolt receiver"),
        ("device.channel", "channel"),
        ("device.keyboard", "Keyboard"),
        ("device.battery", "Battery"),
        ("device.last_known_battery", "Last known battery"),
        ("device.charging", "Charging"),
    ] {
        messages.insert(key, text.to_string());
    }
    messages
}

#[test]
fn a_direct_link_is_a_cable_only_without_a_radio() {
    let direct = Some(DeviceRoute::Direct { endpoint: 1 });
    assert_eq!(
        connection_icon_path(direct, transports(true, false, false, false)),
        "action-icons/usb.svg"
    );
    assert_eq!(
        connection_icon_path(direct, transports(false, true, false, false)),
        "action-icons/usb.svg"
    );
    assert_eq!(
        connection_icon_path(direct, transports(true, false, true, false)),
        "action-icons/bluetooth.svg"
    );
    assert_eq!(connection_icon_path(None, None), "action-icons/bluetooth.svg");
    assert_eq!(
        connection_icon_path(direct, transports(false, false, false, false)),
        "action-icons/bluetooth.svg"
    );
    assert_eq!(
        connection_icon_path(Some(DeviceRoute::RawHid { endpoint: 1 }), None),
        "action-icons/usb.svg"
    );
    assert_eq!(
        connection_icon_path(Some(DeviceRoute::Unifying { endpoint: 1 }), None),
        "action-icons/unifying.svg"
    );
}

#[test]
fn connected_devices_are_shown_first() {
    let records = vec![record("a", false), record("b", true), record("c", false), record("d", true)];
    assert_eq!(ordered_device_indices(&records), [1, 3, 0, 2]);
    assert_eq!(carousel_position(&vec![1, 3, 0, 2], 0), 2);
    assert_eq!(carousel_position(&vec![1, 3, 0, 2], 9), 0);
}

#[test]
fn the_gallery_shows_every_device_once() {
    let state = state(vec![record("a", false), record("b", true), record("c", false)]);
    let away = DeviceFacts { enabled: false, ..facts() };
    let all = vec![facts(), facts(), away];
    let rows = device_list(&state, &all);
    let keys: Vec<&str> = rows.iter().map(|row| row.record_key.as_str()).collect();
    assert_eq!(keys, ["card:b", "card:a", "card:c"]);
    let ringed: Vec<bool> = rows.iter().map(|row| row.ringed).collect();
    assert_eq!(ringed, [false, false, true]);
    let active: Vec<bool> = rows.iter().map(|row| row.active).collect();
    assert_eq!(active, [false, true, false]);
    let cards = device_grid(&state, &all);
    let keys: Vec<&str> = cards.iter().map(|card| card.card.record_key.as_str()).collect();
    assert_eq!(keys, ["card:b", "card:a", "card:c"]);
    assert!(matches!(device_gallery(&state, &all, None), Gallery::Grid(cards) if cards.len() == 3));
    let list = device_gallery(&state, &all, Some(DeviceViewMode::List));
    assert!(matches!(list, Gallery::List(rows) if rows.len() == 3));
    let carousel = device_gallery(&state, &all, Some(DeviceViewMode::Carousel));
    assert!(matches!(carousel, Gallery::Carousel(cards, 1) if cards.len() == 3));
}

#[test]
fn a_light_is_shown_with_its_name_and_its_last_command() {
    let settings = LightSettings {
        enabled: true,
        brightness_percent: 40,
        temperature_kelvin: Some(4000),
        auto_camera: false,
    };
    let mut light = record("light:1", true);
    light.kind = DeviceKind::Light;
    light.display_name = "Litra Glow".into();
    light.light_capabilities = Some(LightCapabilities {
        power: true,
        brightness: LightValueRange::new(20, 250, 1, LightValueUnit::Lumens),
        temperature: None,
    });
    let state = state(vec![light]);
    let mut panel = LightPanel::new(settings);
    let failed = LightCommandStatus::Failed("busy".into());
    let screen = panel.render(Some(&state), settings, Some(112), true, Some(&failed), true);
    assert_eq!(compose(&vec![screen.name], &english()), "Litra Glow");
    assert_eq!(screen.automation, Some(false));
    assert!(camera_automation(settings, true).auto_camera);
    assert_eq!(screen.view.brightness.map(|shown| shown.0).as_deref(), Some("112 lm"));
    assert!(screen.view.power && screen.view.temperature.is_none());
    let (message, reason) = screen.command.expect("a command that failed");
    assert_eq!((message, reason.as_deref()), ("common.unavailable", Some("busy")));
    assert_eq!(panel.device_key.as_deref(), Some("light:1"));
    let screen = panel.render(None, settings, None, true, None, true);
    assert_eq!(compose(&vec![screen.name], &english()), "device.lighting");
    assert!(screen.automation.is_none() && screen.command.is_none());
    assert!(screen.view.brightness.is_none());
    assert!(panel.brightness.is_none());
}

#[test]
fn the_carousel_selects_the_device_it_rests_on() {
    let mut state = state(vec![record("a", false), record("b", true)]);
    let order = ordered_device_indices(&state.devices.records);
    let (selection, event) = carousel_selected(&mut state, &order, 0).expect("another device");
    assert_eq!(selection.key, "b");
    assert!(matches!(event, StateEvent::DeviceSelected(key) if key == "b"));
    assert!(carousel_selected(&mut state, &order, 0).is_none());
    assert!(carousel_selected(&mut state, &order, 5).is_none());
}

#[test]
fn a_link_is_summed_up_in_words() {
    let mut keyboard = record("a", true);
    assert_eq!(
        compose(&connection_summary(&keyboard), &english()),
        "Bolt receiver \u{b7} channel 2"
    );
    keyboard.route = Some(DeviceRoute::Direct { endpoint: 4 });
    assert_eq!(compose(&connection_summary(&keyboard), &english()), "device.direct_connection");
    keyboard.route = None;
    assert_eq!(route_label(keyboard.route), "common.unavailable");
}

#[test]
fn screen_readers_are_told_everything() {
    let mut keyboard = record("a", true);
    assert_eq!(
        compose(&device_accessibility_description(&keyboard), &english()),
        "Connected. Keyboard. Bolt receiver \u{b7} channel 2."
    );
    keyboard.display_name = "Desk".into();
    keyboard.battery = Some(BatteryInfo { percentage: 70, level: 3, status: 0, charging_without_reading: false });
    keyboard.online = false;
    assert_eq!(
        compose(&device_accessibility_description(&keyboard), &english()),
        "Offline. MX Keys. Keyboard. Bolt receiver \u{b7} channel 2. Last known battery 70%."
    );
    keyboard.battery = Some(BatteryInfo { percentage: 0, level: 0, status: 1, charging_without_reading: true });
    keyboard.online = true;
    assert_eq!(
        compose(&device_accessibility_description(&keyboard), &english()),
        "Connected. MX Keys. Keyboard. Bolt receiver \u{b7} channel 2. Charging."
    );
}

#[test]
fn a_card_says_what_its_device_is() {
    let mut named = record("a", false);
    named.display_name = "Desk".into();
    let mut half_read = record("b", true);
    half_read.persistent = false;
    let state = state(vec![named, half_read]);
    let shown = device_card_element(&state, 0, 1, facts());
    assert_eq!(shown.card.subtitle.as_deref(), Some("MX Keys"));
    assert_eq!((shown.card.opacity, shown.card.ringed, shown.active), (38, false, false));
    assert!(shown.card.menu.expect("a remembered device").deletable);
    assert_eq!(shown.card.glance.icon, ConnectionIcon::Bolt);
    assert_eq!(shown.card.glance.color, GlanceColor::Connected);
    assert_eq!(compose(&shown.card.glance.hint, &english()), "Offline \u{b7} Bolt receiver \u{b7} channel 2");
    let row = device_list_row(&state, 1, 1, DeviceFacts { enabled: false, ..facts() });
    assert!(row.active && row.ringed && row.menu.is_none() && row.subtitle.is_none());
    assert_eq!((row.opacity, row.connection.status), (100, "device.connected"));
    assert_eq!(row.kind, "device.keyboard");
}

#[test]
fn only_offline_devices_can_be_deleted() {
    let mut named = record("a", true);
    named.display_name = "Desk".into();
    let menu = device_menu(&named);
    assert!(!menu.deletable);
    assert_eq!(menu.custom_name, "Desk");
    let plain = device_menu(&record("a", false));
    assert_eq!(plain.custom_name, "");
    assert!(custom_model_subtitle(&record("a", true)).is_none());
}

#[test]
fn pictures_fall_back_to_glyphs() {
    let mut shown = record("a", true);
    assert!(matches!(device_image(&shown, true), DeviceImage::Chip));
    shown.kind = DeviceKind::Camera;
    assert!(matches!(device_image(&shown, true), DeviceImage::Camera));
    assert_eq!(transport_glance(&shown).icon, ConnectionIcon::Usb);
    shown.asset =
        Some(Arc::new(ResolvedAsset { hero_image_path: Some("front.png".into()), ..art("d") }));
    assert!(matches!(device_image(&shown, true), DeviceImage::Picture(path) if path == "front.png"));
    shown.kind = DeviceKind::Light;
    assert!(matches!(
        device_image(&shown, false),
        DeviceImage::Light { online: true, enabled: false }
    ));
    shown.kind = DeviceKind::Mouse;
    shown.route = Some(DeviceRoute::Direct { endpoint: 1 });
    shown.model_info = Some(DeviceModelInfo {
        entity_count: 1,
        transports: DeviceTransports { usb: true, equad: false, btle: false, bluetooth: false },
        model_id_1: 0,
        model_id_2: 0,
        model_id_3: 0,
        extended_model_id: 0,
    });
    assert_eq!(transport_glance(&shown).color, GlanceColor::Muted);
}

#[test]
fn a_keyboard_glows_in_its_color() {
    let mut keyboard = record("unit:1", true);
    let gaps = Arc::new(GlowGeometry { aspect: 3_000_000, segments: Vec::new() });
    keyboard.asset = Some(Arc::new(ResolvedAsset { glow: Some(gaps), ..art("k") }));
    let mut state = state(vec![keyboard]);
    assert!(keyboard_glow(&state, &state.devices.records[0], false).is_none());
    let lit = Lighting {
        enabled: true,
        color: Rgb { red: 9, green: 8, blue: 7 },
        brightness: 100,
        speed: 0,
        effect: LightingEffect::Solid,
        zones: Vec::new(),
    };
    assert!(state.commit_lighting(&lit).is_some());
    let glow = keyboard_glow(&state, &state.devices.records[0], false);
    let (gaps, color) = glow.expect("a lit keyboard");
    assert_eq!((gaps.aspect, color), (3_000_000, Rgb { red: 9, green: 8, blue: 7 }));
    let mut row = FunctionRowView::new();
    let screen = row.render(Some(&state), &Vec::new(), false, 800_000);
    assert_eq!(screen.image.as_deref(), Some("/cache/k/front.png"));
    assert_eq!(screen.size, keyboard_render_size(Some(&art("k")), 800_000));
    assert_eq!(screen.glow.map(|(_, color)| color), Some(color));
    let off = Lighting { enabled: false, ..lit };
    assert!(state.commit_lighting(&off).is_some());
    assert!(keyboard_glow(&state, &state.devices.records[0], false).is_none());
}

#[test]
fn the_glow_is_laid_over_the_picture() {
    let geometry = GlowGeometry {
        aspect: 2_000_000,
        segments: vec![GlowSegment { x: 500_000, y: 250_000, w: 100_000, h: 0 }],
    };
    let quads = glow_quads(&geometry, 10_000, 0, 200_000, 200_000);
    assert_eq!(quads, [Bounds { x: 110_000, y: 75_000, w: 20_000, h: 1_000 }]);
    assert!(glow_quads(&geometry, 0, 0, 0, 5).is_empty());
}

#[test]
fn layouts_are_switched_by_checking_one() {
    let toggles = device_view_switcher(DeviceViewMode::List);
    let checked: Vec<bool> = toggles.iter().map(|toggle| toggle.checked).collect();
    assert_eq!(checked, [false, true, false]);
    assert_eq!(view_switched(DeviceViewMode::Grid, true), Some(DeviceViewMode::Grid));
    assert_eq!(view_switched(DeviceViewMode::Grid, false), None);
    assert_eq!(gallery_mode(None), DeviceViewMode::Grid);
}

#[test]
fn titles_and_counts_follow_the_devices() {
    let state = state(vec![record("a", true)]);
    assert_eq!(main_window_title(true, Some(&state)), "OpenLogi - MX Keys");
    assert_eq!(main_window_title(false, Some(&state)), "OpenLogi");
    assert_eq!(main_window_title(true, None), "OpenLogi");
    assert_eq!(device_count_label(1), ("device.device_count_singular", 1));
    assert_eq!(device_count_label(0), ("device.device_count_plural", 0));
    assert_eq!(status_badge(false), "device.offline");
    assert_eq!(kind_label(DeviceKind::Light), "device.lighting");
}

#[test]
fn frames_stand_in_for_the_screens() {
    assert!(matches!(connecting_body(), Frame::Loading { .. }));
    assert!(matches!(device_scanning_state(), Frame::Loading { .. }));
    assert!(matches!(unreachable_body(), Frame::Notice { buttons, .. } if buttons.is_empty()));
    assert!(matches!(scanning_unavailable_state(), Frame::Notice { buttons, .. } if buttons.is_empty()));
    assert!(matches!(
        outdated_gui_body(),
        Frame::Notice { buttons, .. } if buttons == [FrameButton::Relaunch]
    ));
    match config_issue_body("broken") {
        Frame::Notice { caption, buttons, .. } => {
            assert_eq!(compose(&vec![caption], &english()), "broken");
            assert_eq!(buttons, [FrameButton::OpenConfigFolder, FrameButton::Relaunch]);
        }
        other => panic!("unexpected {other:?}"),
    }
    assert!(matches!(device_empty_state(), Frame::Empty { button: FrameButton::AddDevice, .. }));
    assert_eq!(FrameButton::AddDevice.label(), "pairing.add_device");
    assert!(attention_footer(true).is_some() && attention_footer(false).is_none());
}

#[test]
fn the_ring_editor_shows_its_slots() {
    let mut slots = [None; 8];
    slots[0] = Some(ActionRingEntry { action: 4, custom_icon: None });
    slots[2] = Some(ActionRingEntry { action: 5, custom_icon: Some(9) });
    let defaults = RingDefaults { layout: ActionRingLayout { slots }, ..ring() };
    let mut panel = ActionRingPanel::new();
    panel.select_slot(ActionRingSlot::Right);
    let none = Capabilities::none();
    let shown = panel.render(None, &defaults, none);
    assert_eq!(shown.slots.len(), 8);
    assert_eq!(shown.slots[0].icon, SlotIcon::OfAction(4));
    assert_eq!(shown.slots[2].icon, SlotIcon::Custom(9));
    assert_eq!((shown.slots[1].label, shown.slots[1].icon), (SlotLabel::Empty, SlotIcon::Plus));
    assert_eq!(shown.slots.iter().filter(|slot| slot.selected).count(), 1);
    assert_eq!(shown.edited, slots[2]);
    assert_eq!((shown.enabled, shown.haptics), (true, None));
    assert_eq!((toggle_label(true), toggle_label(false)), ("On", "Off"));
}

#[test]
fn the_ring_switches_are_saved_and_told() {
    let mut state = state(vec![record("unit:1", true)]);
    let haptic = Capabilities { haptic_feedback: true, ..Capabilities::none() };
    assert!(current_device_supports_haptics(Some(&state), haptic));
    let panel = ActionRingPanel::new();
    let (save, event) = panel.toggle_enabled(&mut state, true);
    assert!(save.is_some());
    assert!(matches!(event, Some(StateEvent::BindingsChanged(key)) if key == "unit:1"));
    let (save, _) = panel.toggle_haptics(&mut state, false);
    assert!(save.is_some());
    let shown = panel.render(Some(&state), &ring(), haptic);
    assert_eq!((shown.enabled, shown.haptics), (false, Some(true)));
}

#[test]
fn panels_repaint_for_their_own_device() {
    let state = state(vec![record("unit:1", true)]);
    let mine = || StateEvent::DpiChanged("unit:1".into());
    assert!(state.relevant(Panel::Dpi, &mine()));
    assert!(!state.relevant(Panel::ReportRate, &mine()));
    assert!(!state.relevant(Panel::Dpi, &StateEvent::DpiChanged("unit:2".into())));
    assert!(state.relevant(Panel::SmartShift, &StateEvent::DeviceConfigChanged("unit:1".into())));
    assert!(state.relevant(Panel::StandaloneLight, &StateEvent::CameraChanged));
    assert!(!state.relevant(Panel::StandaloneLight, &StateEvent::BindingsChanged("unit:1".into())));
    assert!(state.relevant(Panel::Camera, &StateEvent::CameraPermissionChanged));
    assert!(!state.relevant(Panel::ActionRing, &StateEvent::SettingsChanged));
    assert!(state.relevant(Panel::ActionRing, &StateEvent::InventoryChanged));
}
