//! The window's state: devices, settings and what was read of them.

use std::sync::Arc;

use openlogi_desktop::device::{
    BatteryInfo, Capabilities, DeviceKind, DeviceModelInfo, DeviceRoute, DeviceTransports,
};
use openlogi_desktop::features::camera::controls::CameraControlsPanel;
use openlogi_desktop::features::camera::rows::Preparation;
use openlogi_desktop::features::lighting::device::LightingPanel;
use openlogi_desktop::features::pointer::smartshift::{SmartShiftPanel, WheelRow};
use openlogi_desktop::features::profiles::catalog::{CatalogLoad, IdentityKind};
use openlogi_desktop::features::profiles::model::{
    device_profile_scope_bar, removal_key, RecentApp, SavedProfile,
};
use openlogi_desktop::hid::{
    Lighting, LightingEffect, LightingInfo, LightingPrefab, OnboardLed, OnboardLedMode,
    ReportRateInfo, Rgb, ScrollResolution, SmartShiftAutoDisengage, SmartShiftMode, SmartShiftStatus, SmartShiftThreshold, SupportedValues,
};
use openlogi_desktop::record::DeviceRecord;
use openlogi_desktop::services::assets::metadata::{
    Assignment, GlowGeometry, GlowSegment, ImageEntry, Metadata, Origin, Point, ResolvedAsset,
};
use openlogi_desktop::services::device_reads::{DeviceReads, QueryState, ReadStart};
use openlogi_desktop::state::action_ring::{
    ActionRingEntry, ActionRingLayout, ActionRingSlot, RingDefaults,
};
use openlogi_desktop::state::catalog::DeviceCatalog;
use openlogi_desktop::state::config::{Config, DeviceConfig, LinkConfig, LinkOverrides};
use openlogi_desktop::state::event::StateEvent;
use openlogi_desktop::state::lighting::lighting_from_onboard;
use openlogi_desktop::state::load::Load;
use openlogi_desktop::state::merge::sort_device_list;
use openlogi_desktop::state::refresh::{adopt_routes, persist_identities, routes_adopted};
use openlogi_desktop::state::smartshift::{
    smartshift_read_is_current, smartshift_write_outcome, ConfirmationOutcome,
    SmartShiftDeviceState, SmartShiftWriteStatus,
};
use openlogi_desktop::state::{AppState, PointerState, SaveOutcome};
use openlogi_desktop::table::Table;

const UNIT: &str = "unit:6be9d300";

fn record(key: &str, route_key: &str) -> DeviceRecord {
    DeviceRecord {
        config_key: key.into(),
        canonical_key: None,
        persistent: true,
        inventory_key: key.into(),
        record_key: format!("card:{key}"),
        direct_prefix: None,
        wire_pid: None,
        order_key: key.into(),
        route_key: route_key.into(),
        model_key: "model".into(),
        model_name: "G502".into(),
        display_name: "G502".into(),
        asset: None,
        model_info: None,
        codename: None,
        serial_number: None,
        unit_id: 0,
        firmware_serial_number: None,
        firmware_unit_id: 0,
        driver_id: None,
        registry_model_id: None,
        route: Some(DeviceRoute::Direct { endpoint: 1 }),
        capture_id: None,
        kind: DeviceKind::Mouse,
        capabilities: None,
        light_capabilities: None,
        slot: 1,
        online: true,
        battery: None,
    }
}

fn ring() -> RingDefaults {
    RingDefaults { enabled: false, haptics: true, layout: ActionRingLayout { slots: [None; 8] } }
}

fn state_with(config: Config, records: Vec<DeviceRecord>) -> AppState {
    let mut devices = DeviceCatalog::new();
    devices.replace(records, 0);
    let mut reads = DeviceReads::new();
    reads.connect();
    AppState {
        devices,
        config,
        pointer: PointerState { reads, dpi: 1000, report_rate: 1000, next_smartshift_write_id: 0 },
        editing_app: None,
        onboard_leds: Table::new(),
        ring_defaults: ring(),
        default_dpi: 1000,
        inventory_miss_grace: 1,
    }
}

fn capabilities(hires_wheel: bool) -> Capabilities {
    Capabilities { hires_wheel, ..Capabilities::none() }
}

fn state_with_links(links: &[(&str, bool)]) -> AppState {
    let mut device = DeviceConfig::new(&ring());
    for (route, hires_wheel) in links {
        device.links.insert(
            route,
            LinkConfig {
                capabilities: Some(capabilities(*hires_wheel)),
                overrides: LinkOverrides::none(),
            },
        );
    }
    let mut config = Config::new();
    config.devices.insert(UNIT, device);
    state_with(config, vec![record(UNIT, links[0].0)])
}

fn one_device() -> AppState {
    state_with(Config::new(), vec![record(UNIT, "direct:046d:c08d")])
}

#[test]
fn a_capability_present_on_another_link_is_distinguishable() {
    let state = state_with_links(&[
        ("direct:046d:c08d", false),
        ("receiver:82839805:slot:1", true),
    ]);
    assert!(!state.current_hires_wheel_supported());
    assert!(state.hires_wheel_supported_on_another_link());
}

#[test]
fn a_device_that_never_had_it_is_not_excused() {
    let state = state_with_links(&[("direct:046d:b012", false)]);
    assert!(!state.hires_wheel_supported_on_another_link());
}

#[test]
fn an_inverted_wheel_is_shown_inverted() {
    let mut state = one_device();
    assert!(!state.current_invert_scroll());
    assert!(!state.current_scroll_inversion_supported());
    assert!(state.commit_invert_scroll(true).is_none(), "the device cannot invert");
    state.devices.records[0].capabilities =
        Some(Capabilities { scroll_inversion: true, ..capabilities(true) });
    assert!(state.commit_invert_scroll(true).is_some());
    assert!(state.current_invert_scroll());
    state.editing_app = Some("app".into());
    assert!(state.commit_invert_scroll(false).is_some());
    assert!(!state.current_invert_scroll());
    state.editing_app = None;
    assert!(state.current_invert_scroll());
    assert!(state.commit_scroll_resolution(Some(ScrollResolution::High)).is_some());
    assert_eq!(state.current_scroll_resolution(), Some(ScrollResolution::High));
    assert_eq!(
        state.configured_wheel_mode_for_editing(),
        (Some(ScrollResolution::High), Some(true))
    );
}

#[test]
fn nothing_is_saved_without_a_physical_device() {
    let mut probe = record("direct:046d:c08d", "direct:046d:c08d");
    probe.persistent = false;
    let mut state = state_with(Config::new(), vec![probe]);
    assert!(state.commit_invert_scroll(true).is_none());
    assert!(state.commit_action_ring_enabled(true).is_none());
    assert_eq!(state.config.devices.len(), 0);
}

#[test]
fn a_slot_shows_what_was_put_in_it() {
    let mut state = one_device();
    let entry = ActionRingEntry { action: 3, custom_icon: None };
    assert!(state.commit_action_ring_slot(ActionRingSlot::Left, Some(3)).is_some());
    assert_eq!(state.current_action_ring_layout().slots[6], Some(entry));
    assert!(state.commit_action_ring_icon(ActionRingSlot::Left, Some(8)).is_some());
    assert_eq!(
        state.current_action_ring_layout().slots[6].and_then(|entry| entry.custom_icon),
        Some(8)
    );
    state.editing_app = Some("app".into());
    assert!(state.commit_action_ring_slot(ActionRingSlot::Left, None).is_some());
    assert_eq!(state.current_action_ring_layout().slots[6], None);
    state.editing_app = None;
    assert!(state.current_action_ring_layout().slots[6].is_some());
    assert!(state.commit_action_ring_enabled(true).is_some());
    assert!(state.commit_action_ring_haptics(false).is_some());
    let ring = state.current_action_ring();
    assert_eq!((ring.enabled, ring.haptics), (true, false));
    assert!(ring.default.slots[6].is_some());
    assert_eq!(ring.per_app.len(), 1);
    assert_eq!(ring.effective_layout(Some("app")).slots[6], None);
    assert!(ring.effective_layout(Some("other")).slots[6].is_some());
    assert!(state.commit_action_ring_slot(ActionRingSlot::Left, Some(4)).is_some());
    assert_eq!(
        state.current_action_ring_layout().slots[6],
        Some(ActionRingEntry { action: 4, custom_icon: None }),
        "another action shows its own picture"
    );
}

fn ratchet(value: u8) -> SmartShiftStatus {
    SmartShiftStatus {
        mode: SmartShiftMode::Ratchet,
        auto_disengage: SmartShiftAutoDisengage::Threshold(SmartShiftThreshold { value }),
        tunable_torque: None,
    }
}

#[test]
fn a_write_is_confirmed_by_the_value_that_was_written() {
    let mut write = SmartShiftDeviceState::Idle;
    write.queue(ratchet(20), 7);
    assert!(matches!(write.status(), Some(SmartShiftWriteStatus::Applying { write_id: 7, .. })));
    assert_eq!(write.begin_confirmation(), Some(7));
    assert_eq!(write.begin_confirmation(), None);
    assert_eq!(write.confirming_expected(7), Some(ratchet(20)));
    assert_eq!(write.confirming_expected(8), None);
    let right = Load::Ready(Arc::new(ratchet(20)));
    let wrong = Load::Ready(Arc::new(ratchet(21)));
    assert_eq!(
        smartshift_write_outcome(ratchet(20), Some(&right)),
        Some(ConfirmationOutcome::Confirmed)
    );
    assert_eq!(
        smartshift_write_outcome(ratchet(20), Some(&wrong)),
        Some(ConfirmationOutcome::Failed)
    );
    assert_eq!(smartshift_write_outcome(ratchet(20), Some(&Load::Loading)), None);
    write.fail_confirmation(8);
    assert_eq!(write.confirming_expected(7), Some(ratchet(20)));
    write.fail_confirmation(7);
    assert!(matches!(write.status(), Some(SmartShiftWriteStatus::Failed)));
    write.reset();
    assert!(write.status().is_none());
    assert!(smartshift_read_is_current(None, None));
}

#[test]
fn a_smartshift_write_runs_from_commit_to_confirmation() {
    let mut state = one_device();
    assert!(state.commit_smartshift(ratchet(20)).is_some());
    let (route, _) = state.finish_smartshift(ratchet(20), SaveOutcome::Saved).expect("a selected device");
    assert_eq!(route, Some(DeviceRoute::Direct { endpoint: 1 }));
    assert!(matches!(
        state.current_smartshift_write_status(),
        Some(SmartShiftWriteStatus::Applying { .. })
    ));
    let (key, _, write_id) = state.take_active_smartshift_confirm().expect("a queued write");
    assert_eq!(key, UNIT);
    assert!(state.take_active_smartshift_confirm().is_none());
    state.fail_smartshift_confirm(UNIT, write_id);
    assert!(matches!(
        state.current_smartshift_write_status(),
        Some(SmartShiftWriteStatus::Failed)
    ));
    state.retry_smartshift(UNIT);
    assert!(state.current_smartshift_write_status().is_none());
}

#[test]
fn a_read_confirms_the_write() {
    let mut state = one_device();
    let (key, route, start) = state.load_current_smartshift().expect("a reachable device");
    let ReadStart::Subscribe { generation, .. } = start else {
        panic!("a first read is started");
    };
    let loading = QueryState { data: None, error: None, is_validating: true };
    state.pointer.reads.watch_smartshift(&key, route, generation, &loading);
    assert_eq!(state.current_smartshift_ready(), None);
    assert!(matches!(state.load_current_smartshift(), Some((_, _, ReadStart::Watched))));
    let known = Load::Ready(Arc::new(ratchet(12)));
    assert!(!state.pointer.reads.update_smartshift(&key, generation + 1, known.clone()));
    assert!(state.pointer.reads.update_smartshift(&key, generation, known.clone()));
    assert!(state.pointer.reads.update_smartshift(&key, generation, known));
    assert_eq!(state.current_smartshift_ready(), Some(ratchet(12)));

    assert!(state.commit_smartshift(ratchet(20)).is_some());
    assert!(state.finish_smartshift(ratchet(20), SaveOutcome::Saved).is_some());
    let (key, route, write_id, start) = state.confirm_current_smartshift().expect("a write");
    let ReadStart::Subscribe { generation, clear, invalidate } = start else {
        panic!("the confirmation reads the device");
    };
    assert!(!clear && invalidate, "the old value stays until the device answered");
    let answer = QueryState { data: Some(Arc::new(ratchet(20))), error: None, is_validating: false };
    state.pointer.reads.watch_smartshift(&key, route, generation, &answer);
    state.apply_smartshift_read(&key, Some(write_id + 1));
    assert!(matches!(
        state.current_smartshift_write_status(),
        Some(SmartShiftWriteStatus::Applying { .. })
    ));
    state.apply_smartshift_read(&key, Some(write_id));
    assert!(matches!(
        state.current_smartshift_write_status(),
        Some(SmartShiftWriteStatus::Confirmed)
    ));
    assert!(state.confirm_current_smartshift().is_none());
}

#[test]
fn a_wheel_sensitivity_is_saved_for_the_selected_device() {
    let state = one_device();
    let mut panel = SmartShiftPanel::new(5);
    panel.drag_wheel_sensitivity(9);
    let change = panel.release_wheel_sensitivity(9, Some(&state)).expect("a selected device");
    assert_eq!((change.config_key.as_str(), change.value), (UNIT, 9));
    match change.event {
        StateEvent::DeviceConfigChanged(key) => assert_eq!(key, UNIT),
        other => panic!("unexpected {other:?}"),
    }
    assert_eq!(panel.wheel_sensitivity_row(Some(9), 5), WheelRow { display: 9, reseat: None });
}

#[test]
fn a_catalog_is_read_of_devices_with_lighting() {
    let mut state = one_device();
    assert!(state.load_current_lighting_info().is_none(), "nothing is known of the device");
    state.devices.records[0].capabilities =
        Some(Capabilities { lighting: true, ..Capabilities::none() });
    let (key, route, start) = state.load_current_lighting_info().expect("a device with lighting");
    let ReadStart::Subscribe { generation, .. } = start else {
        panic!("a first read is started");
    };
    let loading = QueryState { data: None, error: None, is_validating: true };
    state.pointer.reads.watch_lighting(&key, route, generation, &loading);
    assert!(matches!(state.lighting_info(), Load::Loading));
    let prefab = |effect| LightingPrefab {
        effect,
        has_color: true,
        has_speed: false,
        has_brightness: true,
    };
    let info = Arc::new(LightingInfo {
        prefabs: vec![prefab(LightingEffect::Solid), prefab(LightingEffect::ScreenSampler)],
        zones: vec![1, 2],
    });
    assert!(!state.pointer.reads.update_lighting(&key, generation + 1, Load::Loading));
    assert!(state.pointer.reads.update_lighting(&key, generation, Load::Ready(info.clone())));
    assert!(!state.pointer.reads.update_lighting(&key, generation, Load::Ready(info)));
    assert!(matches!(state.lighting_info(), Load::Ready(_)));

    let default = Lighting {
        enabled: true,
        color: Rgb { red: 255, green: 255, blue: 255 },
        brightness: 100,
        speed: 50,
        effect: LightingEffect::Solid,
        zones: vec![2],
    };
    let mut panel = LightingPanel::new(&default);
    let view = panel.render(Some(&state), &default, true);
    let selected: Vec<bool> = view.tiles.iter().map(|tile| tile.selected).collect();
    assert_eq!(selected, [true, false]);
    assert_eq!(view.zones, [(1, false), (2, true)]);
    assert!(view.controls.screen_recording_hint && view.controls.colors && !view.controls.speed);

    assert!(state.commit_lighting(&default).is_some());
    assert_eq!(state.finish_lighting(SaveOutcome::Saved), Some(DeviceRoute::Direct { endpoint: 1 }));
    let failed = SaveOutcome::Failed { persisted: Config::new() };
    assert_eq!(state.finish_lighting(failed), None, "unsaved settings are not sent");
    assert_eq!(state.config.devices.len(), 0, "and are not kept");
}

#[test]
fn a_frequency_read_can_be_asked_for_again() {
    let mut state = one_device();
    let (key, route, start) = state.load_current_report_rate().expect("a reachable device");
    let ReadStart::Subscribe { generation, .. } = start else {
        panic!("a first read is started");
    };
    assert!(!state.pointer.reads.retry_report_rate(&key), "nothing is watched yet");
    let loading = QueryState { data: None, error: None, is_validating: true };
    state.pointer.reads.watch_report_rate(&key, route, generation, &loading);
    assert!(state.pointer.reads.update_report_rate(&key, generation, Load::Failed("x".into())));
    assert!(!state.pointer.reads.update_report_rate(&key, generation, Load::Failed("x".into())));
    assert!(matches!(state.report_rate_status_for(&key), Load::Failed(_)));
    assert!(state.pointer.reads.retry_report_rate(&key));
    assert!(matches!(state.report_rate_status_for(&key), Load::Loading));
}

#[test]
fn a_frequency_is_snapped_to_what_the_device_supports() {
    let mut state = one_device();
    let (key, route, start) = state.load_current_report_rate().expect("a reachable device");
    let ReadStart::Subscribe { generation, .. } = start else {
        panic!("a first read is started");
    };
    let info = Arc::new(ReportRateInfo {
        current: 500,
        capabilities: SupportedValues::new(vec![125, 500, 1000], 1).expect("a list"),
    });
    let answer = QueryState { data: Some(info), error: None, is_validating: false };
    state.pointer.reads.watch_report_rate(&key, route, generation, &answer);
    state.apply_report_rate_read(&key);
    assert_eq!(state.report_rate(), 500);
    assert_eq!(state.normalize_active_report_rate(900), 1000);
    assert_eq!(state.normalize_active_report_rate(0), 125);
    let (rate, save) = state.commit_report_rate(900);
    assert_eq!((rate, save.is_some()), (1000, true));
    assert_eq!(state.report_rate(), 1000);
    assert!(state.finish_report_rate(rate, SaveOutcome::Saved).is_some());
    assert!(matches!(state.report_rate_status_for(UNIT), Load::Ready(_)));
}

#[test]
fn stored_lighting_is_shown() {
    let mut state = one_device();
    let default = Lighting {
        enabled: true,
        color: Rgb { red: 255, green: 255, blue: 255 },
        brightness: 100,
        speed: 50,
        effect: LightingEffect::Solid,
        zones: Vec::new(),
    };
    assert_eq!(state.lighting(&default).brightness, 100);
    let mut dimmed = default.clone();
    dimmed.brightness = 30;
    assert!(state.commit_lighting(&dimmed).is_some());
    assert_eq!(state.lighting(&default).brightness, 30);
    assert!(state.lighting_for("unit:other", false, "direct:046d:c08d").is_none());
    let led = OnboardLed {
        mode: OnboardLedMode::Breathing,
        color: Rgb { red: 1, green: 2, blue: 3 },
        brightness: 60,
    };
    let onboard = lighting_from_onboard(led, &default);
    assert_eq!((onboard.effect, onboard.brightness), (LightingEffect::Breathing, 60));
}

fn snapshot(records: Vec<DeviceRecord>) -> Table<DeviceRecord> {
    let mut table = Table::new();
    for record in records {
        let key = record.inventory_key.clone();
        table.insert(&key, record);
    }
    table
}

#[test]
fn a_missing_device_stays_for_its_grace() {
    let mut state = one_device();
    let merged = state.merge_inventory_snapshot(snapshot(vec![record("unit:2", "direct:2")]));
    let keys: Vec<&str> = merged.iter().map(|record| record.config_key.as_str()).collect();
    assert_eq!(keys, ["unit:2", UNIT]);
    let merged = state.merge_inventory_snapshot(snapshot(vec![record("unit:2", "direct:2")]));
    assert_eq!(merged.len(), 1);
}

#[test]
fn a_refresh_keeps_the_selected_device_selected() {
    let mut state = one_device();
    let (merged, _) = state.refresh_inventories(
        snapshot(vec![record("unit:1", "direct:1"), record(UNIT, "direct:046d:c08d")]),
        false,
    );
    assert_eq!(merged.len(), 2);
    state.finish_refresh(merged, false, SaveOutcome::Saved);
    assert_eq!(state.current_record().map(|record| record.config_key.as_str()), Some(UNIT));
}

#[test]
fn forgetting_takes_the_card_and_its_settings() {
    let mut away = record("unit:2", "direct:2");
    away.online = false;
    let mut config = Config::new();
    config.devices.insert("unit:2", DeviceConfig::new(&ring()));
    let mut state = state_with(config, vec![record(UNIT, "direct:1"), away]);
    assert!(state.forget_device("card:unit:6be9d300").is_none(), "a live device stays");
    assert!(state.forget_device("card:absent").is_none());
    let pending = state.forget_device("card:unit:2").expect("an offline device");
    assert!(pending.save.is_some());
    assert!(state.finish_forget(pending, SaveOutcome::Saved).is_some());
    assert_eq!(state.devices.records.len(), 1);
    assert!(!state.config.devices.contains_key("unit:2"));
}

#[test]
fn a_forget_that_could_not_be_saved_is_undone() {
    let mut away = record("unit:2", "direct:2");
    away.online = false;
    let mut config = Config::new();
    config.devices.insert("unit:2", DeviceConfig::new(&ring()));
    let mut state = state_with(config, vec![away]);
    let pending = state.forget_device("card:unit:2").expect("an offline device");
    assert!(!state.config.devices.contains_key("unit:2"));
    let mut persisted = Config::new();
    persisted.devices.insert("unit:2", DeviceConfig::new(&ring()));
    assert!(state.finish_forget(pending, SaveOutcome::Failed { persisted }).is_none());
    assert_eq!(state.devices.records.len(), 1);
    assert!(state.config.devices.contains_key("unit:2"));
}

#[test]
fn selecting_a_device_is_told_once() {
    let mut state =
        state_with(Config::new(), vec![record("unit:1", "direct:1"), record("unit:2", "direct:2")]);
    let selection = state.set_current_device(1).expect("another device");
    assert_eq!(selection.key, "unit:2");
    assert!(selection.save.is_some());
    assert!(state.set_current_device(1).is_none());
    assert!(state.set_current_device(9).is_none());
}

#[test]
fn devices_are_listed_in_order() {
    let sorted = sort_device_list(&vec![record("b", "r"), record("a", "r")]);
    assert_eq!(sorted[0].config_key, "a");
}

#[test]
fn an_identity_is_remembered_once() {
    let mut config = Config::new();
    let mut seen = record(UNIT, "direct:1");
    seen.capabilities = Some(capabilities(true));
    let list = vec![seen];
    assert!(persist_identities(&mut config, &list, &ring()));
    assert!(!persist_identities(&mut config, &list, &ring()));
}

#[test]
fn a_route_is_folded_into_the_device_that_was_seen_on_it() {
    let mut away = record("unit:4", "direct:4");
    away.online = false;
    let mut renamed = record("serial:5", "direct:5");
    renamed.canonical_key = Some("unit:5".into());
    let list = vec![
        record("unit:1", "direct:1"),
        record("unit:2", "direct:shared"),
        record("unit:3", "direct:shared"),
        away,
        renamed,
        record("slot:6", "direct:6"),
    ];
    let physical = vec![true, true, true, true, true, false];
    let adoptions = adopt_routes(&list, &physical);
    let folded: Vec<(&str, &str)> = adoptions
        .iter()
        .map(|adoption| (adoption.key.as_str(), adoption.route.as_str()))
        .collect();
    assert_eq!(folded, [("unit:1", "direct:1"), ("unit:5", "direct:5")]);
    assert!(routes_adopted(&vec![false, true]));
    assert!(!routes_adopted(&vec![false, false]));
    assert!(!routes_adopted(&Vec::new()));
}

#[test]
fn a_device_whose_slot_changed_stays_selected() {
    let mut state = state_with(
        Config::new(),
        vec![record("unit:1", "direct:1"), record("unit:2", "direct:2")],
    );
    assert!(state.set_current_device(1).is_some());
    let mut moved = record("unit:2", "direct:2");
    moved.inventory_key = "slot:7".into();
    let merged = vec![record("unit:1", "direct:1"), moved];
    assert!(state.finish_refresh(merged, false, SaveOutcome::Saved).is_some());
    assert_eq!(state.current_record().map(|record| record.config_key.as_str()), Some("unit:2"));
    let mut renamed = record("unit:3", "direct:2");
    renamed.inventory_key = "slot:7".into();
    let merged = vec![record("unit:1", "direct:1"), renamed];
    assert!(state.finish_refresh(merged, false, SaveOutcome::Saved).is_some());
    assert_eq!(
        state.current_record().map(|record| record.config_key.as_str()),
        Some("unit:1"),
        "the first device stands in for one that is gone"
    );
}

#[test]
fn a_failed_save_puts_the_settings_back() {
    let mut state = one_device();
    state.devices.records[0].capabilities =
        Some(Capabilities { scroll_inversion: true, ..capabilities(true) });
    assert!(state.commit_invert_scroll(true).is_some());
    assert!(state.finish_save(SaveOutcome::Saved));
    assert!(state.current_invert_scroll());
    assert!(!state.finish_save(SaveOutcome::Failed { persisted: Config::new() }));
    assert!(!state.current_invert_scroll());
    assert!(state.commit_smartshift(ratchet(20)).is_some());
    let failed = SaveOutcome::Failed { persisted: Config::new() };
    assert!(state.finish_smartshift(ratchet(20), failed).is_none());
    assert!(state.current_smartshift_write_status().is_none());
    assert_eq!(state.config.devices.len(), 0);
}

#[test]
fn misses_are_counted_in_a_row() {
    let mut state = one_device();
    state.inventory_miss_grace = 2;
    let other = || snapshot(vec![record("unit:2", "direct:2")]);
    let step = |state: &mut AppState, table: Table<DeviceRecord>| {
        let (merged, _) = state.refresh_inventories(table, false);
        let listed = merged.iter().any(|record| record.config_key == UNIT);
        state.finish_refresh(merged, false, SaveOutcome::Saved);
        listed
    };
    assert!(step(&mut state, other()));
    assert!(step(&mut state, other()));
    let both = snapshot(vec![record("unit:2", "direct:2"), record(UNIT, "direct:046d:c08d")]);
    assert!(step(&mut state, both), "a sighting ends the count");
    assert!(step(&mut state, other()));
    assert!(step(&mut state, other()));
    assert!(!step(&mut state, other()));
}

fn art() -> ResolvedAsset {
    ResolvedAsset {
        depot: "g502_core".into(),
        display_name: "G502".into(),
        kind: Some(DeviceKind::Mouse),
        image_path: "/cache/g502_core/side.png".into(),
        hero_image_path: None,
        side_image_path: None,
        glow: None,
        metadata: Metadata {
            images: vec![ImageEntry {
                key: "device_image".into(),
                origin: Origin { width: 10, height: 20 },
                assignments: vec![Assignment {
                    slot_name: "SLOT_NAME_MIDDLE_BUTTON".into(),
                    slot_id: String::new(),
                    marker: Point { x: 1, y: 2 },
                }],
            }],
        },
        png_width: 10,
        png_height: 20,
    }
}

#[test]
fn every_change_of_a_record_is_told() {
    let glow = |aspect| {
        let segment = GlowSegment { x: 1, y: 2, w: 3, h: 4 };
        Some(Arc::new(GlowGeometry { aspect, segments: vec![segment] }))
    };
    let battery = BatteryInfo { percentage: 40, level: 2, status: 0, charging_without_reading: false };
    let mut known = record(UNIT, "direct:1");
    known.battery = Some(battery);
    let with_art = |change: fn(&mut ResolvedAsset)| {
        let mut asset = art();
        asset.glow = glow(2_000_000);
        change(&mut asset);
        Some(Arc::new(asset))
    };
    known.asset = with_art(|_| {});
    let told = |changed: DeviceRecord| {
        let mut state = state_with(Config::new(), vec![known.clone()]);
        state.finish_refresh(vec![changed], false, SaveOutcome::Saved).is_some()
    };
    let mut same = known.clone();
    same.asset = with_art(|_| {});
    assert!(!told(same));
    let changes: [fn(&mut ResolvedAsset); 13] = [
        |asset| asset.depot.push('x'),
        |asset| asset.display_name.push('x'),
        |asset| asset.kind = None,
        |asset| asset.image_path.push('x'),
        |asset| asset.hero_image_path = Some("x".into()),
        |asset| asset.side_image_path = Some("x".into()),
        |asset| asset.glow = None,
        |asset| asset.metadata.images.clear(),
        |asset| asset.metadata.images[0].origin.width = 11,
        |asset| asset.metadata.images[0].assignments[0].marker.y = 3,
        |asset| asset.metadata.images[0].assignments.clear(),
        |asset| asset.png_width = 11,
        |asset| asset.png_height = 21,
    ];
    for change in changes {
        let mut changed = known.clone();
        changed.asset = with_art(change);
        assert!(told(changed));
    }
    let mut changed = known.clone();
    changed.asset = Some(Arc::new(ResolvedAsset { glow: glow(1), ..art() }));
    assert!(told(changed));
    for battery in [
        BatteryInfo { percentage: 41, ..battery },
        BatteryInfo { level: 3, ..battery },
        BatteryInfo { status: 1, ..battery },
        BatteryInfo { charging_without_reading: true, ..battery },
    ] {
        let mut changed = known.clone();
        changed.battery = Some(battery);
        assert!(told(changed));
    }
    let mut changed = known.clone();
    changed.capabilities = Some(Capabilities { others: 1, ..Capabilities::none() });
    assert!(told(changed));
    let mut changed = known.clone();
    changed.firmware_unit_id = 7;
    assert!(told(changed));
}

#[test]
fn art_is_wanted_once_per_model() {
    let mut first = record("unit:1", "direct:1");
    first.model_info = Some(DeviceModelInfo {
        entity_count: 3,
        transports: DeviceTransports { usb: true, equad: false, btle: false, bluetooth: false },
        model_id_1: 0xc332,
        model_id_2: 0,
        model_id_3: 0,
        extended_model_id: 0,
    });
    let mut second = record("unit:2", "direct:2");
    second.model_info = first.model_info;
    let state = state_with(Config::new(), vec![first, second]);
    assert_eq!(state.asset_models().len(), 1);
    assert_eq!(state.dpi_for_current(), 1000);
}

#[test]
fn profiles_belong_to_remembered_devices() {
    let recent =
        vec![RecentApp { app: "org.app".into(), name: "App".into() }];
    let saved = vec![SavedProfile { app: "com.zed".into(), override_count: 2 }];
    let bar = |state: Option<&AppState>| {
        device_profile_scope_bar(
            state,
            &saved,
            &recent,
            &CatalogLoad::Loading,
            IdentityKind::LinuxDesktopId,
        )
    };
    assert!(bar(None).is_none() && removal_key(None).is_none());
    let mut state = one_device();
    let (model, tabs) = bar(Some(&state)).expect("a physical device");
    assert_eq!((model.profiles.len(), model.recent.len()), (1, 1));
    let shown: Vec<(bool, bool)> = tabs.iter().map(|tab| (tab.selected, tab.removable)).collect();
    assert_eq!(shown, [(true, false), (false, true)]);
    assert_eq!(removal_key(Some(&state)).as_deref(), Some(UNIT));

    state.editing_app = Some("org.app".into());
    let (model, tabs) = bar(Some(&state)).expect("a physical device");
    assert!(model.recent.is_empty(), "the open profile is not offered again");
    let shown: Vec<(bool, bool)> = tabs.iter().map(|tab| (tab.selected, tab.removable)).collect();
    assert_eq!(shown, [(false, false), (true, false), (false, true)]);

    state.devices.records[0].persistent = false;
    assert!(bar(Some(&state)).is_none() && removal_key(Some(&state)).is_none());
}

#[test]
fn a_camera_is_found_by_its_capture_id() {
    assert!(CameraControlsPanel::active_camera(None).is_none());
    let mut state = one_device();
    state.devices.records[0].capture_id = Some("0x14".into());
    assert!(CameraControlsPanel::active_camera(Some(&state)).is_none(), "a mouse is selected");
    state.devices.records[0].kind = DeviceKind::Camera;
    let camera = CameraControlsPanel::active_camera(Some(&state));
    assert_eq!(camera, Some((UNIT.to_string(), "0x14".to_string())));
    let mut panel = CameraControlsPanel::new();
    match panel.prepare(Some(&state)) {
        Preparation::Build { key, uid } => assert_eq!((key.as_str(), uid.as_str()), (UNIT, "0x14")),
        other => panic!("unexpected {other:?}"),
    }
    panel.key = Some(UNIT.into());
    panel.uid = Some("0x14".into());
    assert!(matches!(panel.prepare(Some(&state)), Preparation::Ready));
    state.devices.records[0].capture_id = None;
    assert!(CameraControlsPanel::active_camera(Some(&state)).is_none());
}

#[test]
fn a_unit_is_shown_again_when_its_serial_number_is_read() {
    let mut state = one_device();
    let same = state.devices.records[0].clone();
    assert!(state.finish_refresh(vec![same], false, SaveOutcome::Saved).is_none());
    let mut read = state.devices.records[0].clone();
    read.serial_number = Some("2139LZ".into());
    let refreshed = state
        .finish_refresh(vec![read], false, SaveOutcome::Saved)
        .expect("a changed record");
    assert!(refreshed.rerouted.is_empty() && refreshed.gone.dpi.is_empty());
    assert!(state.current_record().is_some());
}
