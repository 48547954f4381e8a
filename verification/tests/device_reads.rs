//! Background reads of device settings.

use std::sync::Arc;

use openlogi_desktop::device::DeviceRoute;
use openlogi_desktop::hid::{
    DpiInfo, SmartShiftAutoDisengage, SmartShiftMode, SmartShiftStatus, SupportedValues, WriteError,
};
use openlogi_desktop::services::device_reads::{
    project_load, query_key, smartshift_read_is_settled, DeviceReads, QueryState, ReadKind,
    ReadStart,
};
use openlogi_desktop::state::load::Load;

fn state<T>(data: Option<Arc<T>>, error: Option<WriteError>, is_validating: bool) -> QueryState<T> {
    QueryState { data, error: error.map(|error| (error, format!("{error:?}"))), is_validating }
}

fn info() -> Arc<DpiInfo> {
    Arc::new(DpiInfo {
        current: 1600,
        capabilities: SupportedValues::new(vec![800, 1600], 800).expect("valid DPI list"),
    })
}

#[test]
fn swr_state_projects_to_the_five_load_states() {
    let info = info();
    let load = |state: QueryState<DpiInfo>| project_load(ReadKind::Dpi, &state);
    assert!(matches!(load(state(None, None, false)), Load::Unknown));
    assert!(matches!(load(state(None, None, true)), Load::Loading));
    assert!(load(state(Some(info.clone()), None, false)).same(&Load::Ready(info.clone())));
    assert!(load(state(Some(info.clone()), None, true)).same(&Load::Ready(info.clone())));
    assert!(matches!(
        load(state(Some(info), Some(WriteError::AgentUnavailable), false)),
        Load::Failed(_)
    ));
    assert!(matches!(
        load(state(None, Some(WriteError::EmptyDpiList), false)),
        Load::Unsupported(_)
    ));
}

#[test]
fn validating_smartshift_data_is_visible_but_not_confirmed() {
    let optimistic = Arc::new(SmartShiftStatus {
        mode: SmartShiftMode::Ratchet,
        auto_disengage: SmartShiftAutoDisengage::Permanent,
        tunable_torque: None,
    });
    let validating = state(Some(optimistic.clone()), None, true);
    assert!(
        project_load(ReadKind::SmartShift, &validating).same(&Load::Ready(optimistic.clone())),
        "the optimistic value stays visible while confirmation is in flight"
    );
    assert!(
        !smartshift_read_is_settled(&validating),
        "validating stale data is not a device confirmation"
    );
    let settled = state(Some(optimistic), None, false);
    assert!(smartshift_read_is_settled(&settled));
}

fn attempts(kind: ReadKind, error: WriteError) -> u32 {
    let mut failures = 1;
    while kind.retries_after(failures, error) {
        failures += 1;
    }
    failures
}

#[test]
fn transient_reads_keep_the_three_attempt_budget() {
    assert_eq!(attempts(ReadKind::SmartShift, WriteError::AgentUnavailable), 3);
}

#[test]
fn permanent_errors_are_not_retried() {
    assert_eq!(
        attempts(ReadKind::SmartShift, WriteError::FeatureUnsupported { feature_hex: 0x2111 }),
        1
    );
    assert_eq!(attempts(ReadKind::Dpi, WriteError::EmptyDpiList), 1);
}

#[test]
fn an_empty_list_is_final_only_for_its_own_read() {
    assert!(ReadKind::ReportRate.error_is_permanent(WriteError::EmptyReportRateList));
    assert!(!ReadKind::SmartShift.error_is_permanent(WriteError::EmptyReportRateList));
    assert!(!ReadKind::Dpi.error_is_permanent(WriteError::Device { code: 3 }));
}

#[test]
fn reads_are_keyed_by_kind_and_device() {
    let (root, kind, key) = query_key(ReadKind::Lighting, "unit:1");
    assert_eq!((root, kind, key.as_str()), ("device-read", ReadKind::Lighting.name(), "unit:1"));
}

fn subscribed(start: ReadStart) -> u64 {
    match start {
        ReadStart::Subscribe { generation, .. } => generation,
        other => panic!("unexpected {other:?}"),
    }
}

#[test]
fn a_read_is_started_once_per_route() {
    let mut reads = DeviceReads::new();
    let route = DeviceRoute::Direct { endpoint: 1 };
    assert!(matches!(reads.ensure_dpi("unit:1", route), ReadStart::NoCache));
    reads.connect();
    let generation = subscribed(reads.ensure_dpi("unit:1", route));
    reads.watch_dpi("unit:1", route, generation, &state(None, None, true));
    assert!(matches!(reads.dpi_status("unit:1"), Load::Loading));
    assert!(matches!(reads.ensure_dpi("unit:1", route), ReadStart::Watched));
    let moved = DeviceRoute::Direct { endpoint: 2 };
    assert_ne!(subscribed(reads.ensure_dpi("unit:1", moved)), generation);
}

#[test]
fn an_answer_of_an_old_generation_is_ignored() {
    let mut reads = DeviceReads::new();
    reads.connect();
    let route = DeviceRoute::Direct { endpoint: 1 };
    let generation = subscribed(reads.ensure_dpi("unit:1", route));
    reads.watch_dpi("unit:1", route, generation, &state(None, None, true));
    assert!(!reads.update_dpi("unit:1", generation + 1, Load::Ready(info())));
    assert!(matches!(reads.dpi_status("unit:1"), Load::Loading));
    assert!(reads.update_dpi("unit:1", generation, Load::Ready(info())));
    assert!(!reads.update_dpi("unit:1", generation, Load::Ready(info())));
    assert!(matches!(reads.dpi_status("unit:1"), Load::Ready(_)));
    assert!(matches!(reads.dpi_status("unit:2"), Load::Unknown));
}

#[test]
fn reads_of_gone_devices_are_dropped() {
    let mut reads = DeviceReads::new();
    reads.connect();
    let route = DeviceRoute::Direct { endpoint: 1 };
    for key in ["unit:1", "unit:2"] {
        let generation = subscribed(reads.ensure_dpi(key, route));
        reads.watch_dpi(key, route, generation, &state(None, None, true));
    }
    let gone = reads.retain_present(&vec!["unit:2".to_string()]);
    assert_eq!(gone.dpi, ["unit:1"]);
    assert!(reads.dpi_load("unit:1").is_none());
    assert!(reads.dpi_load("unit:2").is_some());
    assert!(reads.remove("unit:2").dpi);
    assert!(!reads.remove("unit:2").dpi);
}
