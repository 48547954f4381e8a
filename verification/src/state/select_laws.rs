//! What selecting a device shows and reads of it.

use crate::device::DeviceRoute;
use crate::hid::{Dpi, OnboardLed, ReportRateHz, SmartShiftStatus, SupportedValues};
use crate::record::DeviceRecord;
use crate::services::device_reads::{DeviceReads, ReadStart};
use crate::state::catalog::DeviceCatalog;
use crate::state::load::{LightingLoad, Load, SmartShiftLoad};
use crate::state::merge::{order_keys, sort_device_list};
use crate::state::smartshift::SmartShiftDeviceState;
use crate::state::AppState;
use crate::order::stable_order;
use vstd::prelude::*;

verus! {

/// A device is selected once; one that is not in the list is not.
pub proof fn only_listed_devices_are_selected(
    catalog: &mut DeviceCatalog,
    again: &mut DeviceCatalog,
    index: usize,
    changed: bool,
    second: bool,
)
    requires
        call_ensures(DeviceCatalog::select, (catalog, index), changed),
        *old(again) == *final(catalog),
        call_ensures(DeviceCatalog::select, (again, index), second),
    ensures
        index >= old(catalog).records@.len() ==> !changed && *final(catalog) == *old(catalog),
        index < old(catalog).records@.len() ==> final(catalog).selected == Some(index),
        index < old(catalog).records@.len() ==> (changed <==> old(catalog).selected != Some(
            index,
        )),
        !second,
        final(catalog).records == old(catalog).records,
        final(catalog).runtime == old(catalog).runtime,
{
}

/// A new list takes the place of the old one; its selection is one of its
/// devices, or none.
pub proof fn a_new_list_selects_one_of_its_own(
    catalog: &mut DeviceCatalog,
    records: Vec<DeviceRecord>,
    index: usize,
    after: &DeviceCatalog,
    current: Option<&DeviceRecord>,
)
    requires
        call_ensures(DeviceCatalog::replace, (catalog, records, index), ()),
        *after == *final(catalog),
        call_ensures(DeviceCatalog::current_record, (after,), current),
    ensures
        final(catalog).records == records,
        final(catalog).runtime == old(catalog).runtime,
        index < records@.len() ==> (current matches Some(record) && *record
            == records@[index as int]),
        index >= records@.len() ==> current is None && final(catalog).selected is None,
{
}

/// Records are sorted by their place in the gallery; none is lost, and equal ones
/// keep their order.
pub proof fn sorting_keeps_every_device(
    records: &Vec<DeviceRecord>,
    sorted: Vec<DeviceRecord>,
    i: int,
    j: int,
) -> (order: Seq<usize>)
    requires
        call_ensures(sort_device_list, (records,), sorted),
    ensures
        sorted@.len() == records@.len(),
        order.len() == records@.len(),
        order.no_duplicates(),
        0 <= i < sorted@.len() ==> order[i] < records@.len() && sorted@[i]
            == records@[order[i] as int],
        0 <= i < j < sorted@.len() ==> crate::text::text_le(
            sorted@[i].order_key@,
            sorted@[j].order_key@,
        ),
        0 <= i < j < sorted@.len() && sorted@[i].order_key@ == sorted@[j].order_key@ ==> order[i]
            < order[j],
{
    let keys = order_keys(records@);
    let order = choose|order: Seq<usize>| #[trigger]
        stable_order(keys, order) && sorted@ =~= Seq::new(
            order.len(),
            |i: int| records@[order[i] as int],
        );
    assert(order.no_duplicates()) by {
        assert forall|a: int, b: int|
            0 <= a < order.len() && 0 <= b < order.len() && a != b implies order[a] != order[b] by {
            if a < b {
                assert(order[a] != order[b]);
            } else {
                assert(order[b] != order[a]);
            }
        }
    }
    if 0 <= i < sorted@.len() {
        assert(order[i] < keys.len());
        assert(keys[order[i] as int] == sorted@[i].order_key@);
        if i < j < sorted@.len() {
            assert(order[j] < keys.len());
            assert(keys[order[j] as int] == sorted@[j].order_key@);
        }
    }
    order
}

/// The resolution and the frequency shown are those read of the selected device,
/// or the defaults before that.
pub proof fn read_values_are_shown(
    state: &AppState,
    dpi: Dpi,
    rate: ReportRateHz,
    list: Option<&SupportedValues>,
    i: usize,
)
    requires
        call_ensures(AppState::dpi_for_current, (state,), dpi),
        call_ensures(AppState::report_rate_for_current, (state,), rate),
        call_ensures(AppState::active_report_rate_capabilities, (state,), list),
        state.devices.selected == Some(i),
        i < state.devices.records@.len(),
    ensures
        ({
            let key = state.devices.records@[i as int].config_key@;
            let dpis = state.pointer.reads.dpi@;
            let rates = state.pointer.reads.report_rate@;
            &&& dpis.contains_key(key) ==> (dpis[key].load matches Load::Ready(info) ==> dpi
                == info.current)
            &&& !dpis.contains_key(key) || !(dpis[key].load is Ready) ==> dpi == state.default_dpi
            &&& rates.contains_key(key) ==> (rates[key].load matches Load::Ready(info) ==> rate
                == info.current && (list matches Some(list) && *list == info.capabilities))
            &&& !rates.contains_key(key) || !(rates[key].load is Ready) ==> rate == 1000
                && list is None
        }),
{
}

/// The configuration that is known of the selected device's wheel is the one that
/// was read.
pub proof fn a_read_configuration_is_ready(
    state: &AppState,
    ready: Option<SmartShiftStatus>,
    key: &str,
    load: SmartShiftLoad,
    i: usize,
)
    requires
        call_ensures(AppState::current_smartshift_ready, (state,), ready),
        call_ensures(AppState::smartshift_status_for, (state, key), load),
        state.devices.selected == Some(i),
        i < state.devices.records@.len(),
    ensures
        ({
            let reads = state.pointer.reads.smartshift@;
            &&& reads.contains_key(key@) ==> load == reads[key@].load
            &&& !reads.contains_key(key@) ==> load is Unknown
        }),
        key@ == state.devices.records@[i as int].config_key@ ==> (load matches Load::Ready(status)
            ==> ready == Some(*status)),
        key@ == state.devices.records@[i as int].config_key@ && !(load is Ready) ==> ready is None,
{
}

/// The selected device is read over its own route, as its read is started.
pub proof fn the_selected_device_is_read(
    state: &mut AppState,
    reads: &mut DeviceReads,
    key: &str,
    route: DeviceRoute,
    started: Option<(String, DeviceRoute, ReadStart)>,
    start: ReadStart,
    i: usize,
)
    requires
        call_ensures(AppState::load_current_smartshift, (state,), started),
        old(state).devices.selected == Some(i),
        i < old(state).devices.records@.len(),
        old(state).devices.records@[i as int].route == Some(route),
        key@ == old(state).devices.records@[i as int].config_key@,
        *old(reads) == old(state).pointer.reads,
        call_ensures(DeviceReads::ensure_smartshift, (reads, key, route), start),
    ensures
        started matches Some(started) && started.0@ == key@ && started.1 == route && started.2
            == start,
        final(state).pointer.reads.smartshift@ == final(reads).smartshift@,
        final(state).pointer.reads.next_generation == final(reads).next_generation,
        final(state).devices == old(state).devices,
        final(state).config == old(state).config,
{
}

/// The selected device's frequency is read over its own route, as its read is
/// started.
pub proof fn the_selected_frequency_is_read(
    state: &mut AppState,
    reads: &mut DeviceReads,
    key: &str,
    route: DeviceRoute,
    started: Option<(String, DeviceRoute, ReadStart)>,
    start: ReadStart,
    i: usize,
)
    requires
        call_ensures(AppState::load_current_report_rate, (state,), started),
        old(state).devices.selected == Some(i),
        i < old(state).devices.records@.len(),
        old(state).devices.records@[i as int].route == Some(route),
        key@ == old(state).devices.records@[i as int].config_key@,
        *old(reads) == old(state).pointer.reads,
        call_ensures(DeviceReads::ensure_report_rate, (reads, key, route), start),
    ensures
        started matches Some(started) && started.0@ == key@ && started.1 == route && started.2
            == start,
        final(state).pointer.reads.report_rate@ == final(reads).report_rate@,
        final(state).pointer.reads.next_generation == final(reads).next_generation,
        ({
            let now = final(state).pointer.reads.report_rate@;
            &&& now.contains_key(key@) ==> (now[key@].load matches Load::Ready(info) ==> final(
                state).pointer.report_rate == info.current)
            &&& !now.contains_key(key@) || !(now[key@].load is Ready) ==> final(
                state).pointer.report_rate == old(state).pointer.report_rate
        }),
        final(state).devices == old(state).devices,
        final(state).config == old(state).config,
{
}

/// Lighting is read of a device that has it, over its own route, as its read is
/// started; no other device is asked.
pub proof fn only_lit_devices_are_asked_for_lighting(
    state: &mut AppState,
    reads: &mut DeviceReads,
    key: &str,
    route: DeviceRoute,
    started: Option<(String, DeviceRoute, ReadStart)>,
    start: ReadStart,
    i: usize,
)
    requires
        call_ensures(AppState::load_current_lighting_info, (state,), started),
        old(state).devices.selected == Some(i),
        i < old(state).devices.records@.len(),
        old(state).devices.records@[i as int].route == Some(route),
        key@ == old(state).devices.records@[i as int].config_key@,
        *old(reads) == old(state).pointer.reads,
        call_ensures(DeviceReads::ensure_lighting, (reads, key, route), start),
    ensures
        ({
            let capabilities = old(state).devices.records@[i as int].capabilities;
            &&& started is Some <==> (capabilities matches Some(c) && c.lighting)
            &&& started matches Some(started) ==> started.0@ == key@ && started.1 == route
                && started.2 == start && final(state).pointer.reads.lighting@ == final(
                reads).lighting@
            &&& started is None ==> *final(state) == *old(state)
        }),
{
}

/// A device that cannot be reached is not read.
pub proof fn unreachable_devices_are_not_read(
    a: &mut AppState,
    b: &mut AppState,
    c: &mut AppState,
    first: Option<(String, DeviceRoute, ReadStart)>,
    second: Option<(String, DeviceRoute, ReadStart)>,
    third: Option<(String, DeviceRoute, ReadStart)>,
    i: usize,
)
    requires
        call_ensures(AppState::load_current_smartshift, (a,), first),
        call_ensures(AppState::load_current_report_rate, (b,), second),
        call_ensures(AppState::load_current_lighting_info, (c,), third),
        old(a).devices == old(b).devices,
        old(a).devices == old(c).devices,
        old(a).devices.selected is None || (old(a).devices.selected == Some(i) && i < old(
            a).devices.records@.len() && old(a).devices.records@[i as int].route is None),
    ensures
        first is None && *final(a) == *old(a),
        second is None && *final(b) == *old(b),
        third is None && *final(c) == *old(c),
{
}

/// The first LED that was read of the selected device's firmware.
pub proof fn the_first_led_is_shown(
    state: &AppState,
    led: Option<OnboardLed>,
    load: LightingLoad,
    i: usize,
)
    requires
        call_ensures(AppState::onboard_led, (state,), led),
        call_ensures(AppState::lighting_info, (state,), load),
        state.devices.selected == Some(i),
        i < state.devices.records@.len(),
    ensures
        ({
            let key = state.devices.records@[i as int].config_key@;
            let leds = state.onboard_leds@;
            let reads = state.pointer.reads.lighting@;
            &&& led is Some <==> leds.contains_key(key) && leds[key]@.len() > 0
            &&& led matches Some(led) ==> led == leds[key]@[0]
            &&& reads.contains_key(key) ==> load == reads[key].load
            &&& !reads.contains_key(key) ==> load is Unknown
        }),
{
}

/// What the selected device's wheel can do, as far as was measured.
pub proof fn only_measured_capabilities_count(
    state: &AppState,
    inversion: bool,
    hires: bool,
    i: usize,
)
    requires
        call_ensures(AppState::current_scroll_inversion_supported, (state,), inversion),
        call_ensures(AppState::current_hires_wheel_supported, (state,), hires),
    ensures
        state.devices.selected is None ==> !inversion && !hires,
        state.devices.selected == Some(i) && i < state.devices.records@.len() ==> {
            let measured = state.devices.records@[i as int].capabilities;
            &&& measured is None ==> !inversion && !hires
            &&& measured matches Some(c) ==> inversion == c.scroll_inversion && hires
                == c.hires_wheel
        },
{
}

/// A write goes from its queue into its confirmation, and fails by its own number
/// alone.
pub proof fn a_queued_write_is_confirmed_once(
    write: &mut SmartShiftDeviceState,
    begun: &mut SmartShiftDeviceState,
    again: &mut SmartShiftDeviceState,
    expected: SmartShiftStatus,
    write_id: u64,
    other: u64,
    first: Option<u64>,
    second: Option<u64>,
    after: &SmartShiftDeviceState,
    awaited: Option<SmartShiftStatus>,
    stale: Option<SmartShiftStatus>,
)
    requires
        call_ensures(SmartShiftDeviceState::queue, (write, expected, write_id), ()),
        *old(begun) == *final(write),
        call_ensures(SmartShiftDeviceState::begin_confirmation, (begun,), first),
        *old(again) == *final(begun),
        call_ensures(SmartShiftDeviceState::begin_confirmation, (again,), second),
        *after == *final(again),
        call_ensures(SmartShiftDeviceState::confirming_expected, (after, write_id), awaited),
        other != write_id,
        call_ensures(SmartShiftDeviceState::confirming_expected, (after, other), stale),
    ensures
        first == Some(write_id),
        second is None,
        awaited == Some(expected),
        stale is None,
{
}

/// A confirmation that could not be asked for fails its own write, and no other.
pub proof fn only_the_own_confirmation_fails(
    write: &mut SmartShiftDeviceState,
    write_id: u64,
)
    requires
        call_ensures(SmartShiftDeviceState::fail_confirmation, (write, write_id), ()),
    ensures
        *old(write) matches SmartShiftDeviceState::Confirming { expected: _, write_id: running }
            ==> running == write_id ==> *final(write) == SmartShiftDeviceState::Failed,
        *old(write) matches SmartShiftDeviceState::Confirming { expected: _, write_id: running }
            ==> running != write_id ==> *final(write) == *old(write),
        !(*old(write) is Confirming) ==> *final(write) == *old(write),
{
}

} // verus!
