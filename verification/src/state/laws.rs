//! What holds of the window's state across its changes: who is remembered, what
//! stays selected, and what goes with a device.

use crate::record::{views, DeviceRecord};
use crate::services::assets::sync::{asked_for, target_key, AssetTarget};
use crate::services::device_reads::Cleared;
use crate::state::action_ring::RingDefaults;
use crate::state::config::{Config, DeviceIdentityView};
use crate::state::refresh::{
    adopt_routes, adoption_of, adoption_views, adoptions_among, all_wanted, brings_news,
    has_config_key, identifiable, identities, identity_of, key_wanted, persist_identities,
    remembered, rerouted, reselected_by_config_key, route_changed, wanted, Forget, Refreshed,
    RouteAdoption, Selection,
};
use crate::state::smartshift::SmartShiftDeviceState;
use crate::state::{AppState, Save, SaveOutcome};
use crate::text::owned_view;
use vstd::prelude::*;

verus! {

/// Whether a device was probed and found out: it is a physical device, online,
/// and reports what it can do, as a device or as a light.
pub open spec fn found_out(record: DeviceRecord) -> bool {
    record.online && record.persistent && !(record.capabilities is None
        && record.light_capabilities is None)
}

proof fn the_last_is_remembered(
    known: Map<Seq<char>, DeviceIdentityView>,
    list: Seq<DeviceRecord>,
    i: int,
)
    requires
        0 <= i < list.len(),
        identifiable(list[i]),
        forall|j: int|
            i < j < list.len() && found_out(#[trigger] list[j]) ==> list[j].config_key@
                != list[i].config_key@,
    ensures
        remembered(known, list).contains_key(list[i].config_key@),
        remembered(known, list)[list[i].config_key@] == identity_of(list[i]),
    decreases list.len(),
{
    let earlier = list.drop_last();
    if i < earlier.len() {
        assert forall|j: int| i < j < earlier.len() && found_out(#[trigger] earlier[j]) implies
            earlier[j].config_key@ != list[i].config_key@ by {
            assert(list[j] == earlier[j]);
        }
        the_last_is_remembered(known, earlier, i);
        assert(list[list.len() - 1] == list.last());
    }
}

/// After persisting, every device of the list that was found out has an identity
/// in the settings with its name, kind, capabilities and identifiers, a light
/// that reports only what it can do as a light as well. Of two records under
/// one key the later one counts.
pub proof fn devices_found_out_are_remembered(
    config: &mut Config,
    list: &Vec<DeviceRecord>,
    ring: &RingDefaults,
    changed: bool,
    i: int,
)
    requires
        call_ensures(persist_identities, (config, list, ring), changed),
        0 <= i < list@.len(),
        found_out(list@[i]),
        forall|j: int|
            i < j < list@.len() && found_out(#[trigger] list@[j]) ==> list@[j].config_key@
                != list@[i].config_key@,
    ensures
        final(config).devices@.contains_key(list@[i].config_key@),
        final(config).devices@[list@[i].config_key@].identity is Some,
        ({
            let identity = final(config).devices@[list@[i].config_key@].identity->0;
            &&& identity.display_name@ == list@[i].model_name@
            &&& identity.kind == list@[i].kind
            &&& list@[i].capabilities is Some ==> identity.capabilities
                == list@[i].capabilities->0
            &&& list@[i].capabilities is None ==> !identity.capabilities.hires_wheel
                && !identity.capabilities.lighting && !identity.capabilities.haptic_feedback
                && !identity.capabilities.scroll_inversion && identity.capabilities.others == 0
            &&& identity.light_capabilities == list@[i].light_capabilities
            &&& identity.model_info == list@[i].model_info
            &&& owned_view(identity.codename) == owned_view(list@[i].codename)
            &&& owned_view(identity.driver_id) == owned_view(list@[i].driver_id)
            &&& owned_view(identity.registry_model_id) == owned_view(list@[i].registry_model_id)
        }),
{
    let key = list@[i].config_key@;
    the_last_is_remembered(identities(*old(config)), list@, i);
    assert(identities(*final(config)).contains_key(key));
    assert(identities(*final(config))[key] == final(config).devices@[key].identity->0@);
}

proof fn others_are_as_they_were(
    known: Map<Seq<char>, DeviceIdentityView>,
    list: Seq<DeviceRecord>,
    key: Seq<char>,
)
    requires
        forall|j: int|
            0 <= j < list.len() && found_out(#[trigger] list[j]) ==> list[j].config_key@ != key,
    ensures
        remembered(known, list).contains_key(key) == known.contains_key(key),
        known.contains_key(key) ==> remembered(known, list)[key] == known[key],
    decreases list.len(),
{
    if list.len() > 0 {
        let earlier = list.drop_last();
        assert forall|j: int| 0 <= j < earlier.len() && found_out(#[trigger] earlier[j]) implies
            earlier[j].config_key@ != key by {
            assert(list[j] == earlier[j]);
        }
        others_are_as_they_were(known, earlier, key);
        assert(list[list.len() - 1] == list.last());
    }
}

/// What is remembered of a device stays as it was where the list holds no record
/// of it that was found out, and its other settings stay in any case.
pub proof fn nobody_else_is_remembered(
    config: &mut Config,
    list: &Vec<DeviceRecord>,
    ring: &RingDefaults,
    changed: bool,
    key: Seq<char>,
)
    requires
        call_ensures(persist_identities, (config, list, ring), changed),
    ensures
        (forall|j: int|
            0 <= j < list@.len() && found_out(#[trigger] list@[j]) ==> list@[j].config_key@ != key)
            ==> (final(config).devices@.contains_key(key)
            && final(config).devices@[key].identity is Some) == (old(config).devices@.contains_key(
            key,
        ) && old(config).devices@[key].identity is Some),
        (forall|j: int|
            0 <= j < list@.len() && found_out(#[trigger] list@[j]) ==> list@[j].config_key@ != key)
            && old(config).devices@.contains_key(key) && old(config).devices@[key].identity is Some
            ==> final(config).devices@[key].identity->0@ == old(
            config).devices@[key].identity->0@,
        old(config).devices@.contains_key(key) ==> {
            let before = old(config).devices@[key];
            let after = final(config).devices@[key];
            &&& final(config).devices@.contains_key(key)
            &&& after.links == before.links
            &&& after.per_app_settings == before.per_app_settings
            &&& after.action_ring == before.action_ring
            &&& after.invert_scroll == before.invert_scroll
            &&& after.scroll_resolution == before.scroll_resolution
            &&& after.report_rate == before.report_rate
            &&& after.lighting == before.lighting
            &&& after.smartshift == before.smartshift
        },
        final(config).selected_device == old(config).selected_device,
{
    if forall|j: int|
        0 <= j < list@.len() && found_out(#[trigger] list@[j]) ==> list@[j].config_key@ != key {
        others_are_as_they_were(identities(*old(config)), list@, key);
        assert(identities(*final(config)).contains_key(key) == identities(
            *old(config),
        ).contains_key(key));
    }
}

proof fn no_news_no_change(known: Map<Seq<char>, DeviceIdentityView>, list: Seq<DeviceRecord>)
    requires
        !brings_news(known, list),
    ensures
        remembered(known, list) == known,
    decreases list.len(),
{
    if list.len() > 0 {
        no_news_no_change(known, list.drop_last());
        assert(remembered(known, list) =~= known);
    }
}

proof fn a_new_one_is_news(
    known: Map<Seq<char>, DeviceIdentityView>,
    list: Seq<DeviceRecord>,
    i: int,
)
    requires
        0 <= i < list.len(),
        identifiable(list[i]),
        !(known.contains_key(list[i].config_key@) && known[list[i].config_key@] == identity_of(
            list[i],
        )),
        forall|j: int|
            0 <= j < i && found_out(#[trigger] list[j]) ==> list[j].config_key@
                != list[i].config_key@,
    ensures
        brings_news(known, list),
    decreases list.len(),
{
    let earlier = list.drop_last();
    if i < earlier.len() {
        assert forall|j: int| 0 <= j < i && found_out(#[trigger] earlier[j]) implies
            earlier[j].config_key@ != list[i].config_key@ by {
            assert(list[j] == earlier[j]);
        }
        a_new_one_is_news(known, earlier, i);
    } else {
        assert forall|j: int| 0 <= j < earlier.len() && found_out(#[trigger] earlier[j]) implies
            earlier[j].config_key@ != list[i].config_key@ by {
            assert(list[j] == earlier[j]);
        }
        others_are_as_they_were(known, earlier, list[i].config_key@);
    }
}

/// Persisting says that it changed something whenever a device was found out of
/// which nothing was remembered, or another name, kind or capability; and where
/// it says that nothing changed, every identity is as it was.
pub proof fn news_are_told(
    config: &mut Config,
    list: &Vec<DeviceRecord>,
    ring: &RingDefaults,
    changed: bool,
    i: int,
    key: Seq<char>,
)
    requires
        call_ensures(persist_identities, (config, list, ring), changed),
        0 <= i < list@.len(),
        found_out(list@[i]),
        forall|j: int|
            0 <= j < i && found_out(#[trigger] list@[j]) ==> list@[j].config_key@
                != list@[i].config_key@,
    ensures
        !old(config).devices@.contains_key(list@[i].config_key@) || old(
            config).devices@[list@[i].config_key@].identity is None ==> changed,
        old(config).devices@.contains_key(list@[i].config_key@) && (old(
            config).devices@[list@[i].config_key@].identity matches Some(identity) && (
        identity.display_name@ != list@[i].model_name@ || identity.kind != list@[i].kind
            || identity.light_capabilities != list@[i].light_capabilities
            || list@[i].capabilities is Some && identity.capabilities
            != list@[i].capabilities->0 || identity.model_info != list@[i].model_info)) ==> changed,
        !changed ==> (final(config).devices@.contains_key(key)
            && final(config).devices@[key].identity is Some) == (old(config).devices@.contains_key(
            key,
        ) && old(config).devices@[key].identity is Some),
        !changed && old(config).devices@.contains_key(key) && old(
            config).devices@[key].identity is Some ==> final(config).devices@[key].identity->0@
            == old(config).devices@[key].identity->0@,
{
    let known = identities(*old(config));
    let own = list@[i].config_key@;
    if !(known.contains_key(own) && known[own] == identity_of(list@[i])) {
        a_new_one_is_news(known, list@, i);
    } else {
        assert(known[own] == old(config).devices@[own].identity->0@);
    }
    if !changed {
        no_news_no_change(known, list@);
        assert(identities(*final(config)).contains_key(key) == known.contains_key(key));
        assert(identities(*final(config))[key] == known[key]);
    }
}

/// Whether the route of a record is its device's alone: the device is a physical
/// one that is online, and no other such device reports the route.
pub open spec fn owns_route(list: Seq<DeviceRecord>, i: int) -> bool {
    &&& 0 <= i < list.len()
    &&& list[i].persistent
    &&& list[i].online
    &&& forall|j: int|
        0 <= j < list.len() && j != i && (#[trigger] list[j]).route_key@ == list[i].route_key@
            ==> !(list[j].persistent && list[j].online)
}

/// Whether an adoption folds the route of a record into the settings that the
/// record belongs under.
pub open spec fn folds(adoption: RouteAdoption, record: DeviceRecord) -> bool {
    &&& record.canonical_key matches Some(key) ==> adoption.key@ == key@
    &&& record.canonical_key is None ==> adoption.key@ == record.config_key@
    &&& adoption.route@ == record.route_key@
    &&& adoption.capabilities == record.capabilities
}

proof fn owned_routes_are_among(
    list: Seq<DeviceRecord>,
    physical: Seq<bool>,
    n: int,
    i: int,
) -> (at: int)
    requires
        physical.len() == list.len(),
        0 <= i < n <= list.len(),
        owns_route(list, i),
        physical[i],
    ensures
        0 <= at < adoptions_among(list, physical, n).len(),
        adoptions_among(list, physical, n)[at] == adoption_of(list[i]),
    decreases n,
{
    let earlier = adoptions_among(list, physical, n - 1);
    if i == n - 1 {
        earlier.len() as int
    } else {
        owned_routes_are_among(list, physical, n - 1, i)
    }
}

proof fn adoptions_own_their_routes(
    list: Seq<DeviceRecord>,
    physical: Seq<bool>,
    n: int,
    at: int,
) -> (i: int)
    requires
        physical.len() == list.len(),
        0 <= n <= list.len(),
        0 <= at < adoptions_among(list, physical, n).len(),
    ensures
        0 <= i < n,
        owns_route(list, i),
        physical[i],
        adoptions_among(list, physical, n)[at] == adoption_of(list[i]),
    decreases n,
{
    let earlier = adoptions_among(list, physical, n - 1);
    if at < earlier.len() {
        adoptions_own_their_routes(list, physical, n - 1, at)
    } else {
        n - 1
    }
}

/// A route is folded into the settings of the physical device that was seen on it
/// online, and only if no other such device reports it. The settings are those
/// that the device belongs under, and what the link can do goes with it.
pub proof fn a_route_is_folded_where_it_belongs(
    list: &Vec<DeviceRecord>,
    physical: &Vec<bool>,
    adoptions: Vec<RouteAdoption>,
    i: int,
    a: int,
)
    requires
        physical@.len() == list@.len(),
        call_ensures(adopt_routes, (list, physical), adoptions),
    ensures
        owns_route(list@, i) && physical@[i] ==> exists|at: int|
            0 <= at < adoptions@.len() && folds(#[trigger] adoptions@[at], list@[i]),
        0 <= a < adoptions@.len() ==> exists|from: int|
            owns_route(list@, from) && physical@[from] && folds(
                adoptions@[a],
                #[trigger] list@[from],
            ),
{
    let n = list@.len() as int;
    let views = adoption_views(adoptions@);
    assert(views.len() == adoptions@.len());
    if owns_route(list@, i) && physical@[i] {
        let at = owned_routes_are_among(list@, physical@, n, i);
        assert(views[at] == adoption_of(list@[i]));
        assert(folds(adoptions@[at], list@[i]));
    }
    if 0 <= a < adoptions@.len() {
        let from = adoptions_own_their_routes(list@, physical@, n, a);
        assert(views[a] == adoption_of(list@[from]));
        assert(folds(adoptions@[a], list@[from]));
    }
}

/// Whether a list holds a device that is kept under `key`.
pub open spec fn keeps(records: Seq<DeviceRecord>, key: Seq<char>) -> bool {
    exists|i: int| 0 <= i < records.len() && (#[trigger] records[i]).config_key@ == key
}

/// Whether a device that is kept under `key` is on another route than before.
pub open spec fn moved(
    before: Seq<DeviceRecord>,
    after: Seq<DeviceRecord>,
    key: Seq<char>,
) -> bool {
    exists|i: int, j: int|
        0 <= i < before.len() && 0 <= j < after.len() && (#[trigger] before[i]).config_key@ == key
            && (#[trigger] after[j]).config_key@ == key && before[i].route != after[j].route
}

proof fn moved_is_rerouted(before: Seq<DeviceRecord>, after: Seq<DeviceRecord>, key: Seq<char>)
    ensures
        moved(before, after, key) == rerouted(before, after, key),
{
    if moved(before, after, key) {
        let (i, j) = choose|i: int, j: int|
            0 <= i < before.len() && 0 <= j < after.len() && (#[trigger] before[i]).config_key@
                == key && (#[trigger] after[j]).config_key@ == key && before[i].route
                != after[j].route;
        assert(before[i].config_key@ == after[j].config_key@);
        assert(route_changed(before, after[j]));
    }
    if rerouted(before, after, key) {
        let j = choose|j: int|
            0 <= j < after.len() && (#[trigger] after[j]).config_key@ == key && route_changed(
                before,
                after[j],
            );
        let i = choose|i: int|
            0 <= i < before.len() && (#[trigger] before[i]).config_key@ == after[j].config_key@
                && before[i].route != after[j].route;
        assert(before[i].config_key@ == key && after[j].config_key@ == key);
    }
}

/// A refreshed list is shown as it is. The selected device stays selected where
/// it is still listed, and else the first one is. What was read of a device
/// stays while it is listed on the route that it had; what was said of the last
/// write of one that moved is forgotten.
pub proof fn a_refresh_keeps_what_still_holds(
    state: &mut AppState,
    merged: Vec<DeviceRecord>,
    adopted: bool,
    outcome: SaveOutcome,
    refreshed: Option<Refreshed>,
    selected: usize,
    j: int,
    key: Seq<char>,
)
    requires
        call_ensures(AppState::finish_refresh, (state, merged, adopted, outcome), refreshed),
        refreshed is Some,
        old(state).devices.selected == Some(selected),
        selected < old(state).devices.records@.len(),
    ensures
        final(state).devices.records@ == merged@,
        0 <= j < merged@.len() && merged@[j].config_key@
            == old(state).devices.records@[selected as int].config_key@ && (forall|k: int|
            0 <= k < j ==> (#[trigger] merged@[k]).config_key@
                != old(state).devices.records@[selected as int].config_key@)
            ==> (final(state).devices.selected matches Some(now) && now == j),
        !keeps(merged@, old(state).devices.records@[selected as int].config_key@)
            ==> final(state).devices.selected == if merged@.len() > 0 {
            Some(0usize)
        } else {
            None
        },
        final(state).pointer.reads.dpi@.contains_key(key) <==> old(
            state).pointer.reads.dpi@.contains_key(key) && keeps(merged@, key) && !moved(
            old(state).devices.records@,
            merged@,
            key,
        ),
        final(state).pointer.reads.smartshift@.contains_key(key) <==> old(
            state).pointer.reads.smartshift@.contains_key(key) && keeps(merged@, key) && !moved(
            old(state).devices.records@,
            merged@,
            key,
        ),
        final(state).pointer.reads.report_rate@.contains_key(key) <==> old(
            state).pointer.reads.report_rate@.contains_key(key) && keeps(merged@, key) && !moved(
            old(state).devices.records@,
            merged@,
            key,
        ),
        final(state).pointer.reads.lighting@.contains_key(key) <==> old(
            state).pointer.reads.lighting@.contains_key(key) && keeps(merged@, key) && !moved(
            old(state).devices.records@,
            merged@,
            key,
        ),
        final(state).pointer.reads.dpi@.contains_key(key) ==> final(state).pointer.reads.dpi@[key]
            == old(state).pointer.reads.dpi@[key],
        final(state).pointer.reads.smartshift@.contains_key(key) ==> final(
            state).pointer.reads.smartshift@[key] == old(state).pointer.reads.smartshift@[key],
        final(state).devices.runtime@.contains_key(key)
            == old(state).devices.runtime@.contains_key(key),
        old(state).devices.runtime@.contains_key(key) ==> final(
            state).devices.runtime@[key].smartshift == if moved(
            old(state).devices.records@,
            merged@,
            key,
        ) {
            SmartShiftDeviceState::Idle
        } else {
            old(state).devices.runtime@[key].smartshift
        },
        outcome is Saved ==> final(state).config == old(state).config,
        outcome matches SaveOutcome::Failed { persisted } ==> final(state).config == persisted,
        final(state).editing_app == old(state).editing_app,
        final(state).onboard_leds == old(state).onboard_leds,
{
    let records = old(state).devices.records@;
    moved_is_rerouted(records, merged@, key);
    assert(keeps(merged@, key) == has_config_key(merged@, key));
    assert(final(state).devices.runtime@.contains_key(key)
        == old(state).devices.runtime@.contains_key(key));
    let own = records[selected as int].config_key@;
    assert(old(state).current_key() == Some(own));
    let at = choose|at: int| #[trigger]
        reselected_by_config_key(merged@, old(state).current_key(), at)
            && final(state).devices.selected == if at < merged@.len() {
            Some(at as usize)
        } else {
            None
        };
    assert(merged@.len() == merged.len());
    if 0 <= j < merged@.len() && merged@[j].config_key@ == own && (forall|k: int|
        0 <= k < j ==> (#[trigger] merged@[k]).config_key@ != own) {
        assert(merged@[at].config_key@ == own);
        assert(at == j);
    }
    if !keeps(merged@, own) {
        if 0 <= at < merged@.len() && merged@[at].config_key@ == own {
            assert(keeps(merged@, own));
        }
        assert(at == 0);
    }
}

/// A list that is the one shown already, and one whose routes could not be saved,
/// changes nothing but the settings that could not be saved, which are put back.
pub proof fn an_equal_list_changes_nothing(
    state: &mut AppState,
    merged: Vec<DeviceRecord>,
    adopted: bool,
    outcome: SaveOutcome,
    refreshed: Option<Refreshed>,
)
    requires
        call_ensures(AppState::finish_refresh, (state, merged, adopted, outcome), refreshed),
    ensures
        refreshed is None <==> adopted && outcome is Failed || views(merged@) == views(
            old(state).devices.records@,
        ),
        refreshed is None ==> final(state).devices == old(state).devices && final(state).pointer
            == old(state).pointer,
        refreshed is None && outcome is Saved ==> final(state).config == old(state).config,
        refreshed is None ==> (outcome matches SaveOutcome::Failed { persisted } ==> final(
            state).config == persisted),
{
}

/// A device is selected unless it is selected already or there is none there. A
/// read of it that failed is tried again and only that; a physical device is
/// remembered as the selected one.
pub proof fn a_selection_tries_failed_reads_again(
    state: &mut AppState,
    index: usize,
    selection: Option<Selection>,
    other: Seq<char>,
)
    requires
        call_ensures(AppState::set_current_device, (state, index), selection),
    ensures
        selection is Some <==> index < old(state).devices.records@.len() && old(
            state).devices.selected != Some(index),
        selection is None ==> *final(state) == *old(state),
        selection matches Some(selection) ==> {
            let record = old(state).devices.records@[index as int];
            let key = record.config_key@;
            let reads = old(state).pointer.reads;
            &&& final(state).devices.selected == Some(index)
            &&& final(state).devices.records == old(state).devices.records
            &&& selection.key@ == key
            &&& selection.retry_dpi <==> reads.dpi@.contains_key(key)
                && reads.dpi@[key].load is Failed
            &&& selection.retry_smartshift <==> reads.smartshift@.contains_key(key)
                && reads.smartshift@[key].load is Failed
            &&& selection.retry_dpi ==> final(state).pointer.reads.dpi@[key].load is Loading
            &&& other != key ==> final(state).pointer.reads.dpi@.contains_key(other)
                == reads.dpi@.contains_key(other)
            &&& other != key && reads.dpi@.contains_key(other)
                ==> final(state).pointer.reads.dpi@[other] == reads.dpi@[other]
            &&& !selection.retry_dpi ==> final(state).pointer.reads.dpi@ == reads.dpi@
            &&& !selection.retry_smartshift ==> final(state).pointer.reads.smartshift@
                == reads.smartshift@
            &&& selection.save is Some <==> record.persistent
            &&& record.persistent ==> (final(state).config.selected_device matches Some(kept)
                && kept@ == key)
            &&& !record.persistent ==> final(state).config == old(state).config
            &&& final(state).config.devices == old(state).config.devices
            &&& reads.dpi@.contains_key(key) && reads.dpi@[key].load is Ready
                ==> final(state).pointer.dpi == reads.dpi@[key].load->Ready_0.current
            &&& !reads.dpi@.contains_key(key) ==> final(state).pointer.dpi
                == old(state).default_dpi
        },
{
}

/// Only an offline device is forgotten: its settings go if it is a physical one,
/// and no other device's.
pub proof fn only_offline_devices_are_forgotten(
    state: &mut AppState,
    record_key: &str,
    pending: Option<Forget>,
    i: int,
    other: Seq<char>,
)
    requires
        call_ensures(AppState::forget_device, (state, record_key), pending),
        0 <= i < old(state).devices.records@.len(),
        old(state).devices.records@[i].record_key@ == record_key@,
        forall|k: int|
            0 <= k < i ==> (#[trigger] old(state).devices.records@[k]).record_key@ != record_key@,
    ensures
        pending is Some <==> !old(state).devices.records@[i].online,
        pending is None ==> *final(state) == *old(state),
        pending matches Some(pending) ==> {
            let record = old(state).devices.records@[i];
            &&& pending.index == i
            &&& pending.save is Some <==> record.persistent
            &&& record.persistent ==> !final(state).config.devices@.contains_key(
                record.config_key@,
            )
            &&& other != record.config_key@ || !record.persistent ==> final(
                state).config.devices@.contains_key(other)
                == old(state).config.devices@.contains_key(other)
            &&& (other != record.config_key@ || !record.persistent) && old(
                state).config.devices@.contains_key(other) ==> final(state).config.devices@[other]
                == old(state).config.devices@[other]
            &&& final(state).devices == old(state).devices
            &&& final(state).pointer == old(state).pointer
        },
{
    assert(old(state).card_at(record_key@, i));
    if let Some(pending) = pending {
        let at = pending.index as int;
        if at < i {
            assert(old(state).devices.records@[at].record_key@ != record_key@);
        } else if i < at {
            assert(old(state).devices.records@[i].record_key@ != record_key@);
        }
    } else {
        let at = choose|at: int| #[trigger]
            old(state).card_at(record_key@, at) && old(state).devices.records@[at].online;
        if at < i {
            assert(old(state).devices.records@[at].record_key@ != record_key@);
        } else if i < at {
            assert(old(state).devices.records@[i].record_key@ != record_key@);
        }
    }
}

/// A card that goes leaves the others in their order, and the selection on its
/// device; where the selected one went, the first is selected. What was read of
/// the device goes with it. Without a save the card stays, and the settings are
/// put back.
pub proof fn the_selection_stays_on_its_device(
    state: &mut AppState,
    pending: Forget,
    outcome: SaveOutcome,
    cleared: Option<Cleared>,
    selected: usize,
    other: Seq<char>,
)
    requires
        pending.index < old(state).devices.records@.len(),
        call_ensures(AppState::finish_forget, (state, pending, outcome), cleared),
        old(state).devices.selected == Some(selected),
        selected < old(state).devices.records@.len(),
    ensures
        cleared is Some <==> pending.save is None || outcome is Saved,
        cleared is None ==> final(state).devices == old(state).devices && (outcome matches
            SaveOutcome::Failed { persisted } ==> final(state).config == persisted),
        cleared is Some ==> {
            let records = old(state).devices.records@;
            let after = final(state).devices.records@;
            let key = records[pending.index as int].config_key@;
            &&& after.len() == records.len() - 1
            &&& selected != pending.index ==> (final(state).devices.selected matches Some(now)
                && now < after.len() && after[now as int] == records[selected as int])
            &&& selected == pending.index ==> final(state).devices.selected == if after.len() > 0 {
                Some(0usize)
            } else {
                None
            }
            &&& !final(state).pointer.reads.dpi@.contains_key(key)
            &&& !final(state).pointer.reads.smartshift@.contains_key(key)
            &&& !final(state).pointer.reads.report_rate@.contains_key(key)
            &&& !final(state).pointer.reads.lighting@.contains_key(key)
            &&& !final(state).devices.runtime@.contains_key(key)
            &&& other != key ==> final(state).devices.runtime@.contains_key(other)
                == old(state).devices.runtime@.contains_key(other)
            &&& other != key ==> final(state).pointer.reads.dpi@.contains_key(other)
                == old(state).pointer.reads.dpi@.contains_key(other)
        },
{
}

/// Folded routes are saved and read again by the agent; news of who the devices
/// are are saved without; otherwise nothing is. Every device of the merged list
/// that was found out is remembered.
pub proof fn a_refresh_saves_what_is_new(
    state: &mut AppState,
    snapshot: crate::table::Table<DeviceRecord>,
    adopted: bool,
    refreshed: (Vec<DeviceRecord>, Option<Save>),
    i: int,
)
    requires
        call_ensures(AppState::refresh_inventories, (state, snapshot, adopted), refreshed),
        0 <= i < refreshed.0@.len(),
        found_out(refreshed.0@[i]),
        forall|j: int|
            0 <= j < refreshed.0@.len() && j != i && found_out(#[trigger] refreshed.0@[j])
                ==> refreshed.0@[j].config_key@ != refreshed.0@[i].config_key@,
    ensures
        adopted ==> (refreshed.1 matches Some(save) && save.reload),
        !adopted ==> (refreshed.1 matches Some(save) ==> !save.reload),
        final(state).config.devices@.contains_key(refreshed.0@[i].config_key@),
        final(state).config.devices@[refreshed.0@[i].config_key@].identity matches Some(identity)
            && identity.display_name@ == refreshed.0@[i].model_name@ && identity.kind
            == refreshed.0@[i].kind,
        !adopted && !(old(state).config.devices@.contains_key(refreshed.0@[i].config_key@) && old(
            state).config.devices@[refreshed.0@[i].config_key@].identity is Some)
            ==> refreshed.1 is Some,
        final(state).devices.records == old(state).devices.records,
        final(state).pointer == old(state).pointer,
{
    let list = refreshed.0@;
    let known = identities(old(state).config);
    let key = list[i].config_key@;
    the_last_is_remembered(known, list, i);
    assert(identities(final(state).config).contains_key(key));
    assert(identities(final(state).config)[key] == identity_of(list[i]));
    if !known.contains_key(key) {
        a_new_one_is_news(known, list, i);
    }
}

/// The name of the art that a device wants: its registry id where it has one,
/// and else what its firmware says.
pub proof fn each_device_wants_its_art(state: &AppState, targets: Vec<AssetTarget>, i: int, t: int)
    requires
        call_ensures(AppState::asset_models, (state,), targets),
    ensures
        0 <= i < state.devices.records@.len() && state.devices.records@[i].registry_model_id is Some
            ==> exists|at: int|
            0 <= at < targets@.len() && asked_for(#[trigger] targets@[at]) == (
                false,
                0int,
                0int,
                0int,
                0int,
                state.devices.records@[i].registry_model_id->0@,
            ),
        0 <= i < state.devices.records@.len() && state.devices.records@[i].registry_model_id is None
            && state.devices.records@[i].model_info is Some ==> exists|at: int|
            0 <= at < targets@.len() && asked_for(#[trigger] targets@[at]) == (
                true,
                state.devices.records@[i].model_info->0.extended_model_id as int,
                state.devices.records@[i].model_info->0.model_id_1 as int,
                state.devices.records@[i].model_info->0.model_id_2 as int,
                state.devices.records@[i].model_info->0.model_id_3 as int,
                match state.devices.records@[i].codename {
                    Some(codename) => codename@,
                    None => seq![],
                },
            ),
        0 <= t < targets@.len() && 0 <= i < t ==> asked_for(targets@[i]) != asked_for(targets@[t]),
{
    let records = state.devices.records@;
    if 0 <= i < records.len() {
        if let Some(target) = wanted(records[i]) {
            let at = wants_are_listed(records, i, target);
            crate::services::assets::sync::keys_tell_targets_apart(targets@[at], target);
        }
    }
    if 0 <= i < t < targets@.len() {
        wants_differ(records, i, t);
        if asked_for(targets@[i]) == asked_for(targets@[t]) {
            same_asks(targets@[i], targets@[t]);
        }
    }
}

proof fn same_asks(a: AssetTarget, b: AssetTarget)
    requires
        asked_for(a) == asked_for(b),
    ensures
        target_key(a) == target_key(b),
{
}

proof fn wants_are_listed(records: Seq<DeviceRecord>, i: int, target: AssetTarget) -> (at: int)
    requires
        0 <= i < records.len(),
        wanted(records[i]) == Some(target),
    ensures
        0 <= at < all_wanted(records).len(),
        target_key(all_wanted(records)[at]) == target_key(target),
    decreases records.len(),
{
    let shorter = records.drop_last();
    let earlier = all_wanted(shorter);
    if i < shorter.len() {
        assert(shorter[i] == records[i]);
        wants_are_listed(shorter, i, target)
    } else {
        assert(records.last() == records[i]);
        if key_wanted(earlier, target_key(target)) {
            choose|at: int| 0 <= at < earlier.len() && target_key(#[trigger] earlier[at])
                == target_key(target)
        } else {
            earlier.len() as int
        }
    }
}

proof fn wants_differ(records: Seq<DeviceRecord>, a: int, b: int)
    requires
        0 <= a < b < all_wanted(records).len(),
    ensures
        target_key(all_wanted(records)[a]) != target_key(all_wanted(records)[b]),
    decreases records.len(),
{
    if records.len() > 0 {
        let earlier = all_wanted(records.drop_last());
        if b < earlier.len() {
            wants_differ(records.drop_last(), a, b);
        } else {
            assert(target_key(earlier[a]) == target_key(earlier[a]));
        }
    }
}

} // verus!
