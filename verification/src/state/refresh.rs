//! What follows from a merged device list, and changes of the selection.

use crate::device::Capabilities;
use crate::hid::{Dpi, DpiInfo};
use crate::record::{same_records, views, DeviceRecord};
use crate::services::assets::sync::{model_key, target_key, AssetTarget};
use crate::services::device_reads::{retried, Cleared, GoneReads};
use crate::state::catalog::{DeviceCatalog, DeviceRuntimeState};
use crate::state::config::{Config, DeviceConfig, DeviceIdentity, DeviceIdentityView};
use crate::state::action_ring::RingDefaults;
use crate::state::load::Load;
use crate::state::smartshift::{write_replaced, SmartShiftDeviceState};
use crate::state::{saves, AppState, PointerState, Save, SaveOutcome};
use crate::table::{lists, Table};
use crate::text::{owned_view, same_text};
use vstd::prelude::*;

verus! {

/// The art that a device wants: by its registry id if it has one, and otherwise
/// by what its firmware says.
pub open spec fn wanted(record: DeviceRecord) -> Option<AssetTarget> {
    match record.registry_model_id {
        Some(registry_model_id) => Some(AssetTarget::Standalone { registry_model_id }),
        None => match record.model_info {
            Some(model) => Some(AssetTarget::Hidpp { model, codename: record.codename }),
            None => None,
        },
    }
}

/// Whether one of `targets` has this key.
pub open spec fn key_wanted(targets: Seq<AssetTarget>, key: Seq<char>) -> bool {
    exists|i: int| 0 <= i < targets.len() && target_key(#[trigger] targets[i]) == key
}

/// The art that devices want, in their order, each once.
pub open spec fn all_wanted(records: Seq<DeviceRecord>) -> Seq<AssetTarget>
    decreases records.len(),
{
    if records.len() == 0 {
        seq![]
    } else {
        let earlier = all_wanted(records.drop_last());
        match wanted(records.last()) {
            Some(target) => if key_wanted(earlier, target_key(target)) {
                earlier
            } else {
                earlier.push(target)
            },
            None => earlier,
        }
    }
}

fn target_of(record: &DeviceRecord) -> (target: Option<AssetTarget>)
    ensures
        target == wanted(*record),
{
    match &record.registry_model_id {
        Some(id) => Some(AssetTarget::Standalone { registry_model_id: id.clone() }),
        None => match record.model_info {
            Some(model) => Some(AssetTarget::Hidpp { model, codename: record.codename.clone() }),
            None => None,
        },
    }
}

/// Whether a record's route can be attributed to its device: the device is a
/// physical one and online, and no other such device of the list reports the
/// same route.
pub open spec fn attributable(list: Seq<DeviceRecord>, i: int) -> bool {
    &&& list[i].persistent && list[i].online
    &&& forall|j: int|
        0 <= j < list.len() && j != i && (#[trigger] list[j]).persistent && list[j].online
            ==> list[j].route_key@ != list[i].route_key@
}

/// The key that a device's settings belong under.
pub open spec fn canonical_key(record: DeviceRecord) -> Seq<char> {
    match record.canonical_key {
        Some(key) => key@,
        None => record.config_key@,
    }
}

/// A route to be folded into a device's settings.
#[derive(Debug)]
pub struct RouteAdoption {
    pub key: String,
    pub route: String,
    pub capabilities: Option<Capabilities>,
}

/// What is to be folded for one record.
pub open spec fn adoption_of(record: DeviceRecord) -> (Seq<char>, Seq<char>, Option<Capabilities>) {
    (canonical_key(record), record.route_key@, record.capabilities)
}

/// What adoptions hold.
pub open spec fn adoption_views(
    adoptions: Seq<RouteAdoption>,
) -> Seq<(Seq<char>, Seq<char>, Option<Capabilities>)> {
    adoptions.map_values(
        |adoption: RouteAdoption| (adoption.key@, adoption.route@, adoption.capabilities),
    )
}

/// The routes of the first `n` records that can be attributed, in order, of
/// those whose key `physical` says to name a physical device.
pub open spec fn adoptions_among(
    list: Seq<DeviceRecord>,
    physical: Seq<bool>,
    n: int,
) -> Seq<(Seq<char>, Seq<char>, Option<Capabilities>)>
    decreases n,
{
    if n <= 0 {
        seq![]
    } else {
        let earlier = adoptions_among(list, physical, n - 1);
        if attributable(list, n - 1) && physical[n - 1] {
            earlier.push(adoption_of(list[n - 1]))
        } else {
            earlier
        }
    }
}

fn shares_route(list: &Vec<DeviceRecord>, index: usize) -> (shared: bool)
    requires
        index < list@.len(),
        list@[index as int].persistent,
        list@[index as int].online,
    ensures
        shared == !attributable(list@, index as int),
{
    let mut i: usize = 0;
    while i < list.len()
        invariant
            i <= list@.len(),
            index < list@.len(),
            list@[index as int].persistent,
            list@[index as int].online,
            forall|j: int|
                0 <= j < i && j != index && (#[trigger] list@[j]).persistent && list@[j].online
                    ==> list@[j].route_key@ != list@[index as int].route_key@,
        decreases list@.len() - i,
    {
        if i != index && list[i].persistent && list[i].online && same_text(
            list[i].route_key.as_str(),
            list[index].route_key.as_str(),
        ) {
            return true;
        }
        i += 1;
    }
    false
}

/// Which routes of a device list are folded into the settings of the devices
/// that were seen on them. A route that two online devices share cannot be
/// attributed to either, and is skipped. `physical` says of each record whether
/// the key that its settings belong under names a physical device; one that
/// names none is skipped too.
pub fn adopt_routes(list: &Vec<DeviceRecord>, physical: &Vec<bool>) -> (adoptions: Vec<
    RouteAdoption,
>)
    requires
        physical@.len() == list@.len(),
    ensures
        adoption_views(adoptions@) == adoptions_among(list@, physical@, list@.len() as int),
{
    let mut adoptions: Vec<RouteAdoption> = Vec::new();
    let mut i: usize = 0;
    assert(adoption_views(adoptions@) =~= adoptions_among(list@, physical@, 0));
    while i < list.len()
        invariant
            i <= list@.len(),
            physical@.len() == list@.len(),
            adoption_views(adoptions@) == adoptions_among(list@, physical@, i as int),
        decreases list@.len() - i,
    {
        let record = &list[i];
        if record.persistent && record.online && physical[i] && !shares_route(list, i) {
            let ghost before = adoptions@;
            let key = match &record.canonical_key {
                Some(key) => key.clone(),
                None => record.config_key.clone(),
            };
            adoptions.push(
                RouteAdoption {
                    key,
                    route: record.route_key.clone(),
                    capabilities: record.capabilities,
                },
            );
            assert(adoption_views(adoptions@) =~= adoption_views(before).push(
                adoption_of(list@[i as int]),
            ));
        }
        i += 1;
    }
    adoptions
}

/// Whether folding routes changed the settings: one of the folds did.
pub fn routes_adopted(changed: &Vec<bool>) -> (adopted: bool)
    ensures
        adopted == changed@.contains(true),
{
    let mut i: usize = 0;
    while i < changed.len()
        invariant
            i <= changed@.len(),
            forall|j: int| 0 <= j < i ==> !#[trigger] changed@[j],
        decreases changed@.len() - i,
    {
        if changed[i] {
            assert(changed@[i as int] == true);
            return true;
        }
        i += 1;
    }
    false
}

/// A route that two online physical devices share is adopted for neither.
pub proof fn shared_routes_are_not_adopted(
    list: Seq<DeviceRecord>,
    physical: Seq<bool>,
    i: int,
    j: int,
    n: int,
    k: int,
)
    requires
        0 <= i < list.len(),
        0 <= j < list.len(),
        i != j,
        list[i].persistent && list[i].online,
        list[j].persistent && list[j].online,
        list[i].route_key@ == list[j].route_key@,
        0 <= n <= list.len(),
        0 <= k < adoptions_among(list, physical, n).len(),
    ensures
        adoptions_among(list, physical, n)[k].1 != list[i].route_key@,
    decreases n,
{
    if n > 0 {
        if k < adoptions_among(list, physical, n - 1).len() {
            shared_routes_are_not_adopted(list, physical, i, j, n - 1, k);
        } else {
            assert(attributable(list, n - 1));
            assert(list[n - 1].route_key@ != list[i].route_key@ || n - 1 == i);
            assert(list[n - 1].route_key@ != list[j].route_key@ || n - 1 == j);
        }
    }
}

/// A route is adopted exactly for the online physical devices that alone report
/// it and whose key names a physical device, each for its own key and with what
/// the device can do there.
pub proof fn attributable_routes_are_adopted(
    list: Seq<DeviceRecord>,
    physical: Seq<bool>,
    n: int,
    adoption: (Seq<char>, Seq<char>, Option<Capabilities>),
)
    requires
        physical.len() == list.len(),
        0 <= n <= list.len(),
    ensures
        adoptions_among(list, physical, n).contains(adoption) <==> exists|i: int|
            0 <= i < n && #[trigger] attributable(list, i) && physical[i] && adoption_of(list[i])
                == adoption,
    decreases n,
{
    if n > 0 {
        let earlier = adoptions_among(list, physical, n - 1);
        let all = adoptions_among(list, physical, n);
        attributable_routes_are_adopted(list, physical, n - 1, adoption);
        if earlier.contains(adoption) {
            let k = choose|k: int| 0 <= k < earlier.len() && earlier[k] == adoption;
            assert(all[k] == adoption);
        }
        if all.contains(adoption) {
            let k = choose|k: int| 0 <= k < all.len() && all[k] == adoption;
            if k < earlier.len() {
                assert(earlier[k] == adoption);
            } else {
                assert(attributable(list, n - 1));
            }
        }
        if attributable(list, n - 1) && physical[n - 1] {
            assert(all[all.len() - 1] == adoption_of(list[n - 1]));
        }
    }
}

/// Whether a device's identity is worth remembering: it is a physical device,
/// it was actually probed, and the probe found out what it can do.
pub open spec fn identifiable(record: DeviceRecord) -> bool {
    record.online && record.persistent && (record.capabilities is Some
        || record.light_capabilities is Some)
}

/// What is remembered of a device.
pub open spec fn identity_of(record: DeviceRecord) -> DeviceIdentityView {
    DeviceIdentityView {
        display_name: record.model_name@,
        kind: record.kind,
        capabilities: match record.capabilities {
            Some(capabilities) => capabilities,
            None => Capabilities {
                haptic_feedback: false,
                lighting: false,
                hires_wheel: false,
                scroll_inversion: false,
                others: 0,
            },
        },
        light_capabilities: record.light_capabilities,
        model_info: record.model_info,
        codename: owned_view(record.codename),
        driver_id: owned_view(record.driver_id),
        registry_model_id: owned_view(record.registry_model_id),
    }
}

/// What is remembered of devices, by key.
pub open spec fn identities(config: Config) -> Map<Seq<char>, DeviceIdentityView> {
    Map::new(
        |key: Seq<char>|
            config.devices@.contains_key(key) && config.devices@[key].identity is Some,
        |key: Seq<char>| config.devices@[key].identity->0@,
    )
}

/// What is remembered once the devices of a list are.
pub open spec fn remembered(
    known: Map<Seq<char>, DeviceIdentityView>,
    list: Seq<DeviceRecord>,
) -> Map<Seq<char>, DeviceIdentityView>
    decreases list.len(),
{
    if list.len() == 0 {
        known
    } else {
        let earlier = remembered(known, list.drop_last());
        if identifiable(list.last()) {
            earlier.insert(list.last().config_key@, identity_of(list.last()))
        } else {
            earlier
        }
    }
}

/// Whether remembering the devices of a list brings anything new.
pub open spec fn brings_news(
    known: Map<Seq<char>, DeviceIdentityView>,
    list: Seq<DeviceRecord>,
) -> bool
    decreases list.len(),
{
    if list.len() == 0 {
        false
    } else {
        let earlier = remembered(known, list.drop_last());
        brings_news(known, list.drop_last()) || identifiable(list.last()) && !(
        earlier.contains_key(list.last().config_key@) && earlier[list.last().config_key@]
            == identity_of(list.last()))
    }
}

/// Whether `after` holds the settings of `before`, identities aside; a device
/// that is new in it has no other settings.
pub open spec fn settings_kept(before: Config, after: Config, ring: RingDefaults) -> bool {
    &&& after.selected_device == before.selected_device
    &&& forall|key: Seq<char>| #[trigger]
        before.devices@.contains_key(key) ==> after.devices@.contains_key(key)
            && after.devices@[key] == (DeviceConfig {
            identity: after.devices@[key].identity,
            ..before.devices@[key]
        })
    &&& forall|key: Seq<char>| #[trigger]
        after.devices@.contains_key(key) && !before.devices@.contains_key(key) ==> exists|
            initial: DeviceConfig,
        | #[trigger]
            initial.is_initial(ring) && after.devices@[key] == (DeviceConfig {
                identity: after.devices@[key].identity,
                ..initial
            })
}

fn remember(config: &mut Config, record: &DeviceRecord, ring: &RingDefaults) -> (changed: bool)
    requires
        identifiable(*record),
    ensures
        changed == !(identities(*old(config)).contains_key(record.config_key@) && identities(
            *old(config),
        )[record.config_key@] == identity_of(*record)),
        identities(*final(config)) == identities(*old(config)).insert(
            record.config_key@,
            identity_of(*record),
        ),
        settings_kept(*old(config), *final(config), *ring),
{
    let identity = DeviceIdentity {
        display_name: record.model_name.clone(),
        kind: record.kind,
        capabilities: match record.capabilities {
            Some(capabilities) => capabilities,
            None => Capabilities::none(),
        },
        light_capabilities: record.light_capabilities,
        model_info: record.model_info,
        codename: record.codename.clone(),
        driver_id: record.driver_id.clone(),
        registry_model_id: record.registry_model_id.clone(),
    };
    assert(identity@ == identity_of(*record));
    let key = record.config_key.as_str();
    if let Some(device) = config.devices.get(key) {
        if let Some(known) = &device.identity {
            if known.same(&identity) {
                assert(identities(*config) =~= identities(*config).insert(
                    key@,
                    identity_of(*record),
                ));
                return false;
            }
        }
    }
    let mut device = config.take_device(key, ring);
    let ghost base = device;
    device.identity = Some(identity);
    config.put_device(key, device);
    proof {
        assert(identities(*config) =~= identities(*old(config)).insert(
            key@,
            identity_of(*record),
        ));
        assert(device == (DeviceConfig { identity: device.identity, ..base }));
        if !old(config).devices@.contains_key(key@) {
            assert(base.is_initial(*ring));
        }
    }
    true
}

/// Remembers what the devices of a list are, for the times when they are away.
/// Returns whether that brought anything new.
pub fn persist_identities(
    config: &mut Config,
    list: &Vec<DeviceRecord>,
    ring: &RingDefaults,
) -> (changed: bool)
    ensures
        changed == brings_news(identities(*old(config)), list@),
        identities(*final(config)) == remembered(identities(*old(config)), list@),
        settings_kept(*old(config), *final(config), *ring),
{
    let mut changed = false;
    let mut i: usize = 0;
    let ghost first = *config;
    let ghost known = identities(first);
    assert(list@.take(0) =~= seq![]);
    while i < list.len()
        invariant
            i <= list@.len(),
            known == identities(first),
            changed == brings_news(known, list@.take(i as int)),
            identities(*config) == remembered(known, list@.take(i as int)),
            settings_kept(first, *config, *ring),
        decreases list@.len() - i,
    {
        let record = &list[i];
        let ghost before = *config;
        proof {
            let longer = list@.take(i + 1);
            assert(longer.drop_last() =~= list@.take(i as int));
            assert(longer.last() == list@[i as int]);
        }
        if record.online && record.persistent && (record.capabilities.is_some()
            || record.light_capabilities.is_some()) {
            let news = remember(config, record, ring);
            changed = changed || news;
            proof {
                settings_stay_kept(first, before, *config, *ring);
            }
        }
        i += 1;
    }
    assert(list@.take(list@.len() as int) =~= list@);
    changed
}

proof fn settings_stay_kept(first: Config, between: Config, last: Config, ring: RingDefaults)
    requires
        settings_kept(first, between, ring),
        settings_kept(between, last, ring),
    ensures
        settings_kept(first, last, ring),
{
    assert forall|key: Seq<char>| #[trigger]
        first.devices@.contains_key(key) implies last.devices@.contains_key(key)
        && last.devices@[key] == (DeviceConfig {
        identity: last.devices@[key].identity,
        ..first.devices@[key]
    }) by {
        assert(between.devices@.contains_key(key));
    }
    assert forall|key: Seq<char>| #[trigger]
        last.devices@.contains_key(key) && !first.devices@.contains_key(key) implies exists|
        initial: DeviceConfig,
    | #[trigger]
        initial.is_initial(ring) && last.devices@[key] == (DeviceConfig {
            identity: last.devices@[key].identity,
            ..initial
        }) by {
        if between.devices@.contains_key(key) {
            let initial = choose|initial: DeviceConfig| #[trigger]
                initial.is_initial(ring) && between.devices@[key] == (DeviceConfig {
                    identity: between.devices@[key].identity,
                    ..initial
                });
            assert(initial.is_initial(ring) && last.devices@[key] == (DeviceConfig {
                identity: last.devices@[key].identity,
                ..initial
            }));
        }
    }
}

impl AppState {
    /// The art that the known devices want, each once. This goes by the merged
    /// list, so that a device whose probe is incomplete still gets its art.
    pub fn asset_models(&self) -> (targets: Vec<AssetTarget>)
        ensures
            targets@ == all_wanted(self.devices.records@),
    {
        let mut targets: Vec<AssetTarget> = Vec::new();
        let mut i: usize = 0;
        assert(self.devices.records@.take(0) =~= seq![]);
        while i < self.devices.records.len()
            invariant
                i <= self.devices.records@.len(),
                targets@ == all_wanted(self.devices.records@.take(i as int)),
            decreases self.devices.records@.len() - i,
        {
            proof {
                let longer = self.devices.records@.take(i + 1);
                assert(longer.drop_last() =~= self.devices.records@.take(i as int));
                assert(longer.last() == self.devices.records@[i as int]);
            }
            if let Some(target) = target_of(&self.devices.records[i]) {
                let key = model_key(&target);
                if !has_target(&targets, key.as_str()) {
                    targets.push(target);
                }
            }
            i += 1;
        }
        assert(self.devices.records@.take(self.devices.records@.len() as int)
            =~= self.devices.records@);
        targets
    }

    /// What was read of the selected device's resolutions.
    pub open spec fn dpi_info(self) -> Option<DpiInfo> {
        match self.current() {
            Some(record) => if self.pointer.reads.dpi@.contains_key(record.config_key@) {
                match self.pointer.reads.dpi@[record.config_key@].load {
                    Load::Ready(info) => Some(*info),
                    _ => None,
                }
            } else {
                None
            },
            None => None,
        }
    }

    /// The resolution read from the selected device, or the default.
    pub open spec fn shown_dpi(self) -> Dpi {
        match self.dpi_info() {
            Some(info) => info.current,
            None => self.default_dpi,
        }
    }

    /// The polling frequency read from the selected device, or the default.
    pub open spec fn shown_report_rate(self) -> u16 {
        match self.report_rate_info() {
            Some(info) => info.current,
            None => crate::state::report_rate::DEFAULT_REPORT_RATE,
        }
    }

    /// The resolution read from the selected device, or the default.
    pub fn dpi_for_current(&self) -> (dpi: Dpi)
        ensures
            dpi == self.shown_dpi(),
    {
        if let Some(record) = self.current_record() {
            if let Some(Load::Ready(info)) = self.pointer.reads.dpi_load(
                record.config_key.as_str(),
            ) {
                return info.current;
            }
        }
        self.default_dpi
    }

    fn seed_pointer(&mut self)
        ensures
            *final(self) == (AppState {
                pointer: PointerState {
                    dpi: old(self).shown_dpi(),
                    report_rate: old(self).shown_report_rate(),
                    ..old(self).pointer
                },
                ..*old(self)
            }),
    {
        let dpi: Dpi = self.dpi_for_current();
        let report_rate: u16 = self.report_rate_for_current();
        self.pointer.dpi = dpi;
        self.pointer.report_rate = report_rate;
    }
}

/// Whether one of `records` is kept under `key`.
pub open spec fn has_config_key(records: Seq<DeviceRecord>, key: Seq<char>) -> bool {
    exists|i: int| 0 <= i < records.len() && (#[trigger] records[i]).config_key@ == key
}

/// Whether a record has come back on another route than one of `records` had
/// under its key.
pub open spec fn route_changed(records: Seq<DeviceRecord>, record: DeviceRecord) -> bool {
    exists|i: int|
        0 <= i < records.len() && (#[trigger] records[i]).config_key@ == record.config_key@
            && records[i].route != record.route
}

/// Whether `key` is that of a device of `merged` that came back on another
/// route than it had in `records`.
pub open spec fn rerouted(
    records: Seq<DeviceRecord>,
    merged: Seq<DeviceRecord>,
    key: Seq<char>,
) -> bool {
    exists|i: int|
        0 <= i < merged.len() && (#[trigger] merged[i]).config_key@ == key && route_changed(
            records,
            merged[i],
        )
}

/// Whether `keys` are those of the devices of `merged` that came back on another
/// route than they had in `records`.
pub open spec fn lists_rerouted(
    keys: Seq<String>,
    records: Seq<DeviceRecord>,
    merged: Seq<DeviceRecord>,
) -> bool {
    forall|key: Seq<char>| #[trigger] lists(keys, key) <==> rerouted(records, merged, key)
}

/// Whether `after` is the part of `before` whose keys `keep` accepts.
pub open spec fn kept_where<V>(
    before: Map<Seq<char>, V>,
    after: Map<Seq<char>, V>,
    keep: spec_fn(Seq<char>) -> bool,
) -> bool {
    &&& forall|key: Seq<char>| #[trigger]
        after.contains_key(key) <==> before.contains_key(key) && keep(key)
    &&& forall|key: Seq<char>| #[trigger] after.contains_key(key) ==> after[key] == before[key]
}

/// Whether `gone` are the keys of the reads whose device is not in `merged`.
pub open spec fn went_with<V>(
    reads: Map<Seq<char>, V>,
    gone: Seq<String>,
    merged: Seq<DeviceRecord>,
) -> bool {
    forall|key: Seq<char>| #[trigger]
        lists(gone, key) <==> reads.contains_key(key) && !has_config_key(merged, key)
}

/// Whether `after` is `before` with the writes of rerouted devices forgotten.
pub open spec fn writes_forgotten(
    before: Map<Seq<char>, DeviceRuntimeState>,
    after: Map<Seq<char>, DeviceRuntimeState>,
    forgotten: spec_fn(Seq<char>) -> bool,
) -> bool {
    &&& forall|key: Seq<char>| #[trigger] after.contains_key(key) <==> before.contains_key(key)
    &&& forall|key: Seq<char>| #[trigger]
        after.contains_key(key) ==> after[key] == if forgotten(key) {
            DeviceRuntimeState { smartshift: SmartShiftDeviceState::Idle, ..before[key] }
        } else {
            before[key]
        }
}

/// The first position in `records` of the device kept under this key, or
/// the first position of all.
pub open spec fn reselected_by_config_key(records: Seq<DeviceRecord>, key: Option<Seq<char>>, at: int) -> bool {
    match key {
        Some(key) => {
            ||| 0 <= at < records.len() && records[at].config_key@ == key && forall|i: int|
                0 <= i < at ==> (#[trigger] records[i]).config_key@ != key
            ||| at == 0 && forall|i: int|
                0 <= i < records.len() ==> (#[trigger] records[i]).config_key@ != key
        },
        None => at == 0,
    }
}

fn position_of(records: &Vec<DeviceRecord>, key: &Option<String>) -> (at: usize)
    ensures
        reselected_by_config_key(records@, owned_view(*key), at as int),
{
    let sought = match key {
        Some(key) => key.as_str(),
        None => {
            return 0;
        },
    };
    let mut i: usize = 0;
    while i < records.len()
        invariant
            i <= records@.len(),
            owned_view(*key) == Some(sought@),
            forall|j: int| 0 <= j < i ==> (#[trigger] records@[j]).config_key@ != sought@,
        decreases records@.len() - i,
    {
        if same_text(records[i].config_key.as_str(), sought) {
            return i;
        }
        i += 1;
    }
    0
}

fn came_back_elsewhere(records: &Vec<DeviceRecord>, record: &DeviceRecord) -> (changed: bool)
    ensures
        changed == route_changed(records@, *record),
{
    let mut i: usize = 0;
    while i < records.len()
        invariant
            i <= records@.len(),
            forall|j: int|
                0 <= j < i ==> !((#[trigger] records@[j]).config_key@ == record.config_key@
                    && records@[j].route != record.route),
        decreases records@.len() - i,
    {
        if same_text(records[i].config_key.as_str(), record.config_key.as_str())
            && records[i].route != record.route {
            return true;
        }
        i += 1;
    }
    false
}

fn rerouted_keys(
    records: &Vec<DeviceRecord>,
    merged: &Vec<DeviceRecord>,
) -> (keys: Vec<String>)
    ensures
        lists_rerouted(keys@, records@, merged@),
{
    let mut keys: Vec<String> = Vec::new();
    let mut i: usize = 0;
    while i < merged.len()
        invariant
            i <= merged@.len(),
            forall|key: Seq<char>| #[trigger]
                lists(keys@, key) <==> rerouted(records@, merged@.take(i as int), key),
        decreases merged@.len() - i,
    {
        let ghost before = keys@;
        let changed = came_back_elsewhere(records, &merged[i]);
        if changed {
            keys.push(merged[i].config_key.clone());
        }
        proof {
            let shorter = merged@.take(i as int);
            let longer = merged@.take(i + 1);
            let last = merged@[i as int];
            assert forall|key: Seq<char>| #[trigger]
                lists(keys@, key) <==> rerouted(records@, longer, key) by {
                if lists(keys@, key) {
                    let at = choose|at: int|
                        0 <= at < keys@.len() && (#[trigger] keys@[at])@ == key;
                    if at < before.len() {
                        assert(before[at]@ == key);
                        assert(lists(before, key));
                        let j = choose|j: int|
                            0 <= j < shorter.len() && (#[trigger] shorter[j]).config_key@ == key
                                && route_changed(records@, shorter[j]);
                        assert(longer[j] == shorter[j]);
                    } else {
                        assert(longer[i as int] == last);
                    }
                }
                if rerouted(records@, longer, key) {
                    let j = choose|j: int|
                        0 <= j < longer.len() && (#[trigger] longer[j]).config_key@ == key
                            && route_changed(records@, longer[j]);
                    if j < i {
                        assert(shorter[j] == longer[j]);
                        assert(lists(before, key));
                        let at = choose|at: int|
                            0 <= at < before.len() && (#[trigger] before[at])@ == key;
                        assert(keys@[at]@ == key);
                    } else {
                        assert(keys@[before.len() as int]@ == key);
                    }
                }
            }
        }
        i += 1;
    }
    assert(merged@.take(merged@.len() as int) =~= merged@);
    keys
}

fn config_keys(records: &Vec<DeviceRecord>) -> (keys: Vec<String>)
    ensures
        forall|key: Seq<char>| #[trigger] lists(keys@, key) <==> has_config_key(records@, key),
{
    let mut keys: Vec<String> = Vec::new();
    let mut i: usize = 0;
    while i < records.len()
        invariant
            i <= records@.len(),
            keys@.len() == i,
            forall|j: int| 0 <= j < i ==> (#[trigger] keys@[j])@ == records@[j].config_key@,
        decreases records@.len() - i,
    {
        keys.push(records[i].config_key.clone());
        i += 1;
    }
    proof {
        assert forall|key: Seq<char>| #[trigger]
            lists(keys@, key) <==> has_config_key(records@, key) by {
            if lists(keys@, key) {
                let at = choose|at: int| 0 <= at < keys@.len() && (#[trigger] keys@[at])@ == key;
                assert(records@[at].config_key@ == key);
            }
            if has_config_key(records@, key) {
                let at = choose|at: int|
                    0 <= at < records@.len() && (#[trigger] records@[at]).config_key@ == key;
                assert(keys@[at]@ == key);
            }
        }
    }
    keys
}

/// A new selection: the device's key, which of its reads are asked again, and
/// what has to be saved.
#[derive(Debug)]
pub struct Selection {
    pub key: String,
    pub retry_dpi: bool,
    pub retry_smartshift: bool,
    pub save: Option<Save>,
}

/// A device that is about to be forgotten: where its card is, and what has to be
/// saved.
#[derive(Debug)]
pub struct Forget {
    pub index: usize,
    pub save: Option<Save>,
}

/// The selection after the card at `removed` went: on the same device, or on
/// the first one if its device went or there was none, or none if no card is
/// left.
pub open spec fn selected_after_removal(
    selected: Option<usize>,
    removed: usize,
    left: nat,
) -> Option<usize> {
    let index = match selected {
        Some(selected) => if selected > removed {
            (selected - 1) as usize
        } else if selected == removed {
            0
        } else {
            selected
        },
        None => 0,
    };
    if index < left {
        Some(index)
    } else {
        None
    }
}

/// Forgetting another device keeps the selected one selected.
pub proof fn the_selection_follows_its_device(
    before: DeviceCatalog,
    after: DeviceCatalog,
    removed: usize,
)
    requires
        removed < before.records@.len(),
        before.current() is Some,
        before.selected != Some(removed),
        after.records@ == before.records@.remove(removed as int),
        after.selected == selected_after_removal(
            before.selected,
            removed,
            before.records@.remove(removed as int).len(),
        ),
    ensures
        after.current() == before.current(),
{
}

/// What the result cache has to empty after a refresh: every entry of a device
/// that came back on another route, and those of devices that left.
#[derive(Debug)]
pub struct Refreshed {
    pub rerouted: Vec<String>,
    pub gone: GoneReads,
}

impl AppState {
    /// Merges a snapshot and remembers who its devices are. `adopted` says
    /// whether routes were folded into the settings just before. Returns the
    /// merged list and what has to be saved before it is shown, which is up to
    /// [`AppState::finish_refresh`].
    pub fn refresh_inventories(
        &mut self,
        snapshot: Table<DeviceRecord>,
        adopted: bool,
    ) -> (refreshed: (Vec<DeviceRecord>, Option<Save>))
        ensures
            old(self).merges(snapshot, final(self).devices.runtime@, refreshed.0@),
            identities(final(self).config) == remembered(
                identities(old(self).config),
                refreshed.0@,
            ),
            settings_kept(old(self).config, final(self).config, old(self).ring_defaults),
            *final(self) == (AppState {
                config: final(self).config,
                devices: DeviceCatalog {
                    runtime: final(self).devices.runtime,
                    ..old(self).devices
                },
                ..*old(self)
            }),
            if adopted {
                saves(refreshed.1, "adopt device route"@, true)
            } else if brings_news(identities(old(self).config), refreshed.0@) {
                saves(refreshed.1, "device identity"@, false)
            } else {
                refreshed.1 is None
            },
    {
        let merged = self.merge_inventory_snapshot(snapshot);
        let changed = persist_identities(&mut self.config, &merged, &self.ring_defaults);
        let save = if adopted {
            Some(Save { what: "adopt device route", reload: true })
        } else if changed {
            Some(Save { what: "device identity", reload: false })
        } else {
            None
        };
        (merged, save)
    }

    /// Whether `after` differs from this state in the devices and what was read
    /// of them at most.
    pub open spec fn only_devices_and_reads_changed(self, after: AppState) -> bool {
        &&& after == (AppState { devices: after.devices, pointer: after.pointer, ..self })
        &&& after.pointer.next_smartshift_write_id == self.pointer.next_smartshift_write_id
        &&& after.pointer.reads.attached == self.pointer.reads.attached
        &&& after.pointer.reads.next_generation == self.pointer.reads.next_generation
    }

    /// Shows a merged list, unless it is the one shown already. Settings that
    /// could not be saved are put back; where routes had been folded into them,
    /// the list then names keys that are no longer there, and the old one
    /// stays. `outcome` is what came of the write, and [`SaveOutcome::Saved`]
    /// if there was nothing to write. The selected device stays selected if it is still listed. A device that came back on
    /// another route is read anew, and what was known of its last write is
    /// forgotten. Returns nothing if nothing changed.
    pub fn finish_refresh(
        &mut self,
        merged: Vec<DeviceRecord>,
        adopted: bool,
        outcome: SaveOutcome,
    ) -> (refreshed: Option<Refreshed>)
        ensures
            refreshed is Some == !(adopted && !(outcome is Saved) || views(merged@) == views(
                old(self).devices.records@,
            )),
            refreshed is None ==> *final(self) == old(self).after_save(outcome),
            refreshed matches Some(refreshed) ==> {
                let records = old(self).devices.records@;
                let keep = |key: Seq<char>|
                    has_config_key(merged@, key) && !rerouted(records, merged@, key);
                &&& final(self).devices.records == merged
                &&& exists|at: int| #[trigger]
                    reselected_by_config_key(merged@, old(self).current_key(), at)
                        && final(self).devices.selected == if at < merged@.len() {
                        Some(at as usize)
                    } else {
                        None
                    }
                &&& kept_where(old(self).pointer.reads.dpi@, final(self).pointer.reads.dpi@, keep)
                &&& kept_where(
                    old(self).pointer.reads.report_rate@,
                    final(self).pointer.reads.report_rate@,
                    keep,
                )
                &&& kept_where(
                    old(self).pointer.reads.smartshift@,
                    final(self).pointer.reads.smartshift@,
                    keep,
                )
                &&& kept_where(
                    old(self).pointer.reads.lighting@,
                    final(self).pointer.reads.lighting@,
                    keep,
                )
                &&& writes_forgotten(
                    old(self).devices.runtime@,
                    final(self).devices.runtime@,
                    |key: Seq<char>| rerouted(records, merged@, key),
                )
                &&& final(self).pointer.dpi == final(self).shown_dpi()
                &&& final(self).pointer.report_rate == final(self).shown_report_rate()
                &&& old(self).after_save(outcome).only_devices_and_reads_changed(*final(self))
                &&& lists_rerouted(refreshed.rerouted@, records, merged@)
                &&& went_with(old(self).pointer.reads.dpi@, refreshed.gone.dpi@, merged@)
                &&& went_with(
                    old(self).pointer.reads.report_rate@,
                    refreshed.gone.report_rate@,
                    merged@,
                )
                &&& went_with(
                    old(self).pointer.reads.smartshift@,
                    refreshed.gone.smartshift@,
                    merged@,
                )
                &&& went_with(old(self).pointer.reads.lighting@, refreshed.gone.lighting@, merged@)
            },
    {
        let saved = self.finish_save(outcome);
        if adopted && !saved {
            return None;
        }
        if same_records(&merged, &self.devices.records) {
            return None;
        }
        let previous_key = match self.current_record() {
            Some(record) => Some(record.config_key.clone()),
            None => None,
        };
        let index: usize = position_of(&merged, &previous_key);
        let keys = rerouted_keys(&self.devices.records, &merged);
        let ghost records = self.devices.records@;
        let ghost list = merged@;
        let ghost reads = self.pointer.reads;
        let ghost rows = self.devices.runtime@;
        let present = config_keys(&merged);
        self.devices.replace(merged, index);
        let mut i: usize = 0;
        while i < keys.len()
            invariant
                i <= keys@.len(),
                kept_where(
                    reads.dpi@,
                    self.pointer.reads.dpi@,
                    |key: Seq<char>| !lists(keys@.take(i as int), key),
                ),
                kept_where(
                    reads.report_rate@,
                    self.pointer.reads.report_rate@,
                    |key: Seq<char>| !lists(keys@.take(i as int), key),
                ),
                kept_where(
                    reads.smartshift@,
                    self.pointer.reads.smartshift@,
                    |key: Seq<char>| !lists(keys@.take(i as int), key),
                ),
                kept_where(
                    reads.lighting@,
                    self.pointer.reads.lighting@,
                    |key: Seq<char>| !lists(keys@.take(i as int), key),
                ),
                writes_forgotten(
                    rows,
                    self.devices.runtime@,
                    |key: Seq<char>| lists(keys@.take(i as int), key),
                ),
                self.devices.records == merged,
                self.devices.selected == if index < merged@.len() {
                    Some(index)
                } else {
                    None
                },
                old(self).after_save(outcome).only_devices_and_reads_changed(*self),
            decreases keys@.len() - i,
        {
            let key = keys[i].as_str();
            self.pointer.reads.remove(key);
            self.forget_write(key);
            proof {
                one_more_listed(keys@, i as int);
            }
            i += 1;
        }
        proof {
            assert(keys@.take(keys@.len() as int) =~= keys@);
        }
        let gone = self.pointer.reads.retain_present(&present);
        self.seed_pointer();
        proof {
            assert(reselected_by_config_key(merged@, owned_view(previous_key), index as int));
            assert(writes_forgotten(
                rows,
                self.devices.runtime@,
                |key: Seq<char>| rerouted(records, merged@, key),
            ));
        }
        Some(Refreshed { rerouted: keys, gone })
    }

    /// Whether `after` is this state once the device at `index` was selected,
    /// and `selection` says what follows from it.
    pub open spec fn selects(self, after: AppState, index: usize, selection: Selection) -> bool {
        let record = self.devices.records@[index as int];
        let key = record.config_key@;
        &&& selection.key@ == key
        &&& selection.retry_dpi == (self.pointer.reads.dpi@.contains_key(key)
            && self.pointer.reads.dpi@[key].load is Failed)
        &&& selection.retry_smartshift == (
        self.pointer.reads.smartshift@.contains_key(key)
            && self.pointer.reads.smartshift@[key].load is Failed)
        &&& after.devices.records == self.devices.records
        &&& after.devices.selected == Some(index)
        &&& after.pointer.reads.dpi@ == if selection.retry_dpi {
            self.pointer.reads.dpi@.insert(
                key,
                retried(self.pointer.reads.dpi@[key]),
            )
        } else {
            self.pointer.reads.dpi@
        }
        &&& after.pointer.reads.smartshift@ == if selection.retry_smartshift {
            self.pointer.reads.smartshift@.insert(
                key,
                retried(self.pointer.reads.smartshift@[key]),
            )
        } else {
            self.pointer.reads.smartshift@
        }
        &&& after.devices.runtime@ == if selection.retry_smartshift {
            write_replaced(self.devices.runtime@, key, SmartShiftDeviceState::Idle)
        } else {
            self.devices.runtime@
        }
        &&& after.pointer.dpi == after.shown_dpi()
        &&& after.pointer.report_rate == after.shown_report_rate()
        &&& after.pointer.reads.report_rate == self.pointer.reads.report_rate
        &&& after.pointer.reads.lighting == self.pointer.reads.lighting
        &&& self.only_devices_and_reads_changed(
            AppState { config: self.config, ..after },
        )
        &&& after.config.devices == self.config.devices
        &&& if record.persistent {
            &&& saves(selection.save, "selected device"@, true)
            &&& owned_view(after.config.selected_device) == Some(key)
        } else {
            &&& selection.save is None
            &&& after.config == self.config
        }
    }

    /// Selects the device at `index`; a position out of range and the device
    /// selected already change nothing. A read of it that failed gets one
    /// fresh attempt. Its key is remembered, unless it is a half-read probe's.
    pub fn set_current_device(&mut self, index: usize) -> (selection: Option<Selection>)
        ensures
            selection is Some == (index < old(self).devices.records@.len()
                && old(self).devices.selected != Some(index)),
            selection is None ==> *final(self) == *old(self),
            selection matches Some(selection) ==> old(self).selects(
                *final(self),
                index,
                selection,
            ),
    {
        if !self.devices.select(index) {
            return None;
        }
        let key = self.devices.records[index].config_key.clone();
        let persistent = self.devices.records[index].persistent;
        let retry_dpi = match self.pointer.reads.dpi_load(key.as_str()) {
            Some(Load::Failed(_)) => true,
            _ => false,
        };
        if retry_dpi {
            self.pointer.reads.retry_dpi(key.as_str());
        }
        let retry_smartshift = match self.pointer.reads.smartshift_load(key.as_str()) {
            Some(Load::Failed(_)) => true,
            _ => false,
        };
        if retry_smartshift {
            self.retry_smartshift(key.as_str());
        }
        self.seed_pointer();
        let save = if persistent {
            self.config.selected_device = Some(key.clone());
            Some(Save { what: "selected device", reload: true })
        } else {
            None
        };
        Some(Selection { key, retry_dpi, retry_smartshift, save })
    }

    /// Whether the card under `record_key` is the first such one, at `at`.
    pub open spec fn card_at(self, record_key: Seq<char>, at: int) -> bool {
        &&& 0 <= at < self.devices.records@.len()
        &&& self.devices.records@[at].record_key@ == record_key
        &&& forall|i: int|
            0 <= i < at ==> (#[trigger] self.devices.records@[i]).record_key@ != record_key
    }

    /// Whether there is no card under `record_key`.
    pub open spec fn no_card(self, record_key: Seq<char>) -> bool {
        forall|i: int|
            0 <= i < self.devices.records@.len() ==> (
            #[trigger] self.devices.records@[i]).record_key@ != record_key
    }

    fn find_card(&self, record_key: &str) -> (found: Option<usize>)
        ensures
            match found {
                Some(at) => self.card_at(record_key@, at as int),
                None => self.no_card(record_key@),
            },
    {
        let mut i: usize = 0;
        while i < self.devices.records.len()
            invariant
                i <= self.devices.records@.len(),
                forall|j: int|
                    0 <= j < i ==> (#[trigger] self.devices.records@[j]).record_key@
                        != record_key@,
            decreases self.devices.records@.len() - i,
        {
            if same_text(self.devices.records[i].record_key.as_str(), record_key) {
                return Some(i);
            }
            i += 1;
        }
        None
    }

    /// Begins to forget an offline device: takes its settings out. A device
    /// that is online would register again at once, and is not forgotten, and
    /// neither is one without a card. The card goes once the settings are
    /// saved, see [`AppState::finish_forget`].
    pub fn forget_device(&mut self, record_key: &str) -> (pending: Option<Forget>)
        ensures
            pending is None ==> *final(self) == *old(self) && (old(self).no_card(record_key@)
                || exists|at: int| #[trigger]
                old(self).card_at(record_key@, at) && old(self).devices.records@[at].online),
            pending matches Some(pending) ==> {
                let record = old(self).devices.records@[pending.index as int];
                &&& old(self).card_at(record_key@, pending.index as int)
                &&& !record.online
                &&& *final(self) == (AppState { config: final(self).config, ..*old(self) })
                &&& final(self).config.selected_device == old(self).config.selected_device
                &&& if record.persistent {
                    &&& saves(pending.save, "device removed"@, true)
                    &&& final(self).config.devices@ == old(self).config.devices@.remove(
                        record.config_key@,
                    )
                } else {
                    &&& pending.save is None
                    &&& final(self).config == old(self).config
                }
            },
    {
        let index: usize = match self.find_card(record_key) {
            Some(index) => index,
            None => {
                return None;
            },
        };
        if self.devices.records[index].online {
            assert(old(self).card_at(record_key@, index as int));
            return None;
        }
        if !self.devices.records[index].persistent {
            return Some(Forget { index, save: None });
        }
        let key = self.devices.records[index].config_key.clone();
        self.config.devices.remove(key.as_str());
        Some(Forget { index, save: Some(Save { what: "device removed", reload: true }) })
    }

    /// Ends to forget a device. If the settings could not be saved without it,
    /// they are put back and the card stays: memory, disk and gallery
    /// agree. Otherwise the card goes, with all that was tracked and read of
    /// the device, and the selection stays on its device, or goes to the first
    /// one if its device went. Returns what the cache has to empty.
    pub fn finish_forget(&mut self, pending: Forget, outcome: SaveOutcome) -> (cleared: Option<
        Cleared,
    >)
        requires
            pending.index < old(self).devices.records@.len(),
        ensures
            cleared is Some == (pending.save is None || outcome is Saved),
            cleared is None ==> *final(self) == old(self).after_save(outcome),
            cleared matches Some(cleared) ==> {
                let at = pending.index as int;
                let key = old(self).devices.records@[at].config_key@;
                let left = old(self).devices.records@.remove(at);
                &&& final(self).devices.records@ == left
                &&& final(self).devices.selected == selected_after_removal(
                    old(self).devices.selected,
                    pending.index,
                    left.len(),
                )
                &&& final(self).devices.runtime@ == old(self).devices.runtime@.remove(key)
                &&& final(self).pointer.reads.dpi@ == old(self).pointer.reads.dpi@.remove(key)
                &&& final(self).pointer.reads.report_rate@
                    == old(self).pointer.reads.report_rate@.remove(key)
                &&& final(self).pointer.reads.smartshift@
                    == old(self).pointer.reads.smartshift@.remove(key)
                &&& final(self).pointer.reads.lighting@ == old(
                    self).pointer.reads.lighting@.remove(key)
                &&& cleared == (Cleared {
                    dpi: old(self).pointer.reads.dpi@.contains_key(key),
                    report_rate: old(self).pointer.reads.report_rate@.contains_key(key),
                    smartshift: old(self).pointer.reads.smartshift@.contains_key(key),
                    lighting: old(self).pointer.reads.lighting@.contains_key(key),
                })
                &&& old(self).only_devices_and_reads_changed(*final(self))
                &&& final(self).pointer.dpi == old(self).pointer.dpi
                &&& final(self).pointer.report_rate == old(self).pointer.report_rate
            },
    {
        let key = self.devices.records[pending.index].config_key.clone();
        if pending.save.is_some() && !self.finish_save(outcome) {
            return None;
        }
        let selected: usize = match self.devices.selected_index() {
            Some(selected) => if selected > pending.index {
                selected - 1
            } else if selected == pending.index {
                0
            } else {
                selected
            },
            None => 0,
        };
        self.devices.records.remove(pending.index);
        self.devices.selected = if selected < self.devices.records.len() {
            Some(selected)
        } else {
            None
        };
        self.devices.runtime.remove(key.as_str());
        let cleared = self.pointer.reads.remove(key.as_str());
        Some(cleared)
    }

    fn forget_write(&mut self, key: &str)
        ensures
            final(self).devices.runtime@ == write_replaced(
                old(self).devices.runtime@,
                key@,
                SmartShiftDeviceState::Idle,
            ),
            *final(self) == (AppState {
                devices: DeviceCatalog {
                    runtime: final(self).devices.runtime,
                    ..old(self).devices
                },
                ..*old(self)
            }),
    {
        let row = match self.devices.runtime.get(key) {
            Some(row) => *row,
            None => {
                return;
            },
        };
        self.devices.runtime.insert(
            key,
            DeviceRuntimeState {
                inventory_misses: row.inventory_misses,
                smartshift: SmartShiftDeviceState::Idle,
            },
        );
    }
}

proof fn one_more_listed(keys: Seq<String>, i: int)
    requires
        0 <= i < keys.len(),
    ensures
        forall|key: Seq<char>| #[trigger]
            lists(keys.take(i + 1), key) <==> lists(keys.take(i), key) || key == keys[i]@,
{
    assert forall|key: Seq<char>| #[trigger]
        lists(keys.take(i + 1), key) <==> lists(keys.take(i), key) || key == keys[i]@ by {
        if lists(keys.take(i), key) {
            let at = choose|at: int| 0 <= at < i && (#[trigger] keys.take(i)[at])@ == key;
            assert(keys.take(i + 1)[at]@ == key);
        }
        if lists(keys.take(i + 1), key) {
            let at = choose|at: int| 0 <= at < i + 1 && (#[trigger] keys.take(i + 1)[at])@ == key;
            if at < i {
                assert(keys.take(i)[at]@ == key);
            }
        }
        assert(keys.take(i + 1)[i]@ == keys[i]@);
    }
}

fn has_target(targets: &Vec<AssetTarget>, key: &str) -> (found: bool)
    ensures
        found == key_wanted(targets@, key@),
{
    let mut i: usize = 0;
    while i < targets.len()
        invariant
            i <= targets@.len(),
            forall|j: int| 0 <= j < i ==> target_key(#[trigger] targets@[j]) != key@,
        decreases targets@.len() - i,
    {
        let candidate = model_key(&targets[i]);
        if same_text(candidate.as_str(), key) {
            return true;
        }
        i += 1;
    }
    false
}

/// No two of the wanted targets ask for the same art, and every device that
/// wants art gets it.
pub proof fn art_is_wanted_once(records: Seq<DeviceRecord>)
    ensures
        forall|i: int, j: int|
            #![trigger all_wanted(records)[i], all_wanted(records)[j]]
            0 <= i < j < all_wanted(records).len() ==> target_key(all_wanted(records)[i])
                != target_key(all_wanted(records)[j]),
        forall|i: int|
            0 <= i < records.len() ==> (wanted(#[trigger] records[i]) matches Some(target)
                ==> key_wanted(all_wanted(records), target_key(target))),
    decreases records.len(),
{
    if records.len() > 0 {
        let earlier = all_wanted(records.drop_last());
        let all = all_wanted(records);
        art_is_wanted_once(records.drop_last());
        assert forall|i: int, j: int|
            #![trigger all[i], all[j]]
            0 <= i < j < all.len() implies target_key(all[i]) != target_key(all[j]) by {
            assert(all[i] == earlier[i]);
            if j < earlier.len() {
                assert(all[j] == earlier[j]);
            } else {
                assert(!key_wanted(earlier, target_key(all[j])));
            }
        }
        assert forall|i: int| 0 <= i < records.len() implies (wanted(
            #[trigger] records[i],
        ) matches Some(target) ==> key_wanted(all, target_key(target))) by {
            if let Some(target) = wanted(records[i]) {
                if i < records.len() - 1 {
                    assert(records.drop_last()[i] == records[i]);
                    let at = choose|at: int|
                        0 <= at < earlier.len() && target_key(#[trigger] earlier[at])
                            == target_key(target);
                    assert(all[at] == earlier[at]);
                } else if key_wanted(earlier, target_key(target)) {
                    let at = choose|at: int|
                        0 <= at < earlier.len() && target_key(#[trigger] earlier[at])
                            == target_key(target);
                    assert(all[at] == earlier[at]);
                } else {
                    assert(all[all.len() - 1] == target);
                }
            }
        }
    }
}

} // verus!
