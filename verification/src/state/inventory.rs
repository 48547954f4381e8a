//! Device list refresh, adoption of half-read probes, and selection.

use crate::record::DeviceRecord;
use crate::state::AppState;
use crate::table::{key_at, keys_increase, list_contains, lists, Table};
use crate::text::{owned_view, same_owned_text, same_text};
use vstd::prelude::*;

verus! {

/// A half-read probe of a snapshot: its key, the wire identity in it, and the
/// product id that its model proves.
#[derive(Debug)]
pub struct Probe {
    pub key: String,
    pub prefix: Option<String>,
    pub wire_pid: Option<String>,
}

/// What a [`Probe`] holds.
pub struct ProbeView {
    pub key: Seq<char>,
    pub prefix: Option<Seq<char>>,
    pub wire_pid: Option<Seq<char>>,
}

impl View for Probe {
    type V = ProbeView;

    open spec fn view(&self) -> ProbeView {
        ProbeView {
            key: self.key@,
            prefix: owned_view(self.prefix),
            wire_pid: owned_view(self.wire_pid),
        }
    }
}

/// What a probe says of itself.
pub open spec fn probe_of(record: DeviceRecord) -> ProbeView {
    ProbeView {
        key: record.config_key@,
        prefix: owned_view(record.direct_prefix),
        wire_pid: owned_view(record.wire_pid),
    }
}

/// The half-read probes among `entries`, in order.
pub open spec fn probes_in(entries: Seq<(String, DeviceRecord)>) -> Seq<ProbeView>
    decreases entries.len(),
{
    if entries.len() == 0 {
        seq![]
    } else {
        let earlier = probes_in(entries.drop_last());
        if entries.last().1.persistent {
            earlier
        } else {
            earlier.push(probe_of(entries.last().1))
        }
    }
}

/// What the probes were matched with so far: what is left of the snapshot, and
/// the records that known devices got from probes, by the known device's key.
pub ghost struct Adoption {
    pub by_key: Map<Seq<char>, DeviceRecord>,
    pub adopted: Map<Seq<char>, DeviceRecord>,
}

/// A known device's record on the link of a probe of it: who the device is, as
/// it was known; where and how it is now, as the probe says.
pub open spec fn adopted_record(known: DeviceRecord, live: DeviceRecord) -> DeviceRecord {
    DeviceRecord {
        route_key: live.route_key,
        route: live.route,
        slot: live.slot,
        online: live.online,
        battery: live.battery,
        order_key: live.order_key,
        capabilities: match live.capabilities {
            Some(capabilities) => Some(capabilities),
            None => known.capabilities,
        },
        model_info: match live.model_info {
            Some(model_info) => Some(model_info),
            None => known.model_info,
        },
        firmware_serial_number: match live.model_info {
            Some(_) => live.firmware_serial_number,
            None => known.firmware_serial_number,
        },
        firmware_unit_id: match live.model_info {
            Some(_) => live.firmware_unit_id,
            None => known.firmware_unit_id,
        },
        ..known
    }
}

/// Puts a known device on the link of a probe of it.
pub fn adopt_transient_record(known: &DeviceRecord, live: DeviceRecord) -> (record: DeviceRecord)
    ensures
        record == adopted_record(*known, live),
{
    let mut record = known.clone();
    record.route_key = live.route_key;
    record.route = live.route;
    record.slot = live.slot;
    record.online = live.online;
    record.battery = live.battery;
    record.order_key = live.order_key;
    if live.capabilities.is_some() {
        record.capabilities = live.capabilities;
    }
    if live.model_info.is_some() {
        record.model_info = live.model_info;
        record.firmware_serial_number = live.firmware_serial_number;
        record.firmware_unit_id = live.firmware_unit_id;
    }
    record
}

/// The first record that is kept under `key`.
pub open spec fn first_with_key(records: Seq<DeviceRecord>, key: Seq<char>) -> Option<DeviceRecord>
    decreases records.len(),
{
    if records.len() == 0 {
        None
    } else if records[0].config_key@ == key {
        Some(records[0])
    } else {
        first_with_key(records.drop_first(), key)
    }
}

fn find_with_key<'a>(records: &'a Vec<DeviceRecord>, key: &str) -> (found: Option<&'a DeviceRecord>)
    ensures
        match found {
            Some(record) => first_with_key(records@, key@) == Some(*record),
            None => first_with_key(records@, key@) is None,
        },
{
    let mut i: usize = 0;
    assert(records@.skip(0) =~= records@);
    while i < records.len()
        invariant
            i <= records@.len(),
            first_with_key(records@, key@) == first_with_key(records@.skip(i as int), key@),
        decreases records@.len() - i,
    {
        assert(records@.skip(i as int).drop_first() =~= records@.skip(i + 1));
        if same_text(records[i].config_key.as_str(), key) {
            return Some(&records[i]);
        }
        i += 1;
    }
    None
}

impl AppState {
    /// Whether a known device shares the probe's wire identity: it is on that
    /// link, it was last adopted on that link, or its model proves the same
    /// product id.
    pub open spec fn same_wire(self, probe: ProbeView, record: DeviceRecord) -> bool {
        &&& record.persistent
        &&& probe.prefix matches Some(prefix) && {
            ||| record.route_key@ == prefix
            ||| self.config.devices@.contains_key(record.config_key@)
                && self.config.devices@[record.config_key@].links@.contains_key(prefix)
            ||| probe.wire_pid is Some && owned_view(record.wire_pid) == probe.wire_pid
        }
    }

    fn shares_wire(&self, probe: &Probe, record: &DeviceRecord) -> (shares: bool)
        ensures
            shares == self.same_wire(probe@, *record),
    {
        if !record.persistent {
            return false;
        }
        let prefix = match &probe.prefix {
            Some(prefix) => prefix.as_str(),
            None => {
                return false;
            },
        };
        if same_text(record.route_key.as_str(), prefix) {
            return true;
        }
        if let Some(device) = self.config.devices.get(record.config_key.as_str()) {
            if device.links.contains_key(prefix) {
                return true;
            }
        }
        probe.wire_pid.is_some() && same_owned_text(&record.wire_pid, &probe.wire_pid)
    }

    /// Whether the probe may be the device known under `key`: it shares the
    /// probe's wire identity and is not live online. A device of the snapshot
    /// that is offline may be, and one of the last list that the snapshot
    /// lacks.
    pub open spec fn candidate(
        self,
        by_key: Map<Seq<char>, DeviceRecord>,
        probe: ProbeView,
        key: Seq<char>,
    ) -> bool {
        ||| by_key.contains_key(key) && self.same_wire(probe, by_key[key]) && !by_key[key].online
        ||| !by_key.contains_key(key) && exists|i: int|
            0 <= i < self.devices.records@.len() && (
            #[trigger] self.devices.records@[i]).config_key@ == key && self.same_wire(
                probe,
                self.devices.records@[i],
            )
    }

    /// Whether the probe can only be the device known under `key`.
    pub open spec fn sole_candidate(
        self,
        by_key: Map<Seq<char>, DeviceRecord>,
        probe: ProbeView,
        key: Seq<char>,
    ) -> bool {
        &&& self.candidate(by_key, probe, key)
        &&& forall|other: Seq<char>| #[trigger]
            self.candidate(by_key, probe, other) ==> other == key
    }

    /// Whether a device with the probe's wire identity is live online.
    pub open spec fn sibling_online(
        self,
        by_key: Map<Seq<char>, DeviceRecord>,
        probe: ProbeView,
    ) -> bool {
        exists|key: Seq<char>| #[trigger]
            by_key.contains_key(key) && self.same_wire(probe, by_key[key]) && by_key[key].online
    }

    /// What is known of `key`: its record of the last list, which is the
    /// freshest, or else its place holder in the snapshot.
    pub open spec fn known_record(
        self,
        by_key: Map<Seq<char>, DeviceRecord>,
        key: Seq<char>,
    ) -> DeviceRecord {
        match first_with_key(self.devices.records@, key) {
            Some(record) => record,
            None => by_key[key],
        }
    }

    /// The state after one probe was matched. If it can only be one known
    /// device, that device takes it over. If it can be none, and a device with
    /// its wire identity is live online, it is noise and dropped. Otherwise it
    /// stays.
    pub open spec fn probe_matched(self, state: Adoption, probe: ProbeView) -> Adoption {
        if probe.prefix is None {
            state
        } else if exists|key: Seq<char>| self.sole_candidate(state.by_key, probe, key) {
            let known_key = choose|key: Seq<char>| self.sole_candidate(state.by_key, probe, key);
            let rest = state.by_key.remove(known_key);
            Adoption {
                by_key: rest.remove(probe.key),
                adopted: if rest.contains_key(probe.key) {
                    state.adopted.insert(
                        known_key,
                        adopted_record(
                            self.known_record(state.by_key, known_key),
                            rest[probe.key],
                        ),
                    )
                } else {
                    state.adopted
                },
            }
        } else if (forall|key: Seq<char>| !self.candidate(state.by_key, probe, key))
            && self.sibling_online(state.by_key, probe) {
            Adoption { by_key: state.by_key.remove(probe.key), adopted: state.adopted }
        } else {
            state
        }
    }

    /// The state after all `probes` were matched in order.
    pub open spec fn probes_matched(self, state: Adoption, probes: Seq<ProbeView>) -> Adoption
        decreases probes.len(),
    {
        if probes.len() == 0 {
            state
        } else {
            self.probe_matched(self.probes_matched(state, probes.drop_last()), probes.last())
        }
    }

    fn candidates(&self, by_key: &Table<DeviceRecord>, probe: &Probe) -> (found: Vec<String>)
        ensures
            forall|key: Seq<char>| #[trigger]
                lists(found@, key) <==> self.candidate(by_key@, probe@, key),
            forall|i: int, j: int|
                #![trigger found@[i], found@[j]]
                0 <= i < j < found@.len() ==> found@[i]@ != found@[j]@,
    {
        let mut found: Vec<String> = Vec::new();
        let length: usize = by_key.len();
        let mut i: usize = 0;
        while i < length
            invariant
                i <= length,
                length == by_key.in_order().len(),
                keys_increase(by_key.in_order()),
                forall|j: int|
                    0 <= j < found@.len() ==> self.candidate(by_key@, probe@, (
                    #[trigger] found@[j])@),
                forall|j: int|
                    0 <= j < found@.len() ==> exists|k: int|
                        0 <= k < i && (#[trigger] by_key.in_order()[k]).0@ == (
                        #[trigger] found@[j])@,
                forall|j: int, k: int|
                    #![trigger found@[j], found@[k]]
                    0 <= j < k < found@.len() ==> found@[j]@ != found@[k]@,
                forall|j: int|
                    #![trigger by_key.in_order()[j]]
                    0 <= j < i && self.same_wire(probe@, by_key.in_order()[j].1)
                        && !by_key.in_order()[j].1.online ==> lists(
                        found@,
                        by_key.in_order()[j].0@,
                    ),
            decreases length - i,
        {
            let (key, record) = by_key.entry(i);
            if self.shares_wire(probe, record) && !record.online {
                let ghost before = found@;
                found.push(key.to_owned());
                proof {
                    assert(found@[before.len() as int]@ == key@);
                    lists_grows(before, found@);
                    assert forall|j: int| 0 <= j < found@.len() implies exists|k: int|
                        0 <= k < i + 1 && (#[trigger] by_key.in_order()[k]).0@ == (
                        #[trigger] found@[j])@ by {
                        if j < before.len() {
                            assert(found@[j] == before[j]);
                            let k = choose|k: int|
                                0 <= k < i && (#[trigger] by_key.in_order()[k]).0@ == before[j]@;
                            assert(by_key.in_order()[k].0@ == found@[j]@);
                        } else {
                            assert(by_key.in_order()[i as int].0@ == found@[j]@);
                        }
                    }
                    assert forall|j: int, k: int|
                        #![trigger found@[j], found@[k]]
                        0 <= j < k < found@.len() implies found@[j]@ != found@[k]@ by {
                        if k == before.len() {
                            assert(found@[j] == before[j]);
                            let at = choose|at: int|
                                0 <= at < i && (#[trigger] by_key.in_order()[at]).0@ == before[j]@;
                            assert(by_key.in_order()[at].0@ != by_key.in_order()[i as int].0@);
                        } else {
                            assert(found@[j] == before[j] && found@[k] == before[k]);
                        }
                    }
                }
            }
            i += 1;
        }
        let ghost first = found@;
        proof {
            assert forall|key: Seq<char>| by_key@.contains_key(key) && self.same_wire(
                probe@,
                by_key@[key],
            ) && !by_key@[key].online implies lists(found@, key) by {
                let at = choose|at: int| key_at(by_key.in_order(), key, at);
                assert(by_key.in_order()[at].0@ == key);
            }
        }
        let mut n: usize = 0;
        while n < self.devices.records.len()
            invariant
                n <= self.devices.records@.len(),
                forall|j: int|
                    0 <= j < found@.len() ==> self.candidate(by_key@, probe@, (
                    #[trigger] found@[j])@),
                forall|j: int, k: int|
                    #![trigger found@[j], found@[k]]
                    0 <= j < k < found@.len() ==> found@[j]@ != found@[k]@,
                forall|key: Seq<char>| lists(first, key) ==> #[trigger] lists(found@, key),
                forall|j: int|
                    #![trigger self.devices.records@[j]]
                    0 <= j < n && self.same_wire(probe@, self.devices.records@[j])
                        && !by_key@.contains_key(self.devices.records@[j].config_key@) ==> lists(
                        found@,
                        self.devices.records@[j].config_key@,
                    ),
            decreases self.devices.records@.len() - n,
        {
            let previous = &self.devices.records[n];
            let key = previous.config_key.as_str();
            if self.shares_wire(probe, previous) && !by_key.contains_key(key) && !list_contains(
                &found,
                key,
            ) {
                let ghost before = found@;
                found.push(previous.config_key.clone());
                proof {
                    assert(found@[before.len() as int]@ == key@);
                    lists_grows(before, found@);
                    assert(self.candidate(by_key@, probe@, key@));
                    assert forall|j: int, k: int|
                        #![trigger found@[j], found@[k]]
                        0 <= j < k < found@.len() implies found@[j]@ != found@[k]@ by {
                        assert(found@[j] == before[j]);
                        if k < before.len() {
                            assert(found@[k] == before[k]);
                        }
                    }
                }
            }
            n += 1;
        }
        found
    }

    fn online_sibling(&self, by_key: &Table<DeviceRecord>, probe: &Probe) -> (online: bool)
        ensures
            online == self.sibling_online(by_key@, probe@),
    {
        let length: usize = by_key.len();
        let mut i: usize = 0;
        while i < length
            invariant
                i <= length,
                length == by_key.in_order().len(),
                forall|j: int|
                    #![trigger by_key.in_order()[j]]
                    0 <= j < i ==> !(self.same_wire(probe@, by_key.in_order()[j].1)
                        && by_key.in_order()[j].1.online),
            decreases length - i,
        {
            let (key, record) = by_key.entry(i);
            if self.shares_wire(probe, record) && record.online {
                assert(by_key@.contains_key(key@));
                return true;
            }
            i += 1;
        }
        proof {
            assert forall|key: Seq<char>| #[trigger] by_key@.contains_key(key) implies !(
            self.same_wire(probe@, by_key@[key]) && by_key@[key].online) by {
                let at = choose|at: int| key_at(by_key.in_order(), key, at);
                assert(by_key.in_order()[at].0@ == key);
            }
        }
        false
    }

    /// Pairs each half-read probe of a snapshot with the device that it
    /// physically is, and drops it from the snapshot if it is noise. Returns
    /// the records of the devices that took one over, by their keys.
    pub fn adopt_transient_records(
        &self,
        by_key: &mut Table<DeviceRecord>,
    ) -> (adopted: Table<DeviceRecord>)
        ensures
            ({
                let matched = self.probes_matched(
                    Adoption { by_key: old(by_key)@, adopted: Map::empty() },
                    probes_in(old(by_key).in_order()),
                );
                final(by_key)@ == matched.by_key && adopted@ == matched.adopted
            }),
    {
        let probes = probes_of(by_key);
        let mut adopted: Table<DeviceRecord> = Table::new();
        let ghost start = Adoption { by_key: by_key@, adopted: Map::empty() };
        let ghost all = probes_in(by_key.in_order());
        let mut i: usize = 0;
        assert(probe_views(probes@).take(0) =~= seq![]);
        while i < probes.len()
            invariant
                i <= probes@.len(),
                all == probe_views(probes@),
                (Adoption { by_key: by_key@, adopted: adopted@ }) == self.probes_matched(
                    start,
                    probe_views(probes@).take(i as int),
                ),
            decreases probes@.len() - i,
        {
            let probe = &probes[i];
            proof {
                let longer = probe_views(probes@).take(i + 1);
                assert(longer.drop_last() =~= probe_views(probes@).take(i as int));
                assert(longer.last() == probe@);
            }
            self.match_probe(by_key, &mut adopted, probe);
            i += 1;
        }
        assert(probe_views(probes@).take(probes@.len() as int) =~= all);
        adopted
    }

    fn match_probe(
        &self,
        by_key: &mut Table<DeviceRecord>,
        adopted: &mut Table<DeviceRecord>,
        probe: &Probe,
    )
        ensures
            (Adoption { by_key: final(by_key)@, adopted: final(adopted)@ }) == self.probe_matched(
                Adoption { by_key: old(by_key)@, adopted: old(adopted)@ },
                probe@,
            ),
    {
        if probe.prefix.is_none() {
            return;
        }
        let mut found = self.candidates(by_key, probe);
        if found.len() != 1 {
            proof {
                assert forall|key: Seq<char>| !self.sole_candidate(by_key@, probe@, key) by {
                    if self.candidate(by_key@, probe@, key) {
                        assert(lists(found@, key));
                        assert(found@.len() >= 2);
                        assert(lists(found@, found@[0]@) && lists(found@, found@[1]@));
                        assert(self.candidate(by_key@, probe@, found@[0]@));
                        assert(self.candidate(by_key@, probe@, found@[1]@));
                        assert(found@[0]@ != found@[1]@);
                    }
                }
                if found@.len() == 0 {
                    assert forall|key: Seq<char>| !self.candidate(by_key@, probe@, key) by {
                        assert(!lists(found@, key));
                    }
                } else {
                    assert(lists(found@, found@[0]@));
                    assert(self.candidate(by_key@, probe@, found@[0]@));
                }
            }
            if found.len() == 0 && self.online_sibling(by_key, probe) {
                by_key.remove(probe.key.as_str());
            }
            return;
        }
        let ghost listed = found@;
        let known_key = found.remove(0);
        proof {
            assert(lists(listed, known_key@)) by {
                assert(listed[0]@ == known_key@);
            }
            assert(self.candidate(by_key@, probe@, known_key@));
            assert forall|other: Seq<char>| #[trigger]
                self.candidate(by_key@, probe@, other) implies other == known_key@ by {
                assert(lists(listed, other));
                let at = choose|at: int| 0 <= at < listed.len() && (#[trigger] listed[at])@ == other;
                assert(at == 0);
            }
            assert(self.sole_candidate(by_key@, probe@, known_key@));
            let chosen = choose|key: Seq<char>| self.sole_candidate(by_key@, probe@, key);
            assert(self.sole_candidate(by_key@, probe@, chosen));
            assert(chosen == known_key@);
        }
        let known = match find_with_key(&self.devices.records, known_key.as_str()) {
            Some(record) => record.clone(),
            None => match by_key.get(known_key.as_str()) {
                Some(record) => record.clone(),
                None => {
                    proof {
                        candidates_are_known(self.devices.records@, known_key@);
                    }
                    return;
                },
            },
        };
        let ghost before = by_key@;
        by_key.remove(known_key.as_str());
        if let Some(live) = by_key.remove(probe.key.as_str()) {
            adopted.insert(known_key.as_str(), adopt_transient_record(&known, live));
        }
    }
}

/// Matching probes takes no live device away: a physical device that is online
/// in the snapshot stays in it with its record. And it adds none: what stays in
/// the snapshot is as it was.
pub proof fn matching_keeps_live_devices(
    app: AppState,
    state: Adoption,
    probes: Seq<ProbeView>,
    key: Seq<char>,
)
    requires
        forall|i: int|
            0 <= i < probes.len() && state.by_key.contains_key((#[trigger] probes[i]).key)
                ==> !state.by_key[probes[i].key].persistent,
    ensures
        ({
            let matched = app.probes_matched(state, probes);
            &&& matched.by_key.contains_key(key) ==> state.by_key.contains_key(key)
                && matched.by_key[key] == state.by_key[key]
            &&& state.by_key.contains_key(key) && state.by_key[key].persistent
                && state.by_key[key].online ==> matched.by_key.contains_key(key)
        }),
    decreases probes.len(),
{
    if probes.len() > 0 {
        let earlier = probes.drop_last();
        let probe = probes.last();
        assert forall|i: int|
            0 <= i < earlier.len() && state.by_key.contains_key((#[trigger] earlier[i]).key)
            implies !state.by_key[earlier[i].key].persistent by {
            assert(probes[i] == earlier[i]);
        }
        matching_keeps_live_devices(app, state, earlier, key);
        let before = app.probes_matched(state, earlier);
        assert(probes[probes.len() - 1] == probe);
        if exists|known: Seq<char>| app.sole_candidate(before.by_key, probe, known) {
            let known = choose|known: Seq<char>| app.sole_candidate(before.by_key, probe, known);
            assert(app.candidate(before.by_key, probe, known));
        }
        matching_keeps_live_devices(app, state, earlier, probe.key);
    }
}

/// A device that took a probe over is listed by that and not by the snapshot,
/// under its own key.
pub proof fn adopted_devices_leave_the_snapshot(
    app: AppState,
    state: Adoption,
    probes: Seq<ProbeView>,
)
    requires
        crate::state::merge::disjoint(state.by_key, state.adopted),
        crate::state::merge::keyed(state.by_key),
        crate::state::merge::keyed(state.adopted),
        forall|i: int|
            0 <= i < app.devices.records@.len() ==> (
            #[trigger] app.devices.records@[i]).inventory_key@
                == app.devices.records@[i].config_key@,
    ensures
        crate::state::merge::disjoint(
            app.probes_matched(state, probes).by_key,
            app.probes_matched(state, probes).adopted,
        ),
        crate::state::merge::keyed(app.probes_matched(state, probes).by_key),
        crate::state::merge::keyed(app.probes_matched(state, probes).adopted),
    decreases probes.len(),
{
    if probes.len() > 0 {
        adopted_devices_leave_the_snapshot(app, state, probes.drop_last());
        let before = app.probes_matched(state, probes.drop_last());
        let probe = probes.last();
        if exists|known: Seq<char>| app.sole_candidate(before.by_key, probe, known) {
            let known = choose|known: Seq<char>| app.sole_candidate(before.by_key, probe, known);
            assert(app.candidate(before.by_key, probe, known));
            first_has_key(app.devices.records@, known);
            candidates_are_known(app.devices.records@, known);
        }
    }
}

proof fn first_has_key(records: Seq<DeviceRecord>, key: Seq<char>)
    ensures
        first_with_key(records, key) matches Some(record) ==> record.config_key@ == key && exists|
            i: int,
        |
            0 <= i < records.len() && #[trigger] records[i] == record,
    decreases records.len(),
{
    if records.len() > 0 {
        if records[0].config_key@ != key {
            first_has_key(records.drop_first(), key);
            if let Some(record) = first_with_key(records.drop_first(), key) {
                let i = choose|i: int|
                    0 <= i < records.drop_first().len() && #[trigger] records.drop_first()[i]
                        == record;
                assert(records[i + 1] == record);
            }
        } else {
            assert(records[0] == records[0]);
        }
    }
}

/// A probe that might be either of two known devices is left alone.
pub proof fn an_ambiguous_probe_stays(
    app: AppState,
    state: Adoption,
    probe: ProbeView,
    one: Seq<char>,
    other: Seq<char>,
)
    requires
        app.candidate(state.by_key, probe, one),
        app.candidate(state.by_key, probe, other),
        one != other,
    ensures
        app.probe_matched(state, probe) == state,
{
    assert forall|key: Seq<char>| !app.sole_candidate(state.by_key, probe, key) by {}
}

/// What the probes hold.
pub open spec fn probe_views(probes: Seq<Probe>) -> Seq<ProbeView> {
    probes.map_values(|probe: Probe| probe@)
}

fn probes_of(by_key: &Table<DeviceRecord>) -> (probes: Vec<Probe>)
    ensures
        probe_views(probes@) == probes_in(by_key.in_order()),
{
    let mut probes: Vec<Probe> = Vec::new();
    let length: usize = by_key.len();
    let mut i: usize = 0;
    assert(probe_views(probes@) =~= probes_in(by_key.in_order().take(0)));
    while i < length
        invariant
            i <= length,
            length == by_key.in_order().len(),
            probe_views(probes@) == probes_in(by_key.in_order().take(i as int)),
        decreases length - i,
    {
        let (_, record) = by_key.entry(i);
        let ghost before = probes@;
        proof {
            let longer = by_key.in_order().take(i + 1);
            assert(longer.drop_last() =~= by_key.in_order().take(i as int));
            assert(longer.last() == by_key.in_order()[i as int]);
        }
        if !record.persistent {
            probes.push(
                Probe {
                    key: record.config_key.clone(),
                    prefix: record.direct_prefix.clone(),
                    wire_pid: record.wire_pid.clone(),
                },
            );
            assert(probe_views(probes@) =~= probe_views(before).push(probe_of(*record)));
        }
        i += 1;
    }
    assert(by_key.in_order().take(length as int) =~= by_key.in_order());
    probes
}

proof fn lists_grows(before: Seq<String>, after: Seq<String>)
    requires
        before.len() < after.len(),
        forall|i: int| 0 <= i < before.len() ==> after[i] == before[i],
    ensures
        forall|key: Seq<char>| lists(before, key) ==> #[trigger] lists(after, key),
        lists(after, after[before.len() as int]@),
{
    assert forall|key: Seq<char>| lists(before, key) implies #[trigger] lists(after, key) by {
        let at = choose|at: int| 0 <= at < before.len() && (#[trigger] before[at])@ == key;
        assert(after[at]@ == key);
    }
}

proof fn candidates_are_known(records: Seq<DeviceRecord>, key: Seq<char>)
    ensures
        (exists|i: int| 0 <= i < records.len() && (#[trigger] records[i]).config_key@ == key)
            ==> first_with_key(records, key) is Some,
    decreases records.len(),
{
    if records.len() > 0 && records[0].config_key@ != key {
        candidates_are_known(records.drop_first(), key);
        if exists|i: int| 0 <= i < records.len() && (#[trigger] records[i]).config_key@ == key {
            let i = choose|i: int|
                0 <= i < records.len() && (#[trigger] records[i]).config_key@ == key;
            assert(records.drop_first()[i - 1].config_key@ == key);
        }
    }
}

/// Whether a probe shows a known device's wire: the device's route is the
/// probe's, or one of the links in its settings is, or both prove the same
/// product id.
pub open spec fn on_one_wire(app: AppState, live: DeviceRecord, record: DeviceRecord) -> bool {
    record.persistent && live.direct_prefix is Some && (record.route_key@ == live.direct_prefix->0@
        || app.config.devices@.contains_key(record.config_key@)
        && app.config.devices@[record.config_key@].links@.contains_key(live.direct_prefix->0@)
        || live.wire_pid is Some && record.wire_pid is Some && live.wire_pid->0@
        == record.wire_pid->0@)
}

/// Whether a probe may be the device with this key: a device on its wire that
/// the snapshot shows offline, or one of the last list that the snapshot lacks.
pub open spec fn may_be(
    app: AppState,
    by_key: Map<Seq<char>, DeviceRecord>,
    live: DeviceRecord,
    key: Seq<char>,
) -> bool {
    if by_key.contains_key(key) {
        !by_key[key].online && on_one_wire(app, live, by_key[key])
    } else {
        exists|i: int|
            0 <= i < app.devices.records@.len() && (
            #[trigger] app.devices.records@[i]).config_key@ == key && on_one_wire(
                app,
                live,
                app.devices.records@[i],
            )
    }
}

/// Whether the entry at `n` is the only half-read probe of a snapshot, under its
/// own key.
pub open spec fn only_probe(snapshot: Table<DeviceRecord>, n: int) -> bool {
    let entries = snapshot.in_order();
    &&& 0 <= n < entries.len()
    &&& keys_increase(entries)
    &&& entries[n].0@ == entries[n].1.config_key@
    &&& forall|i: int| 0 <= i < entries.len() ==> (#[trigger] entries[i]).1.persistent == (i != n)
}

proof fn one_probe(entries: Seq<(String, DeviceRecord)>, n: int)
    requires
        0 <= n,
        forall|i: int|
            0 <= i < entries.len() ==> (#[trigger] entries[i]).1.persistent == (i != n),
    ensures
        n < entries.len() ==> probes_in(entries) == seq![probe_of(entries[n].1)],
        n >= entries.len() ==> probes_in(entries) == Seq::<ProbeView>::empty(),
    decreases entries.len(),
{
    if entries.len() > 0 {
        let earlier = entries.drop_last();
        assert forall|i: int| 0 <= i < earlier.len() implies (#[trigger] earlier[i]).1.persistent
            == (i != n) by {
            assert(entries[i] == earlier[i]);
        }
        one_probe(earlier, n);
        assert(entries[entries.len() - 1].1.persistent == (entries.len() - 1 != n));
    }
    if n < entries.len() {
        assert(probes_in(entries) =~= seq![probe_of(entries[n].1)]);
    }
}

proof fn the_probe_is_matched(app: AppState, snapshot: Table<DeviceRecord>, n: int)
    requires
        only_probe(snapshot, n),
    ensures
        ({
            let live = snapshot.in_order()[n].1;
            let begin = Adoption { by_key: snapshot@, adopted: Map::empty() };
            &&& app.probes_matched(begin, probes_in(snapshot.in_order())) == app.probe_matched(
                begin,
                probe_of(live),
            )
            &&& snapshot@.contains_key(live.config_key@)
            &&& snapshot@[live.config_key@] == live
            &&& forall|key: Seq<char>| #[trigger]
                app.candidate(snapshot@, probe_of(live), key) == may_be(app, snapshot@, live, key)
        }),
{
    let live = snapshot.in_order()[n].1;
    let begin = Adoption { by_key: snapshot@, adopted: Map::empty() };
    one_probe(snapshot.in_order(), n);
    let probes = probes_in(snapshot.in_order());
    assert(probes.drop_last() =~= seq![]);
    assert(app.probes_matched(begin, probes.drop_last()) == begin);
    crate::table::entries_spell_the_map(snapshot);
    crate::table::map_of_entry(snapshot.in_order(), n);
    assert forall|key: Seq<char>| #[trigger]
        app.candidate(snapshot@, probe_of(live), key) == may_be(app, snapshot@, live, key) by {
        assert forall|i: int| 0 <= i < app.devices.records@.len() implies app.same_wire(
            probe_of(live),
            #[trigger] app.devices.records@[i],
        ) == on_one_wire(app, live, app.devices.records@[i]) by {}
    }
}

/// A probe that can be one known device alone is that device: the device is
/// listed on the probe's link, and neither the probe nor a place holder of the
/// device is left in the snapshot.
pub proof fn a_probe_is_the_one_device_it_can_be(
    app: &AppState,
    by_key: &mut Table<DeviceRecord>,
    adopted: Table<DeviceRecord>,
    n: int,
    key: Seq<char>,
)
    requires
        call_ensures(AppState::adopt_transient_records, (app, by_key), adopted),
        only_probe(*old(by_key), n),
        old(by_key).in_order()[n].1.direct_prefix is Some,
        may_be(*app, old(by_key)@, old(by_key).in_order()[n].1, key),
        forall|other: Seq<char>| #[trigger]
            may_be(*app, old(by_key)@, old(by_key).in_order()[n].1, other) ==> other == key,
    ensures
        ({
            let live = old(by_key).in_order()[n].1;
            &&& adopted@.dom() == set![key]
            &&& final(by_key)@ == old(by_key)@.remove(key).remove(live.config_key@)
            &&& adopted@[key].route_key == live.route_key
            &&& adopted@[key].route == live.route
            &&& adopted@[key].slot == live.slot
            &&& adopted@[key].online == live.online
            &&& adopted@[key].battery == live.battery
            &&& forall|i: int|
                0 <= i < app.devices.records@.len() && (
                #[trigger] app.devices.records@[i]).config_key@ == key && (forall|j: int|
                    0 <= j < i ==> (#[trigger] app.devices.records@[j]).config_key@ != key)
                    ==> keeps_identity(adopted@[key], app.devices.records@[i])
            &&& (forall|i: int|
                0 <= i < app.devices.records@.len() ==> (
                #[trigger] app.devices.records@[i]).config_key@ != key) ==> keeps_identity(
                adopted@[key],
                old(by_key)@[key],
            )
        }),
{
    let live = old(by_key).in_order()[n].1;
    let probe = probe_of(live);
    the_probe_is_matched(*app, *old(by_key), n);
    assert(app.candidate(old(by_key)@, probe, key));
    assert forall|other: Seq<char>| app.candidate(old(by_key)@, probe, other) implies other
        == key by {
        assert(may_be(*app, old(by_key)@, live, other));
    }
    assert(app.sole_candidate(old(by_key)@, probe, key));
    assert(key != live.config_key@);
    assert(adopted@.dom() =~= set![key]);
    assert forall|i: int|
        0 <= i < app.devices.records@.len() && (#[trigger] app.devices.records@[i]).config_key@
            == key && (forall|j: int|
            0 <= j < i ==> (#[trigger] app.devices.records@[j]).config_key@ != key)
        implies keeps_identity(adopted@[key], app.devices.records@[i]) by {
        the_first_is_first(app.devices.records@, key, i);
    }
    if forall|i: int|
        0 <= i < app.devices.records@.len() ==> (#[trigger] app.devices.records@[i]).config_key@
            != key {
        first_has_key(app.devices.records@, key);
    }
}

proof fn the_first_is_first(records: Seq<DeviceRecord>, key: Seq<char>, i: int)
    requires
        0 <= i < records.len(),
        records[i].config_key@ == key,
        forall|j: int| 0 <= j < i ==> (#[trigger] records[j]).config_key@ != key,
    ensures
        first_with_key(records, key) == Some(records[i]),
    decreases records.len(),
{
    if i > 0 {
        assert(records[0].config_key@ != key);
        let rest = records.drop_first();
        assert forall|j: int| 0 <= j < i - 1 implies (#[trigger] rest[j]).config_key@ != key by {
            assert(rest[j] == records[j + 1]);
        }
        the_first_is_first(rest, key, i - 1);
    }
}

/// Whether a record names the device that another one does: the same keys,
/// names, kind, art and identifiers.
pub open spec fn keeps_identity(record: DeviceRecord, known: DeviceRecord) -> bool {
    &&& record.config_key == known.config_key
    &&& record.canonical_key == known.canonical_key
    &&& record.persistent == known.persistent
    &&& record.inventory_key == known.inventory_key
    &&& record.record_key == known.record_key
    &&& record.model_key == known.model_key
    &&& record.model_name == known.model_name
    &&& record.display_name == known.display_name
    &&& record.asset == known.asset
    &&& record.codename == known.codename
    &&& record.serial_number == known.serial_number
    &&& record.unit_id == known.unit_id
    &&& record.kind == known.kind
    &&& record.light_capabilities == known.light_capabilities
}

/// A known device that takes a probe over stays who it is and is where the probe
/// is. What the probe found out of the device is news; what it did not find out
/// is as it was known.
pub proof fn a_device_stays_who_it_is(
    known: &DeviceRecord,
    live: DeviceRecord,
    record: DeviceRecord,
)
    requires
        call_ensures(adopt_transient_record, (known, live), record),
    ensures
        keeps_identity(record, *known),
        record.route_key == live.route_key,
        record.route == live.route,
        record.slot == live.slot,
        record.online == live.online,
        record.battery == live.battery,
        record.order_key == live.order_key,
        live.capabilities is Some ==> record.capabilities == live.capabilities,
        live.capabilities is None ==> record.capabilities == known.capabilities,
        live.model_info is Some ==> record.model_info == live.model_info,
        live.model_info is None ==> record.model_info == known.model_info,
{
}

/// A probe that can be no known device is noise, and dropped, exactly if a
/// device on its wire is online in the same snapshot. Otherwise it is a device
/// of its own and stays.
pub proof fn a_probe_beside_its_device_is_noise(
    app: &AppState,
    by_key: &mut Table<DeviceRecord>,
    adopted: Table<DeviceRecord>,
    n: int,
)
    requires
        call_ensures(AppState::adopt_transient_records, (app, by_key), adopted),
        only_probe(*old(by_key), n),
        old(by_key).in_order()[n].1.direct_prefix is Some,
        forall|key: Seq<char>|
            !#[trigger] may_be(*app, old(by_key)@, old(by_key).in_order()[n].1, key),
    ensures
        adopted@ == Map::<Seq<char>, DeviceRecord>::empty(),
        (exists|key: Seq<char>| #[trigger]
            old(by_key)@.contains_key(key) && old(by_key)@[key].online && on_one_wire(
                *app,
                old(by_key).in_order()[n].1,
                old(by_key)@[key],
            )) ==> final(by_key)@ == old(by_key)@.remove(
            old(by_key).in_order()[n].1.config_key@,
        ),
        (forall|key: Seq<char>| #[trigger]
            old(by_key)@.contains_key(key) && old(by_key)@[key].online ==> !on_one_wire(
                *app,
                old(by_key).in_order()[n].1,
                old(by_key)@[key],
            )) ==> final(by_key)@ == old(by_key)@,
{
    let live = old(by_key).in_order()[n].1;
    the_probe_is_matched(*app, *old(by_key), n);
    assert forall|key: Seq<char>| !app.candidate(old(by_key)@, probe_of(live), key) by {
        assert(!may_be(*app, old(by_key)@, live, key));
    }
    assert forall|key: Seq<char>| old(by_key)@.contains_key(key) implies app.same_wire(
        probe_of(live),
        #[trigger] old(by_key)@[key],
    ) == on_one_wire(*app, live, old(by_key)@[key]) by {}
}

/// A probe that may be either of two devices, or that does not say on which wire
/// it is, is left alone.
pub proof fn an_unclear_probe_stays(
    app: &AppState,
    by_key: &mut Table<DeviceRecord>,
    adopted: Table<DeviceRecord>,
    n: int,
    one: Seq<char>,
    other: Seq<char>,
)
    requires
        call_ensures(AppState::adopt_transient_records, (app, by_key), adopted),
        only_probe(*old(by_key), n),
        old(by_key).in_order()[n].1.direct_prefix is None || one != other && may_be(
            *app,
            old(by_key)@,
            old(by_key).in_order()[n].1,
            one,
        ) && may_be(*app, old(by_key)@, old(by_key).in_order()[n].1, other),
    ensures
        adopted@ == Map::<Seq<char>, DeviceRecord>::empty(),
        final(by_key)@ == old(by_key)@,
{
    let live = old(by_key).in_order()[n].1;
    the_probe_is_matched(*app, *old(by_key), n);
    if live.direct_prefix is Some {
        assert(app.candidate(old(by_key)@, probe_of(live), one));
        assert(app.candidate(old(by_key)@, probe_of(live), other));
    }
}

} // verus!
