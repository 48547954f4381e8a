//! Merging an inventory snapshot into the device list.

use crate::device::DeviceKind;
use crate::order::{sorted_positions, stable_order, texts};
use crate::record::DeviceRecord;
use crate::state::catalog::{row_of, DeviceCatalog, DeviceRuntimeState};
use crate::state::inventory::{probes_in, Adoption};
use crate::state::AppState;
use crate::table::{keys_increase, lists, map_of, Table};
use vstd::prelude::*;

verus! {

/// How far a merge has come: what the snapshot and the adopted records still
/// hold, the runtime rows, and the list so far.
pub ghost struct MergeState {
    pub by_key: Map<Seq<char>, DeviceRecord>,
    pub adopted: Map<Seq<char>, DeviceRecord>,
    pub rows: Map<Seq<char>, DeviceRuntimeState>,
    pub merged: Seq<DeviceRecord>,
}

/// `rows` with the misses of an existing row at zero.
pub open spec fn misses_cleared(
    rows: Map<Seq<char>, DeviceRuntimeState>,
    key: Seq<char>,
) -> Map<Seq<char>, DeviceRuntimeState> {
    if rows.contains_key(key) {
        rows.insert(key, DeviceRuntimeState { inventory_misses: 0, ..rows[key] })
    } else {
        rows
    }
}

/// The misses of `key` after one more.
pub open spec fn next_misses(rows: Map<Seq<char>, DeviceRuntimeState>, key: Seq<char>) -> u8 {
    let misses = row_of(rows, key).inventory_misses;
    if misses == u8::MAX {
        misses
    } else {
        (misses + 1) as u8
    }
}

/// `rows` with one more miss of `key`.
pub open spec fn miss_counted(
    rows: Map<Seq<char>, DeviceRuntimeState>,
    key: Seq<char>,
) -> Map<Seq<char>, DeviceRuntimeState> {
    rows.insert(
        key,
        DeviceRuntimeState { inventory_misses: next_misses(rows, key), ..row_of(rows, key) },
    )
}

/// Whether a device that the snapshot lacks may stay for a while: a half-read
/// probe may not, nor a camera, which comes back under another key.
pub open spec fn earns_grace(record: DeviceRecord) -> bool {
    record.persistent && record.kind != DeviceKind::Camera
}

/// The state after one device of the last list was merged: its fresh record
/// from the snapshot, or from a probe that it took over, or, for up to `grace`
/// snapshots in a row, its last record.
pub open spec fn previous_merged(state: MergeState, previous: DeviceRecord, grace: u8) -> MergeState {
    let key = previous.inventory_key@;
    if state.by_key.contains_key(key) {
        MergeState {
            by_key: state.by_key.remove(key),
            adopted: state.adopted,
            rows: misses_cleared(state.rows, key),
            merged: state.merged.push(state.by_key[key]),
        }
    } else if state.adopted.contains_key(key) {
        MergeState {
            by_key: state.by_key,
            adopted: state.adopted.remove(key),
            rows: misses_cleared(state.rows, key),
            merged: state.merged.push(state.adopted[key]),
        }
    } else if !earns_grace(previous) {
        MergeState { rows: misses_cleared(state.rows, key), ..state }
    } else {
        MergeState {
            rows: miss_counted(state.rows, key),
            merged: if next_misses(state.rows, key) <= grace {
                state.merged.push(previous)
            } else {
                state.merged
            },
            ..state
        }
    }
}

/// The state after the last list was merged, device by device.
pub open spec fn all_previous_merged(
    state: MergeState,
    previous: Seq<DeviceRecord>,
    grace: u8,
) -> MergeState
    decreases previous.len(),
{
    if previous.len() == 0 {
        state
    } else {
        previous_merged(
            all_previous_merged(state, previous.drop_last(), grace),
            previous.last(),
            grace,
        )
    }
}

/// `rows` with the misses of every entry's row at zero.
pub open spec fn newcomers_cleared(
    rows: Map<Seq<char>, DeviceRuntimeState>,
    entries: Seq<(String, DeviceRecord)>,
) -> Map<Seq<char>, DeviceRuntimeState>
    decreases entries.len(),
{
    if entries.len() == 0 {
        rows
    } else {
        misses_cleared(newcomers_cleared(rows, entries.drop_last()), entries.last().0@)
    }
}

/// The records of `entries`.
pub open spec fn records_of(entries: Seq<(String, DeviceRecord)>) -> Seq<DeviceRecord> {
    entries.map_values(|entry: (String, DeviceRecord)| entry.1)
}

/// Whether `entries` are `map` in key order.
pub open spec fn spells(
    entries: Seq<(String, DeviceRecord)>,
    map: Map<Seq<char>, DeviceRecord>,
) -> bool {
    keys_increase(entries) && map_of(entries) == map
}

/// The gallery positions of `records`.
pub open spec fn order_keys(records: Seq<DeviceRecord>) -> Seq<Seq<char>> {
    records.map_values(|record: DeviceRecord| record.order_key@)
}

/// Whether `sorted` is `records` in gallery order, records with the same
/// position in the order they had.
pub open spec fn in_gallery_order(records: Seq<DeviceRecord>, sorted: Seq<DeviceRecord>) -> bool {
    exists|order: Seq<usize>| #[trigger]
        stable_order(order_keys(records), order) && sorted =~= Seq::new(
            order.len(),
            |i: int| records[order[i] as int],
        )
}

/// Whether `key` is the inventory key of one of `records`.
pub open spec fn has_inventory_key(records: Seq<DeviceRecord>, key: Seq<char>) -> bool {
    exists|i: int| 0 <= i < records.len() && (#[trigger] records[i]).inventory_key@ == key
}

/// What a merge makes of a state that has gone through the last list: what is
/// left of the snapshot follows in key order, and then what is left of the
/// adopted records.
pub open spec fn merge_finished(
    state: MergeState,
    newcomers: Seq<(String, DeviceRecord)>,
    known: Seq<(String, DeviceRecord)>,
    rows: Map<Seq<char>, DeviceRuntimeState>,
    merged: Seq<DeviceRecord>,
) -> bool {
    let all = state.merged + records_of(newcomers) + records_of(known);
    &&& spells(newcomers, state.by_key)
    &&& spells(known, state.adopted)
    &&& in_gallery_order(all, merged)
    &&& rows == newcomers_cleared(state.rows, newcomers).restrict(
        Set::new(
            |key: Seq<char>|
                newcomers_cleared(state.rows, newcomers).contains_key(key) && has_inventory_key(
                    all,
                    key,
                ),
        ),
    )
}

/// Sorts records into gallery order; records with the same position stay in
/// the order they had.
pub fn sort_device_list(records: &Vec<DeviceRecord>) -> (sorted: Vec<DeviceRecord>)
    ensures
        in_gallery_order(records@, sorted@),
{
    let mut keys: Vec<String> = Vec::new();
    let mut i: usize = 0;
    while i < records.len()
        invariant
            i <= records@.len(),
            keys@.len() == i,
            forall|j: int| 0 <= j < i ==> (#[trigger] keys@[j])@ == records@[j].order_key@,
        decreases records@.len() - i,
    {
        keys.push(records[i].order_key.clone());
        i += 1;
    }
    assert(texts(keys@) =~= order_keys(records@));
    let order = sorted_positions(&keys);
    let mut sorted: Vec<DeviceRecord> = Vec::new();
    let mut k: usize = 0;
    while k < order.len()
        invariant
            k <= order@.len(),
            stable_order(order_keys(records@), order@),
            sorted@ =~= Seq::new(k as nat, |i: int| records@[order@[i] as int]),
        decreases order@.len() - k,
    {
        sorted.push(records[order[k]].clone());
        k += 1;
    }
    sorted
}

impl AppState {
    /// The state in which a merge begins, once probes are matched.
    pub open spec fn merge_begins(self, matched: Adoption) -> MergeState {
        MergeState {
            by_key: matched.by_key,
            adopted: matched.adopted,
            rows: self.devices.runtime@,
            merged: seq![],
        }
    }

    /// Whether merging `snapshot` into this state's device list makes `merged`
    /// of it, with runtime rows `rows`.
    pub open spec fn merges(
        self,
        snapshot: Table<DeviceRecord>,
        rows: Map<Seq<char>, DeviceRuntimeState>,
        merged: Seq<DeviceRecord>,
    ) -> bool {
        let matched = self.probes_matched(
            Adoption { by_key: snapshot@, adopted: Map::empty() },
            probes_in(snapshot.in_order()),
        );
        let state = all_previous_merged(
            self.merge_begins(matched),
            self.devices.records@,
            self.inventory_miss_grace,
        );
        exists|newcomers: Seq<(String, DeviceRecord)>, known: Seq<(String, DeviceRecord)>|
            #[trigger] merge_finished(state, newcomers, known, rows, merged)
    }

    fn clear_inventory_misses(&mut self, key: &str)
        ensures
            final(self).devices.runtime@ == misses_cleared(old(self).devices.runtime@, key@),
            *final(self) == (AppState {
                devices: DeviceCatalog {
                    runtime: final(self).devices.runtime,
                    ..old(self).devices
                },
                ..*old(self)
            }),
    {
        let row = match self.devices.runtime.get(key) {
            Some(row) => *row,
            None => {
                return;
            },
        };
        self.devices.runtime.insert(
            key,
            DeviceRuntimeState { inventory_misses: 0, smartshift: row.smartshift },
        );
    }

    fn count_inventory_miss(&mut self, key: &str) -> (misses: u8)
        ensures
            misses == next_misses(old(self).devices.runtime@, key@),
            final(self).devices.runtime@ == miss_counted(old(self).devices.runtime@, key@),
            *final(self) == (AppState {
                devices: DeviceCatalog {
                    runtime: final(self).devices.runtime,
                    ..old(self).devices
                },
                ..*old(self)
            }),
    {
        let row = match self.devices.runtime.get(key) {
            Some(row) => *row,
            None => DeviceRuntimeState::new(),
        };
        let misses: u8 = if row.inventory_misses < u8::MAX {
            row.inventory_misses + 1
        } else {
            u8::MAX
        };
        self.devices.runtime.insert(
            key,
            DeviceRuntimeState { inventory_misses: misses, smartshift: row.smartshift },
        );
        misses
    }

    fn merge_previous(
        &mut self,
        index: usize,
        by_key: &mut Table<DeviceRecord>,
        adopted: &mut Table<DeviceRecord>,
        merged: &mut Vec<DeviceRecord>,
    )
        requires
            index < old(self).devices.records@.len(),
        ensures
            (MergeState {
                by_key: final(by_key)@,
                adopted: final(adopted)@,
                rows: final(self).devices.runtime@,
                merged: final(merged)@,
            }) == previous_merged(
                MergeState {
                    by_key: old(by_key)@,
                    adopted: old(adopted)@,
                    rows: old(self).devices.runtime@,
                    merged: old(merged)@,
                },
                old(self).devices.records@[index as int],
                old(self).inventory_miss_grace,
            ),
            *final(self) == (AppState {
                devices: DeviceCatalog {
                    runtime: final(self).devices.runtime,
                    ..old(self).devices
                },
                ..*old(self)
            }),
    {
        let key = self.devices.records[index].inventory_key.clone();
        if let Some(record) = by_key.remove(key.as_str()) {
            self.clear_inventory_misses(key.as_str());
            merged.push(record);
            return;
        }
        assert(by_key@ =~= old(by_key)@);
        if let Some(record) = adopted.remove(key.as_str()) {
            self.clear_inventory_misses(key.as_str());
            merged.push(record);
            return;
        }
        assert(adopted@ =~= old(adopted)@);
        if !self.devices.records[index].persistent {
            self.clear_inventory_misses(key.as_str());
            return;
        }
        if self.devices.records[index].kind == DeviceKind::Camera {
            self.clear_inventory_misses(key.as_str());
            return;
        }
        let misses: u8 = self.count_inventory_miss(key.as_str());
        if misses <= self.inventory_miss_grace {
            merged.push(self.devices.records[index].clone());
        }
    }

    /// Merges a snapshot, keyed by inventory key, into the device list. Fresh
    /// records replace those of the last list; a known device that is missing
    /// stays for `inventory_miss_grace` snapshots; new devices are added; the
    /// result is in gallery order. Rows of devices that left are dropped.
    pub fn merge_inventory_snapshot(
        &mut self,
        snapshot: Table<DeviceRecord>,
    ) -> (merged: Vec<DeviceRecord>)
        ensures
            old(self).merges(snapshot, final(self).devices.runtime@, merged@),
            *final(self) == (AppState {
                devices: DeviceCatalog {
                    runtime: final(self).devices.runtime,
                    ..old(self).devices
                },
                ..*old(self)
            }),
    {
        let mut by_key = snapshot;
        let mut adopted = self.adopt_transient_records(&mut by_key);
        let mut merged: Vec<DeviceRecord> = Vec::new();
        let ghost start = MergeState {
            by_key: by_key@,
            adopted: adopted@,
            rows: self.devices.runtime@,
            merged: seq![],
        };
        let mut i: usize = 0;
        assert(self.devices.records@.take(0) =~= seq![]);
        assert(merged@ =~= seq![]);
        while i < self.devices.records.len()
            invariant
                i <= self.devices.records@.len(),
                *self == (AppState {
                    devices: DeviceCatalog { runtime: self.devices.runtime, ..old(self).devices },
                    ..*old(self)
                }),
                (MergeState {
                    by_key: by_key@,
                    adopted: adopted@,
                    rows: self.devices.runtime@,
                    merged: merged@,
                }) == all_previous_merged(
                    start,
                    self.devices.records@.take(i as int),
                    self.inventory_miss_grace,
                ),
            decreases self.devices.records@.len() - i,
        {
            proof {
                let longer = self.devices.records@.take(i + 1);
                assert(longer.drop_last() =~= self.devices.records@.take(i as int));
                assert(longer.last() == self.devices.records@[i as int]);
            }
            self.merge_previous(i, &mut by_key, &mut adopted, &mut merged);
            i += 1;
        }
        let ghost state = MergeState {
            by_key: by_key@,
            adopted: adopted@,
            rows: self.devices.runtime@,
            merged: merged@,
        };
        proof {
            assert(self.devices.records@.take(self.devices.records@.len() as int)
                =~= old(self).devices.records@);
            let matched = old(self).probes_matched(
                Adoption { by_key: snapshot@, adopted: Map::empty() },
                probes_in(snapshot.in_order()),
            );
            assert(start == old(self).merge_begins(matched));
            assert(state == all_previous_merged(
                old(self).merge_begins(matched),
                old(self).devices.records@,
                old(self).inventory_miss_grace,
            ));
        }

        let newcomers = by_key.into_entries();
        let known = adopted.into_entries();
        let mut n: usize = 0;
        assert(newcomers@.take(0) =~= seq![]);
        assert(merged@ =~= state.merged + records_of(newcomers@.take(0)));
        while n < newcomers.len()
            invariant
                n <= newcomers@.len(),
                *self == (AppState {
                    devices: DeviceCatalog { runtime: self.devices.runtime, ..old(self).devices },
                    ..*old(self)
                }),
                self.devices.runtime@ == newcomers_cleared(state.rows, newcomers@.take(n as int)),
                merged@ == state.merged + records_of(newcomers@.take(n as int)),
            decreases newcomers@.len() - n,
        {
            let ghost before = merged@;
            proof {
                let longer = newcomers@.take(n + 1);
                assert(longer.drop_last() =~= newcomers@.take(n as int));
                assert(longer.last() == newcomers@[n as int]);
            }
            self.clear_inventory_misses(newcomers[n].0.as_str());
            merged.push(newcomers[n].1.clone());
            assert(merged@ =~= state.merged + records_of(newcomers@.take(n + 1)));
            n += 1;
        }
        assert(newcomers@.take(newcomers@.len() as int) =~= newcomers@);
        let mut k: usize = 0;
        assert(merged@ =~= state.merged + records_of(newcomers@) + records_of(known@.take(0)));
        while k < known.len()
            invariant
                k <= known@.len(),
                merged@ == state.merged + records_of(newcomers@) + records_of(
                    known@.take(k as int),
                ),
            decreases known@.len() - k,
        {
            merged.push(known[k].1.clone());
            assert(merged@ =~= state.merged + records_of(newcomers@) + records_of(
                known@.take(k + 1),
            ));
            k += 1;
        }
        assert(known@.take(known@.len() as int) =~= known@);
        let live = inventory_keys(&merged);
        let ghost rows = self.devices.runtime@;
        self.devices.runtime.retain_keys(&live);
        let sorted = sort_device_list(&merged);
        proof {
            let kept = Set::new(
                |key: Seq<char>| rows.contains_key(key) && has_inventory_key(merged@, key),
            );
            assert(kept =~= Set::new(
                |key: Seq<char>| rows.contains_key(key) && lists(live@, key),
            ));
            assert(merge_finished(
                state,
                newcomers@,
                known@,
                self.devices.runtime@,
                sorted@,
            ));
        }
        sorted
    }
}

/// Whether no two of `records` share an inventory key.
pub open spec fn distinct_keys(records: Seq<DeviceRecord>) -> bool {
    forall|i: int, j: int|
        #![trigger records[i], records[j]]
        0 <= i < j < records.len() ==> records[i].inventory_key@ != records[j].inventory_key@
}

/// Whether each record is found under its own inventory key.
pub open spec fn keyed(map: Map<Seq<char>, DeviceRecord>) -> bool {
    forall|key: Seq<char>| #[trigger] map.contains_key(key) ==> map[key].inventory_key@ == key
}

/// Whether no key is in both maps.
pub open spec fn disjoint(
    a: Map<Seq<char>, DeviceRecord>,
    b: Map<Seq<char>, DeviceRecord>,
) -> bool {
    forall|key: Seq<char>| !(#[trigger] a.contains_key(key) && b.contains_key(key))
}

/// Whether a device of the last list with this key, which the snapshot lacks,
/// still has grace.
pub open spec fn within_grace(
    previous: Seq<DeviceRecord>,
    rows: Map<Seq<char>, DeviceRuntimeState>,
    grace: u8,
    key: Seq<char>,
) -> bool {
    exists|i: int|
        0 <= i < previous.len() && (#[trigger] previous[i]).inventory_key@ == key && earns_grace(
            previous[i],
        ) && next_misses(rows, key) <= grace
}

proof fn merged_so_far(start: MergeState, previous: Seq<DeviceRecord>, grace: u8)
    requires
        distinct_keys(previous),
        keyed(start.by_key),
        keyed(start.adopted),
        disjoint(start.by_key, start.adopted),
        start.merged.len() == 0,
    ensures
        ({
            let state = all_previous_merged(start, previous, grace);
            &&& forall|key: Seq<char>| #[trigger]
                state.by_key.contains_key(key) <==> start.by_key.contains_key(key)
                    && !has_inventory_key(previous, key)
            &&& forall|key: Seq<char>| #[trigger]
                state.by_key.contains_key(key) ==> state.by_key[key] == start.by_key[key]
            &&& forall|key: Seq<char>| #[trigger]
                state.adopted.contains_key(key) <==> start.adopted.contains_key(key)
                    && !has_inventory_key(previous, key)
            &&& forall|key: Seq<char>| #[trigger]
                state.adopted.contains_key(key) ==> state.adopted[key] == start.adopted[key]
            &&& forall|key: Seq<char>|
                !has_inventory_key(previous, key) ==> #[trigger] row_of(state.rows, key) == row_of(
                    start.rows,
                    key,
                )
            &&& forall|key: Seq<char>| #[trigger]
                has_inventory_key(state.merged, key) <==> has_inventory_key(previous, key) && (
                start.by_key.contains_key(key) || start.adopted.contains_key(key) || within_grace(
                    previous,
                    start.rows,
                    grace,
                    key,
                ))
            &&& distinct_keys(state.merged)
            &&& forall|i: int|
                0 <= i < previous.len() && start.by_key.contains_key(
                    (#[trigger] previous[i]).inventory_key@,
                ) ==> state.merged.contains(start.by_key[previous[i].inventory_key@])
            &&& forall|i: int|
                0 <= i < previous.len() && start.adopted.contains_key(
                    (#[trigger] previous[i]).inventory_key@,
                ) ==> state.merged.contains(start.adopted[previous[i].inventory_key@])
        }),
    decreases previous.len(),
{
    if previous.len() > 0 {
        let earlier = previous.drop_last();
        let last = previous.last();
        let key = last.inventory_key@;
        merged_so_far(start, earlier, grace);
        let before = all_previous_merged(start, earlier, grace);
        let after = all_previous_merged(start, previous, grace);
        assert(!has_inventory_key(earlier, key)) by {
            if has_inventory_key(earlier, key) {
                let i = choose|i: int|
                    0 <= i < earlier.len() && (#[trigger] earlier[i]).inventory_key@ == key;
                assert(previous[i].inventory_key@ != previous[previous.len() - 1].inventory_key@);
            }
        }
        assert forall|other: Seq<char>|
            has_inventory_key(previous, other) <==> has_inventory_key(earlier, other) || other
                == key by {
            if has_inventory_key(earlier, other) {
                let i = choose|i: int|
                    0 <= i < earlier.len() && (#[trigger] earlier[i]).inventory_key@ == other;
                assert(previous[i].inventory_key@ == other);
            }
            if has_inventory_key(previous, other) && other != key {
                let i = choose|i: int|
                    0 <= i < previous.len() && (#[trigger] previous[i]).inventory_key@ == other;
                assert(earlier[i].inventory_key@ == other);
            }
            assert(previous[previous.len() - 1].inventory_key@ == key);
        }
        assert forall|other: Seq<char>| other != key implies within_grace(
            previous,
            start.rows,
            grace,
            other,
        ) == within_grace(earlier, start.rows, grace, other) by {
            if within_grace(previous, start.rows, grace, other) {
                let i = choose|i: int|
                    0 <= i < previous.len() && (#[trigger] previous[i]).inventory_key@ == other
                        && earns_grace(previous[i]) && next_misses(start.rows, other) <= grace;
                assert(earlier[i].inventory_key@ == other);
            }
            if within_grace(earlier, start.rows, grace, other) {
                let i = choose|i: int|
                    0 <= i < earlier.len() && (#[trigger] earlier[i]).inventory_key@ == other
                        && earns_grace(earlier[i]) && next_misses(start.rows, other) <= grace;
                assert(previous[i].inventory_key@ == other);
            }
        }
        assert(within_grace(previous, start.rows, grace, key) == (earns_grace(last) && next_misses(
            start.rows,
            key,
        ) <= grace)) by {
            if within_grace(previous, start.rows, grace, key) {
                let i = choose|i: int|
                    0 <= i < previous.len() && (#[trigger] previous[i]).inventory_key@ == key
                        && earns_grace(previous[i]) && next_misses(start.rows, key) <= grace;
                if i < previous.len() - 1 {
                    assert(earlier[i].inventory_key@ == key);
                }
            }
            assert(previous[previous.len() - 1] == last);
        }
        assert(row_of(before.rows, key) == row_of(start.rows, key));
        assert(next_misses(before.rows, key) == next_misses(start.rows, key));
        assert forall|other: Seq<char>| !has_inventory_key(previous, other) implies #[trigger]
            row_of(after.rows, other) == row_of(start.rows, other) by {
            assert(row_of(before.rows, other) == row_of(start.rows, other));
        }
        let added = after.merged.len() > before.merged.len();
        assert(added ==> after.merged == before.merged.push(after.merged.last())
            && after.merged.last().inventory_key@ == key);
        assert(!added ==> after.merged == before.merged);
        assert forall|other: Seq<char>| #[trigger] has_inventory_key(after.merged, other) <==> (
        has_inventory_key(before.merged, other) || (added && other == key)) by {
            if has_inventory_key(before.merged, other) {
                let i = choose|i: int|
                    0 <= i < before.merged.len() && (#[trigger] before.merged[i]).inventory_key@
                        == other;
                assert(after.merged[i].inventory_key@ == other);
            }
            if has_inventory_key(after.merged, other) {
                let i = choose|i: int|
                    0 <= i < after.merged.len() && (#[trigger] after.merged[i]).inventory_key@
                        == other;
                if i < before.merged.len() {
                    assert(before.merged[i].inventory_key@ == other);
                }
            }
            if added {
                assert(after.merged[after.merged.len() - 1].inventory_key@ == key);
            }
        }
        assert(!has_inventory_key(before.merged, key));
        assert forall|i: int, j: int|
            #![trigger after.merged[i], after.merged[j]]
            0 <= i < j < after.merged.len() implies after.merged[i].inventory_key@
            != after.merged[j].inventory_key@ by {
            if j == before.merged.len() {
                assert(before.merged[i].inventory_key@ != key);
            } else {
                assert(before.merged[i].inventory_key@ != before.merged[j].inventory_key@);
            }
        }
        assert forall|record: DeviceRecord| before.merged.contains(record) implies
            after.merged.contains(record) by {
            let i = choose|i: int| 0 <= i < before.merged.len() && before.merged[i] == record;
            assert(after.merged[i] == record);
        }
        assert forall|i: int|
            0 <= i < previous.len() && start.by_key.contains_key(
                (#[trigger] previous[i]).inventory_key@,
            ) implies after.merged.contains(start.by_key[previous[i].inventory_key@]) by {
            if i < previous.len() - 1 {
                assert(earlier[i] == previous[i]);
            } else {
                assert(before.by_key.contains_key(key));
                assert(after.merged[after.merged.len() - 1] == start.by_key[key]);
            }
        }
        assert forall|i: int|
            0 <= i < previous.len() && start.adopted.contains_key(
                (#[trigger] previous[i]).inventory_key@,
            ) implies after.merged.contains(start.adopted[previous[i].inventory_key@]) by {
            if i < previous.len() - 1 {
                assert(earlier[i] == previous[i]);
            } else {
                assert(before.adopted.contains_key(key));
                assert(!before.by_key.contains_key(key));
                assert(after.merged[after.merged.len() - 1] == start.adopted[key]);
            }
        }
    }
}

/// Sorting into gallery order keeps every record and adds none.
pub proof fn sorting_keeps_records(records: Seq<DeviceRecord>, sorted: Seq<DeviceRecord>)
    requires
        in_gallery_order(records, sorted),
    ensures
        forall|record: DeviceRecord| #[trigger]
            sorted.contains(record) <==> records.contains(record),
        forall|key: Seq<char>| #[trigger]
            has_inventory_key(sorted, key) <==> has_inventory_key(records, key),
        distinct_keys(records) ==> distinct_keys(sorted),
        sorted.len() == records.len(),
{
    let order = choose|order: Seq<usize>| #[trigger]
        stable_order(order_keys(records), order) && sorted =~= Seq::new(
            order.len(),
            |i: int| records[order[i] as int],
        );
    assert forall|record: DeviceRecord| #[trigger]
        sorted.contains(record) <==> records.contains(record) by {
        if sorted.contains(record) {
            let i = choose|i: int| 0 <= i < sorted.len() && sorted[i] == record;
            assert(records[order[i] as int] == record);
        }
        if records.contains(record) {
            let i = choose|i: int| 0 <= i < records.len() && records[i] == record;
            let at = crate::order::position_listed(order_keys(records), order, i);
            assert(sorted[at] == record);
        }
    }
    assert forall|key: Seq<char>| #[trigger]
        has_inventory_key(sorted, key) <==> has_inventory_key(records, key) by {
        if has_inventory_key(sorted, key) {
            let i = choose|i: int|
                0 <= i < sorted.len() && (#[trigger] sorted[i]).inventory_key@ == key;
            assert(records[order[i] as int].inventory_key@ == key);
        }
        if has_inventory_key(records, key) {
            let i = choose|i: int|
                0 <= i < records.len() && (#[trigger] records[i]).inventory_key@ == key;
            let at = crate::order::position_listed(order_keys(records), order, i);
            assert(sorted[at].inventory_key@ == key);
        }
    }
    if distinct_keys(records) {
        assert forall|i: int, j: int|
            #![trigger sorted[i], sorted[j]]
            0 <= i < j < sorted.len() implies sorted[i].inventory_key@
            != sorted[j].inventory_key@ by {
            let a = order[i] as int;
            let b = order[j] as int;
            assert(a != b);
            if a < b {
                assert(records[a].inventory_key@ != records[b].inventory_key@);
            } else {
                assert(records[b].inventory_key@ != records[a].inventory_key@);
            }
        }
    }
}

/// Which devices a merge lists: every device of the snapshot, every known one
/// that took a probe over, and every known one that still has grace. Each is
/// listed once, and the first two with their fresh records.
pub proof fn a_merge_lists_each_device_once(
    start: MergeState,
    previous: Seq<DeviceRecord>,
    grace: u8,
    newcomers: Seq<(String, DeviceRecord)>,
    known: Seq<(String, DeviceRecord)>,
    rows: Map<Seq<char>, DeviceRuntimeState>,
    merged: Seq<DeviceRecord>,
)
    requires
        distinct_keys(previous),
        keyed(start.by_key),
        keyed(start.adopted),
        disjoint(start.by_key, start.adopted),
        start.merged.len() == 0,
        merge_finished(
            all_previous_merged(start, previous, grace),
            newcomers,
            known,
            rows,
            merged,
        ),
    ensures
        distinct_keys(merged),
        forall|key: Seq<char>| #[trigger]
            has_inventory_key(merged, key) <==> start.by_key.contains_key(key)
                || start.adopted.contains_key(key) || within_grace(previous, start.rows, grace, key),
        forall|key: Seq<char>| #[trigger]
            start.by_key.contains_key(key) ==> merged.contains(start.by_key[key]),
        forall|key: Seq<char>| #[trigger]
            start.adopted.contains_key(key) ==> merged.contains(start.adopted[key]),
{
    let state = all_previous_merged(start, previous, grace);
    let all = state.merged + records_of(newcomers) + records_of(known);
    merged_so_far(start, previous, grace);
    sorting_keeps_records(all, merged);
    let a = state.merged.len() as int;
    let b = newcomers.len() as int;
    assert forall|i: int| 0 <= i < newcomers.len() implies {
        &&& state.by_key.contains_key((#[trigger] newcomers[i]).0@)
        &&& newcomers[i].1 == state.by_key[newcomers[i].0@]
        &&& newcomers[i].1.inventory_key@ == newcomers[i].0@
        &&& all[a + i] == newcomers[i].1
    } by {
        entry_of(newcomers, i);
    }
    assert forall|i: int| 0 <= i < known.len() implies {
        &&& state.adopted.contains_key((#[trigger] known[i]).0@)
        &&& known[i].1 == state.adopted[known[i].0@]
        &&& known[i].1.inventory_key@ == known[i].0@
        &&& all[a + b + i] == known[i].1
    } by {
        entry_of(known, i);
    }
    assert forall|key: Seq<char>| state.by_key.contains_key(key) implies exists|i: int|
        0 <= i < newcomers.len() && (#[trigger] newcomers[i]).0@ == key by {
        let i = choose|i: int| crate::table::key_at(newcomers, key, i);
        assert(newcomers[i].0@ == key);
    }
    assert forall|key: Seq<char>| state.adopted.contains_key(key) implies exists|i: int|
        0 <= i < known.len() && (#[trigger] known[i]).0@ == key by {
        let i = choose|i: int| crate::table::key_at(known, key, i);
        assert(known[i].0@ == key);
    }
    assert forall|key: Seq<char>| #[trigger] has_inventory_key(all, key) <==> has_inventory_key(
        state.merged,
        key,
    ) || state.by_key.contains_key(key) || state.adopted.contains_key(key) by {
        if has_inventory_key(all, key) {
            let i = choose|i: int| 0 <= i < all.len() && (#[trigger] all[i]).inventory_key@ == key;
            if i < a {
                assert(state.merged[i].inventory_key@ == key);
            } else if i < a + b {
                assert(newcomers[i - a].0@ == key);
            } else {
                assert(known[i - a - b].0@ == key);
            }
        }
        if has_inventory_key(state.merged, key) {
            let i = choose|i: int|
                0 <= i < state.merged.len() && (#[trigger] state.merged[i]).inventory_key@ == key;
            assert(all[i].inventory_key@ == key);
        }
        if state.by_key.contains_key(key) {
            let i = choose|i: int| 0 <= i < newcomers.len() && (#[trigger] newcomers[i]).0@ == key;
            assert(all[a + i].inventory_key@ == key);
        }
        if state.adopted.contains_key(key) {
            let i = choose|i: int| 0 <= i < known.len() && (#[trigger] known[i]).0@ == key;
            assert(all[a + b + i].inventory_key@ == key);
        }
    }
    assert forall|i: int, j: int|
        #![trigger all[i], all[j]]
        0 <= i < j < all.len() implies all[i].inventory_key@ != all[j].inventory_key@ by {
        if j < a {
            assert(state.merged[i].inventory_key@ != state.merged[j].inventory_key@);
        } else if j < a + b {
            assert(newcomers[j - a].0@ == all[j].inventory_key@);
            if i < a {
                assert(state.merged[i] == all[i]);
                assert(has_inventory_key(state.merged, all[i].inventory_key@));
            } else {
                assert(newcomers[i - a].0@ != newcomers[j - a].0@);
                assert(newcomers[i - a].0@ == all[i].inventory_key@);
            }
        } else {
            assert(known[j - a - b].0@ == all[j].inventory_key@);
            if i < a {
                assert(state.merged[i] == all[i]);
                assert(has_inventory_key(state.merged, all[i].inventory_key@));
            } else if i < a + b {
                assert(newcomers[i - a].0@ == all[i].inventory_key@);
                assert(state.by_key.contains_key(newcomers[i - a].0@));
                assert(start.by_key.contains_key(all[i].inventory_key@));
                assert(state.adopted.contains_key(known[j - a - b].0@));
                assert(start.adopted.contains_key(all[j].inventory_key@));
            } else {
                assert(known[i - a - b].0@ != known[j - a - b].0@);
                assert(known[i - a - b].0@ == all[i].inventory_key@);
            }
        }
    }
    assert forall|key: Seq<char>| #[trigger] start.by_key.contains_key(key) implies merged.contains(
        start.by_key[key],
    ) by {
        if has_inventory_key(previous, key) {
            let i = choose|i: int|
                0 <= i < previous.len() && (#[trigger] previous[i]).inventory_key@ == key;
            assert(state.merged.contains(start.by_key[previous[i].inventory_key@]));
            let j = choose|j: int|
                0 <= j < state.merged.len() && state.merged[j] == start.by_key[key];
            assert(all[j] == start.by_key[key]);
        } else {
            assert(state.by_key.contains_key(key));
            let i = choose|i: int| 0 <= i < newcomers.len() && (#[trigger] newcomers[i]).0@ == key;
            assert(all[a + i] == start.by_key[key]);
        }
        assert(all.contains(start.by_key[key]));
    }
    assert forall|key: Seq<char>| #[trigger] start.adopted.contains_key(key) implies
        merged.contains(start.adopted[key]) by {
        if has_inventory_key(previous, key) {
            let i = choose|i: int|
                0 <= i < previous.len() && (#[trigger] previous[i]).inventory_key@ == key;
            assert(state.merged.contains(start.adopted[previous[i].inventory_key@]));
            let j = choose|j: int|
                0 <= j < state.merged.len() && state.merged[j] == start.adopted[key];
            assert(all[j] == start.adopted[key]);
        } else {
            assert(state.adopted.contains_key(key));
            let i = choose|i: int| 0 <= i < known.len() && (#[trigger] known[i]).0@ == key;
            assert(all[a + b + i] == start.adopted[key]);
        }
        assert(all.contains(start.adopted[key]));
    }
    assert forall|key: Seq<char>| #[trigger] has_inventory_key(merged, key) <==> (
    start.by_key.contains_key(key) || start.adopted.contains_key(key) || within_grace(
        previous,
        start.rows,
        grace,
        key,
    )) by {
        if within_grace(previous, start.rows, grace, key) {
            let i = choose|i: int|
                0 <= i < previous.len() && (#[trigger] previous[i]).inventory_key@ == key
                    && earns_grace(previous[i]) && next_misses(start.rows, key) <= grace;
            assert(has_inventory_key(previous, key));
        }
        assert(has_inventory_key(all, key) == has_inventory_key(merged, key));
    }
}

proof fn entry_of(entries: Seq<(String, DeviceRecord)>, i: int)
    requires
        keys_increase(entries),
        0 <= i < entries.len(),
    ensures
        map_of(entries).contains_key(entries[i].0@),
        map_of(entries)[entries[i].0@] == entries[i].1,
{
    crate::table::map_of_entry(entries, i);
}

fn inventory_keys(records: &Vec<DeviceRecord>) -> (keys: Vec<String>)
    ensures
        forall|key: Seq<char>| #[trigger] lists(keys@, key) <==> has_inventory_key(records@, key),
{
    let mut keys: Vec<String> = Vec::new();
    let mut i: usize = 0;
    while i < records.len()
        invariant
            i <= records@.len(),
            keys@.len() == i,
            forall|j: int| 0 <= j < i ==> (#[trigger] keys@[j])@ == records@[j].inventory_key@,
        decreases records@.len() - i,
    {
        keys.push(records[i].inventory_key.clone());
        i += 1;
    }
    proof {
        assert forall|key: Seq<char>| #[trigger]
            lists(keys@, key) <==> has_inventory_key(records@, key) by {
            if lists(keys@, key) {
                let at = choose|at: int| 0 <= at < keys@.len() && (#[trigger] keys@[at])@ == key;
                assert(records@[at].inventory_key@ == key);
            }
            if has_inventory_key(records@, key) {
                let at = choose|at: int|
                    0 <= at < records@.len() && (#[trigger] records@[at]).inventory_key@ == key;
                assert(keys@[at]@ == key);
            }
        }
    }
    keys
}

} // verus!
