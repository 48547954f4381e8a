//! What several snapshots in a row do to a device that they omit.

use crate::order::stable_order;
use crate::record::{views, DeviceRecord};
use crate::state::catalog::{row_of, DeviceRuntimeState};
use crate::state::inventory::{matching_keeps_live_devices, probes_in, Adoption};
use crate::state::merge::{
    all_previous_merged, distinct_keys, earns_grace, has_inventory_key, merge_finished,
    newcomers_cleared, next_misses, order_keys, previous_merged, records_of,
    sorting_keeps_records, MergeState,
};
use crate::state::AppState;
use crate::table::{key_at, map_of_entry, Table};
use crate::text::text_le;
use vstd::prelude::*;

verus! {

/// Whether no record of `map` is that of the device with this inventory key.
pub open spec fn omitted(map: Map<Seq<char>, DeviceRecord>, key: Seq<char>) -> bool {
    forall|other: Seq<char>| #[trigger]
        map.contains_key(other) ==> other != key && map[other].inventory_key@ != key
}

impl AppState {
    /// What a snapshot comes to once its half-read probes are matched.
    pub open spec fn matched(self, snapshot: Table<DeviceRecord>) -> Adoption {
        self.probes_matched(
            Adoption { by_key: snapshot@, adopted: Map::empty() },
            probes_in(snapshot.in_order()),
        )
    }

    /// Whether a snapshot holds neither the device with this key nor a probe
    /// that the device takes over.
    pub open spec fn omits(self, snapshot: Table<DeviceRecord>, key: Seq<char>) -> bool {
        omitted(self.matched(snapshot).by_key, key) && omitted(self.matched(snapshot).adopted, key)
    }

    /// Whether a snapshot holds the device with this key, or a probe that the
    /// device takes over.
    pub open spec fn sights(self, snapshot: Table<DeviceRecord>, key: Seq<char>) -> bool {
        self.matched(snapshot).by_key.contains_key(key) || self.matched(
            snapshot,
        ).adopted.contains_key(key)
    }
}

/// Whether one of `records` holds what `record` does.
pub open spec fn listed_as(records: Seq<DeviceRecord>, record: DeviceRecord) -> bool {
    exists|i: int| 0 <= i < records.len() && (#[trigger] records[i])@ == record@
}

proof fn missed_so_far(start: MergeState, previous: Seq<DeviceRecord>, grace: u8, key: Seq<char>)
    requires
        distinct_keys(previous),
        omitted(start.by_key, key),
        omitted(start.adopted, key),
        start.merged.len() == 0,
    ensures
        ({
            let state = all_previous_merged(start, previous, grace);
            &&& omitted(state.by_key, key)
            &&& omitted(state.adopted, key)
            &&& !has_inventory_key(previous, key) ==> {
                &&& row_of(state.rows, key) == row_of(start.rows, key)
                &&& !has_inventory_key(state.merged, key)
            }
            &&& forall|i: int|
                0 <= i < previous.len() && (#[trigger] previous[i]).inventory_key@ == key ==> {
                    if earns_grace(previous[i]) {
                        &&& row_of(state.rows, key).inventory_misses == next_misses(
                            start.rows,
                            key,
                        )
                        &&& has_inventory_key(state.merged, key) == (next_misses(start.rows, key)
                            <= grace)
                        &&& next_misses(start.rows, key) <= grace ==> state.merged.contains(
                            previous[i],
                        )
                        &&& forall|j: int|
                            0 <= j < state.merged.len() && (
                            #[trigger] state.merged[j]).inventory_key@ == key ==> state.merged[j]
                                == previous[i]
                    } else {
                        !has_inventory_key(state.merged, key)
                    }
                }
        }),
    decreases previous.len(),
{
    if previous.len() > 0 {
        let earlier = previous.drop_last();
        let last = previous.last();
        missed_so_far(start, earlier, grace, key);
        let before = all_previous_merged(start, earlier, grace);
        let after = all_previous_merged(start, previous, grace);
        assert(after == previous_merged(before, last, grace));
        assert(previous[previous.len() - 1] == last);
        assert forall|i: int| 0 <= i < earlier.len() implies #[trigger] earlier[i]
            == previous[i] by {}
        if has_inventory_key(earlier, key) {
            let i = choose|i: int|
                0 <= i < earlier.len() && (#[trigger] earlier[i]).inventory_key@ == key;
            assert(previous[i].inventory_key@ == key);
            assert(last.inventory_key@ != key);
        }
        assert(has_inventory_key(previous, key) == (has_inventory_key(earlier, key)
            || last.inventory_key@ == key)) by {
            if has_inventory_key(previous, key) {
                let i = choose|i: int|
                    0 <= i < previous.len() && (#[trigger] previous[i]).inventory_key@ == key;
                if i < earlier.len() {
                    assert(earlier[i].inventory_key@ == key);
                }
            }
        }
        let added = after.merged.len() > before.merged.len();
        assert(added ==> after.merged == before.merged.push(after.merged.last()));
        assert(!added ==> after.merged == before.merged);
        assert(added ==> (after.merged.last().inventory_key@ == key) == (last.inventory_key@
            == key));
        assert forall|j: int| 0 <= j < before.merged.len() implies #[trigger] after.merged[j]
            == before.merged[j] by {}
        assert(has_inventory_key(after.merged, key) == (has_inventory_key(before.merged, key)
            || added && last.inventory_key@ == key)) by {
            if has_inventory_key(before.merged, key) {
                let j = choose|j: int|
                    0 <= j < before.merged.len() && (#[trigger] before.merged[j]).inventory_key@
                        == key;
                assert(after.merged[j].inventory_key@ == key);
            }
            if has_inventory_key(after.merged, key) {
                let j = choose|j: int|
                    0 <= j < after.merged.len() && (#[trigger] after.merged[j]).inventory_key@
                        == key;
                if j < before.merged.len() {
                    assert(before.merged[j].inventory_key@ == key);
                }
            }
            if added {
                assert(after.merged[after.merged.len() - 1] == after.merged.last());
            }
        }
        assert forall|record: DeviceRecord| before.merged.contains(record) implies
            after.merged.contains(record) by {
            let j = choose|j: int| 0 <= j < before.merged.len() && before.merged[j] == record;
            assert(after.merged[j] == record);
        }
        if last.inventory_key@ == key {
            assert(!has_inventory_key(earlier, key));
            if added {
                assert(after.merged[after.merged.len() - 1] == last);
            }
            assert forall|j: int|
                0 <= j < after.merged.len() && (#[trigger] after.merged[j]).inventory_key@
                    == key implies after.merged[j] == last by {
                if j < before.merged.len() {
                    assert(before.merged[j].inventory_key@ == key);
                }
            }
        } else {
            assert(row_of(after.rows, key) == row_of(before.rows, key));
            assert forall|i: int|
                0 <= i < previous.len() && (#[trigger] previous[i]).inventory_key@ == key
                    && earns_grace(previous[i]) implies forall|j: int|
                0 <= j < after.merged.len() && (#[trigger] after.merged[j]).inventory_key@ == key
                    ==> after.merged[j] == previous[i] by {
                assert(earlier[i] == previous[i]);
                assert forall|j: int|
                    0 <= j < after.merged.len() && (#[trigger] after.merged[j]).inventory_key@
                        == key implies after.merged[j] == previous[i] by {
                    if j < before.merged.len() {
                        assert(before.merged[j].inventory_key@ == key);
                    }
                }
            }
            assert forall|i: int|
                0 <= i < previous.len() && (#[trigger] previous[i]).inventory_key@
                    == key implies i < earlier.len() && earlier[i] == previous[i] by {}
        }
    }
}

proof fn newcomers_leave_the_row(
    rows: Map<Seq<char>, DeviceRuntimeState>,
    entries: Seq<(String, DeviceRecord)>,
    key: Seq<char>,
)
    requires
        forall|i: int| 0 <= i < entries.len() ==> (#[trigger] entries[i]).0@ != key,
    ensures
        row_of(newcomers_cleared(rows, entries), key) == row_of(rows, key),
    decreases entries.len(),
{
    if entries.len() > 0 {
        let earlier = entries.drop_last();
        assert forall|i: int| 0 <= i < earlier.len() implies (#[trigger] earlier[i]).0@
            != key by {
            assert(entries[i] == earlier[i]);
        }
        newcomers_leave_the_row(rows, earlier, key);
        assert(entries[entries.len() - 1].0@ != key);
    }
}

/// What one snapshot does to a device that it omits: a physical device that is
/// no camera has one more miss and keeps its card, unchanged, as long as its
/// misses are within the grace; another one loses it.
pub proof fn a_miss_is_counted(
    app: AppState,
    snapshot: Table<DeviceRecord>,
    rows: Map<Seq<char>, DeviceRuntimeState>,
    merged: Seq<DeviceRecord>,
    key: Seq<char>,
)
    requires
        app.merges(snapshot, rows, merged),
        distinct_keys(app.devices.records@),
        app.omits(snapshot, key),
    ensures
        !has_inventory_key(app.devices.records@, key) ==> !has_inventory_key(merged, key),
        forall|i: int|
            0 <= i < app.devices.records@.len() && (
            #[trigger] app.devices.records@[i]).inventory_key@ == key ==> {
                let p = app.devices.records@[i];
                let misses = next_misses(app.devices.runtime@, key);
                if earns_grace(p) && misses <= app.inventory_miss_grace {
                    &&& merged.contains(p)
                    &&& row_of(rows, key).inventory_misses == misses
                } else {
                    !has_inventory_key(merged, key)
                }
            },
{
    let start = app.merge_begins(app.matched(snapshot));
    let previous = app.devices.records@;
    let grace = app.inventory_miss_grace;
    let state = all_previous_merged(start, previous, grace);
    let (newcomers, known) = choose|
        newcomers: Seq<(String, DeviceRecord)>,
        known: Seq<(String, DeviceRecord)>,
    | #[trigger] merge_finished(state, newcomers, known, rows, merged);
    missed_so_far(start, previous, grace, key);
    let all = state.merged + records_of(newcomers) + records_of(known);
    let a = state.merged.len() as int;
    let b = newcomers.len() as int;
    assert forall|i: int| 0 <= i < newcomers.len() implies (#[trigger] newcomers[i]).0@ != key
        && newcomers[i].1.inventory_key@ != key by {
        map_of_entry(newcomers, i);
        assert(state.by_key.contains_key(newcomers[i].0@));
    }
    assert forall|i: int| 0 <= i < known.len() implies (#[trigger] known[i]).0@ != key
        && known[i].1.inventory_key@ != key by {
        map_of_entry(known, i);
        assert(state.adopted.contains_key(known[i].0@));
    }
    newcomers_leave_the_row(state.rows, newcomers, key);
    assert(has_inventory_key(all, key) == has_inventory_key(state.merged, key)) by {
        if has_inventory_key(all, key) {
            let i = choose|i: int| 0 <= i < all.len() && (#[trigger] all[i]).inventory_key@ == key;
            if i < a {
                assert(state.merged[i].inventory_key@ == key);
            } else if i < a + b {
                assert(newcomers[i - a].1 == all[i]);
            } else {
                assert(known[i - a - b].1 == all[i]);
            }
        }
        if has_inventory_key(state.merged, key) {
            let i = choose|i: int|
                0 <= i < state.merged.len() && (#[trigger] state.merged[i]).inventory_key@ == key;
            assert(all[i].inventory_key@ == key);
        }
    }
    sorting_keeps_records(all, merged);
    assert forall|i: int|
        0 <= i < previous.len() && (#[trigger] previous[i]).inventory_key@ == key && earns_grace(
            previous[i],
        ) && next_misses(app.devices.runtime@, key) <= grace implies merged.contains(previous[i])
        && row_of(rows, key).inventory_misses == next_misses(app.devices.runtime@, key) by {
        assert(state.merged.contains(previous[i]));
        let j = choose|j: int| 0 <= j < state.merged.len() && state.merged[j] == previous[i];
        assert(all[j] == previous[i]);
        assert(all.contains(previous[i]));
        assert(has_inventory_key(all, key));
    }
}

/// One snapshot that is merged, and what the merge makes of it.
pub ghost struct Round {
    pub before: AppState,
    pub snapshot: Table<DeviceRecord>,
    pub rows: Map<Seq<char>, DeviceRuntimeState>,
    pub merged: Seq<DeviceRecord>,
}

/// Whether `next` is the state in which the merge of `round` is shown, as far as
/// the device with this key goes.
pub open spec fn shown_after(round: Round, next: AppState, key: Seq<char>) -> bool {
    &&& views(next.devices.records@) == views(round.merged)
    &&& row_of(next.devices.runtime@, key).inventory_misses == row_of(
        round.rows,
        key,
    ).inventory_misses
    &&& next.inventory_miss_grace == round.before.inventory_miss_grace
}

/// Whether `rounds` are snapshots in a row that all omit the device with this
/// key.
pub open spec fn misses_in_a_row(rounds: Seq<Round>, key: Seq<char>) -> bool {
    &&& forall|i: int|
        0 <= i < rounds.len() ==> {
            &&& (#[trigger] rounds[i]).before.merges(
                rounds[i].snapshot,
                rounds[i].rows,
                rounds[i].merged,
            )
            &&& rounds[i].before.omits(rounds[i].snapshot, key)
            &&& distinct_keys(rounds[i].before.devices.records@)
        }
    &&& forall|i: int, j: int|
        #![trigger rounds[i], rounds[j]]
        0 <= i < rounds.len() && j == i + 1 && j < rounds.len() ==> shown_after(
            rounds[i],
            rounds[j].before,
            key,
        )
}

/// A device that was seen last and then is missing from snapshot after snapshot
/// keeps its card, unchanged, for as many as the grace, and has none
/// afterwards. A half-read probe and a camera have none from the first on.
pub proof fn grace_ends_after_its_snapshots(rounds: Seq<Round>, p: DeviceRecord)
    requires
        rounds.len() > 0,
        misses_in_a_row(rounds, p.inventory_key@),
        rounds[0].before.devices.records@.contains(p),
        row_of(rounds[0].before.devices.runtime@, p.inventory_key@).inventory_misses == 0,
        rounds[0].before.inventory_miss_grace < u8::MAX,
    ensures
        ({
            let merged = rounds.last().merged;
            let kept = earns_grace(p) && rounds.len() <= rounds[0].before.inventory_miss_grace;
            &&& listed_as(merged, p) == kept
            &&& has_inventory_key(merged, p.inventory_key@) == kept
            &&& rounds.last().before.inventory_miss_grace == rounds[0].before.inventory_miss_grace
            &&& kept ==> row_of(rounds.last().rows, p.inventory_key@).inventory_misses
                == rounds.len()
        }),
    decreases rounds.len(),
{
    let key = p.inventory_key@;
    let last = rounds.last();
    let grace = rounds[0].before.inventory_miss_grace;
    let n = rounds.len() as int;
    assert(rounds[n - 1] == last);
    a_miss_is_counted(last.before, last.snapshot, last.rows, last.merged, key);
    let previous = last.before.devices.records@;
    if n == 1 {
        let i = choose|i: int| 0 <= i < previous.len() && previous[i] == p;
        assert(previous[i].inventory_key@ == key);
        if earns_grace(p) && 1 <= grace {
            let j = choose|j: int| 0 <= j < last.merged.len() && last.merged[j] == p;
            assert(last.merged[j]@ == p@);
            assert(last.merged[j].inventory_key@ == key);
        }
    } else {
        let earlier = rounds.drop_last();
        assert forall|i: int| 0 <= i < earlier.len() implies #[trigger] earlier[i]
            == rounds[i] by {}
        assert(misses_in_a_row(earlier, key)) by {
            assert forall|i: int| 0 <= i < earlier.len() implies {
                &&& (#[trigger] earlier[i]).before.merges(
                    earlier[i].snapshot,
                    earlier[i].rows,
                    earlier[i].merged,
                )
                &&& earlier[i].before.omits(earlier[i].snapshot, key)
                &&& distinct_keys(earlier[i].before.devices.records@)
            } by {
                assert(rounds[i] == earlier[i]);
            }
            assert forall|i: int, j: int|
                #![trigger earlier[i], earlier[j]]
                0 <= i < earlier.len() && j == i + 1 && j < earlier.len() implies shown_after(
                earlier[i],
                earlier[j].before,
                key,
            ) by {
                assert(rounds[i] == earlier[i] && rounds[j] == earlier[j]);
            }
        }
        grace_ends_after_its_snapshots(earlier, p);
        let shown = earlier.last();
        assert(rounds[n - 2] == shown);
        assert(shown_after(rounds[n - 2], rounds[n - 1].before, key));
        assert(previous.len() == shown.merged.len()) by {
            assert(views(previous).len() == views(shown.merged).len());
        }
        assert forall|i: int| 0 <= i < previous.len() implies (#[trigger] previous[i])@
            == shown.merged[i]@ by {
            assert(views(previous)[i] == views(shown.merged)[i]);
        }
        if earns_grace(p) && n - 1 <= grace {
            let i = choose|i: int|
                0 <= i < shown.merged.len() && (#[trigger] shown.merged[i])@ == p@;
            assert(previous[i]@ == p@);
            assert(previous[i].inventory_key@ == key);
            assert(earns_grace(previous[i]));
            assert(next_misses(last.before.devices.runtime@, key) == n);
            if n <= grace {
                let j = choose|j: int|
                    0 <= j < last.merged.len() && last.merged[j] == previous[i];
                assert(last.merged[j]@ == p@);
                assert(last.merged[j].inventory_key@ == key);
            }
        } else {
            assert(!has_inventory_key(previous, key)) by {
                if has_inventory_key(previous, key) {
                    let i = choose|i: int|
                        0 <= i < previous.len() && (#[trigger] previous[i]).inventory_key@ == key;
                    assert(shown.merged[i]@.inventory_key == previous[i]@.inventory_key);
                    assert(shown.merged[i].inventory_key@ == key);
                }
            }
        }
    }
    if listed_as(last.merged, p) {
        let i = choose|i: int| 0 <= i < last.merged.len() && (#[trigger] last.merged[i])@ == p@;
        assert(last.merged[i]@.inventory_key == p@.inventory_key);
        assert(last.merged[i].inventory_key@ == key);
    }
}

proof fn sighted_so_far(start: MergeState, previous: Seq<DeviceRecord>, grace: u8, key: Seq<char>)
    requires
        distinct_keys(previous),
        start.by_key.contains_key(key) || start.adopted.contains_key(key),
    ensures
        ({
            let state = all_previous_merged(start, previous, grace);
            &&& has_inventory_key(previous, key) ==> row_of(state.rows, key).inventory_misses == 0
            &&& !has_inventory_key(previous, key) ==> {
                &&& row_of(state.rows, key) == row_of(start.rows, key)
                &&& state.by_key.contains_key(key) == start.by_key.contains_key(key)
                &&& state.adopted.contains_key(key) == start.adopted.contains_key(key)
            }
        }),
    decreases previous.len(),
{
    if previous.len() > 0 {
        let earlier = previous.drop_last();
        let last = previous.last();
        sighted_so_far(start, earlier, grace, key);
        assert(previous[previous.len() - 1] == last);
        if has_inventory_key(earlier, key) {
            let i = choose|i: int|
                0 <= i < earlier.len() && (#[trigger] earlier[i]).inventory_key@ == key;
            assert(previous[i].inventory_key@ == key);
            assert(last.inventory_key@ != key);
        }
        if has_inventory_key(previous, key) {
            let i = choose|i: int|
                0 <= i < previous.len() && (#[trigger] previous[i]).inventory_key@ == key;
            if i < earlier.len() {
                assert(earlier[i].inventory_key@ == key);
            }
        }
    }
}

proof fn clearing_keeps_zero(
    rows: Map<Seq<char>, DeviceRuntimeState>,
    entries: Seq<(String, DeviceRecord)>,
    key: Seq<char>,
)
    requires
        row_of(rows, key).inventory_misses == 0,
    ensures
        row_of(newcomers_cleared(rows, entries), key).inventory_misses == 0,
    decreases entries.len(),
{
    if entries.len() > 0 {
        clearing_keeps_zero(rows, entries.drop_last(), key);
    }
}

/// One snapshot that holds a known device, or a probe that it takes over, sets
/// its misses back to zero.
pub proof fn a_sighting_ends_the_count(
    app: AppState,
    snapshot: Table<DeviceRecord>,
    rows: Map<Seq<char>, DeviceRuntimeState>,
    merged: Seq<DeviceRecord>,
    key: Seq<char>,
)
    requires
        app.merges(snapshot, rows, merged),
        distinct_keys(app.devices.records@),
        has_inventory_key(app.devices.records@, key),
        app.sights(snapshot, key),
    ensures
        row_of(rows, key).inventory_misses == 0,
{
    let start = app.merge_begins(app.matched(snapshot));
    let state = all_previous_merged(start, app.devices.records@, app.inventory_miss_grace);
    let (newcomers, known) = choose|
        newcomers: Seq<(String, DeviceRecord)>,
        known: Seq<(String, DeviceRecord)>,
    | #[trigger] merge_finished(state, newcomers, known, rows, merged);
    sighted_so_far(start, app.devices.records@, app.inventory_miss_grace, key);
    clearing_keeps_zero(state.rows, newcomers, key);
}

proof fn kept_so_far(start: MergeState, previous: Seq<DeviceRecord>, grace: u8, key: Seq<char>)
    requires
        start.by_key.contains_key(key),
    ensures
        ({
            let state = all_previous_merged(start, previous, grace);
            ||| state.merged.contains(start.by_key[key])
            ||| state.by_key.contains_key(key) && state.by_key[key] == start.by_key[key]
        }),
    decreases previous.len(),
{
    if previous.len() > 0 {
        let earlier = previous.drop_last();
        kept_so_far(start, earlier, grace, key);
        let before = all_previous_merged(start, earlier, grace);
        let after = all_previous_merged(start, previous, grace);
        if before.merged.contains(start.by_key[key]) {
            let j = choose|j: int|
                0 <= j < before.merged.len() && before.merged[j] == start.by_key[key];
            assert(after.merged[j] == start.by_key[key]);
        } else if previous.last().inventory_key@ == key {
            assert(after.merged[after.merged.len() - 1] == start.by_key[key]);
        }
    }
}

/// Every physical device that a snapshot shows online is listed with its fresh
/// record, and the list is in gallery order.
pub proof fn live_devices_are_listed(
    app: AppState,
    snapshot: Table<DeviceRecord>,
    rows: Map<Seq<char>, DeviceRuntimeState>,
    merged: Seq<DeviceRecord>,
    key: Seq<char>,
)
    requires
        app.merges(snapshot, rows, merged),
        snapshot@.contains_key(key),
        snapshot@[key].persistent && snapshot@[key].online,
        forall|i: int|
            0 <= i < probes_in(snapshot.in_order()).len() && snapshot@.contains_key(
                (#[trigger] probes_in(snapshot.in_order())[i]).key,
            ) ==> !snapshot@[probes_in(snapshot.in_order())[i].key].persistent,
    ensures
        merged.contains(snapshot@[key]),
        forall|i: int, j: int|
            #![trigger merged[i], merged[j]]
            0 <= i < j < merged.len() ==> text_le(merged[i].order_key@, merged[j].order_key@),
{
    let begin = Adoption { by_key: snapshot@, adopted: Map::empty() };
    matching_keeps_live_devices(app, begin, probes_in(snapshot.in_order()), key);
    let start = app.merge_begins(app.matched(snapshot));
    let state = all_previous_merged(start, app.devices.records@, app.inventory_miss_grace);
    let (newcomers, known) = choose|
        newcomers: Seq<(String, DeviceRecord)>,
        known: Seq<(String, DeviceRecord)>,
    | #[trigger] merge_finished(state, newcomers, known, rows, merged);
    kept_so_far(start, app.devices.records@, app.inventory_miss_grace, key);
    let all = state.merged + records_of(newcomers) + records_of(known);
    let record = snapshot@[key];
    if state.merged.contains(record) {
        let j = choose|j: int| 0 <= j < state.merged.len() && state.merged[j] == record;
        assert(all[j] == record);
    } else {
        let i = choose|i: int| key_at(newcomers, key, i);
        map_of_entry(newcomers, i);
        assert(all[state.merged.len() + i] == record);
    }
    assert(all.contains(record));
    sorting_keeps_records(all, merged);
    let order = choose|order: Seq<usize>| #[trigger]
        stable_order(order_keys(all), order) && merged =~= Seq::new(
            order.len(),
            |i: int| all[order[i] as int],
        );
    assert forall|i: int, j: int|
        #![trigger merged[i], merged[j]]
        0 <= i < j < merged.len() implies text_le(
        merged[i].order_key@,
        merged[j].order_key@,
    ) by {
        assert(order[i] != order[j]);
        assert(order_keys(all)[order[i] as int] == merged[i].order_key@);
        assert(order_keys(all)[order[j] as int] == merged[j].order_key@);
    }
}

/// Whether a snapshot holds no half-read probe.
pub open spec fn fully_read(snapshot: Table<DeviceRecord>) -> bool {
    forall|i: int|
        0 <= i < snapshot.in_order().len() ==> (#[trigger] snapshot.in_order()[i]).1.persistent
}

proof fn no_probes(entries: Seq<(String, DeviceRecord)>)
    requires
        forall|i: int| 0 <= i < entries.len() ==> (#[trigger] entries[i]).1.persistent,
    ensures
        probes_in(entries).len() == 0,
    decreases entries.len(),
{
    if entries.len() > 0 {
        let earlier = entries.drop_last();
        assert forall|i: int| 0 <= i < earlier.len() implies (
        #[trigger] earlier[i]).1.persistent by {
            assert(entries[i] == earlier[i]);
        }
        no_probes(earlier);
        assert(entries[entries.len() - 1].1.persistent);
    }
}

proof fn a_full_snapshot_stays(app: AppState, snapshot: Table<DeviceRecord>)
    requires
        fully_read(snapshot),
    ensures
        app.matched(snapshot) == (Adoption { by_key: snapshot@, adopted: Map::empty() }),
{
    no_probes(snapshot.in_order());
}

/// Every device of a fully read snapshot is listed with the record that the
/// snapshot has of it, online or not, known before or not.
pub proof fn fresh_records_are_listed(
    state: &mut AppState,
    snapshot: Table<DeviceRecord>,
    merged: Vec<DeviceRecord>,
    key: Seq<char>,
)
    requires
        call_ensures(AppState::merge_inventory_snapshot, (state, snapshot), merged),
        fully_read(snapshot),
        snapshot@.contains_key(key),
    ensures
        merged@.contains(snapshot@[key]),
{
    let app = *old(state);
    let rows = final(state).devices.runtime@;
    a_full_snapshot_stays(app, snapshot);
    let start = app.merge_begins(app.matched(snapshot));
    let after = all_previous_merged(start, app.devices.records@, app.inventory_miss_grace);
    let (newcomers, known) = choose|
        newcomers: Seq<(String, DeviceRecord)>,
        known: Seq<(String, DeviceRecord)>,
    | #[trigger] merge_finished(after, newcomers, known, rows, merged@);
    kept_so_far(start, app.devices.records@, app.inventory_miss_grace, key);
    let all = after.merged + records_of(newcomers) + records_of(known);
    let record = snapshot@[key];
    if after.merged.contains(record) {
        let j = choose|j: int| 0 <= j < after.merged.len() && after.merged[j] == record;
        assert(all[j] == record);
    } else {
        let i = choose|i: int| key_at(newcomers, key, i);
        map_of_entry(newcomers, i);
        assert(all[after.merged.len() + i] == record);
    }
    assert(all.contains(record));
    sorting_keeps_records(all, merged@);
}

/// A known device that a fully read snapshot lacks keeps its card, unchanged,
/// exactly if it is a physical device, no camera, and within its grace with
/// this miss counted. The count is kept with the card.
pub proof fn a_missing_device_keeps_its_card_for_its_grace(
    state: &mut AppState,
    snapshot: Table<DeviceRecord>,
    merged: Vec<DeviceRecord>,
    i: int,
    misses: u8,
)
    requires
        call_ensures(AppState::merge_inventory_snapshot, (state, snapshot), merged),
        fully_read(snapshot),
        distinct_keys(old(state).devices.records@),
        0 <= i < old(state).devices.records@.len(),
        forall|key: Seq<char>| #[trigger]
            snapshot@.contains_key(key) ==> key != old(state).devices.records@[i].inventory_key@
                && snapshot@[key].inventory_key@ != old(state).devices.records@[i].inventory_key@,
        old(state).devices.runtime@.contains_key(old(state).devices.records@[i].inventory_key@)
            ==> misses == old(state).devices.runtime@[old(
            state).devices.records@[i].inventory_key@].inventory_misses,
        !old(state).devices.runtime@.contains_key(old(state).devices.records@[i].inventory_key@)
            ==> misses == 0,
        misses < u8::MAX,
    ensures
        ({
            let p = old(state).devices.records@[i];
            let kept = p.persistent && p.kind != crate::device::DeviceKind::Camera && misses + 1
                <= old(state).inventory_miss_grace;
            &&& kept ==> merged@.contains(p)
            &&& kept ==> final(state).devices.runtime@.contains_key(p.inventory_key@)
                && final(state).devices.runtime@[p.inventory_key@].inventory_misses == misses + 1
            &&& !kept ==> forall|j: int|
                0 <= j < merged@.len() ==> (#[trigger] merged@[j]).inventory_key@
                    != p.inventory_key@
        }),
{
    let app = *old(state);
    let p = app.devices.records@[i];
    let key = p.inventory_key@;
    let rows = final(state).devices.runtime@;
    a_full_snapshot_stays(app, snapshot);
    assert(app.omits(snapshot, key));
    a_miss_is_counted(app, snapshot, rows, merged@, key);
    assert(!has_inventory_key(merged@, key) ==> forall|j: int|
        0 <= j < merged@.len() ==> (#[trigger] merged@[j]).inventory_key@ != key);
}

proof fn merged_from_what_there_was(start: MergeState, previous: Seq<DeviceRecord>, grace: u8)
    requires
        start.merged.len() == 0,
    ensures
        ({
            let state = all_previous_merged(start, previous, grace);
            &&& forall|key: Seq<char>| #[trigger]
                state.by_key.contains_key(key) ==> start.by_key.contains_key(key)
                    && state.by_key[key] == start.by_key[key]
            &&& forall|key: Seq<char>| #[trigger]
                state.adopted.contains_key(key) ==> start.adopted.contains_key(key)
                    && state.adopted[key] == start.adopted[key]
            &&& forall|j: int|
                0 <= j < state.merged.len() ==> previous.contains(#[trigger] state.merged[j])
                    || has_value(start.by_key, state.merged[j]) || has_value(
                    start.adopted,
                    state.merged[j],
                )
        }),
    decreases previous.len(),
{
    if previous.len() > 0 {
        let earlier = previous.drop_last();
        merged_from_what_there_was(start, earlier, grace);
        let before = all_previous_merged(start, earlier, grace);
        let state = all_previous_merged(start, previous, grace);
        let key = previous.last().inventory_key@;
        assert forall|j: int| 0 <= j < state.merged.len() implies previous.contains(
            #[trigger] state.merged[j],
        ) || has_value(start.by_key, state.merged[j]) || has_value(
            start.adopted,
            state.merged[j],
        ) by {
            if j < before.merged.len() {
                assert(state.merged[j] == before.merged[j]);
                if earlier.contains(before.merged[j]) {
                    let k = choose|k: int|
                        0 <= k < earlier.len() && earlier[k] == before.merged[j];
                    assert(previous[k] == state.merged[j]);
                }
            } else if before.by_key.contains_key(key) {
                assert(start.by_key.contains_key(key) && start.by_key[key] == state.merged[j]);
            } else if before.adopted.contains_key(key) {
                assert(start.adopted.contains_key(key) && start.adopted[key] == state.merged[j]);
            } else {
                assert(previous[previous.len() - 1] == state.merged[j]);
            }
        }
    }
}

/// Whether a map holds a record under some key.
pub open spec fn has_value(map: Map<Seq<char>, DeviceRecord>, record: DeviceRecord) -> bool {
    exists|key: Seq<char>| #[trigger] map.contains_key(key) && map[key] == record
}

/// A merge makes no records up: each one listed is of the snapshot or of the
/// last list, unless a probe was taken over. And the list is in gallery order.
pub proof fn no_records_are_made_up(
    state: &mut AppState,
    snapshot: Table<DeviceRecord>,
    merged: Vec<DeviceRecord>,
    i: int,
    j: int,
)
    requires
        call_ensures(AppState::merge_inventory_snapshot, (state, snapshot), merged),
        fully_read(snapshot),
        0 <= i < merged@.len(),
        i < j < merged@.len(),
    ensures
        old(state).devices.records@.contains(merged@[i]) || has_value(snapshot@, merged@[i]),
        text_le(merged@[i].order_key@, merged@[j].order_key@),
        final(state).devices.records == old(state).devices.records,
        final(state).config == old(state).config,
        final(state).pointer == old(state).pointer,
{
    let app = *old(state);
    let rows = final(state).devices.runtime@;
    a_full_snapshot_stays(app, snapshot);
    let start = app.merge_begins(app.matched(snapshot));
    let after = all_previous_merged(start, app.devices.records@, app.inventory_miss_grace);
    let (newcomers, known) = choose|
        newcomers: Seq<(String, DeviceRecord)>,
        known: Seq<(String, DeviceRecord)>,
    | #[trigger] merge_finished(after, newcomers, known, rows, merged@);
    merged_from_what_there_was(start, app.devices.records@, app.inventory_miss_grace);
    let all = after.merged + records_of(newcomers) + records_of(known);
    sorting_keeps_records(all, merged@);
    assert(merged@.contains(merged@[i]));
    let k = choose|k: int| 0 <= k < all.len() && all[k] == merged@[i];
    let a = after.merged.len() as int;
    let b = newcomers.len() as int;
    if k < a {
        assert(after.merged[k] == merged@[i]);
    } else if k < a + b {
        map_of_entry(newcomers, k - a);
        assert(newcomers[k - a].1 == merged@[i]);
        assert(after.by_key.contains_key(newcomers[k - a].0@));
    } else {
        map_of_entry(known, k - a - b);
        assert(known[k - a - b].1 == merged@[i]);
        assert(after.adopted.contains_key(known[k - a - b].0@));
    }
    let order = choose|order: Seq<usize>| #[trigger]
        stable_order(order_keys(all), order) && merged@ =~= Seq::new(
            order.len(),
            |i: int| all[order[i] as int],
        );
    assert(order[i] != order[j]);
    assert(order_keys(all)[order[i] as int] == merged@[i].order_key@);
    assert(order_keys(all)[order[j] as int] == merged@[j].order_key@);
}

/// A device that a fully read snapshot holds has no misses afterwards, and no
/// row is kept of a device that is not listed.
pub proof fn a_sighting_clears_the_misses(
    state: &mut AppState,
    snapshot: Table<DeviceRecord>,
    merged: Vec<DeviceRecord>,
    i: int,
    key: Seq<char>,
)
    requires
        call_ensures(AppState::merge_inventory_snapshot, (state, snapshot), merged),
        fully_read(snapshot),
        distinct_keys(old(state).devices.records@),
        0 <= i < old(state).devices.records@.len(),
        snapshot@.contains_key(old(state).devices.records@[i].inventory_key@),
    ensures
        final(state).devices.runtime@.contains_key(old(state).devices.records@[i].inventory_key@)
            ==> final(state).devices.runtime@[old(
            state).devices.records@[i].inventory_key@].inventory_misses == 0,
        final(state).devices.runtime@.contains_key(key) ==> exists|j: int|
            0 <= j < merged@.len() && (#[trigger] merged@[j]).inventory_key@ == key,
{
    let app = *old(state);
    let rows = final(state).devices.runtime@;
    let own = app.devices.records@[i].inventory_key@;
    a_full_snapshot_stays(app, snapshot);
    assert(has_inventory_key(app.devices.records@, own));
    a_sighting_ends_the_count(app, snapshot, rows, merged@, own);
    let start = app.merge_begins(app.matched(snapshot));
    let after = all_previous_merged(start, app.devices.records@, app.inventory_miss_grace);
    let (newcomers, known) = choose|
        newcomers: Seq<(String, DeviceRecord)>,
        known: Seq<(String, DeviceRecord)>,
    | #[trigger] merge_finished(after, newcomers, known, rows, merged@);
    let all = after.merged + records_of(newcomers) + records_of(known);
    sorting_keeps_records(all, merged@);
    assert(rows.contains_key(key) ==> has_inventory_key(merged@, key));
}

} // verus!
