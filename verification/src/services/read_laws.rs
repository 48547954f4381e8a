//! How each sort of read is started, shown and forgotten, and how the cache of
//! art is kept.

use crate::device::DeviceRoute;
use crate::hid::{DpiInfo, LightingInfo, ReportRateHz, ReportRateInfo, SmartShiftStatus};
use crate::services::assets::sync::{
    forced_sync, keys_tell_targets_apart, model_key, source_segment, sync_target,
    AssetSourcePreference, AssetTarget, DepotSync,
};
use crate::services::assets::{
    cache_size, cache_size_bytes, cleanup_legacy_glow_pngs, is_legacy_glow, CacheEntry, Index,
};
use crate::services::device_reads::{
    project_load, query_key, Cleared, DeviceReads, QueryState, ReadKind, ReadStart,
};
use crate::state::load::{DpiStatus, LightingLoad, Load, ReportRateStatus, SmartShiftLoad};
use std::sync::Arc;
use vstd::prelude::*;

verus! {

/// A read is kept in the cache under its sort and its device.
pub proof fn reads_are_kept_apart(
    kind: ReadKind,
    key: &str,
    query: (&'static str, &'static str, String),
    name: &'static str,
)
    requires
        call_ensures(query_key, (kind, key), query),
        call_ensures(ReadKind::name, (kind,), name),
    ensures
        query.0@ == "device-read"@,
        query.1@ == name@,
        query.2@ == key@,
        kind == ReadKind::Dpi ==> name@ == "dpi"@,
        kind == ReadKind::ReportRate ==> name@ == "report-rate"@,
        kind == ReadKind::SmartShift ==> name@ == "smartshift"@,
        kind == ReadKind::Lighting ==> name@ == "lighting"@,
{
}

/// A polling-frequency read is started once per route, under a new number.
pub proof fn a_frequency_read_starts_once_per_route(
    reads: &mut DeviceReads,
    key: &str,
    route: DeviceRoute,
    start: ReadStart,
    other: Seq<char>,
)
    requires
        call_ensures(DeviceReads::ensure_report_rate, (reads, key, route), start),
    ensures
        ({
            let was = old(reads).report_rate@;
            let now = final(reads).report_rate@;
            let known = was.contains_key(key@);
            &&& start is Watched <==> known && was[key@].route == route
            &&& start is Watched ==> now == was
            &&& start is NoCache <==> !(start is Watched) && !old(reads).attached
            &&& !(start is Watched) ==> !now.contains_key(key@)
            &&& start matches ReadStart::Subscribe { generation, clear, invalidate } ==> generation
                == old(reads).next_generation && clear == known && !invalidate
            &&& other != key@ ==> now.contains_key(other) == was.contains_key(other)
            &&& other != key@ && was.contains_key(other) ==> now[other] == was[other]
        }),
        start is Subscribe && old(reads).next_generation < u64::MAX ==> final(
            reads).next_generation == old(reads).next_generation + 1,
        !(start is Subscribe) ==> final(reads).next_generation == old(reads).next_generation,
        final(reads).dpi == old(reads).dpi,
        final(reads).smartshift == old(reads).smartshift,
        final(reads).lighting == old(reads).lighting,
{
}

/// A lighting read is started once per route, under a new number.
pub proof fn a_lighting_read_starts_once_per_route(
    reads: &mut DeviceReads,
    key: &str,
    route: DeviceRoute,
    start: ReadStart,
    other: Seq<char>,
)
    requires
        call_ensures(DeviceReads::ensure_lighting, (reads, key, route), start),
    ensures
        ({
            let was = old(reads).lighting@;
            let now = final(reads).lighting@;
            let known = was.contains_key(key@);
            &&& start is Watched <==> known && was[key@].route == route
            &&& start is Watched ==> now == was
            &&& start is NoCache <==> !(start is Watched) && !old(reads).attached
            &&& !(start is Watched) ==> !now.contains_key(key@)
            &&& start matches ReadStart::Subscribe { generation, clear, invalidate } ==> generation
                == old(reads).next_generation && clear == known && !invalidate
            &&& other != key@ ==> now.contains_key(other) == was.contains_key(other)
            &&& other != key@ && was.contains_key(other) ==> now[other] == was[other]
        }),
        start is Subscribe && old(reads).next_generation < u64::MAX ==> final(
            reads).next_generation == old(reads).next_generation + 1,
        !(start is Subscribe) ==> final(reads).next_generation == old(reads).next_generation,
        final(reads).dpi == old(reads).dpi,
        final(reads).report_rate == old(reads).report_rate,
        final(reads).smartshift == old(reads).smartshift,
{
}

/// A SmartShift read is started once per route. Without a cache what is shown
/// stays; a confirmation reads anew and keeps what the cache holds meanwhile.
pub proof fn a_confirmation_reads_anew(
    reads: &mut DeviceReads,
    confirming: &mut DeviceReads,
    key: &str,
    route: DeviceRoute,
    start: ReadStart,
    confirmation: ReadStart,
    other: Seq<char>,
)
    requires
        call_ensures(DeviceReads::ensure_smartshift, (reads, key, route), start),
        call_ensures(DeviceReads::confirm_smartshift, (confirming, key), confirmation),
    ensures
        ({
            let was = old(reads).smartshift@;
            let now = final(reads).smartshift@;
            let known = was.contains_key(key@);
            &&& start is Watched <==> known && was[key@].route == route
            &&& start is NoCache <==> !(start is Watched) && !old(reads).attached
            &&& !(start is Subscribe) ==> now == was
            &&& start is Subscribe ==> !now.contains_key(key@)
            &&& start matches ReadStart::Subscribe { generation, clear, invalidate } ==> generation
                == old(reads).next_generation && clear == known && !invalidate
            &&& other != key@ && was.contains_key(other) ==> now.contains_key(other) && now[other]
                == was[other]
        }),
        confirmation is Subscribe <==> old(confirming).attached,
        confirmation is NoCache <==> !old(confirming).attached,
        confirmation is NoCache ==> final(confirming).smartshift@ == old(confirming).smartshift@
            && final(confirming).next_generation == old(confirming).next_generation,
        confirmation matches ReadStart::Subscribe { generation, clear, invalidate } ==> generation
            == old(confirming).next_generation && !clear && invalidate && !final(
            confirming).smartshift@.contains_key(key@),
        confirmation is Subscribe && old(confirming).next_generation < u64::MAX ==> final(
            confirming).next_generation == old(confirming).next_generation + 1,
{
}

/// A read that is watched shows what the cache holds of it, and the other reads
/// stay as they are.
pub proof fn a_watched_read_shows_the_cache(
    reads: &mut DeviceReads,
    key: &str,
    route: DeviceRoute,
    generation: u64,
    state: &QueryState<SmartShiftStatus>,
    load: SmartShiftLoad,
    after: &DeviceReads,
    shown: SmartShiftLoad,
    other: Seq<char>,
)
    requires
        call_ensures(DeviceReads::watch_smartshift, (reads, key, route, generation, state), ()),
        call_ensures(project_load::<SmartShiftStatus>, (ReadKind::SmartShift, state), load),
        *after == *final(reads),
        call_ensures(DeviceReads::smartshift_status, (after, key), shown),
    ensures
        shown == load,
        final(reads).smartshift@.contains_key(key@),
        final(reads).smartshift@[key@].route == route,
        final(reads).smartshift@[key@].generation == generation,
        other != key@ && old(reads).smartshift@.contains_key(other) ==> final(
            reads).smartshift@.contains_key(other) && final(reads).smartshift@[other] == old(
            reads).smartshift@[other],
        final(reads).next_generation == old(reads).next_generation,
{
}

/// Each sort of read is watched under the route and number that it was started
/// with.
pub proof fn watched_reads_keep_their_number(
    a: &mut DeviceReads,
    b: &mut DeviceReads,
    c: &mut DeviceReads,
    key: &str,
    route: DeviceRoute,
    generation: u64,
    dpi: &QueryState<DpiInfo>,
    rate: &QueryState<ReportRateInfo>,
    lighting: &QueryState<LightingInfo>,
    dpi_load: Load<Arc<DpiInfo>>,
    rate_load: Load<Arc<ReportRateInfo>>,
    lighting_load: Load<Arc<LightingInfo>>,
)
    requires
        call_ensures(DeviceReads::watch_dpi, (a, key, route, generation, dpi), ()),
        call_ensures(DeviceReads::watch_report_rate, (b, key, route, generation, rate), ()),
        call_ensures(DeviceReads::watch_lighting, (c, key, route, generation, lighting), ()),
        call_ensures(project_load::<DpiInfo>, (ReadKind::Dpi, dpi), dpi_load),
        call_ensures(project_load::<ReportRateInfo>, (ReadKind::ReportRate, rate), rate_load),
        call_ensures(project_load::<LightingInfo>, (ReadKind::Lighting, lighting), lighting_load),
    ensures
        final(a).dpi@.contains_key(key@),
        final(a).dpi@[key@].route == route && final(a).dpi@[key@].generation == generation,
        final(a).dpi@[key@].load == dpi_load,
        final(b).report_rate@.contains_key(key@),
        final(b).report_rate@[key@].route == route && final(b).report_rate@[key@].generation
            == generation,
        final(b).report_rate@[key@].load == rate_load,
        final(c).lighting@.contains_key(key@),
        final(c).lighting@[key@].route == route && final(c).lighting@[key@].generation
            == generation,
        final(c).lighting@[key@].load == lighting_load,
{
}

/// What is not watched is unknown; what is watched is shown as its read has it.
pub proof fn unwatched_reads_are_unknown(
    reads: &DeviceReads,
    key: &str,
    dpi: DpiStatus,
    rate: ReportRateStatus,
    lighting: LightingLoad,
    held: Option<&DpiStatus>,
    held_rate: Option<&ReportRateStatus>,
)
    requires
        call_ensures(DeviceReads::dpi_status, (reads, key), dpi),
        call_ensures(DeviceReads::report_rate_status, (reads, key), rate),
        call_ensures(DeviceReads::lighting_status, (reads, key), lighting),
        call_ensures(DeviceReads::dpi_load, (reads, key), held),
        call_ensures(DeviceReads::report_rate_load, (reads, key), held_rate),
    ensures
        !reads.dpi@.contains_key(key@) ==> dpi is Unknown && held is None,
        reads.dpi@.contains_key(key@) ==> dpi == reads.dpi@[key@].load && (held matches Some(held)
            && *held == dpi),
        !reads.report_rate@.contains_key(key@) ==> rate is Unknown && held_rate is None,
        reads.report_rate@.contains_key(key@) ==> rate == reads.report_rate@[key@].load && (
        held_rate matches Some(held) && *held == rate),
        !reads.lighting@.contains_key(key@) ==> lighting is Unknown,
        reads.lighting@.contains_key(key@) ==> lighting == reads.lighting@[key@].load,
{
}

/// A read that is tried again is loading, unless it already has a value.
pub proof fn retried_reads_are_loading(
    a: &mut DeviceReads,
    b: &mut DeviceReads,
    key: &str,
    again: bool,
    also: bool,
)
    requires
        call_ensures(DeviceReads::retry_dpi, (a, key), again),
        call_ensures(DeviceReads::retry_report_rate, (b, key), also),
    ensures
        again <==> old(a).dpi@.contains_key(key@),
        again && old(a).dpi@[key@].load is Ready ==> final(a).dpi@[key@] == old(a).dpi@[key@],
        again && !(old(a).dpi@[key@].load is Ready) ==> final(a).dpi@[key@].load is Loading
            && final(a).dpi@[key@].route == old(a).dpi@[key@].route && final(
            a).dpi@[key@].generation == old(a).dpi@[key@].generation,
        !again ==> final(a).dpi@ == old(a).dpi@,
        also <==> old(b).report_rate@.contains_key(key@),
        also && old(b).report_rate@[key@].load is Ready ==> final(b).report_rate@[key@] == old(
            b).report_rate@[key@],
        also && !(old(b).report_rate@[key@].load is Ready) ==> final(
            b).report_rate@[key@].load is Loading,
        !also ==> final(b).report_rate@ == old(b).report_rate@,
{
}

/// A written configuration is shown as read, where the device is watched.
pub proof fn a_written_value_is_shown(
    a: &mut DeviceReads,
    b: &mut DeviceReads,
    key: &str,
    status: SmartShiftStatus,
    rate: ReportRateHz,
    publish: bool,
    also: bool,
    other: Seq<char>,
)
    requires
        call_ensures(DeviceReads::set_smartshift_ready, (a, key, status), publish),
        call_ensures(DeviceReads::set_report_rate_ready, (b, key, rate), also),
    ensures
        publish == old(a).attached,
        old(a).smartshift@.contains_key(key@) ==> final(a).smartshift@.contains_key(key@) && (
        final(a).smartshift@[key@].load matches Load::Ready(value) && *value == status),
        !old(a).smartshift@.contains_key(key@) ==> final(a).smartshift@ == old(a).smartshift@,
        also <==> old(b).attached && old(b).report_rate@.contains_key(key@) && old(
            b).report_rate@[key@].load is Ready,
        old(b).report_rate@.contains_key(key@) ==> (old(b).report_rate@[key@].load matches
            Load::Ready(was) ==> (final(b).report_rate@[key@].load matches Load::Ready(now)
            && now.current == rate && now.capabilities@ == was.capabilities@)),
        old(a).smartshift@.contains_key(key@) ==> final(a).smartshift@[key@].route == old(
            a).smartshift@[key@].route && final(a).smartshift@[key@].generation == old(
            a).smartshift@[key@].generation,
        old(b).report_rate@.contains_key(key@) ==> final(b).report_rate@.contains_key(key@)
            && final(b).report_rate@[key@].route == old(b).report_rate@[key@].route && final(
            b).report_rate@[key@].generation == old(b).report_rate@[key@].generation,
        other != key@ && old(a).smartshift@.contains_key(other) ==> final(
            a).smartshift@.contains_key(other) && final(a).smartshift@[other] == old(
            a).smartshift@[other],
        other != key@ && old(b).report_rate@.contains_key(other) ==> final(
            b).report_rate@.contains_key(other) && final(b).report_rate@[other] == old(
            b).report_rate@[other],
        old(b).report_rate@.contains_key(key@) && !(old(b).report_rate@[key@].load is Ready)
            ==> final(b).report_rate@ == old(b).report_rate@,
{
    if old(a).smartshift@.contains_key(key@) {
        assert(old(a).smartshift@.dom().contains(key@));
        assert(final(a).smartshift@.dom().contains(key@));
        let (was, now) = (old(a).smartshift@, final(a).smartshift@);
        assert(was.remove(key@).contains_key(other) == now.remove(key@).contains_key(other));
        assert(was.remove(key@)[other] == now.remove(key@)[other]);
        if other != key@ {
            assert(was.remove(key@)[other] == was[other]);
            assert(now.remove(key@)[other] == now[other]);
            assert(was.dom().contains(other) == now.dom().contains(other));
        }
    }
    if old(b).report_rate@.contains_key(key@) {
        let (was, now) = (old(b).report_rate@, final(b).report_rate@);
        assert(was.dom().contains(key@));
        assert(now.dom().contains(key@));
        if was[key@].load is Ready && other != key@ {
            assert(was.remove(key@)[other] == now.remove(key@)[other]);
            assert(was.remove(key@)[other] == was[other]);
            assert(now.remove(key@)[other] == now[other]);
            assert(was.dom().contains(other) == now.dom().contains(other));
        }
    }
}

/// A device that is forgotten has no reads left, and those of the others stay.
pub proof fn a_forgotten_device_has_no_reads(
    reads: &mut DeviceReads,
    key: &str,
    cleared: Cleared,
    other: Seq<char>,
)
    requires
        call_ensures(DeviceReads::remove, (reads, key), cleared),
    ensures
        !final(reads).dpi@.contains_key(key@),
        !final(reads).report_rate@.contains_key(key@),
        !final(reads).smartshift@.contains_key(key@),
        !final(reads).lighting@.contains_key(key@),
        cleared.dpi <==> old(reads).dpi@.contains_key(key@),
        cleared.report_rate <==> old(reads).report_rate@.contains_key(key@),
        cleared.smartshift <==> old(reads).smartshift@.contains_key(key@),
        cleared.lighting <==> old(reads).lighting@.contains_key(key@),
        other != key@ && old(reads).dpi@.contains_key(other) ==> final(reads).dpi@.contains_key(
            other,
        ) && final(reads).dpi@[other] == old(reads).dpi@[other],
        other != key@ && old(reads).lighting@.contains_key(other) ==> final(
            reads).lighting@.contains_key(other) && final(reads).lighting@[other] == old(
            reads).lighting@[other],
        other != key@ && old(reads).smartshift@.contains_key(other) ==> final(
            reads).smartshift@.contains_key(other),
        other != key@ && old(reads).report_rate@.contains_key(other) ==> final(
            reads).report_rate@.contains_key(other),
{
}

/// An answer of a read that was replaced changes nothing, for each sort of read.
pub proof fn replaced_reads_take_no_answer(
    a: &mut DeviceReads,
    b: &mut DeviceReads,
    key: &str,
    generation: u64,
    rate: ReportRateStatus,
    lighting: LightingLoad,
    changed: bool,
    also: bool,
)
    requires
        call_ensures(DeviceReads::update_report_rate, (a, key, generation, rate), changed),
        call_ensures(DeviceReads::update_lighting, (b, key, generation, lighting), also),
    ensures
        !old(a).report_rate@.contains_key(key@) || old(a).report_rate@[key@].generation
            != generation ==> !changed,
        !changed ==> final(a).report_rate@ == old(a).report_rate@,
        changed ==> final(a).report_rate@[key@].load == rate && final(a).report_rate@[key@].route
            == old(a).report_rate@[key@].route,
        !old(b).lighting@.contains_key(key@) || old(b).lighting@[key@].generation != generation
            ==> !also,
        !also ==> final(b).lighting@ == old(b).lighting@,
        also ==> final(b).lighting@[key@].load == lighting && final(b).lighting@[key@].route == old(
            b).lighting@[key@].route,
        old(a).report_rate@.contains_key(key@) && old(a).report_rate@[key@].generation == generation
            && (old(a).report_rate@[key@].load is Loading || old(
            a).report_rate@[key@].load is Unknown) && rate is Ready ==> changed,
        old(b).lighting@.contains_key(key@) && old(b).lighting@[key@].generation == generation && (
        old(b).lighting@[key@].load is Loading || old(b).lighting@[key@].load is Unknown)
            && lighting is Ready ==> also,
{
}

/// Nothing is watched at first, and a cache that is connected stays so.
pub proof fn reads_begin_without_a_cache(fresh: DeviceReads, reads: &mut DeviceReads)
    requires
        call_ensures(DeviceReads::new, (), fresh),
        call_ensures(DeviceReads::connect, (reads,), ()),
    ensures
        !fresh.attached,
        final(reads).attached,
        final(reads).next_generation == old(reads).next_generation,
        final(reads).dpi == old(reads).dpi,
{
}

proof fn kept_names_are_names(names: Seq<String>, kept: spec_fn(String) -> bool, k: int)
    requires
        0 <= k < names.filter(kept).len(),
    ensures
        names.contains(names.filter(kept)[k]),
    decreases names.len(),
{
    reveal(Seq::filter);
    if names.len() > 0 {
        let earlier = names.drop_last();
        if k < earlier.filter(kept).len() {
            kept_names_are_names(earlier, kept, k);
            let at = earlier.index_of(earlier.filter(kept)[k]);
            assert(names[at] == earlier[at]);
        } else {
            assert(names[names.len() - 1] == names.last());
        }
    }
}

/// An old overlay is deleted: a file whose name begins with the mark of the glow
/// and ends as a picture, finished or not. No other file is.
pub proof fn old_overlays_are_deleted(names: &Vec<String>, doomed: Vec<String>, i: int, k: int)
    requires
        call_ensures(cleanup_legacy_glow_pngs, (names,), doomed),
        0 <= i < names@.len(),
    ensures
        ({
            let name = names@[i]@;
            name.len() >= 5 && name.take(5) == "glow-"@ && ((name.len() >= 4 && name.skip(
                name.len() - 4,
            ) == ".png"@) || (name.len() >= 8 && name.skip(name.len() - 8) == ".png.tmp"@))
                ==> doomed@.contains(names@[i])
        }),
        0 <= k < doomed@.len() ==> names@.contains(doomed@[k]) && doomed@[k]@.len() >= 5
            && doomed@[k]@.take(5) == "glow-"@ && ((doomed@[k]@.len() >= 4 && doomed@[k]@.skip(
            doomed@[k]@.len() - 4,
        ) == ".png"@) || (doomed@[k]@.len() >= 8 && doomed@[k]@.skip(doomed@[k]@.len() - 8)
            == ".png.tmp"@)),
{
    reveal_strlit("glow-");
    reveal_strlit(".png");
    reveal_strlit(".png.tmp");
    assert("glow-"@.len() == 5);
    assert(".png"@.len() == 4);
    assert(".png.tmp"@.len() == 8);
    let legacy = |name: String| is_legacy_glow(name@);
    if legacy(names@[i]) {
        names@.lemma_filter_contains(legacy, i);
    }
    let name = names@[i]@;
    if name.len() >= 5 && name.take(5) == "glow-"@ {
        assert("glow-"@.is_prefix_of(name)) by {
            assert(name.subrange(0, 5) =~= name.take(5));
        }
        if name.len() >= 4 && name.skip(name.len() - 4) == ".png"@ {
            assert(name.subrange(name.len() - 4, name.len() as int) =~= name.skip(name.len() - 4));
            assert(legacy(names@[i]));
        }
        if name.len() >= 8 && name.skip(name.len() - 8) == ".png.tmp"@ {
            assert(name.subrange(name.len() - 8, name.len() as int) =~= name.skip(name.len() - 8));
            assert(legacy(names@[i]));
        }
    }
    if 0 <= k < doomed@.len() {
        let gone = doomed@[k]@;
        names@.lemma_filter_pred(legacy, k);
        kept_names_are_names(names@, legacy, k);
        assert(gone.take(5) =~= gone.subrange(0, 5));
        if ".png"@.is_suffix_of(gone) {
            assert(gone.skip(gone.len() - 4) =~= gone.subrange(gone.len() - 4, gone.len() as int));
        }
        if ".png.tmp"@.is_suffix_of(gone) {
            assert(gone.skip(gone.len() - 8) =~= gone.subrange(gone.len() - 8, gone.len() as int));
        }
    }
}

proof fn sizes_go_by_the_first_entries(a: Seq<CacheEntry>, b: Seq<CacheEntry>, upto: int)
    requires
        0 <= upto <= a.len(),
        upto <= b.len(),
        forall|k: int| 0 <= k < upto ==> #[trigger] a[k] == b[k],
    ensures
        cache_size(a, upto) == cache_size(b, upto),
    decreases upto,
{
    if upto > 0 {
        assert(a[upto - 1] == b[upto - 1]);
        sizes_go_by_the_first_entries(a, b, upto - 1);
    }
}

/// The cache is as large as its files: one more file adds its size, and a
/// directory, or a file whose size is not known, adds nothing. An empty cache has
/// no size.
pub proof fn each_file_adds_its_size(
    entries: &Vec<CacheEntry>,
    more: &Vec<CacheEntry>,
    entry: CacheEntry,
    bytes: u64,
    total: u64,
)
    requires
        more@ == entries@.push(entry),
        call_ensures(cache_size_bytes, (entries,), bytes),
        call_ensures(cache_size_bytes, (more,), total),
    ensures
        entries@.len() == 0 ==> bytes == 0,
        entry.is_file ==> (entry.bytes matches Some(size) ==> total == bytes + size),
        !entry.is_file || entry.bytes is None ==> total == bytes,
{
    sizes_go_by_the_first_entries(entries@, more@, entries@.len() as int);
}

/// Two models share a key only where they are one: the same product by the same
/// name, or the same standalone model.
pub proof fn models_have_keys_of_their_own(
    a: &AssetTarget,
    b: &AssetTarget,
    first: String,
    second: String,
)
    requires
        call_ensures(model_key, (a,), first),
        call_ensures(model_key, (b,), second),
    ensures
        first@ == second@ ==> (a is Hidpp <==> b is Hidpp),
        (*a, *b) matches (
            AssetTarget::Hidpp { model: one, codename: _ },
            AssetTarget::Hidpp { model: two, codename: _ },
        ) ==> first@ == second@ ==> one.extended_model_id == two.extended_model_id
            && one.model_id_1 == two.model_id_1 && one.model_id_2 == two.model_id_2
            && one.model_id_3 == two.model_id_3,
        (*a, *b) matches (
            AssetTarget::Standalone { registry_model_id: one },
            AssetTarget::Standalone { registry_model_id: two },
        ) ==> (first@ == second@ <==> one@ == two@),
{
    keys_tell_targets_apart(*a, *b);
}

/// A source is asked under its own name.
pub proof fn sources_have_names_of_their_own(
    preference: AssetSourcePreference,
    segment: &'static str,
)
    requires
        call_ensures(source_segment, (preference,), segment),
    ensures
        preference == AssetSourcePreference::Automatic ==> segment@ == "automatic"@,
        preference == AssetSourcePreference::OpenLogi ==> segment@ == "openlogi"@,
        preference == AssetSourcePreference::Cloudflare ==> segment@ == "cloudflare"@,
        preference == AssetSourcePreference::Fastly ==> segment@ == "fastly"@,
{
}

/// What is fetched for a model is asked for by its own ids; a standalone model
/// has none, and a forced depot is fetched as it is.
pub proof fn a_model_is_fetched_by_its_ids(
    index: &Index,
    target: &AssetTarget,
    forced: Option<&str>,
    sync: Option<DepotSync>,
    whole: Option<DepotSync>,
)
    requires
        call_ensures(sync_target, (index, target, forced), sync),
        call_ensures(forced_sync, (index, forced), whole),
    ensures
        sync matches Some(sync) ==> (*target matches AssetTarget::Hidpp { model, codename: _ }
            ==> sync.extended_model_id == model.extended_model_id && sync.product_ids == (
            model.model_id_1,
            model.model_id_2,
            model.model_id_3,
        )),
        sync matches Some(sync) ==> target is Standalone ==> sync.extended_model_id == 0
            && sync.product_ids == (0u16, 0u16, 0u16),
        whole is Some <==> (forced matches Some(depot) && index.devices@.contains_key(depot@)),
        whole matches Some(whole) ==> whole.at < index.devices.in_order().len() && (forced matches
            Some(depot) && index.devices.in_order()[whole.at as int].0@ == depot@)
            && whole.extended_model_id == 0,
{
    crate::table::entries_spell_the_map(index.devices);
}

} // verus!
