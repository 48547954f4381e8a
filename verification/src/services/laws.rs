//! What is read of devices and fetched for them.

use crate::device::DeviceRoute;
use crate::hid::{SmartShiftStatus, WriteError};
use crate::services::assets::images::DepotResources;
use crate::services::assets::sync::{
    baseline_fetches, fetch_views, listed_fetches, separate_variants, should_run, source_for_sync,
    variant_fetches, variants_of, AssetSource, AssetSourcePreference, Fetch,
};
use crate::services::device_reads::{
    project_load, smartshift_read_is_settled, DeviceReads, QueryState, ReadKind, ReadStart,
};
use crate::state::load::{DpiStatus, Load, SmartShiftLoad};
use crate::table::lists;
use std::sync::Arc;
use vstd::prelude::*;

verus! {

/// Asking again cannot help where a feature is missing, or where the very thing
/// asked for came back empty; anything else passes.
pub proof fn some_errors_are_permanent(
    kind: ReadKind,
    error: WriteError,
    permanent: bool,
    failures: u32,
    again: bool,
)
    requires
        call_ensures(ReadKind::error_is_permanent, (kind, error), permanent),
        call_ensures(ReadKind::retries_after, (kind, failures, error), again),
    ensures
        error is FeatureUnsupported ==> permanent,
        error is EmptyDpiList ==> (permanent <==> kind is Dpi),
        error is EmptyReportRateList ==> (permanent <==> kind is ReportRate),
        error is AgentUnavailable || error is Device ==> !permanent,
        permanent ==> !again,
        !permanent ==> (again <==> failures <= 2),
{
}

/// What is shown of a read: while it runs, an earlier value or that it is
/// loading; once it settled, its error before its value, and a permanent error
/// as a missing feature.
pub proof fn a_read_shows_what_it_brought(
    kind: ReadKind,
    state: &QueryState<SmartShiftStatus>,
    load: SmartShiftLoad,
    settled: bool,
)
    requires
        call_ensures(project_load::<SmartShiftStatus>, (kind, state), load),
        call_ensures(smartshift_read_is_settled, (state,), settled),
    ensures
        settled <==> !state.is_validating,
        !settled ==> (state.data matches Some(value) ==> load == Load::Ready(value)),
        !settled && state.data is None ==> load is Loading,
        settled && state.error is None ==> (state.data matches Some(value) ==> load == Load::Ready(
            value,
        )),
        settled && state.error is None && state.data is None ==> load is Unknown,
        settled ==> (state.error matches Some((error, why)) ==> {
            &&& error is FeatureUnsupported ==> load == Load::<Arc<SmartShiftStatus>>::Unsupported(
                why,
            )
            &&& error is AgentUnavailable || error is Device ==> load == Load::<
                Arc<SmartShiftStatus>,
            >::Failed(why)
        }),
{
}

/// A read is started unless it is watched over the route already; then the old
/// one is dropped, under a number of its own. Without a cache none is started.
pub proof fn a_read_starts_once_per_route(
    reads: &mut DeviceReads,
    key: &str,
    route: DeviceRoute,
    start: ReadStart,
    other: Seq<char>,
)
    requires
        call_ensures(DeviceReads::ensure_dpi, (reads, key, route), start),
    ensures
        start is Watched <==> old(reads).dpi@.contains_key(key@) && old(reads).dpi@[key@].route
            == route,
        start is Watched ==> final(reads).dpi@ == old(reads).dpi@,
        !(start is Watched) ==> (start is Subscribe <==> old(reads).attached),
        start matches ReadStart::Subscribe { generation, clear, invalidate } ==> {
            &&& generation == old(reads).next_generation
            &&& clear <==> old(reads).dpi@.contains_key(key@)
            &&& !invalidate
            &&& generation < u64::MAX ==> final(reads).next_generation == generation + 1
        },
        !(start is Subscribe) ==> final(reads).next_generation == old(reads).next_generation,
        !(start is Watched) ==> !final(reads).dpi@.contains_key(key@),
        other != key@ ==> final(reads).dpi@.contains_key(other) == old(reads).dpi@.contains_key(
            other,
        ),
        other != key@ && old(reads).dpi@.contains_key(other) ==> final(reads).dpi@[other]
            == old(reads).dpi@[other],
        final(reads).smartshift == old(reads).smartshift,
        final(reads).report_rate == old(reads).report_rate,
        final(reads).lighting == old(reads).lighting,
{
}

/// An answer is taken by the read that asked, by its number, and by no other.
pub proof fn an_answer_is_taken_by_its_read(
    reads: &mut DeviceReads,
    key: &str,
    generation: u64,
    load: SmartShiftLoad,
    taken: bool,
    other: Seq<char>,
)
    requires
        call_ensures(DeviceReads::update_smartshift, (reads, key, generation, load), taken),
    ensures
        taken <==> old(reads).smartshift@.contains_key(key@) && old(
            reads).smartshift@[key@].generation == generation,
        taken ==> final(reads).smartshift@[key@].load == load && final(
            reads).smartshift@[key@].generation == generation && final(
            reads).smartshift@[key@].route == old(reads).smartshift@[key@].route,
        !taken ==> final(reads).smartshift@ == old(reads).smartshift@,
        other != key@ && old(reads).smartshift@.contains_key(other) ==> final(
            reads).smartshift@.contains_key(other) && final(reads).smartshift@[other]
            == old(reads).smartshift@[other],
        final(reads).dpi == old(reads).dpi,
        final(reads).next_generation == old(reads).next_generation,
{
}

/// An answer to a read of resolutions that was replaced changes nothing.
pub proof fn a_replaced_read_takes_no_answer(
    reads: &mut DeviceReads,
    key: &str,
    generation: u64,
    load: DpiStatus,
    changed: bool,
)
    requires
        call_ensures(DeviceReads::update_dpi, (reads, key, generation, load), changed),
    ensures
        changed ==> old(reads).dpi@.contains_key(key@) && old(reads).dpi@[key@].generation
            == generation && final(reads).dpi@[key@].load == load,
        !changed ==> final(reads).dpi@ == old(reads).dpi@,
        old(reads).dpi@.contains_key(key@) && old(reads).dpi@[key@].generation == generation && (
        old(reads).dpi@[key@].load is Ready) != (load is Ready) ==> changed,
{
}

/// A read that is tried again is loading, unless it shows a value.
pub proof fn a_retried_read_is_loading(
    reads: &mut DeviceReads,
    key: &str,
    revalidate: bool,
    other: Seq<char>,
)
    requires
        call_ensures(DeviceReads::retry_smartshift, (reads, key), revalidate),
    ensures
        revalidate <==> old(reads).smartshift@.contains_key(key@),
        revalidate && !(old(reads).smartshift@[key@].load is Ready) ==> final(
            reads).smartshift@[key@].load is Loading,
        revalidate && old(reads).smartshift@[key@].load is Ready ==> final(
            reads).smartshift@[key@].load == old(reads).smartshift@[key@].load,
        revalidate ==> final(reads).smartshift@[key@].generation == old(
            reads).smartshift@[key@].generation,
        other != key@ && old(reads).smartshift@.contains_key(other) ==> final(
            reads).smartshift@[other] == old(reads).smartshift@[other],
{
}

/// Reads of devices that are gone are forgotten, and no others.
pub proof fn reads_go_with_their_devices(
    reads: &mut DeviceReads,
    present: &Vec<String>,
    gone: crate::services::device_reads::GoneReads,
    key: Seq<char>,
)
    requires
        call_ensures(DeviceReads::retain_present, (reads, present), gone),
    ensures
        final(reads).dpi@.contains_key(key) <==> old(reads).dpi@.contains_key(key) && lists(
            present@,
            key,
        ),
        final(reads).smartshift@.contains_key(key) <==> old(reads).smartshift@.contains_key(key)
            && lists(present@, key),
        final(reads).lighting@.contains_key(key) <==> old(reads).lighting@.contains_key(key)
            && lists(present@, key),
        final(reads).report_rate@.contains_key(key) <==> old(reads).report_rate@.contains_key(key)
            && lists(present@, key),
        final(reads).dpi@.contains_key(key) ==> final(reads).dpi@[key] == old(reads).dpi@[key],
        lists(gone.dpi@, key) <==> old(reads).dpi@.contains_key(key) && !lists(present@, key),
        lists(gone.smartshift@, key) <==> old(reads).smartshift@.contains_key(key) && !lists(
            present@,
            key,
        ),
{
}

/// The startup sync runs as the environment says; where that says nothing known,
/// in development and where nothing was shipped.
pub proof fn the_environment_decides_the_sync(
    setting: Option<&str>,
    development: bool,
    has_bundle: bool,
    run: bool,
)
    requires
        call_ensures(should_run, (setting, development, has_bundle), run),
    ensures
        setting is None ==> (run <==> development || !has_bundle),
        setting matches Some(word) ==> {
            &&& word@ == "off"@ || word@ == "false"@ || word@ == "0"@ ==> !run
            &&& word@ == "on"@ || word@ == "true"@ || word@ == "1"@ ==> run
            &&& !(word@ == "off"@ || word@ == "false"@ || word@ == "0"@ || word@ == "on"@ || word@
                == "true"@ || word@ == "1"@) ==> (run <==> development || !has_bundle)
        },
{
    reveal_strlit("off");
    reveal_strlit("false");
    reveal_strlit("0");
    reveal_strlit("on");
    reveal_strlit("true");
    reveal_strlit("1");
    assert("off"@.len() == 3 && "false"@.len() == 5 && "0"@.len() == 1 && "on"@.len() == 2
        && "true"@.len() == 4 && "1"@.len() == 1);
    assert("0"@[0] == '0' && "1"@[0] == '1');
}

/// Art comes from the server that the environment names, and else from the
/// mirror that the user prefers; without a preference from any.
pub proof fn art_comes_from_the_preferred_source(
    preference: AssetSourcePreference,
    server: Option<&str>,
    source: Option<AssetSource>,
)
    requires
        call_ensures(source_for_sync, (preference, server), source),
    ensures
        server matches Some(base) ==> (source matches Some(AssetSource::Override(named)) && named@
            == base@),
        server is None && preference is Automatic ==> source is None,
        server is None && preference is OpenLogi ==> source == Some(AssetSource::Production),
        server is None && preference is Cloudflare ==> source == Some(AssetSource::Pages),
        server is None && preference is Fastly ==> source == Some(AssetSource::JsDelivr),
{
}

proof fn listed_is_fetched(names: Seq<Seq<char>>, registry: Seq<String>, required: bool, i: int) -> (
    at: int)
    requires
        0 <= i < names.len(),
        lists(registry, names[i]),
    ensures
        0 <= at < listed_fetches(names, registry, required).len(),
        listed_fetches(names, registry, required)[at] == (names[i], required),
    decreases names.len(),
{
    let earlier = listed_fetches(names.drop_last(), registry, required);
    if i < names.len() - 1 {
        assert(names.drop_last()[i] == names[i]);
        listed_is_fetched(names.drop_last(), registry, required, i)
    } else {
        earlier.len() as int
    }
}

proof fn fetched_is_listed(names: Seq<Seq<char>>, registry: Seq<String>, required: bool, at: int)
    requires
        0 <= at < listed_fetches(names, registry, required).len(),
    ensures
        lists(registry, listed_fetches(names, registry, required)[at].0),
        names.contains(listed_fetches(names, registry, required)[at].0),
        listed_fetches(names, registry, required)[at].1 == required,
    decreases names.len(),
{
    let earlier = listed_fetches(names.drop_last(), registry, required);
    if at < earlier.len() {
        fetched_is_listed(names.drop_last(), registry, required, at);
        let shorter = names.drop_last();
        let k = choose|k: int| 0 <= k < shorter.len() && shorter[k] == earlier[at].0;
        assert(names[k] == earlier[at].0);
    } else {
        assert(names[names.len() - 1] == names.last());
    }
}

/// Every baseline file that the registry lists is fetched, and has to be there;
/// the render of the buttons is fetched where it is listed, and may be missing.
/// Nothing that the registry does not list is fetched.
pub proof fn listed_baseline_files_are_fetched(
    baseline: &Vec<String>,
    buttons: &Option<String>,
    registry: &Vec<String>,
    fetches: Vec<Fetch>,
    i: int,
    a: int,
)
    requires
        call_ensures(baseline_fetches, (baseline, buttons, registry), fetches),
    ensures
        0 <= i < baseline@.len() && lists(registry@, baseline@[i]@) ==> exists|at: int|
            0 <= at < fetches@.len() && (#[trigger] fetches@[at]).name@ == baseline@[i]@
                && fetches@[at].required,
        *buttons matches Some(name) ==> lists(registry@, name@) ==> exists|at: int|
            0 <= at < fetches@.len() && (#[trigger] fetches@[at]).name@ == name@
                && !fetches@[at].required,
        0 <= a < fetches@.len() ==> lists(registry@, fetches@[a].name@),
        0 <= a < fetches@.len() && fetches@[a].required ==> exists|k: int|
            0 <= k < baseline@.len() && (#[trigger] baseline@[k])@ == fetches@[a].name@,
        0 <= a < fetches@.len() && !fetches@[a].required ==> (*buttons matches Some(name) && name@
            == fetches@[a].name@),
{
    let names = crate::order::texts(baseline@);
    let first = listed_fetches(names, registry@, true);
    let extra = match crate::text::owned_view(*buttons) {
        Some(name) => seq![name],
        None => seq![],
    };
    let second = listed_fetches(extra, registry@, false);
    let views = fetch_views(fetches@);
    assert(views == first + second);
    assert(views.len() == fetches@.len());
    if 0 <= i < baseline@.len() && lists(registry@, baseline@[i]@) {
        assert(names[i] == baseline@[i]@);
        let at = listed_is_fetched(names, registry@, true, i);
        assert(views[at] == first[at]);
        assert(fetches@[at].name@ == baseline@[i]@);
    }
    if let Some(name) = *buttons {
        if lists(registry@, name@) {
            assert(extra[0] == name@);
            let at = listed_is_fetched(extra, registry@, false, 0);
            assert(views[first.len() + at] == second[at]);
            assert(fetches@[first.len() + at].name@ == name@);
        }
    }
    if 0 <= a < fetches@.len() {
        if a < first.len() {
            assert(views[a] == first[a]);
            fetched_is_listed(names, registry@, true, a);
            let k = choose|k: int| 0 <= k < names.len() && names[k] == first[a].0;
            assert(baseline@[k]@ == fetches@[a].name@);
        } else {
            assert(views[a] == second[a - first.len()]);
            fetched_is_listed(extra, registry@, false, a - first.len());
        }
    }
}

proof fn variant_is_separate(variants: Seq<Option<String>>, i: int) -> (at: int)
    requires
        0 <= i < variants.len(),
        variants[i] is Some,
        !crate::services::assets::sync::in_baseline(variants[i]->0@),
    ensures
        0 <= at < separate_variants(variants).len(),
        separate_variants(variants)[at] == variants[i]->0@,
    decreases variants.len(),
{
    let earlier = separate_variants(variants.drop_last());
    if i < variants.len() - 1 {
        assert(variants.drop_last()[i] == variants[i]);
        variant_is_separate(variants.drop_last(), i)
    } else {
        earlier.len() as int
    }
}

/// Whether a file is one of the usual ones, which every depot's baseline brings.
pub open spec fn usual(name: Seq<char>) -> bool {
    name == "front_core.png"@ || name == "front.png"@ || name == "side_core.png"@ || name
        == "side.png"@ || name == "core_metadata.json"@ || name == "metadata.json"@ || name
        == "metadata_full.json"@
}

/// A variant file that a depot's resources name is fetched where the registry
/// lists it, unless the baseline brings it; none has to be there.
pub proof fn named_variants_are_fetched(
    resources: &DepotResources,
    registry: &Vec<String>,
    fetches: Vec<Fetch>,
    a: int,
    name: Seq<char>,
)
    requires
        call_ensures(variant_fetches, (resources, registry), fetches),
    ensures
        lists(registry@, name) && !usual(name) && (crate::text::owned_view(resources.device_image)
            == Some(name) || crate::text::owned_view(resources.device_buttons_image) == Some(name)
            || crate::text::owned_view(resources.device_side) == Some(name)
            || crate::text::owned_view(resources.device_camera_image) == Some(name)
            || crate::text::owned_view(resources.image_metadata) == Some(name)) ==> exists|at: int|
            0 <= at < fetches@.len() && (#[trigger] fetches@[at]).name@ == name,
        0 <= a < fetches@.len() ==> lists(registry@, fetches@[a].name@) && !fetches@[a].required,
{
    let variants = variants_of(*resources);
    let names = separate_variants(variants);
    let views = fetch_views(fetches@);
    assert(views.len() == fetches@.len());
    if 0 <= a < fetches@.len() {
        fetched_is_listed(names, registry@, false, a);
        assert(views[a].0 == fetches@[a].name@);
    }
    if lists(registry@, name) && !usual(name) {
        assert forall|i: int|
            #![trigger variants[i]]
            0 <= i < 5 && crate::text::owned_view(variants[i]) == Some(name) implies exists|
            at: int,
        |
            0 <= at < fetches@.len() && (#[trigger] fetches@[at]).name@ == name by {
            let k = variant_is_separate(variants, i);
            let at = listed_is_fetched(names, registry@, false, k);
            assert(views[at].0 == fetches@[at].name@);
        }
        assert(variants[0] == resources.device_image);
        assert(variants[1] == resources.device_buttons_image);
        assert(variants[2] == resources.device_side);
        assert(variants[3] == resources.device_camera_image);
        assert(variants[4] == resources.image_metadata);
    }
}

} // verus!
