//! What to fetch of the asset mirrors, and from which.

use crate::device::DeviceModelInfo;
use crate::order::texts;
use crate::services::assets::images::DepotResources;
use crate::services::assets::{resolve_in_index, resolves_to, resolves_to_nothing, Index, Lookup};
use crate::table::{list_contains, lists};
use crate::text::{hex, owned_view, push_hex, push_text, same_text};
use vstd::prelude::*;

verus! {

/// Whether `setting` is one of the words that switch the sync off.
pub open spec fn switches_off(setting: Seq<char>) -> bool {
    setting == "off"@ || setting == "false"@ || setting == "0"@
}

/// Whether `setting` is one of the words that switch the sync on.
pub open spec fn switches_on(setting: Seq<char>) -> bool {
    setting == "on"@ || setting == "true"@ || setting == "1"@
}

/// Whether the startup sync runs on this launch. The environment's `setting`
/// decides if it is one of the known words; otherwise a development build runs
/// it, and a release build only if it shipped without assets.
pub fn should_run(setting: Option<&str>, development: bool, has_bundle: bool) -> (run: bool)
    ensures
        run == match setting {
            Some(setting) => if switches_off(setting@) {
                false
            } else if switches_on(setting@) {
                true
            } else {
                development || !has_bundle
            },
            None => development || !has_bundle,
        },
{
    if let Some(setting) = setting {
        if same_text(setting, "off") || same_text(setting, "false") || same_text(setting, "0") {
            return false;
        }
        if same_text(setting, "on") || same_text(setting, "true") || same_text(setting, "1") {
            return true;
        }
    }
    development || !has_bundle
}

/// One model whose art is wanted.
#[derive(Debug)]
pub enum AssetTarget {
    /// A model by what its firmware says, with the firmware's name for it as
    /// the last thing to match by.
    Hidpp { model: DeviceModelInfo, codename: Option<String> },
    /// A standalone model by its registry id, never by a physical device's key.
    Standalone { registry_model_id: String },
}

/// What an [`AssetTarget`] is keyed by.
pub open spec fn target_key(target: AssetTarget) -> Seq<char> {
    match target {
        AssetTarget::Hidpp { model, codename } => "hidpp:"@ + hex(
            model.extended_model_id as nat,
            2,
        ) + ":"@ + hex(model.model_id_1 as nat, 4) + ":"@ + hex(model.model_id_2 as nat, 4) + ":"@
            + hex(model.model_id_3 as nat, 4) + ":"@ + match codename {
            Some(codename) => codename@,
            None => seq![],
        },
        AssetTarget::Standalone { registry_model_id } => "standalone:model:"@
            + registry_model_id@,
    }
}

/// A stable key for one model whose art is wanted.
pub fn model_key(target: &AssetTarget) -> (key: String)
    ensures
        key@ == target_key(*target),
{
    match target {
        AssetTarget::Hidpp { model, codename } => {
            let mut key = "hidpp:".to_owned();
            push_hex(&mut key, model.extended_model_id as u64, 2);
            push_text(&mut key, ":");
            push_hex(&mut key, model.model_id_1 as u64, 4);
            push_text(&mut key, ":");
            push_hex(&mut key, model.model_id_2 as u64, 4);
            push_text(&mut key, ":");
            push_hex(&mut key, model.model_id_3 as u64, 4);
            push_text(&mut key, ":");
            if let Some(codename) = codename {
                push_text(&mut key, codename.as_str());
            }
            assert(key@ =~= target_key(*target));
            key
        },
        AssetTarget::Standalone { registry_model_id } => {
            let mut key = "standalone:model:".to_owned();
            push_text(&mut key, registry_model_id.as_str());
            key
        },
    }
}

/// What a target asks for, as far as its key tells: the ids of a firmware model
/// and its name, or the registry id.
pub open spec fn asked_for(target: AssetTarget) -> (bool, int, int, int, int, Seq<char>) {
    match target {
        AssetTarget::Hidpp { model, codename } => (
            true,
            model.extended_model_id as int,
            model.model_id_1 as int,
            model.model_id_2 as int,
            model.model_id_3 as int,
            match codename {
                Some(codename) => codename@,
                None => seq![],
            },
        ),
        AssetTarget::Standalone { registry_model_id } => (
            false,
            0,
            0,
            0,
            0,
            registry_model_id@,
        ),
    }
}

proof fn fixed_hex(value: nat, width: nat)
    requires
        width == 2 && value < 0x100 || width == 4 && value < 0x1_0000,
    ensures
        hex(value, width).len() == width,
        crate::text::number_of(hex(value, width), 16) == value,
{
    assert(vstd::arithmetic::power::pow(16, 2) == 0x100 && vstd::arithmetic::power::pow(16, 4)
        == 0x1_0000) by {
        reveal_with_fuel(vstd::arithmetic::power::pow, 5);
    }
    crate::text::digits_are_few(value, 16, width);
    crate::text::digits_are_read_back(value, 16, width);
}

/// Two targets have the same key exactly if they ask for the same art.
pub proof fn keys_tell_targets_apart(a: AssetTarget, b: AssetTarget)
    ensures
        target_key(a) == target_key(b) <==> asked_for(a) == asked_for(b),
{
    reveal_strlit("hidpp:");
    reveal_strlit(":");
    reveal_strlit("standalone:model:");
    if let AssetTarget::Hidpp { model, .. } = a {
        fixed_hex(model.extended_model_id as nat, 2);
        fixed_hex(model.model_id_1 as nat, 4);
        fixed_hex(model.model_id_2 as nat, 4);
        fixed_hex(model.model_id_3 as nat, 4);
    }
    if let AssetTarget::Hidpp { model, .. } = b {
        fixed_hex(model.extended_model_id as nat, 2);
        fixed_hex(model.model_id_1 as nat, 4);
        fixed_hex(model.model_id_2 as nat, 4);
        fixed_hex(model.model_id_3 as nat, 4);
    }
    let one = target_key(a);
    let other = target_key(b);
    match (a, b) {
        (
            AssetTarget::Hidpp { model, codename },
            AssetTarget::Hidpp { model: model_b, codename: codename_b },
        ) => {
            if one == other {
                assert(one.subrange(6, 8) =~= hex(model.extended_model_id as nat, 2));
                assert(other.subrange(6, 8) =~= hex(model_b.extended_model_id as nat, 2));
                assert(one.subrange(9, 13) =~= hex(model.model_id_1 as nat, 4));
                assert(other.subrange(9, 13) =~= hex(model_b.model_id_1 as nat, 4));
                assert(one.subrange(14, 18) =~= hex(model.model_id_2 as nat, 4));
                assert(other.subrange(14, 18) =~= hex(model_b.model_id_2 as nat, 4));
                assert(one.subrange(19, 23) =~= hex(model.model_id_3 as nat, 4));
                assert(other.subrange(19, 23) =~= hex(model_b.model_id_3 as nat, 4));
                assert(one.skip(24) =~= asked_for(a).5);
                assert(other.skip(24) =~= asked_for(b).5);
            }
        },
        (AssetTarget::Standalone { .. }, AssetTarget::Standalone { .. }) => {
            assert(one.skip(17) =~= asked_for(a).5);
            assert(other.skip(17) =~= asked_for(b).5);
        },
        _ => {
            assert(one[0] != other[0]);
        },
    }
}

/// Where the user wants art to come from.
#[derive(Debug, Clone, Copy, PartialEq, Eq, Structural)]
pub enum AssetSourcePreference {
    Automatic,
    OpenLogi,
    Cloudflare,
    Fastly,
}

/// Where art comes from.
#[derive(Debug, PartialEq, Eq)]
pub enum AssetSource {
    /// A server named by the environment.
    Override(String),
    Production,
    Pages,
    JsDelivr,
}

/// The source that one sync uses: the environment's server if it names one, and
/// otherwise what the user prefers. `None` takes whichever mirror answers
/// first.
pub fn source_for_sync(
    preference: AssetSourcePreference,
    override_base: Option<&str>,
) -> (source: Option<AssetSource>)
    ensures
        match override_base {
            Some(base) => source matches Some(AssetSource::Override(server)) && server@ == base@,
            None => match preference {
                AssetSourcePreference::Automatic => source is None,
                AssetSourcePreference::OpenLogi => source == Some(AssetSource::Production),
                AssetSourcePreference::Cloudflare => source == Some(AssetSource::Pages),
                AssetSourcePreference::Fastly => source == Some(AssetSource::JsDelivr),
            },
        },
{
    if let Some(base) = override_base {
        return Some(AssetSource::Override(base.to_owned()));
    }
    match preference {
        AssetSourcePreference::Automatic => None,
        AssetSourcePreference::OpenLogi => Some(AssetSource::Production),
        AssetSourcePreference::Cloudflare => Some(AssetSource::Pages),
        AssetSourcePreference::Fastly => Some(AssetSource::JsDelivr),
    }
}

/// The name of a preference, for callers that key something on it.
pub open spec fn segment_of(preference: AssetSourcePreference) -> Seq<char> {
    match preference {
        AssetSourcePreference::Automatic => "automatic"@,
        AssetSourcePreference::OpenLogi => "openlogi"@,
        AssetSourcePreference::Cloudflare => "cloudflare"@,
        AssetSourcePreference::Fastly => "fastly"@,
    }
}

/// The name of a preference, for callers that key something on it.
pub fn source_segment(preference: AssetSourcePreference) -> (segment: &'static str)
    ensures
        segment@ == segment_of(preference),
{
    match preference {
        AssetSourcePreference::Automatic => "automatic",
        AssetSourcePreference::OpenLogi => "openlogi",
        AssetSourcePreference::Cloudflare => "cloudflare",
        AssetSourcePreference::Fastly => "fastly",
    }
}

/// Each preference has a name of its own.
pub proof fn segments_are_distinct(a: AssetSourcePreference, b: AssetSourcePreference)
    ensures
        segment_of(a) == segment_of(b) <==> a == b,
{
    reveal_strlit("automatic");
    reveal_strlit("openlogi");
    reveal_strlit("cloudflare");
    reveal_strlit("fastly");
    assert("automatic"@[0] == 'a' && "openlogi"@[0] == 'o' && "cloudflare"@[0] == 'c'
        && "fastly"@[0] == 'f');
}

/// What is to be downloaded for a target: the registry's entry, and what tells
/// the variants of its art apart.
#[derive(Debug, Clone, Copy, PartialEq, Eq)]
pub struct DepotSync {
    pub at: usize,
    pub extended_model_id: u8,
    pub product_ids: (u16, u16, u16),
}

/// What is to be downloaded for a target. A model that the registry does not
/// list shows fallback art, which is no failure.
pub fn sync_target(index: &Index, target: &AssetTarget, forced: Option<&str>) -> (sync: Option<
    DepotSync,
>)
    ensures
        match (*target, sync) {
            (AssetTarget::Hidpp { model, codename }, Some(sync)) => {
                &&& sync.at < index.devices.in_order().len()
                &&& resolves_to(
                    *index,
                    model,
                    owned_view(codename),
                    crate::text::optional_view(forced),
                    sync.at as int,
                )
                &&& sync.extended_model_id == model.extended_model_id
                &&& sync.product_ids == (model.model_id_1, model.model_id_2, model.model_id_3)
            },
            (AssetTarget::Hidpp { model, codename }, None) => resolves_to_nothing(
                *index,
                model,
                owned_view(codename),
                crate::text::optional_view(forced),
            ),
            (AssetTarget::Standalone { registry_model_id }, Some(sync)) => {
                &&& crate::services::assets::first_match(
                    *index,
                    Lookup::ModelId(registry_model_id),
                    sync.at as int,
                )
                &&& sync.extended_model_id == 0
                &&& sync.product_ids == (0u16, 0u16, 0u16)
            },
            (AssetTarget::Standalone { registry_model_id }, None) =>
                crate::services::assets::no_match(*index, Lookup::ModelId(registry_model_id)),
        },
{
    match target {
        AssetTarget::Hidpp { model, codename } => {
            match resolve_in_index(index, model, crate::text::borrowed(codename), forced) {
                Some(at) => Some(
                    DepotSync {
                        at,
                        extended_model_id: model.extended_model_id,
                        product_ids: (model.model_id_1, model.model_id_2, model.model_id_3),
                    },
                ),
                None => None,
            }
        },
        AssetTarget::Standalone { registry_model_id } => {
            let lookup = Lookup::ModelId(registry_model_id.clone());
            match index.find(&lookup) {
                Some(at) => Some(
                    DepotSync { at, extended_model_id: 0, product_ids: (0, 0, 0) },
                ),
                None => None,
            }
        },
    }
}

/// What is to be downloaded, besides the targets', for a depot that the
/// environment forces: it has no device, so its plainest art.
pub fn forced_sync(index: &Index, forced: Option<&str>) -> (sync: Option<DepotSync>)
    ensures
        match (forced, sync) {
            (Some(depot), Some(sync)) => {
                &&& crate::table::key_at(index.devices.in_order(), depot@, sync.at as int)
                &&& sync.extended_model_id == 0
                &&& sync.product_ids == (0u16, 0u16, 0u16)
            },
            (Some(depot), None) => !index.devices@.contains_key(depot@),
            (None, Some(_)) => false,
            (None, None) => true,
        },
{
    match forced {
        Some(depot) => match index.find_depot(depot) {
            Some(at) => Some(DepotSync { at, extended_model_id: 0, product_ids: (0, 0, 0) }),
            None => None,
        },
        None => None,
    }
}

/// A manual action from the settings.
#[derive(Debug, Clone, Copy, PartialEq, Eq, Structural)]
pub enum AssetCommand {
    /// Fetch art for known devices now, whatever the download policy says.
    Refresh,
    /// Delete the user's cache, and fetch again.
    ClearCache,
}

/// One file to fetch into the cache.
#[derive(Debug)]
pub struct Fetch {
    pub name: String,
    /// Whether the depot's sync fails if the file cannot be fetched.
    pub required: bool,
}

/// What a [`Fetch`] holds.
pub open spec fn fetch_views(fetches: Seq<Fetch>) -> Seq<(Seq<char>, bool)> {
    fetches.map_values(|fetch: Fetch| (fetch.name@, fetch.required))
}

/// Whether a variant file is one that the baseline brings anyway.
pub open spec fn in_baseline(name: Seq<char>) -> bool {
    ||| name == "front_core.png"@
    ||| name == "front.png"@
    ||| name == "side_core.png"@
    ||| name == "side.png"@
    ||| name == "core_metadata.json"@
    ||| name == "metadata.json"@
    ||| name == "metadata_full.json"@
}

fn is_in_baseline(name: &str) -> (found: bool)
    ensures
        found == in_baseline(name@),
{
    same_text(name, "front_core.png") || same_text(name, "front.png") || same_text(
        name,
        "side_core.png",
    ) || same_text(name, "side.png") || same_text(name, "core_metadata.json") || same_text(
        name,
        "metadata.json",
    ) || same_text(name, "metadata_full.json")
}

/// The fetches of `names` that the registry lists. A file without a registry
/// entry has no hash to be checked against, and is not fetched.
pub open spec fn listed_fetches(
    names: Seq<Seq<char>>,
    registry: Seq<String>,
    required: bool,
) -> Seq<(Seq<char>, bool)>
    decreases names.len(),
{
    if names.len() == 0 {
        seq![]
    } else {
        let earlier = listed_fetches(names.drop_last(), registry, required);
        if lists(registry, names.last()) {
            earlier.push((names.last(), required))
        } else {
            earlier
        }
    }
}

/// The variant files that the manifest named and the baseline does not bring.
pub open spec fn separate_variants(variants: Seq<Option<String>>) -> Seq<Seq<char>>
    decreases variants.len(),
{
    if variants.len() == 0 {
        seq![]
    } else {
        let earlier = separate_variants(variants.drop_last());
        match variants.last() {
            Some(name) => if in_baseline(name@) {
                earlier
            } else {
                earlier.push(name@)
            },
            None => earlier,
        }
    }
}

fn push_fetch(fetches: &mut Vec<Fetch>, name: &str, registry: &Vec<String>, required: bool)
    ensures
        fetch_views(final(fetches)@) == if lists(registry@, name@) {
            fetch_views(old(fetches)@).push((name@, required))
        } else {
            fetch_views(old(fetches)@)
        },
{
    if list_contains(registry, name) {
        fetches.push(Fetch { name: name.to_owned(), required });
        assert(fetch_views(fetches@) =~= fetch_views(old(fetches)@).push((name@, required)));
    }
}

/// What to fetch of a depot before its manifest is known: the baseline files,
/// which the sync needs, and the buttons render if there is one, which it does
/// not.
pub fn baseline_fetches(
    baseline: &Vec<String>,
    buttons_render: &Option<String>,
    registry: &Vec<String>,
) -> (fetches: Vec<Fetch>)
    ensures
        fetch_views(fetches@) == listed_fetches(texts(baseline@), registry@, true)
            + listed_fetches(
            match owned_view(*buttons_render) {
                Some(name) => seq![name],
                None => seq![],
            },
            registry@,
            false,
        ),
{
    let mut fetches: Vec<Fetch> = Vec::new();
    let mut i: usize = 0;
    assert(fetch_views(fetches@) =~= listed_fetches(texts(baseline@).take(0), registry@, true));
    while i < baseline.len()
        invariant
            i <= baseline@.len(),
            fetch_views(fetches@) == listed_fetches(
                texts(baseline@).take(i as int),
                registry@,
                true,
            ),
        decreases baseline@.len() - i,
    {
        proof {
            let longer = texts(baseline@).take(i + 1);
            assert(longer.drop_last() =~= texts(baseline@).take(i as int));
            assert(longer.last() == baseline@[i as int]@);
        }
        push_fetch(&mut fetches, baseline[i].as_str(), registry, true);
        i += 1;
    }
    assert(texts(baseline@).take(baseline@.len() as int) =~= texts(baseline@));
    let ghost before = fetch_views(fetches@);
    if let Some(name) = buttons_render {
        push_fetch(&mut fetches, name.as_str(), registry, false);
        proof {
            let one = seq![name@];
            assert(one.drop_last() =~= seq![]);
            assert(listed_fetches(one.drop_last(), registry@, false) =~= seq![]);
        }
    }
    assert(fetch_views(fetches@) =~= before + listed_fetches(
        match owned_view(*buttons_render) {
            Some(name) => seq![name],
            None => seq![],
        },
        registry@,
        false,
    ));
    fetches
}

/// The variant files that are looked up in a depot's manifest, in the order in
/// which they are fetched.
pub open spec fn variants_of(resources: DepotResources) -> Seq<Option<String>> {
    seq![
        resources.device_image,
        resources.device_buttons_image,
        resources.device_side,
        resources.device_camera_image,
        resources.image_metadata,
    ]
}

/// The variant files that are looked up in a depot's manifest, in the order in
/// which they are fetched.
pub fn named_variants(resources: &DepotResources) -> (variants: Vec<Option<String>>)
    ensures
        variants@ == variants_of(*resources),
{
    let variants: Vec<Option<String>> = vec![
        resources.device_image.clone(),
        resources.device_buttons_image.clone(),
        resources.device_side.clone(),
        resources.device_camera_image.clone(),
        resources.image_metadata.clone(),
    ];
    assert(variants@ =~= variants_of(*resources));
    variants
}

/// What to fetch of a depot once its manifest has named the variant files. None
/// of them is needed for the sync to succeed.
pub fn variant_fetches(resources: &DepotResources, registry: &Vec<String>) -> (fetches: Vec<Fetch>)
    ensures
        fetch_views(fetches@) == listed_fetches(
            separate_variants(variants_of(*resources)),
            registry@,
            false,
        ),
{
    fetch_variants(&named_variants(resources), registry)
}

fn fetch_variants(variants: &Vec<Option<String>>, registry: &Vec<String>) -> (fetches: Vec<Fetch>)
    ensures
        fetch_views(fetches@) == listed_fetches(separate_variants(variants@), registry@, false),
{
    let mut fetches: Vec<Fetch> = Vec::new();
    let mut i: usize = 0;
    assert(variants@.take(0) =~= seq![]);
    assert(fetch_views(fetches@) =~= listed_fetches(seq![], registry@, false));
    while i < variants.len()
        invariant
            i <= variants@.len(),
            fetch_views(fetches@) == listed_fetches(
                separate_variants(variants@.take(i as int)),
                registry@,
                false,
            ),
        decreases variants@.len() - i,
    {
        let ghost earlier = separate_variants(variants@.take(i as int));
        proof {
            let longer = variants@.take(i + 1);
            assert(longer.drop_last() =~= variants@.take(i as int));
            assert(longer.last() == variants@[i as int]);
        }
        if let Some(name) = &variants[i] {
            if !is_in_baseline(name.as_str()) {
                push_fetch(&mut fetches, name.as_str(), registry, false);
                proof {
                    let longer = earlier.push(name@);
                    assert(longer.drop_last() =~= earlier);
                }
            }
        }
        i += 1;
    }
    assert(variants@.take(variants@.len() as int) =~= variants@);
    fetches
}

/// Nothing is fetched that the registry does not list.
pub proof fn only_listed_files_are_fetched(
    names: Seq<Seq<char>>,
    registry: Seq<String>,
    required: bool,
    i: int,
)
    requires
        0 <= i < listed_fetches(names, registry, required).len(),
    ensures
        lists(registry, listed_fetches(names, registry, required)[i].0),
        names.contains(listed_fetches(names, registry, required)[i].0),
    decreases names.len(),
{
    let earlier = listed_fetches(names.drop_last(), registry, required);
    if i < earlier.len() {
        only_listed_files_are_fetched(names.drop_last(), registry, required, i);
        let j = choose|j: int|
            0 <= j < names.drop_last().len() && names.drop_last()[j] == earlier[i].0;
        assert(names[j] == earlier[i].0);
    } else {
        assert(names[names.len() - 1] == names.last());
    }
}

} // verus!
