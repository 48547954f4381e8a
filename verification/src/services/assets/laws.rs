//! What holds of a device's art: which entry of the registry it comes from, and
//! which files are shown.

use crate::device::{DeviceKind, DeviceModelInfo};
use crate::services::assets::images::{
    first_existing, first_present, read_png_dimensions, resolve_depot_renders, DepotRenders,
    DepotResources, PngError,
};
use crate::services::assets::load::{
    first_standalone, first_usable, load_files, load_standalone_files, picture_size, DepotOnDisk,
    PictureFile, StandaloneOnDisk,
};
use crate::services::assets::metadata::ResolvedAsset;
use crate::services::assets::{
    resolve_in_index, resolves_to, AssetResolver, DeviceEntry, Index,
};
use crate::table::{key_at, keys_increase, lists};
use crate::text::{ascii_lowered, hex};
use vstd::prelude::*;

verus! {

/// Whether the registry lists an id for an entry.
pub open spec fn id_of(entry: DeviceEntry, id: String) -> bool {
    id == entry.model_id || entry.model_ids@.contains(id)
}

/// Whether `product` is one of a model's product ids.
pub open spec fn product_of(model: DeviceModelInfo, product: u16) -> bool {
    product != 0 && (product == model.model_id_1 || product == model.model_id_2 || product
        == model.model_id_3)
}

/// Whether an entry lists the full registry id of a model's product id: the
/// extended model id and then the product id's four digits.
pub open spec fn lists_in_full(entry: DeviceEntry, model: DeviceModelInfo, product: u16) -> bool {
    product_of(model, product) && exists|id: String| #[trigger]
        id_of(entry, id) && ascii_lowered(id@) == ascii_lowered(
            hex(model.extended_model_id as nat, 0) + hex(product as nat, 4),
        )
}

/// Whether an entry lists an id that ends with the four digits of a model's
/// product id.
pub open spec fn lists_ending(entry: DeviceEntry, model: DeviceModelInfo, product: u16) -> bool {
    product_of(model, product) && exists|id: String| #[trigger]
        id_of(entry, id) && ascii_lowered(hex(product as nat, 4)).is_suffix_of(
            ascii_lowered(id@),
        )
}

/// Whether an entry has a name, but for case.
pub open spec fn named(entry: DeviceEntry, name: Seq<char>) -> bool {
    ascii_lowered(entry.display_name@) == ascii_lowered(name)
}

/// Whether no depot is forced that the registry has.
pub open spec fn unforced(index: Index, forced: Option<&str>) -> bool {
    forced matches Some(depot) ==> !index.devices@.contains_key(depot@)
}

proof fn least(holds: spec_fn(int) -> bool, i: int) -> (at: int)
    requires
        0 <= i,
        holds(i),
    ensures
        0 <= at <= i,
        holds(at),
        forall|j: int| 0 <= j < at ==> !#[trigger] holds(j),
    decreases i,
{
    if exists|j: int| 0 <= j < i && #[trigger] holds(j) {
        let j = choose|j: int| 0 <= j < i && #[trigger] holds(j);
        least(holds, j)
    } else {
        i
    }
}

proof fn full_ids_are_ids(entry: DeviceEntry, model: DeviceModelInfo, product: u16)
    ensures
        lists_in_full(entry, model, product) <==> product_of(model, product)
            && crate::services::assets::has_model_id(
            entry,
            hex(model.extended_model_id as nat, 0) + hex(product as nat, 4),
        ),
{
    let wanted = ascii_lowered(hex(model.extended_model_id as nat, 0) + hex(product as nat, 4));
    if lists_in_full(entry, model, product) {
        let id = choose|id: String| #[trigger] id_of(entry, id) && ascii_lowered(id@) == wanted;
        if id != entry.model_id {
            let k = choose|k: int|
                0 <= k < entry.model_ids@.len() && entry.model_ids@[k] == id;
            assert(ascii_lowered(entry.model_ids@[k]@) == wanted);
        }
    }
    if crate::services::assets::has_model_id(
        entry,
        hex(model.extended_model_id as nat, 0) + hex(product as nat, 4),
    ) {
        if ascii_lowered(entry.model_id@) == wanted {
            assert(id_of(entry, entry.model_id));
        } else {
            let k = choose|k: int|
                0 <= k < entry.model_ids@.len() && ascii_lowered(
                    (#[trigger] entry.model_ids@[k])@,
                ) == wanted;
            assert(id_of(entry, entry.model_ids@[k]));
        }
    }
}

proof fn endings_are_endings(entry: DeviceEntry, model: DeviceModelInfo, product: u16)
    ensures
        lists_ending(entry, model, product) <==> product_of(model, product)
            && crate::services::assets::has_model_id_suffix(entry, hex(product as nat, 4)),
{
    let wanted = ascii_lowered(hex(product as nat, 4));
    if lists_ending(entry, model, product) {
        let id = choose|id: String| #[trigger]
            id_of(entry, id) && wanted.is_suffix_of(ascii_lowered(id@));
        if id != entry.model_id {
            let k = choose|k: int|
                0 <= k < entry.model_ids@.len() && entry.model_ids@[k] == id;
            assert(wanted.is_suffix_of(ascii_lowered(entry.model_ids@[k]@)));
        }
    }
    if crate::services::assets::has_model_id_suffix(entry, hex(product as nat, 4)) {
        if wanted.is_suffix_of(ascii_lowered(entry.model_id@)) {
            assert(id_of(entry, entry.model_id));
        } else {
            let k = choose|k: int|
                0 <= k < entry.model_ids@.len() && wanted.is_suffix_of(
                    ascii_lowered((#[trigger] entry.model_ids@[k])@),
                );
            assert(id_of(entry, entry.model_ids@[k]));
        }
    }
}

/// Where some entry lists the full id of one of the model's product ids, the
/// entry found lists such a full id. It is that of the first product id where
/// that is listed at all, and of the entries that list it the first one.
pub proof fn a_full_id_wins(
    index: &Index,
    model: &DeviceModelInfo,
    codename: Option<&str>,
    forced: Option<&str>,
    found: Option<usize>,
    i: int,
    product: u16,
)
    requires
        call_ensures(resolve_in_index, (index, model, codename, forced), found),
        unforced(*index, forced),
        0 <= i < index.devices.in_order().len(),
        lists_in_full(index.devices.in_order()[i].1, *model, product),
    ensures
        found matches Some(at) && at < index.devices.in_order().len() && exists|own: u16|
            #[trigger] lists_in_full(index.devices.in_order()[at as int].1, *model, own),
        product == model.model_id_1 ==> (found matches Some(at) && at <= i && lists_in_full(
            index.devices.in_order()[at as int].1,
            *model,
            product,
        )),
{
    let devices = index.devices.in_order();
    let wanted = |id: u16| hex(model.extended_model_id as nat, 0) + hex(id as nat, 4);
    full_ids_are_ids(devices[i].1, *model, product);
    let first = least(
        |j: int|
            0 <= j < devices.len() && crate::services::assets::has_model_id(
                devices[j].1,
                wanted(product),
            ),
        i,
    );
    assert forall|j: int| 0 <= j < first implies !crate::services::assets::has_model_id(
        (#[trigger] devices[j]).1,
        wanted(product),
    ) by {
        let holds = |j: int|
            0 <= j < devices.len() && crate::services::assets::has_model_id(
                devices[j].1,
                wanted(product),
            );
        assert(!holds(j));
    }
    assert(crate::services::assets::id_hit(
        *index,
        *model,
        crate::services::assets::IdSearch::Strict,
        product,
        first,
    ));
    let at = found->0 as int;
    full_ids_are_ids(devices[at].1, *model, model.model_id_1);
    full_ids_are_ids(devices[at].1, *model, model.model_id_2);
    full_ids_are_ids(devices[at].1, *model, model.model_id_3);
    if product == model.model_id_1 && at > i {
        assert(crate::services::assets::has_model_id(devices[i].1, wanted(product)));
    }
}

/// Whether no entry of the registry lists the full id of any of the model's
/// product ids.
pub open spec fn none_in_full(index: Index, model: DeviceModelInfo) -> bool {
    forall|i: int, product: u16|
        0 <= i < index.devices.in_order().len() ==> !#[trigger] lists_in_full(
            index.devices.in_order()[i].1,
            model,
            product,
        )
}

/// Whether no entry of the registry lists an id that ends with any of the
/// model's product ids.
pub open spec fn none_ending(index: Index, model: DeviceModelInfo) -> bool {
    forall|i: int, product: u16|
        0 <= i < index.devices.in_order().len() ==> !#[trigger] lists_ending(
            index.devices.in_order()[i].1,
            model,
            product,
        )
}

proof fn nothing_in_full(index: Index, model: DeviceModelInfo)
    requires
        none_in_full(index, model),
    ensures
        crate::services::assets::no_id_hit(
            index,
            model,
            crate::services::assets::IdSearch::Strict,
        ),
{
    let search = crate::services::assets::IdSearch::Strict;
    assert forall|product: u16, at: int|
        product == model.model_id_1 || product == model.model_id_2 || product
            == model.model_id_3 implies !#[trigger] crate::services::assets::id_hit(
        index,
        model,
        search,
        product,
        at,
    ) by {
        if crate::services::assets::id_hit(index, model, search, product, at) {
            full_ids_are_ids(index.devices.in_order()[at].1, model, product);
        }
    }
}

proof fn nothing_ending(index: Index, model: DeviceModelInfo)
    requires
        none_ending(index, model),
    ensures
        crate::services::assets::no_id_hit(
            index,
            model,
            crate::services::assets::IdSearch::Suffix,
        ),
{
    let search = crate::services::assets::IdSearch::Suffix;
    assert forall|product: u16, at: int|
        product == model.model_id_1 || product == model.model_id_2 || product
            == model.model_id_3 implies !#[trigger] crate::services::assets::id_hit(
        index,
        model,
        search,
        product,
        at,
    ) by {
        if crate::services::assets::id_hit(index, model, search, product, at) {
            endings_are_endings(index.devices.in_order()[at].1, model, product);
        }
    }
}

/// Where no full id is listed but an id that ends with one of the model's
/// product ids, the entry found lists such an id. It is that of the first
/// product id where there is one, and of the entries with it the first.
pub proof fn an_ending_comes_next(
    index: &Index,
    model: &DeviceModelInfo,
    codename: Option<&str>,
    forced: Option<&str>,
    found: Option<usize>,
    i: int,
    product: u16,
)
    requires
        call_ensures(resolve_in_index, (index, model, codename, forced), found),
        unforced(*index, forced),
        none_in_full(*index, *model),
        0 <= i < index.devices.in_order().len(),
        lists_ending(index.devices.in_order()[i].1, *model, product),
    ensures
        found matches Some(at) && at < index.devices.in_order().len() && exists|own: u16|
            #[trigger] lists_ending(index.devices.in_order()[at as int].1, *model, own),
        product == model.model_id_1 ==> (found matches Some(at) && at <= i && lists_ending(
            index.devices.in_order()[at as int].1,
            *model,
            product,
        )),
{
    let devices = index.devices.in_order();
    nothing_in_full(*index, *model);
    endings_are_endings(devices[i].1, *model, product);
    let holds = |j: int|
        0 <= j < devices.len() && crate::services::assets::has_model_id_suffix(
            devices[j].1,
            hex(product as nat, 4),
        );
    let first = least(holds, i);
    assert forall|j: int| 0 <= j < first implies !crate::services::assets::has_model_id_suffix(
        (#[trigger] devices[j]).1,
        hex(product as nat, 4),
    ) by {
        assert(!holds(j));
    }
    assert(crate::services::assets::id_hit(
        *index,
        *model,
        crate::services::assets::IdSearch::Suffix,
        product,
        first,
    ));
    let at = found->0 as int;
    endings_are_endings(devices[at].1, *model, model.model_id_1);
    endings_are_endings(devices[at].1, *model, model.model_id_2);
    endings_are_endings(devices[at].1, *model, model.model_id_3);
    if product == model.model_id_1 && at > i {
        assert(crate::services::assets::has_model_id_suffix(
            devices[i].1,
            hex(product as nat, 4),
        ));
    }
}

/// A later revision of the G502, whose ids no entry lists, gets the art of the
/// first one's depot.
pub proof fn a_later_revision_shares_its_depot(
    index: &Index,
    model: &DeviceModelInfo,
    codename: Option<&str>,
    forced: Option<&str>,
    found: Option<usize>,
    i: int,
)
    requires
        call_ensures(resolve_in_index, (index, model, codename, forced), found),
        unforced(*index, forced),
        none_in_full(*index, *model),
        none_ending(*index, *model),
        product_of(*model, 0xc332) || product_of(*model, 0xc08b),
        key_at(index.devices.in_order(), "g502_core"@, i),
    ensures
        found matches Some(at) && at < index.devices.in_order().len()
            && index.devices.in_order()[at as int].0@ == "g502_core"@,
{
    nothing_in_full(*index, *model);
    nothing_ending(*index, *model);
    let product: u16 = if product_of(*model, 0xc332) {
        0xc332
    } else {
        0xc08b
    };
    assert(crate::services::assets::id_hit(
        *index,
        *model,
        crate::services::assets::IdSearch::Shared,
        product,
        i,
    ));
}

/// Where no id of the model leads anywhere, the entry found is the first with
/// the name that the firmware gives.
pub proof fn a_name_comes_last(
    index: &Index,
    model: &DeviceModelInfo,
    name: &str,
    forced: Option<&str>,
    found: Option<usize>,
    i: int,
)
    requires
        call_ensures(resolve_in_index, (index, model, Some(name), forced), found),
        unforced(*index, forced),
        none_in_full(*index, *model),
        none_ending(*index, *model),
        !product_of(*model, 0xc332) && !product_of(*model, 0xc08b),
        0 <= i < index.devices.in_order().len(),
        named(index.devices.in_order()[i].1, name@),
    ensures
        found matches Some(at) && at <= i && named(index.devices.in_order()[at as int].1, name@),
{
    let devices = index.devices.in_order();
    nothing_in_full(*index, *model);
    nothing_ending(*index, *model);
    let holds = |j: int| 0 <= j < devices.len() && named(devices[j].1, name@);
    let first = least(holds, i);
    assert forall|j: int| 0 <= j < first implies !named((#[trigger] devices[j]).1, name@) by {
        assert(!holds(j));
    }
    assert(crate::services::assets::name_hit(*index, name@, first));
    let at = found->0 as int;
    if at > i {
        assert(named(devices[i].1, name@));
    }
}

/// An entry is found only if its depot is forced, if it lists one of the
/// model's ids in full or an id that ends with one, if it is the depot that the
/// model shares with an earlier revision, or if it has the model's name.
pub proof fn nothing_else_is_found(
    index: &Index,
    model: &DeviceModelInfo,
    codename: Option<&str>,
    forced: Option<&str>,
    at: usize,
)
    requires
        call_ensures(resolve_in_index, (index, model, codename, forced), Some(at)),
    ensures
        at < index.devices.in_order().len(),
        ({
            let (depot, entry) = index.devices.in_order()[at as int];
            ||| forced matches Some(forced) && depot@ == forced@
            ||| exists|product: u16| #[trigger] lists_in_full(entry, *model, product)
            ||| exists|product: u16| #[trigger] lists_ending(entry, *model, product)
            ||| (product_of(*model, 0xc332) || product_of(*model, 0xc08b)) && depot@
                == "g502_core"@
            ||| codename matches Some(name) && named(entry, name@)
        }),
{
    let entry = index.devices.in_order()[at as int].1;
    full_ids_are_ids(entry, *model, model.model_id_1);
    full_ids_are_ids(entry, *model, model.model_id_2);
    full_ids_are_ids(entry, *model, model.model_id_3);
    endings_are_endings(entry, *model, model.model_id_1);
    endings_are_endings(entry, *model, model.model_id_2);
    endings_are_endings(entry, *model, model.model_id_3);
}

/// A depot that is forced and that the registry has is the one found, whatever
/// the model.
pub proof fn a_forced_depot_is_found(
    index: &Index,
    model: &DeviceModelInfo,
    codename: Option<&str>,
    forced: &str,
    found: Option<usize>,
)
    requires
        call_ensures(resolve_in_index, (index, model, codename, Some(forced)), found),
        index.devices@.contains_key(forced@),
    ensures
        found matches Some(at) && at < index.devices.in_order().len()
            && index.devices.in_order()[at as int].0@ == forced@,
{
}

proof fn one_entry_is_right(
    index: Index,
    model: DeviceModelInfo,
    codename: Option<Seq<char>>,
    forced: Option<Seq<char>>,
    a: int,
    b: int,
)
    requires
        keys_increase(index.devices.in_order()),
        resolves_to(index, model, codename, forced, a),
        resolves_to(index, model, codename, forced, b),
    ensures
        a == b,
{
    let devices = index.devices.in_order();
    if a < b {
        assert(devices[a].0@ != devices[b].0@);
    } else if b < a {
        assert(devices[b].0@ != devices[a].0@);
    }
}

/// The art of a model is that of the entry found for it, under that entry's
/// depot and name, and there is none without an entry or without a registry.
pub proof fn art_is_that_of_the_entry_found(
    resolver: &AssetResolver,
    index: Index,
    model: &DeviceModelInfo,
    codename: Option<&str>,
    forced: Option<&str>,
    kind: Option<DeviceKind>,
    tiers: Vec<DepotOnDisk>,
    asset: Option<ResolvedAsset>,
    found: Option<usize>,
)
    requires
        resolver.index == Some(index),
        keys_increase(index.devices.in_order()),
        call_ensures(
            AssetResolver::resolve,
            (resolver, model, codename, forced, kind, tiers),
            asset,
        ),
        call_ensures(resolve_in_index, (&index, model, codename, forced), found),
    ensures
        asset matches Some(asset) ==> found matches Some(at) && asset.depot@
            == index.devices.in_order()[at as int].0@ && asset.display_name@
            == index.devices.in_order()[at as int].1.display_name@ && asset.kind == kind,
        asset is None ==> found is None || forall|i: int|
            0 <= i < tiers@.len() ==> !(#[trigger] tiers@[i]).safe || tiers@[i].renders is None,
{
    let code = crate::text::optional_view(codename);
    let force = crate::text::optional_view(forced);
    if let Some(asset) = asset {
        let at = choose|at: int|
            0 <= at < index.devices.in_order().len() && #[trigger] resolves_to(
                index,
                *model,
                code,
                force,
                at,
            ) && crate::services::assets::loads_entry(asset, index, at, kind, tiers@);
        if let Some(other) = found {
            one_entry_is_right(index, *model, code, force, at, other as int);
        } else {
            assert(crate::services::assets::id_misses(
                index,
                *model,
                crate::services::assets::IdSearch::Shared,
                model.model_id_1,
            ));
        }
    } else {
        tiers_that_hold_nothing(tiers@, 0);
    }
}

proof fn tiers_that_hold_nothing(tiers: Seq<DepotOnDisk>, from: int)
    requires
        0 <= from <= tiers.len(),
    ensures
        match first_usable(tiers, from) {
            Some(at) => from <= at < tiers.len() && tiers[at].safe && tiers[at].renders is Some
                && forall|i: int|
                from <= i < at ==> !(#[trigger] tiers[i]).safe || tiers[i].renders is None,
            None => forall|i: int|
                from <= i < tiers.len() ==> !(#[trigger] tiers[i]).safe || tiers[i].renders is None,
        },
    decreases tiers.len() - from,
{
    if from < tiers.len() {
        tiers_that_hold_nothing(tiers, from + 1);
    }
}

/// Art comes from the first tier that holds enough of the depot: its pictures
/// are files of that tier, its size is that of the picture, or of the canvas
/// where the picture could not be read, and it glows only if it is a
/// keyboard's.
pub proof fn art_comes_from_the_first_tier_that_holds_it(
    depot: &str,
    entry: &DeviceEntry,
    kind: Option<DeviceKind>,
    tiers: Vec<DepotOnDisk>,
    asset: Option<ResolvedAsset>,
    i: int,
)
    requires
        call_ensures(load_files, (depot, entry, kind, tiers), asset),
        0 <= i < tiers@.len(),
        tiers@[i].safe,
        tiers@[i].renders is Some,
        forall|j: int| 0 <= j < i ==> !(#[trigger] tiers@[j]).safe || tiers@[j].renders is None,
    ensures
        asset is Some,
        ({
            let art = asset->0;
            let tier = tiers@[i];
            let renders = tier.renders->0;
            &&& art.depot@ == depot@
            &&& art.display_name@ == entry.display_name@
            &&& art.kind == kind
            &&& art.image_path@ == tier.dir@ + renders.image@
            &&& art.hero_image_path is Some == renders.hero_image is Some
            &&& art.hero_image_path matches Some(path) ==> path@ == tier.dir@
                + renders.hero_image->0@
            &&& art.side_image_path is Some == renders.side_image is Some
            &&& art.side_image_path matches Some(path) ==> path@ == tier.dir@
                + renders.side_image->0@
            &&& tier.metadata matches Some(read) ==> art.metadata == read.metadata
            &&& tier.metadata is None ==> art.metadata.images@.len() == 0
            &&& tier.png matches Some(size) ==> (art.png_width, art.png_height) == size
            &&& tier.png is None && tier.metadata is Some && tier.metadata->0.origin is Some ==> (
            art.png_width, art.png_height) == tier.metadata->0.origin->0
            &&& tier.png is None && (tier.metadata is None || tier.metadata->0.origin is None) ==> (
            art.png_width, art.png_height) == (0u32, 0u32)
            &&& kind == Some(DeviceKind::Keyboard) ==> art.glow == tier.mask
            &&& kind != Some(DeviceKind::Keyboard) ==> art.glow is None
        }),
{
    tiers_that_hold_nothing(tiers@, 0);
    assert(first_usable(tiers@, 0) == Some(i)) by {
        if let Some(at) = first_usable(tiers@, 0) {
            assert(tiers@[at].safe && tiers@[at].renders is Some);
            assert(tiers@[i].safe);
        }
    }
}

/// Without a tier that holds enough of the depot there is no art.
pub proof fn no_tier_no_art(
    depot: &str,
    entry: &DeviceEntry,
    kind: Option<DeviceKind>,
    tiers: Vec<DepotOnDisk>,
    asset: Option<ResolvedAsset>,
)
    requires
        call_ensures(load_files, (depot, entry, kind, tiers), asset),
        forall|j: int|
            0 <= j < tiers@.len() ==> !(#[trigger] tiers@[j]).safe || tiers@[j].renders is None,
    ensures
        asset is None,
{
    tiers_that_hold_nothing(tiers@, 0);
}

proof fn the_first_present_is_present(names: Seq<Seq<char>>, existing: Seq<String>)
    ensures
        match first_present(names, existing) {
            Some(name) => lists(existing, name) && exists|i: int|
                0 <= i < names.len() && #[trigger] names[i] == name && forall|j: int|
                    0 <= j < i ==> !lists(existing, #[trigger] names[j]),
            None => forall|i: int| 0 <= i < names.len() ==> !lists(existing, #[trigger] names[i]),
        },
    decreases names.len(),
{
    if names.len() > 0 && !lists(existing, names[0]) {
        let rest = names.drop_first();
        the_first_present_is_present(rest, existing);
        if let Some(name) = first_present(rest, existing) {
            let i = choose|i: int|
                0 <= i < rest.len() && #[trigger] rest[i] == name && forall|j: int|
                    0 <= j < i ==> !lists(existing, #[trigger] rest[j]);
            assert(names[i + 1] == name);
            assert forall|j: int| 0 <= j < i + 1 implies !lists(existing, #[trigger] names[j]) by {
                if j > 0 {
                    assert(rest[j - 1] == names[j]);
                }
            }
        } else {
            assert forall|j: int| 0 <= j < names.len() implies !lists(
                existing,
                #[trigger] names[j],
            ) by {
                if j > 0 {
                    assert(rest[j - 1] == names[j]);
                }
            }
        }
    }
}

/// Of the names to try, the first that exists is taken, and none only where none
/// exists.
pub proof fn the_first_that_exists_is_taken(
    names: &Vec<String>,
    existing: &Vec<String>,
    found: Option<String>,
    i: int,
)
    requires
        call_ensures(first_existing, (names, existing), found),
        0 <= i < names@.len(),
    ensures
        found matches Some(name) ==> lists(existing@, name@) && lists(names@, name@),
        lists(existing@, names@[i]@) && (forall|j: int|
            0 <= j < i ==> !lists(existing@, (#[trigger] names@[j])@)) ==> (found matches Some(
            name,
        ) && name@ == names@[i]@),
        found is None ==> !lists(existing@, names@[i]@),
{
    let all = crate::order::texts(names@);
    the_first_present_is_present(all, existing@);
    if let Some(name) = first_present(all, existing@) {
        let k = choose|k: int|
            0 <= k < all.len() && #[trigger] all[k] == name && forall|j: int|
                0 <= j < k ==> !lists(existing@, #[trigger] all[j]);
        assert(names@[k]@ == name);
        if lists(existing@, names@[i]@) && (forall|j: int|
            0 <= j < i ==> !lists(existing@, (#[trigger] names@[j])@)) {
            if k < i {
                assert(!lists(existing@, names@[k]@));
            } else if i < k {
                assert(all[i] == names@[i]@);
            }
        }
    } else {
        assert(all[i] == names@[i]@);
    }
}

/// Whether a manifest's name is that of a file among `files`.
pub open spec fn named_and_present(name: Option<String>, files: Seq<String>) -> bool {
    name matches Some(name) && lists(files, name@)
}

/// The metadata file is the one that the manifest names where it exists, and
/// else the first of the usual ones.
pub proof fn metadata_is_the_manifests_or_a_usual_one(
    resources: &DepotResources,
    existing: &Vec<String>,
    inside: &Vec<String>,
    renders: DepotRenders,
)
    requires
        call_ensures(resolve_depot_renders, (resources, existing, inside), Some(renders)),
    ensures
        lists(existing@, renders.meta_name@),
        named_and_present(resources.image_metadata, existing@) ==> renders.meta_name@
            == resources.image_metadata->0@,
        !named_and_present(resources.image_metadata, existing@) ==> {
            &&& lists(existing@, "core_metadata.json"@) ==> renders.meta_name@
                == "core_metadata.json"@
            &&& !lists(existing@, "core_metadata.json"@) && lists(existing@, "metadata.json"@)
                ==> renders.meta_name@ == "metadata.json"@
            &&& !lists(existing@, "core_metadata.json"@) && !lists(existing@, "metadata.json"@)
                ==> renders.meta_name@ == "metadata_full.json"@
        },
{
    let names = crate::services::assets::images::metadata_candidates(*resources);
    the_first_present_is_present(names, existing@);
    let extra: int = if resources.image_metadata is Some {
        1
    } else {
        0
    };
    assert(names.len() == 3 + extra);
    assert(names[extra] == "core_metadata.json"@);
    assert(names[extra + 1] == "metadata.json"@);
    assert(names[extra + 2] == "metadata_full.json"@);
    assert(extra == 1 ==> names[0] == resources.image_metadata->0@);
}

/// The picture of the model view is that of the buttons where the manifest names
/// one that is there; else a side view, before any front view. Where the
/// manifest names no picture of the buttons but a front view that is there, it
/// is that one.
pub proof fn the_model_picture_shows_the_buttons_if_it_can(
    resources: &DepotResources,
    existing: &Vec<String>,
    inside: &Vec<String>,
    renders: DepotRenders,
)
    requires
        call_ensures(resolve_depot_renders, (resources, existing, inside), Some(renders)),
    ensures
        lists(inside@, renders.image@),
        named_and_present(resources.device_buttons_image, inside@) ==> renders.image@
            == resources.device_buttons_image->0@,
        resources.device_buttons_image is None && named_and_present(
            resources.device_image,
            inside@,
        ) ==> renders.image@ == resources.device_image->0@,
        resources.device_buttons_image is Some && !named_and_present(
            resources.device_buttons_image,
            inside@,
        ) ==> {
            &&& lists(inside@, "side_core.png"@) ==> renders.image@ == "side_core.png"@
            &&& !lists(inside@, "side_core.png"@) && lists(inside@, "side.png"@)
                ==> renders.image@ == "side.png"@
            &&& !lists(inside@, "side_core.png"@) && !lists(inside@, "side.png"@)
                && named_and_present(resources.device_image, inside@) ==> renders.image@
                == resources.device_image->0@
        },
{
    let names = crate::services::assets::images::image_candidates(*resources);
    the_first_present_is_present(names, inside@);
    assert(names[0] == crate::services::assets::images::preferred_image(*resources));
    assert(names[1] == "side_core.png"@);
    assert(names[2] == "side.png"@);
    assert(resources.device_image is Some ==> names[3] == resources.device_image->0@);
    if resources.device_buttons_image is Some && !named_and_present(
        resources.device_buttons_image,
        inside@,
    ) {
        assert(!lists(inside@, names[0]));
    }
}

/// The picture of the card is the front view that the manifest names where it is
/// there, and else the usual one; the side view likewise.
pub proof fn cards_show_the_front(
    resources: &DepotResources,
    existing: &Vec<String>,
    inside: &Vec<String>,
    renders: DepotRenders,
)
    requires
        call_ensures(resolve_depot_renders, (resources, existing, inside), Some(renders)),
    ensures
        renders.hero_image matches Some(name) ==> lists(inside@, name@),
        named_and_present(resources.device_image, inside@) ==> (renders.hero_image matches Some(
            name,
        ) && name@ == resources.device_image->0@),
        resources.device_image is None && named_and_present(resources.device_camera_image, inside@)
            ==> (renders.hero_image matches Some(name) && name@
            == resources.device_camera_image->0@),
        resources.device_image is None && resources.device_camera_image is None ==> {
            &&& lists(inside@, "front_core.png"@) ==> (renders.hero_image matches Some(name)
                && name@ == "front_core.png"@)
            &&& !lists(inside@, "front_core.png"@) && lists(inside@, "front.png"@) ==> (
            renders.hero_image matches Some(name) && name@ == "front.png"@)
            &&& !lists(inside@, "front_core.png"@) && !lists(inside@, "front.png"@)
                ==> renders.hero_image is None
        },
        renders.side_image matches Some(name) ==> lists(inside@, name@),
        named_and_present(resources.device_side, inside@) ==> (renders.side_image matches Some(
            name,
        ) && name@ == resources.device_side->0@),
        resources.device_side is None ==> {
            &&& lists(inside@, "side_spectrum.png"@) ==> (renders.side_image matches Some(name)
                && name@ == "side_spectrum.png"@)
            &&& renders.side_image is None ==> !lists(inside@, "side_core.png"@) && !lists(
                inside@,
                "side.png"@,
            )
        },
{
    let heroes = crate::services::assets::images::hero_candidates(*resources);
    let sides = crate::services::assets::images::side_candidates(*resources);
    the_first_present_is_present(heroes, inside@);
    the_first_present_is_present(sides, inside@);
    let front = crate::services::assets::images::variant_front(*resources);
    assert(front is Some ==> heroes[0] == front->0@);
    assert(front is None ==> heroes.len() == 2 && heroes[0] == "front_core.png"@ && heroes[1]
        == "front.png"@);
    assert(resources.device_side is Some ==> sides[0] == resources.device_side->0@);
    assert(resources.device_side is None ==> sides.len() == 3 && sides[0] == "side_spectrum.png"@
        && sides[1] == "side_core.png"@ && sides[2] == "side.png"@);
}

/// A depot can be shown from exactly where it holds metadata, the manifest's or
/// a usual one, and a picture.
pub proof fn metadata_and_a_picture_suffice(
    resources: &DepotResources,
    existing: &Vec<String>,
    inside: &Vec<String>,
    renders: Option<DepotRenders>,
)
    requires
        call_ensures(resolve_depot_renders, (resources, existing, inside), renders),
    ensures
        renders is Some <==> (named_and_present(resources.image_metadata, existing@) || lists(
            existing@,
            "core_metadata.json"@,
        ) || lists(existing@, "metadata.json"@) || lists(existing@, "metadata_full.json"@)) && (
        named_and_present(resources.device_buttons_image, inside@) || named_and_present(
            resources.device_image,
            inside@,
        ) || resources.device_image is None && named_and_present(
            resources.device_camera_image,
            inside@,
        ) || lists(inside@, "side_core.png"@) || lists(inside@, "side.png"@) || lists(
            inside@,
            "front_core.png"@,
        ) || lists(inside@, "front.png"@)),
{
    let metas = crate::services::assets::images::metadata_candidates(*resources);
    let images = crate::services::assets::images::image_candidates(*resources);
    the_first_present_is_present(metas, existing@);
    the_first_present_is_present(images, inside@);
    let meta: int = if resources.image_metadata is Some {
        1
    } else {
        0
    };
    assert(metas.len() == 3 + meta);
    assert(metas[meta] == "core_metadata.json"@);
    assert(metas[meta + 1] == "metadata.json"@);
    assert(metas[meta + 2] == "metadata_full.json"@);
    assert(meta == 1 ==> metas[0] == resources.image_metadata->0@);
    let front = crate::services::assets::images::variant_front(*resources);
    let extra: int = if front is Some {
        1
    } else {
        0
    };
    assert(images.len() == 5 + extra);
    assert(images[0] == crate::services::assets::images::preferred_image(*resources));
    assert(images[1] == "side_core.png"@);
    assert(images[2] == "side.png"@);
    assert(extra == 1 ==> images[3] == front->0@);
    assert(images[3 + extra] == "front_core.png"@);
    assert(images[4 + extra] == "front.png"@);
}

/// Bytes of a PNG's header with this size, and whatever after them, are read as
/// that size: sixteen bytes in stands the width and then the height, each with
/// its most significant byte first.
pub proof fn a_header_gives_its_size(
    bytes: &Vec<u8>,
    size: Result<(u32, u32), PngError>,
    width: u32,
    height: u32,
)
    requires
        call_ensures(read_png_dimensions, (bytes,), size),
        bytes@.len() >= 24,
        bytes@.subrange(0, 8) == seq![0x89u8, 0x50, 0x4e, 0x47, 0x0d, 0x0a, 0x1a, 0x0a],
        bytes@.subrange(12, 16) == seq![0x49u8, 0x48, 0x44, 0x52],
        width == bytes@[16] * 0x100_0000 + bytes@[17] * 0x1_0000 + bytes@[18] * 0x100 + bytes@[19],
        height == bytes@[20] * 0x100_0000 + bytes@[21] * 0x1_0000 + bytes@[22] * 0x100 + bytes@[23],
    ensures
        size == Ok::<(u32, u32), PngError>((width, height)),
{
    assert(bytes@.subrange(0, 8) =~= crate::services::assets::images::png_signature());
    assert(bytes@.subrange(12, 16) =~= crate::services::assets::images::header_tag());
}

/// Too few bytes, a wrong start and a wrong first chunk are told apart, in this
/// order, and nothing but a header is read as a size.
pub proof fn other_bytes_give_no_size(bytes: &Vec<u8>, size: Result<(u32, u32), PngError>)
    requires
        call_ensures(read_png_dimensions, (bytes,), size),
    ensures
        size == Err::<(u32, u32), PngError>(PngError::UnexpectedEnd) <==> bytes@.len() < 24,
        size == Err::<(u32, u32), PngError>(PngError::MissingSignature) <==> bytes@.len() >= 24
            && bytes@.subrange(0, 8) != seq![0x89u8, 0x50, 0x4e, 0x47, 0x0d, 0x0a, 0x1a, 0x0a],
        size is Ok ==> bytes@.subrange(12, 16) == seq![0x49u8, 0x48, 0x44, 0x52],
{
}

proof fn the_first_named_file_counts(files: Seq<PictureFile>, name: Seq<char>, from: int)
    requires
        0 <= from <= files.len(),
    ensures
        match picture_size(files, name, from) {
            Some(size) => exists|k: int|
                from <= k < files.len() && (#[trigger] files[k]).name@ == name && files[k].size
                    == Some(size),
            None => forall|k: int|
                from <= k < files.len() && (#[trigger] files[k]).name@ == name ==> files[k].size
                    is None || exists|j: int|
                    from <= j < k && (#[trigger] files[j]).name@ == name,
        },
    decreases files.len() - from,
{
    if from < files.len() {
        the_first_named_file_counts(files, name, from + 1);
    }
}

proof fn the_first_tier_that_shows(tiers: Seq<StandaloneOnDisk>, entry: DeviceEntry, from: int)
    requires
        0 <= from <= tiers.len(),
    ensures
        match first_standalone(tiers, entry, from) {
            Some(at) => from <= at < tiers.len()
                && crate::services::assets::load::standalone_shown(tiers[at], entry) is Some
                && forall|i: int|
                from <= i < at ==> crate::services::assets::load::standalone_shown(
                    #[trigger] tiers[i],
                    entry,
                ) is None,
            None => forall|i: int|
                from <= i < tiers.len() ==> crate::services::assets::load::standalone_shown(
                    #[trigger] tiers[i],
                    entry,
                ) is None,
        },
    decreases tiers.len() - from,
{
    if from < tiers.len() {
        the_first_tier_that_shows(tiers, entry, from + 1);
    }
}

/// Whether a tier holds a picture of this name and size, of which only the first
/// file of the name counts.
pub open spec fn holds_picture(
    tier: StandaloneOnDisk,
    k: int,
    name: Seq<char>,
    size: (u32, u32),
) -> bool {
    &&& 0 <= k < tier.files@.len()
    &&& tier.files@[k].name@ == name
    &&& tier.files@[k].size == Some(size)
    &&& forall|j: int| 0 <= j < k ==> (#[trigger] tier.files@[j]).name@ != name
}

/// The art of a standalone device is one picture: it stands in the directory of
/// a tier whose name does not lead out of it, and it is the one that the
/// manifest names, or a front view that the registry lists.
pub proof fn standalone_art_is_one_picture(
    depot: &str,
    entry: &DeviceEntry,
    kind: Option<DeviceKind>,
    tiers: &Vec<StandaloneOnDisk>,
    art: ResolvedAsset,
)
    requires
        call_ensures(load_standalone_files, (depot, entry, kind, tiers), Some(art)),
    ensures
        art.depot@ == depot@,
        art.display_name@ == entry.display_name@,
        art.kind == kind,
        art.hero_image_path matches Some(path) && path@ == art.image_path@,
        art.side_image_path is None,
        art.glow is None,
        art.metadata.images@.len() == 0,
        exists|i: int, k: int|
            #![trigger tiers@[i].files@[k]]
            0 <= i < tiers@.len() && tiers@[i].safe && 0 <= k < tiers@[i].files@.len()
                && art.image_path@ == tiers@[i].dir@ + tiers@[i].files@[k].name@
                && tiers@[i].files@[k].size == Some((art.png_width, art.png_height)) && match (
                tiers@[i].manifest_image) {
                Some(name) => tiers@[i].files@[k].name@ == name@,
                None => lists(entry.files@, tiers@[i].files@[k].name@) && (
                tiers@[i].files@[k].name@ == "front_core.png"@ || tiers@[i].files@[k].name@
                    == "front.png"@),
            },
{
    the_first_tier_that_shows(tiers@, *entry, 0);
    let at = first_standalone(tiers@, *entry, 0)->0;
    let tier = tiers@[at];
    let (name, size) = crate::services::assets::load::standalone_shown(tier, *entry)->0;
    the_first_named_file_counts(tier.files@, name, 0);
    let k = choose|k: int|
        0 <= k < tier.files@.len() && (#[trigger] tier.files@[k]).name@ == name
            && tier.files@[k].size == Some(size);
    let fronts = crate::services::assets::images::front_render_files();
    the_first_present_is_present(fronts, entry.files@);
    assert(tiers@[at].files@[k].name@ == name);
}

/// A standalone device is shown from the first tier that holds the picture that
/// its manifest names.
pub proof fn a_named_picture_is_shown(
    depot: &str,
    entry: &DeviceEntry,
    kind: Option<DeviceKind>,
    tiers: &Vec<StandaloneOnDisk>,
    asset: Option<ResolvedAsset>,
    i: int,
    k: int,
    size: (u32, u32),
)
    requires
        call_ensures(load_standalone_files, (depot, entry, kind, tiers), asset),
        0 <= i < tiers@.len(),
        tiers@[i].safe,
        tiers@[i].manifest_image is Some,
        holds_picture(tiers@[i], k, tiers@[i].manifest_image->0@, size),
        forall|j: int| 0 <= j < i ==> !(#[trigger] tiers@[j]).safe,
    ensures
        asset matches Some(art) && art.image_path@ == tiers@[i].dir@ + tiers@[i].manifest_image->0@
            && (art.png_width, art.png_height) == size,
{
    the_first_tier_that_shows(tiers@, *entry, 0);
    let name = tiers@[i].manifest_image->0@;
    holding_is_showing(tiers@[i].files@, name, k, size, 0);
    assert(crate::services::assets::load::standalone_shown(tiers@[i], *entry) == Some((name, size)));
    if let Some(at) = first_standalone(tiers@, *entry, 0) {
        if at < i {
            assert(!tiers@[at].safe);
        }
    }
}

proof fn holding_is_showing(
    files: Seq<PictureFile>,
    name: Seq<char>,
    k: int,
    size: (u32, u32),
    from: int,
)
    requires
        0 <= from <= k < files.len(),
        files[k].name@ == name,
        files[k].size == Some(size),
        forall|j: int| 0 <= j < k ==> (#[trigger] files[j]).name@ != name,
    ensures
        picture_size(files, name, from) == Some(size),
    decreases k - from,
{
    if from < k {
        holding_is_showing(files, name, k, size, from + 1);
    }
}

/// Without a manifest's picture, the front view that the registry lists is shown
/// where the tier holds it, `front_core.png` before `front.png`.
pub proof fn a_listed_front_is_shown(
    depot: &str,
    entry: &DeviceEntry,
    kind: Option<DeviceKind>,
    tiers: &Vec<StandaloneOnDisk>,
    asset: Option<ResolvedAsset>,
    k: int,
    size: (u32, u32),
)
    requires
        call_ensures(load_standalone_files, (depot, entry, kind, tiers), asset),
        tiers@.len() > 0,
        tiers@[0].safe,
        tiers@[0].manifest_image is None,
        lists(entry.files@, "front_core.png"@) && holds_picture(
            tiers@[0],
            k,
            "front_core.png"@,
            size,
        ) || !lists(entry.files@, "front_core.png"@) && lists(entry.files@, "front.png"@)
            && holds_picture(tiers@[0], k, "front.png"@, size),
    ensures
        asset matches Some(art) && art.image_path@ == tiers@[0].dir@ + tiers@[0].files@[k].name@
            && (art.png_width, art.png_height) == size,
{
    the_first_tier_that_shows(tiers@, *entry, 0);
    let fronts = crate::services::assets::images::front_render_files();
    the_first_present_is_present(fronts, entry.files@);
    assert(fronts[0] == "front_core.png"@ && fronts[1] == "front.png"@);
    let name = tiers@[0].files@[k].name@;
    holding_is_showing(tiers@[0].files@, name, k, size, 0);
    assert(crate::services::assets::load::standalone_shown(tiers@[0], *entry) == Some((name, size)));
}

/// Art of a standalone model is that of the first entry of the registry that
/// lists its id, whatever the case, and of no other.
pub proof fn a_standalone_model_goes_by_its_id(
    resolver: &AssetResolver,
    index: Index,
    id: &str,
    kind: Option<DeviceKind>,
    tiers: &Vec<StandaloneOnDisk>,
    art: ResolvedAsset,
)
    requires
        resolver.index == Some(index),
        call_ensures(AssetResolver::resolve_registry_model, (resolver, id, kind, tiers), Some(art)),
    ensures
        exists|at: int, own: String|
            #![trigger id_of(index.devices.in_order()[at].1, own)]
            0 <= at < index.devices.in_order().len() && id_of(index.devices.in_order()[at].1, own)
                && ascii_lowered(own@) == ascii_lowered(id@) && art.depot@
                == index.devices.in_order()[at].0@ && art.display_name@
                == index.devices.in_order()[at].1.display_name@,
{
    let at = choose|at: int| #[trigger]
        crate::services::assets::first_with_model_id(index, id@, at)
            && crate::services::assets::loads_standalone(art, index, at, kind, tiers@);
    let entry = index.devices.in_order()[at].1;
    if ascii_lowered(entry.model_id@) == ascii_lowered(id@) {
        assert(id_of(index.devices.in_order()[at].1, entry.model_id));
    } else {
        let k = choose|k: int|
            0 <= k < entry.model_ids@.len() && ascii_lowered((#[trigger] entry.model_ids@[k])@)
                == ascii_lowered(id@);
        assert(id_of(index.devices.in_order()[at].1, entry.model_ids@[k]));
    }
}

} // verus!
