//! Device asset resolution and cache housekeeping.

pub mod images;
pub mod laws;
pub mod load;
pub mod metadata;
pub mod sync;

use crate::device::{DeviceKind, DeviceModelInfo};
use crate::services::assets::load::{
    first_standalone, first_usable, load_files, load_standalone_files, loaded_from,
    standalone_from, DepotOnDisk, StandaloneOnDisk,
};
use crate::services::assets::metadata::ResolvedAsset;
use crate::table::{key_at, Table};
use crate::text::{
    ascii_lowered, ends_with, ends_with_ignoring_case, hex, optional_view, push_hex,
    same_ignoring_case, same_text, starts_with,
};
use vstd::prelude::*;

verus! {

/// Whether a cached file is an overlay of the kind that used to be rendered
/// ahead: `glow-<color>.png`, or what an interrupted write left of one.
pub open spec fn is_legacy_glow(name: Seq<char>) -> bool {
    "glow-"@.is_prefix_of(name) && (".png"@.is_suffix_of(name) || ".png.tmp"@.is_suffix_of(name))
}

/// The legacy overlays among `names`, in order.
pub open spec fn legacy_glows(names: Seq<String>) -> Seq<String> {
    names.filter(|name: String| is_legacy_glow(name@))
}

/// Which of a depot's cached files are legacy overlays that can be deleted: the
/// glow is painted live now.
pub fn cleanup_legacy_glow_pngs(names: &Vec<String>) -> (doomed: Vec<String>)
    ensures
        doomed@ == legacy_glows(names@),
{
    let mut doomed: Vec<String> = Vec::new();
    let mut i: usize = 0;
    assert(names@.take(0) =~= seq![]);
    assert(legacy_glows(seq![]) =~= seq![]) by {
        reveal(Seq::filter);
    }
    while i < names.len()
        invariant
            i <= names@.len(),
            doomed@ == legacy_glows(names@.take(i as int)),
        decreases names@.len() - i,
    {
        let name = names[i].as_str();
        proof {
            let longer = names@.take(i + 1);
            assert(longer.drop_last() =~= names@.take(i as int));
            assert(longer.last() == names@[i as int]);
            reveal(Seq::filter);
        }
        if starts_with(name, "glow-") && (ends_with(name, ".png") || ends_with(name, ".png.tmp")) {
            doomed.push(names[i].clone());
        }
        i += 1;
    }
    assert(names@.take(names@.len() as int) =~= names@);
    doomed
}

/// One entry of the cache directory, at any depth. The size is missing where it
/// could not be read.
#[derive(Debug, Clone, Copy, PartialEq, Eq, Structural)]
pub struct CacheEntry {
    pub is_file: bool,
    pub bytes: Option<u64>,
}

/// How many bytes an entry counts for: a directory for none, and neither a file
/// whose size could not be read.
pub open spec fn counted(entry: CacheEntry) -> int {
    match entry.bytes {
        Some(bytes) => if entry.is_file {
            bytes as int
        } else {
            0
        },
        None => 0,
    }
}

/// The size of the first `upto` entries.
pub open spec fn cache_size(entries: Seq<CacheEntry>, upto: int) -> int
    decreases upto,
{
    if upto <= 0 {
        0
    } else {
        cache_size(entries, upto - 1) + counted(entries[upto - 1])
    }
}

proof fn parts_are_smaller(entries: Seq<CacheEntry>, upto: int, whole: int)
    requires
        0 <= upto <= whole,
    ensures
        0 <= cache_size(entries, upto) <= cache_size(entries, whole),
    decreases whole,
{
    if upto < whole {
        parts_are_smaller(entries, upto, whole - 1);
    } else if upto > 0 {
        parts_are_smaller(entries, upto - 1, upto - 1);
    }
}

/// The size of the user's cache. The bundle is not counted.
pub fn cache_size_bytes(entries: &Vec<CacheEntry>) -> (bytes: u64)
    requires
        cache_size(entries@, entries@.len() as int) <= u64::MAX,
    ensures
        bytes == cache_size(entries@, entries@.len() as int),
{
    let mut total: u64 = 0;
    let mut i: usize = 0;
    while i < entries.len()
        invariant
            i <= entries@.len(),
            cache_size(entries@, entries@.len() as int) <= u64::MAX,
            total == cache_size(entries@, i as int),
        decreases entries@.len() - i,
    {
        proof {
            parts_are_smaller(entries@, i + 1, entries@.len() as int);
        }
        if entries[i].is_file {
            if let Some(bytes) = entries[i].bytes {
                total = total + bytes;
            }
        }
        i += 1;
    }
    total
}

/// How deleting the cache directory went.
#[derive(Debug, Clone, Copy, PartialEq, Eq, Structural)]
pub enum CacheRemoval {
    Removed,
    /// There was no such directory.
    Missing,
    Failed,
}

/// Whether the cache is clear after deleting it: a missing one is.
pub fn clear_cache(removal: CacheRemoval) -> (clear: bool)
    ensures
        clear == (removal != CacheRemoval::Failed),
{
    match removal {
        CacheRemoval::Removed => true,
        CacheRemoval::Missing => true,
        CacheRemoval::Failed => false,
    }
}

/// What the registry says of one model.
#[derive(Debug)]
pub struct DeviceEntry {
    /// The model's first id.
    pub model_id: String,
    /// All ids of the model, in newer registries.
    pub model_ids: Vec<String>,
    pub display_name: String,
    /// The registry's word for the kind of device.
    pub kind: String,
    pub asset_path: String,
    /// The files that the registry lists.
    pub files: Vec<String>,
}

/// The registry: what each depot holds, by the depot's name.
#[derive(Debug)]
pub struct Index {
    pub devices: Table<DeviceEntry>,
}

/// Whether one of the entry's ids is `id`, but for case.
pub open spec fn has_model_id(entry: DeviceEntry, id: Seq<char>) -> bool {
    ||| ascii_lowered(entry.model_id@) == ascii_lowered(id)
    ||| exists|i: int|
        0 <= i < entry.model_ids@.len() && ascii_lowered((#[trigger] entry.model_ids@[i])@)
            == ascii_lowered(id)
}

/// Whether one of the entry's ids ends with `suffix`, but for case.
pub open spec fn has_model_id_suffix(entry: DeviceEntry, suffix: Seq<char>) -> bool {
    ||| ascii_lowered(suffix).is_suffix_of(ascii_lowered(entry.model_id@))
    ||| exists|i: int|
        0 <= i < entry.model_ids@.len() && ascii_lowered(suffix).is_suffix_of(
            ascii_lowered((#[trigger] entry.model_ids@[i])@),
        )
}

/// Whether the entry's name is `name`, but for case.
pub open spec fn has_display_name(entry: DeviceEntry, name: Seq<char>) -> bool {
    ascii_lowered(entry.display_name@) == ascii_lowered(name)
}

/// How an entry of the index is looked for.
pub enum Lookup {
    ModelId(String),
    ModelIdSuffix(String),
    DisplayName(String),
}

/// Whether an entry is what is looked for.
pub open spec fn is_match(entry: DeviceEntry, lookup: Lookup) -> bool {
    match lookup {
        Lookup::ModelId(id) => has_model_id(entry, id@),
        Lookup::ModelIdSuffix(suffix) => has_model_id_suffix(entry, suffix@),
        Lookup::DisplayName(name) => has_display_name(entry, name@),
    }
}

impl DeviceEntry {
    fn matches_id(&self, id: &str, suffix: bool) -> (found: bool)
        ensures
            found == if suffix {
                has_model_id_suffix(*self, id@)
            } else {
                has_model_id(*self, id@)
            },
    {
        if suffix {
            if ends_with_ignoring_case(self.model_id.as_str(), id) {
                return true;
            }
        } else if same_ignoring_case(self.model_id.as_str(), id) {
            return true;
        }
        let mut i: usize = 0;
        while i < self.model_ids.len()
            invariant
                i <= self.model_ids@.len(),
                suffix ==> !ascii_lowered(id@).is_suffix_of(ascii_lowered(self.model_id@)),
                !suffix ==> ascii_lowered(self.model_id@) != ascii_lowered(id@),
                forall|j: int|
                    0 <= j < i && suffix ==> !ascii_lowered(id@).is_suffix_of(
                        ascii_lowered((#[trigger] self.model_ids@[j])@),
                    ),
                forall|j: int|
                    0 <= j < i && !suffix ==> ascii_lowered((#[trigger] self.model_ids@[j])@)
                        != ascii_lowered(id@),
            decreases self.model_ids@.len() - i,
        {
            let candidate = self.model_ids[i].as_str();
            if suffix {
                if ends_with_ignoring_case(candidate, id) {
                    return true;
                }
            } else if same_ignoring_case(candidate, id) {
                return true;
            }
            i += 1;
        }
        false
    }

    /// Whether the entry is what is looked for.
    pub fn matches(&self, lookup: &Lookup) -> (found: bool)
        ensures
            found == is_match(*self, *lookup),
    {
        match lookup {
            Lookup::ModelId(id) => self.matches_id(id.as_str(), false),
            Lookup::ModelIdSuffix(suffix) => self.matches_id(suffix.as_str(), true),
            Lookup::DisplayName(name) => same_ignoring_case(
                self.display_name.as_str(),
                name.as_str(),
            ),
        }
    }
}

/// Whether position `at` of the index, in the order of depot names, is the
/// first one that holds what is looked for.
pub open spec fn first_match(index: Index, lookup: Lookup, at: int) -> bool {
    &&& 0 <= at < index.devices.in_order().len()
    &&& is_match(index.devices.in_order()[at].1, lookup)
    &&& forall|i: int|
        0 <= i < at ==> !is_match((#[trigger] index.devices.in_order()[i]).1, lookup)
}

/// Whether no entry of the index is what is looked for.
pub open spec fn no_match(index: Index, lookup: Lookup) -> bool {
    forall|i: int|
        0 <= i < index.devices.in_order().len() ==> !is_match(
            (#[trigger] index.devices.in_order()[i]).1,
            lookup,
        )
}

impl Index {
    /// The first entry, in the order of depot names, that is looked for.
    pub fn find(&self, lookup: &Lookup) -> (found: Option<usize>)
        ensures
            match found {
                Some(at) => first_match(*self, *lookup, at as int),
                None => no_match(*self, *lookup),
            },
    {
        let length: usize = self.devices.len();
        let mut i: usize = 0;
        while i < length
            invariant
                i <= length,
                length == self.devices.in_order().len(),
                forall|j: int|
                    0 <= j < i ==> !is_match((#[trigger] self.devices.in_order()[j]).1, *lookup),
            decreases length - i,
        {
            let (_, entry) = self.devices.entry(i);
            if entry.matches(lookup) {
                return Some(i);
            }
            i += 1;
        }
        None
    }

    /// The entry of a depot, by its name.
    pub fn find_depot(&self, depot: &str) -> (found: Option<usize>)
        ensures
            match found {
                Some(at) => key_at(self.devices.in_order(), depot@, at as int)
                    && self.devices@.contains_key(depot@),
                None => !self.devices@.contains_key(depot@) && forall|at: int|
                    !#[trigger] key_at(self.devices.in_order(), depot@, at),
            },
    {
        let length: usize = self.devices.len();
        let mut i: usize = 0;
        while i < length
            invariant
                i <= length,
                length == self.devices.in_order().len(),
                forall|j: int|
                    0 <= j < i ==> (#[trigger] self.devices.in_order()[j]).0@ != depot@,
            decreases length - i,
        {
            let (name, _) = self.devices.entry(i);
            if same_text(name, depot) {
                return Some(i);
            }
            i += 1;
        }
        proof {
            assert forall|at: int| !#[trigger] key_at(self.devices.in_order(), depot@, at) by {
                if key_at(self.devices.in_order(), depot@, at) {
                    assert(self.devices.in_order()[at].0@ == depot@);
                }
            }
        }
        None
    }
}

/// The id of a model on one of its transports, as the registry writes it.
pub open spec fn strict_id(model: DeviceModelInfo, id: u16) -> Seq<char> {
    hex(model.extended_model_id as nat, 0) + hex(id as nat, 4)
}

/// The depot that holds a later revision's art, whose own ids its registry
/// entry lacks.
pub open spec fn shared_depot(id: u16) -> Option<Seq<char>> {
    if id == 0xc332 || id == 0xc08b {
        Some("g502_core"@)
    } else {
        None
    }
}

/// The depot that holds a later revision's art.
pub fn shared_depot_for_pid(id: u16) -> (depot: Option<&'static str>)
    ensures
        optional_view(depot) == shared_depot(id),
{
    if id == 0xc332 || id == 0xc08b {
        Some("g502_core")
    } else {
        None
    }
}

/// Whether a model's `id` leads to position `at` of the index by its full
/// registry id.
pub open spec fn strict_hit(index: Index, model: DeviceModelInfo, id: u16, at: int) -> bool {
    id != 0 && first_with_model_id(index, strict_id(model, id), at)
}

/// Whether `lookup` is for the model id `id`.
pub open spec fn looks_for_id(lookup: Lookup, id: Seq<char>) -> bool {
    lookup matches Lookup::ModelId(text) && text@ == id
}

/// Whether `lookup` is for a model id that ends with `suffix`.
pub open spec fn looks_for_suffix(lookup: Lookup, suffix: Seq<char>) -> bool {
    lookup matches Lookup::ModelIdSuffix(text) && text@ == suffix
}

/// Whether `lookup` is for the name `name`.
pub open spec fn looks_for_name(lookup: Lookup, name: Seq<char>) -> bool {
    lookup matches Lookup::DisplayName(text) && text@ == name
}

/// Whether a model's `id` leads to position `at` of the index by its bare
/// product id.
pub open spec fn suffix_hit(index: Index, id: u16, at: int) -> bool {
    id != 0 && first_with_suffix(index, hex(id as nat, 4), at)
}

/// Whether a model's `id` leads to position `at` of the index through a depot
/// that it shares.
pub open spec fn shared_hit(index: Index, id: u16, at: int) -> bool {
    id != 0 && (shared_depot(id) matches Some(depot) && key_at(
        index.devices.in_order(),
        depot,
        at,
    ))
}

/// Whether the device's name leads to position `at` of the index.
pub open spec fn name_hit(index: Index, name: Seq<char>, at: int) -> bool {
    first_with_name(index, name, at)
}

/// By what a model's id is looked for.
pub enum IdSearch {
    /// The full registry id.
    Strict,
    /// The product id alone.
    Suffix,
    /// A depot that a later revision shares.
    Shared,
}

/// Whether a model's `id` leads to position `at` of the index.
pub open spec fn id_hit(
    index: Index,
    model: DeviceModelInfo,
    search: IdSearch,
    id: u16,
    at: int,
) -> bool {
    match search {
        IdSearch::Strict => strict_hit(index, model, id, at),
        IdSearch::Suffix => suffix_hit(index, id, at),
        IdSearch::Shared => shared_hit(index, id, at),
    }
}

/// Whether a model's `id` leads nowhere.
pub open spec fn id_misses(
    index: Index,
    model: DeviceModelInfo,
    search: IdSearch,
    id: u16,
) -> bool {
    forall|at: int| !#[trigger] id_hit(index, model, search, id, at)
}

/// Whether a name leads nowhere in the index.
pub open spec fn name_misses(index: Index, name: Seq<char>) -> bool {
    forall|at: int| !#[trigger] name_hit(index, name, at)
}

/// Whether the first of the model's three ids that leads anywhere leads to
/// position `at`.
pub open spec fn first_id_hit(
    index: Index,
    model: DeviceModelInfo,
    search: IdSearch,
    at: int,
) -> bool {
    ||| id_hit(index, model, search, model.model_id_1, at)
    ||| id_misses(index, model, search, model.model_id_1) && id_hit(
        index,
        model,
        search,
        model.model_id_2,
        at,
    )
    ||| id_misses(index, model, search, model.model_id_1) && id_misses(
        index,
        model,
        search,
        model.model_id_2,
    ) && id_hit(index, model, search, model.model_id_3, at)
}

/// Whether none of the model's three ids leads anywhere.
pub open spec fn no_id_hit(index: Index, model: DeviceModelInfo, search: IdSearch) -> bool {
    &&& id_misses(index, model, search, model.model_id_1)
    &&& id_misses(index, model, search, model.model_id_2)
    &&& id_misses(index, model, search, model.model_id_3)
}

/// Whether position `at` of the index is the right one for a model. A depot
/// that the environment forces wins if the index has it. Otherwise it is the
/// first to be found by full id, by product id alone, by a depot shared with
/// an earlier revision, and at last by the name that the firmware gives.
pub open spec fn resolves_to(
    index: Index,
    model: DeviceModelInfo,
    codename: Option<Seq<char>>,
    forced: Option<Seq<char>>,
    at: int,
) -> bool {
    if forced matches Some(depot) && index.devices@.contains_key(depot) {
        key_at(index.devices.in_order(), forced->0, at)
    } else if !no_id_hit(index, model, IdSearch::Strict) {
        first_id_hit(index, model, IdSearch::Strict, at)
    } else if !no_id_hit(index, model, IdSearch::Suffix) {
        first_id_hit(index, model, IdSearch::Suffix, at)
    } else if !no_id_hit(index, model, IdSearch::Shared) {
        first_id_hit(index, model, IdSearch::Shared, at)
    } else {
        codename matches Some(name) && name_hit(index, name, at)
    }
}

/// Whether nothing in the index is right for a model.
pub open spec fn resolves_to_nothing(
    index: Index,
    model: DeviceModelInfo,
    codename: Option<Seq<char>>,
    forced: Option<Seq<char>>,
) -> bool {
    &&& !(forced matches Some(depot) && index.devices@.contains_key(depot))
    &&& no_id_hit(index, model, IdSearch::Strict)
    &&& no_id_hit(index, model, IdSearch::Suffix)
    &&& no_id_hit(index, model, IdSearch::Shared)
    &&& match codename {
        Some(name) => name_misses(index, name),
        None => true,
    }
}

/// Lookups of one kind for the same text are for the same entries.
pub proof fn same_lookups(a: Lookup, b: Lookup)
    requires
        match (a, b) {
            (Lookup::ModelId(a), Lookup::ModelId(b)) => a@ == b@,
            (Lookup::ModelIdSuffix(a), Lookup::ModelIdSuffix(b)) => a@ == b@,
            (Lookup::DisplayName(a), Lookup::DisplayName(b)) => a@ == b@,
            _ => false,
        },
    ensures
        forall|entry: DeviceEntry| #[trigger] is_match(entry, a) == is_match(entry, b),
{
}

proof fn is_found_as(index: Index, lookup: Lookup, found: Option<usize>, text: Seq<char>)
    requires
        looks_for_id(lookup, text) || looks_for_suffix(lookup, text) || looks_for_name(
            lookup,
            text,
        ),
        match found {
            Some(at) => first_match(index, lookup, at as int),
            None => no_match(index, lookup),
        },
    ensures
        looks_for_id(lookup, text) && found is Some ==> first_with_model_id(
            index,
            text,
            found->0 as int,
        ),
        looks_for_id(lookup, text) && found is None ==> forall|at: int|
            !#[trigger] first_with_model_id(index, text, at),
        looks_for_suffix(lookup, text) && found is Some ==> first_with_suffix(
            index,
            text,
            found->0 as int,
        ),
        looks_for_suffix(lookup, text) && found is None ==> forall|at: int|
            !#[trigger] first_with_suffix(index, text, at),
        looks_for_name(lookup, text) && found is Some ==> first_with_name(
            index,
            text,
            found->0 as int,
        ),
        looks_for_name(lookup, text) && found is None ==> forall|at: int|
            !#[trigger] first_with_name(index, text, at),
{
    let devices = index.devices.in_order();
    assert forall|i: int| 0 <= i < devices.len() implies is_match((#[trigger] devices[i]).1, lookup)
        == match lookup {
        Lookup::ModelId(_) => has_model_id(devices[i].1, text),
        Lookup::ModelIdSuffix(_) => has_model_id_suffix(devices[i].1, text),
        Lookup::DisplayName(_) => has_display_name(devices[i].1, text),
    } by {}
}

fn find_by_id(
    index: &Index,
    model: &DeviceModelInfo,
    search: &IdSearch,
    id: u16,
) -> (found: Option<usize>)
    ensures
        match found {
            Some(at) => id_hit(*index, *model, *search, id, at as int) && at
                < index.devices.in_order().len(),
            None => id_misses(*index, *model, *search, id),
        },
{
    if id == 0 {
        return None;
    }
    match search {
        IdSearch::Strict => {
            let mut text = String::new();
            push_hex(&mut text, model.extended_model_id as u64, 0);
            push_hex(&mut text, id as u64, 4);
            assert(text@ =~= strict_id(*model, id));
            let lookup = Lookup::ModelId(text);
            assert(looks_for_id(lookup, strict_id(*model, id)));
            let found = index.find(&lookup);
            proof {
                is_found_as(*index, lookup, found, strict_id(*model, id));
            }
            found
        },
        IdSearch::Suffix => {
            let mut text = String::new();
            push_hex(&mut text, id as u64, 4);
            assert(text@ =~= hex(id as nat, 4));
            let lookup = Lookup::ModelIdSuffix(text);
            assert(looks_for_suffix(lookup, hex(id as nat, 4)));
            let found = index.find(&lookup);
            proof {
                is_found_as(*index, lookup, found, hex(id as nat, 4));
            }
            found
        },
        IdSearch::Shared => match shared_depot_for_pid(id) {
            Some(depot) => index.find_depot(depot),
            None => None,
        },
    }
}

fn find_by_ids(
    index: &Index,
    model: &DeviceModelInfo,
    search: &IdSearch,
) -> (found: Option<usize>)
    ensures
        match found {
            Some(at) => {
                &&& first_id_hit(*index, *model, *search, at as int)
                &&& !no_id_hit(*index, *model, *search)
                &&& at < index.devices.in_order().len()
            },
            None => no_id_hit(*index, *model, *search),
        },
{
    if let Some(at) = find_by_id(index, model, search, model.model_id_1) {
        return Some(at);
    }
    if let Some(at) = find_by_id(index, model, search, model.model_id_2) {
        return Some(at);
    }
    find_by_id(index, model, search, model.model_id_3)
}

fn find_name(index: &Index, name: &str) -> (found: Option<usize>)
    ensures
        match found {
            Some(at) => name_hit(*index, name@, at as int) && at < index.devices.in_order().len(),
            None => name_misses(*index, name@),
        },
{
    let lookup = Lookup::DisplayName(name.to_owned());
    assert(looks_for_name(lookup, name@));
    let found = index.find(&lookup);
    proof {
        is_found_as(*index, lookup, found, name@);
    }
    found
}

/// Finds the entry of the index for a model, by what its firmware says and the
/// name that it gives, unless the environment forces a depot. Returns its
/// position in the order of depot names.
pub fn resolve_in_index(
    index: &Index,
    model: &DeviceModelInfo,
    codename: Option<&str>,
    forced: Option<&str>,
) -> (found: Option<usize>)
    ensures
        match found {
            Some(at) => {
                &&& at < index.devices.in_order().len()
                &&& resolves_to(
                    *index,
                    *model,
                    optional_view(codename),
                    optional_view(forced),
                    at as int,
                )
            },
            None => resolves_to_nothing(
                *index,
                *model,
                optional_view(codename),
                optional_view(forced),
            ),
        },
{
    if let Some(depot) = forced {
        if let Some(at) = index.find_depot(depot) {
            return Some(at);
        }
    }
    if let Some(at) = find_by_ids(index, model, &IdSearch::Strict) {
        return Some(at);
    }
    if let Some(at) = find_by_ids(index, model, &IdSearch::Suffix) {
        return Some(at);
    }
    if let Some(at) = find_by_ids(index, model, &IdSearch::Shared) {
        return Some(at);
    }
    match codename {
        Some(name) => find_name(index, name),
        None => None,
    }
}

/// Where an entry of the index bears the model's name, the model is not said to
/// have no art.
pub proof fn a_known_name_is_not_missed(
    index: Index,
    model: DeviceModelInfo,
    name: Seq<char>,
    forced: Option<Seq<char>>,
    at: int,
)
    requires
        name_hit(index, name, at),
    ensures
        !resolves_to_nothing(index, model, Some(name), forced),
{
}

/// A forced depot that the index has wins over everything else.
pub proof fn a_forced_depot_wins(
    index: Index,
    model: DeviceModelInfo,
    codename: Option<Seq<char>>,
    depot: Seq<char>,
    at: int,
)
    requires
        index.devices@.contains_key(depot),
        resolves_to(index, model, codename, Some(depot), at),
    ensures
        index.devices.in_order()[at].0@ == depot,
{
}

/// The firmware's name is looked at only where no id of the model leads
/// anywhere.
pub proof fn names_are_the_last_resort(
    index: Index,
    model: DeviceModelInfo,
    one: Option<Seq<char>>,
    other: Option<Seq<char>>,
    forced: Option<Seq<char>>,
    at: int,
    search: IdSearch,
    id: u16,
    hit: int,
)
    requires
        id == model.model_id_1 || id == model.model_id_2 || id == model.model_id_3,
        id_hit(index, model, search, id, hit),
    ensures
        resolves_to(index, model, one, forced, at) == resolves_to(index, model, other, forced, at),
{
}

/// Whether the entry at `at` is the first that lists a model id, but for case.
pub open spec fn first_with_model_id(index: Index, id: Seq<char>, at: int) -> bool {
    &&& 0 <= at < index.devices.in_order().len()
    &&& has_model_id(index.devices.in_order()[at].1, id)
    &&& forall|i: int|
        0 <= i < at ==> !has_model_id((#[trigger] index.devices.in_order()[i]).1, id)
}

/// Whether the entry at `at` is the first that lists a model id with an ending,
/// but for case.
pub open spec fn first_with_suffix(index: Index, suffix: Seq<char>, at: int) -> bool {
    &&& 0 <= at < index.devices.in_order().len()
    &&& has_model_id_suffix(index.devices.in_order()[at].1, suffix)
    &&& forall|i: int|
        0 <= i < at ==> !has_model_id_suffix((#[trigger] index.devices.in_order()[i]).1, suffix)
}

/// Whether the entry at `at` is the first with a name, but for case.
pub open spec fn first_with_name(index: Index, name: Seq<char>, at: int) -> bool {
    &&& 0 <= at < index.devices.in_order().len()
    &&& has_display_name(index.devices.in_order()[at].1, name)
    &&& forall|i: int|
        0 <= i < at ==> !has_display_name((#[trigger] index.devices.in_order()[i]).1, name)
}

/// Whether no entry lists a model id.
pub open spec fn no_model_id(index: Index, id: Seq<char>) -> bool {
    forall|i: int|
        0 <= i < index.devices.in_order().len() ==> !has_model_id(
            (#[trigger] index.devices.in_order()[i]).1,
            id,
        )
}

/// Whether `asset` is the art of the entry at `at`, from the first tier that
/// holds enough of its depot.
pub open spec fn loads_entry(
    asset: ResolvedAsset,
    index: Index,
    at: int,
    kind: Option<DeviceKind>,
    tiers: Seq<DepotOnDisk>,
) -> bool {
    &&& first_usable(tiers, 0) matches Some(tier)
    &&& loaded_from(
        asset,
        index.devices.in_order()[at].0@,
        index.devices.in_order()[at].1,
        kind,
        tiers[tier],
    )
}

/// Whether `asset` is the art of the standalone device whose entry is at `at`,
/// from the first tier that can show it.
pub open spec fn loads_standalone(
    asset: ResolvedAsset,
    index: Index,
    at: int,
    kind: Option<DeviceKind>,
    tiers: Seq<StandaloneOnDisk>,
) -> bool {
    let entry = index.devices.in_order()[at].1;
    &&& first_standalone(tiers, entry, 0) matches Some(tier)
    &&& standalone_from(asset, index.devices.in_order()[at].0@, entry, kind, tiers[tier])
}

/// The asset tiers and the registry.
#[derive(Debug)]
pub struct AssetResolver {
    /// Where art is read from, first to last. The bundle, if there is one,
    /// comes first, so that a release build does without the cache.
    pub read_roots: Vec<String>,
    /// Where art is written to: always the user's cache.
    pub write_root: String,
    pub has_bundle: bool,
    pub index: Option<Index>,
}

impl AssetResolver {
    /// The tiers for a cache directory and, if one was found, a bundle.
    pub fn new(bundle: Option<String>, cache: String, index: Option<Index>) -> (resolver: Self)
        ensures
            resolver.write_root@ == cache@,
            resolver.has_bundle == (bundle is Some),
            resolver.index == index,
            crate::order::texts(resolver.read_roots@) == match bundle {
                Some(bundle) => seq![bundle@, cache@],
                None => seq![cache@],
            },
    {
        let has_bundle = bundle.is_some();
        let ghost bundle_text = crate::text::owned_view(bundle);
        let mut read_roots: Vec<String> = Vec::new();
        if let Some(bundle) = bundle {
            read_roots.push(bundle);
        }
        read_roots.push(cache.clone());
        assert(crate::order::texts(read_roots@) =~= match bundle_text {
            Some(bundle) => seq![bundle, cache@],
            None => seq![cache@],
        });
        AssetResolver { read_roots, write_root: cache, has_bundle, index }
    }

    /// Where art is written to.
    pub fn cache_root(&self) -> (root: &str)
        ensures
            root@ == self.write_root@,
    {
        self.write_root.as_str()
    }

    /// Whether the program runs from a populated bundle.
    pub fn has_bundle_root(&self) -> (bundled: bool)
        ensures
            bundled == self.has_bundle,
    {
        self.has_bundle
    }

    /// Whether there is a registry; without one devices show a silhouette.
    pub fn index_loaded(&self) -> (loaded: bool)
        ensures
            loaded == (self.index is Some),
    {
        self.index.is_some()
    }

    /// How many models the registry holds, if there is one.
    pub fn index_entry_count(&self) -> (count: Option<usize>)
        ensures
            match count {
                Some(count) => self.index matches Some(index) && count
                    == index.devices.in_order().len(),
                None => self.index is None,
            },
    {
        match &self.index {
            Some(index) => Some(index.devices.len()),
            None => None,
        }
    }

    /// Finds the registry's entry for a model. Without a registry there is
    /// none.
    pub fn find_model(
        &self,
        model: &DeviceModelInfo,
        codename: Option<&str>,
        forced: Option<&str>,
    ) -> (found: Option<usize>)
        ensures
            match self.index {
                Some(index) => match found {
                    Some(at) => at < index.devices.in_order().len() && resolves_to(
                        index,
                        *model,
                        optional_view(codename),
                        optional_view(forced),
                        at as int,
                    ),
                    None => resolves_to_nothing(
                        index,
                        *model,
                        optional_view(codename),
                        optional_view(forced),
                    ),
                },
                None => found is None,
            },
    {
        match &self.index {
            Some(index) => resolve_in_index(index, model, codename, forced),
            None => None,
        }
    }

    /// Finds the registry's entry for a standalone model by its registry id
    /// alone, but for case.
    pub fn find_registry_model(&self, registry_model_id: &str) -> (found: Option<usize>)
        ensures
            match self.index {
                Some(index) => match found {
                    Some(at) => first_with_model_id(index, registry_model_id@, at as int),
                    None => no_model_id(index, registry_model_id@),
                },
                None => found is None,
            },
    {
        match &self.index {
            Some(index) => {
                let lookup = Lookup::ModelId(registry_model_id.to_owned());
                let found = index.find(&lookup);
                proof {
                    let devices = index.devices.in_order();
                    assert forall|i: int| 0 <= i < devices.len() implies is_match(
                        (#[trigger] devices[i]).1,
                        lookup,
                    ) == has_model_id(devices[i].1, registry_model_id@) by {}
                }
                found
            },
            None => None,
        }
    }

    /// The art of a model: that of its registry entry, from the first tier that
    /// holds enough of the entry's depot. `tiers` is what the tiers hold of it,
    /// first to last, and `kind` the class that the registry's word stands for.
    pub fn resolve(
        &self,
        model: &DeviceModelInfo,
        codename: Option<&str>,
        forced: Option<&str>,
        kind: Option<DeviceKind>,
        tiers: Vec<DepotOnDisk>,
    ) -> (asset: Option<ResolvedAsset>)
        ensures
            match self.index {
                Some(index) => match asset {
                    Some(asset) => exists|at: int|
                        0 <= at < index.devices.in_order().len() && #[trigger] resolves_to(
                            index,
                            *model,
                            optional_view(codename),
                            optional_view(forced),
                            at,
                        ) && loads_entry(asset, index, at, kind, tiers@),
                    None => resolves_to_nothing(
                        index,
                        *model,
                        optional_view(codename),
                        optional_view(forced),
                    ) || first_usable(tiers@, 0) is None,
                },
                None => asset is None,
            },
    {
        let index = match &self.index {
            Some(index) => index,
            None => {
                return None;
            },
        };
        match resolve_in_index(index, model, codename, forced) {
            Some(at) => {
                let (depot, entry) = index.devices.entry(at);
                let asset = load_files(depot, entry, kind, tiers);
                proof {
                    if asset is Some {
                        assert(resolves_to(
                            *index,
                            *model,
                            optional_view(codename),
                            optional_view(forced),
                            at as int,
                        ));
                        assert(loads_entry(asset->0, *index, at as int, kind, tiers@));
                    }
                }
                asset
            },
            None => None,
        }
    }

    /// The art of a standalone model: that of its registry entry, from the first
    /// tier that can show it.
    pub fn resolve_registry_model(
        &self,
        registry_model_id: &str,
        kind: Option<DeviceKind>,
        tiers: &Vec<StandaloneOnDisk>,
    ) -> (asset: Option<ResolvedAsset>)
        ensures
            match self.index {
                Some(index) => match asset {
                    Some(asset) => exists|at: int| #[trigger]
                        first_with_model_id(index, registry_model_id@, at) && loads_standalone(
                            asset,
                            index,
                            at,
                            kind,
                            tiers@,
                        ),
                    None => no_model_id(index, registry_model_id@) || exists|at: int| #[trigger]
                        first_with_model_id(index, registry_model_id@, at) && first_standalone(
                            tiers@,
                            index.devices.in_order()[at].1,
                            0,
                        ) is None,
                },
                None => asset is None,
            },
    {
        let index = match &self.index {
            Some(index) => index,
            None => {
                return None;
            },
        };
        match self.find_registry_model(registry_model_id) {
            Some(at) => {
                assert(first_with_model_id(*index, registry_model_id@, at as int));
                let (depot, entry) = index.devices.entry(at);
                load_standalone_files(depot, entry, kind, tiers)
            },
            None => None,
        }
    }
}

} // verus!
