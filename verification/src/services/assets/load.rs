//! Device art as it is put together from what the tiers hold on disk.

use crate::device::DeviceKind;
use crate::services::assets::images::{
    first_existing, first_present, front_render_files, DepotRenders,
};
use crate::services::assets::metadata::{GlowGeometry, Metadata, ResolvedAsset};
use crate::services::assets::DeviceEntry;
use crate::text::{owned_view, push_text, same_text};
use std::sync::Arc;
use vstd::prelude::*;

verus! {

/// A metadata file that could be read.
#[derive(Debug)]
pub struct ReadMetadata {
    pub metadata: Metadata,
    /// The size of the canvas that it was made for, if it says so.
    pub origin: Option<(u32, u32)>,
}

/// What one tier holds of a depot.
#[derive(Debug)]
pub struct DepotOnDisk {
    /// Whether the depot's name does not lead out of the tier.
    pub safe: bool,
    /// The depot's directory, with the mark that a file's name follows.
    pub dir: String,
    /// The files chosen from it, if it holds enough.
    pub renders: Option<DepotRenders>,
    /// What the metadata file says, if it could be read.
    pub metadata: Option<ReadMetadata>,
    /// The size of the model picture, if it could be read.
    pub png: Option<(u32, u32)>,
    /// The gaps between the keys, if there is a mask that could be read.
    pub mask: Option<Arc<GlowGeometry>>,
}

/// Whether a depot can be shown from.
pub open spec fn usable(depot: DepotOnDisk) -> bool {
    depot.safe && depot.renders is Some
}

/// The first tier from position `from` on whose depot can be shown from.
pub open spec fn first_usable(depots: Seq<DepotOnDisk>, from: int) -> Option<int>
    decreases depots.len() - from,
{
    if from < 0 || from >= depots.len() {
        None
    } else if usable(depots[from]) {
        Some(from)
    } else {
        first_usable(depots, from + 1)
    }
}

/// The size of a render: the picture's own, or where that could not be read, the
/// one that the metadata was made for, or else none at all.
pub open spec fn size_of(tier: DepotOnDisk) -> (u32, u32) {
    match tier.png {
        Some(size) => size,
        None => match tier.metadata {
            Some(read) => match read.origin {
                Some(origin) => origin,
                None => (0u32, 0u32),
            },
            None => (0u32, 0u32),
        },
    }
}

/// The path of a file in a directory.
pub open spec fn path_in(dir: Seq<char>, name: Option<String>) -> Option<Seq<char>> {
    match name {
        Some(name) => Some(dir + name@),
        None => None,
    }
}

fn joined(dir: &str, name: &str) -> (path: String)
    ensures
        path@ == dir@ + name@,
{
    let mut path = dir.to_owned();
    push_text(&mut path, name);
    path
}

fn joined_if_any(dir: &str, name: &Option<String>) -> (path: Option<String>)
    ensures
        owned_view(path) == path_in(dir@, *name),
{
    match name {
        Some(name) => Some(joined(dir, name.as_str())),
        None => None,
    }
}

/// Whether `asset` is the art of a device, as one tier's depot holds it. Art
/// whose metadata could not be read marks no control. Only keyboards glow.
pub open spec fn loaded_from(
    asset: ResolvedAsset,
    depot: Seq<char>,
    entry: DeviceEntry,
    kind: Option<DeviceKind>,
    tier: DepotOnDisk,
) -> bool {
    &&& tier.renders matches Some(renders)
    &&& asset.depot@ == depot
    &&& asset.display_name@ == entry.display_name@
    &&& asset.kind == kind
    &&& asset.image_path@ == tier.dir@ + renders.image@
    &&& owned_view(asset.hero_image_path) == path_in(tier.dir@, renders.hero_image)
    &&& owned_view(asset.side_image_path) == path_in(tier.dir@, renders.side_image)
    &&& asset.glow == if kind == Some(DeviceKind::Keyboard) {
        tier.mask
    } else {
        None
    }
    &&& match tier.metadata {
        Some(read) => asset.metadata == read.metadata,
        None => asset.metadata.images@.len() == 0,
    }
    &&& (asset.png_width, asset.png_height) == size_of(tier)
}

/// The art of a device, from the first tier whose depot holds enough. `kind` is
/// the class that the registry's word for it stands for.
pub fn load_files(
    depot: &str,
    entry: &DeviceEntry,
    kind: Option<DeviceKind>,
    tiers: Vec<DepotOnDisk>,
) -> (asset: Option<ResolvedAsset>)
    ensures
        match (first_usable(tiers@, 0), asset) {
            (Some(at), Some(asset)) => loaded_from(asset, depot@, *entry, kind, tiers@[at]),
            (None, None) => true,
            _ => false,
        },
{
    match find_usable(&tiers) {
        Some(at) => {
            let mut tiers = tiers;
            let tier = tiers.remove(at);
            load_tier(depot, entry, kind, tier)
        },
        None => None,
    }
}

fn find_usable(tiers: &Vec<DepotOnDisk>) -> (found: Option<usize>)
    ensures
        match found {
            Some(at) => first_usable(tiers@, 0) == Some(at as int) && at < tiers@.len() && usable(
                tiers@[at as int],
            ),
            None => first_usable(tiers@, 0) is None,
        },
{
    let mut i: usize = 0;
    while i < tiers.len()
        invariant
            i <= tiers@.len(),
            first_usable(tiers@, 0) == first_usable(tiers@, i as int),
        decreases tiers@.len() - i,
    {
        if tiers[i].safe && tiers[i].renders.is_some() {
            return Some(i);
        }
        i += 1;
    }
    None
}

fn load_tier(
    depot: &str,
    entry: &DeviceEntry,
    kind: Option<DeviceKind>,
    tier: DepotOnDisk,
) -> (asset: Option<ResolvedAsset>)
    ensures
        match asset {
            Some(asset) => loaded_from(asset, depot@, *entry, kind, tier),
            None => tier.renders is None,
        },
{
    let renders = match &tier.renders {
        Some(renders) => renders,
        None => {
            return None;
        },
    };
    let (png_width, png_height) = match tier.png {
        Some(size) => size,
        None => match &tier.metadata {
            Some(read) => match read.origin {
                Some(origin) => origin,
                None => (0, 0),
            },
            None => (0, 0),
        },
    };
    let keyboard = match kind {
        Some(kind) => kind == DeviceKind::Keyboard,
        None => false,
    };
    let dir = tier.dir.as_str();
    let image_path = joined(dir, renders.image.as_str());
    let hero_image_path = joined_if_any(dir, &renders.hero_image);
    let side_image_path = joined_if_any(dir, &renders.side_image);
    let metadata = match tier.metadata {
        Some(read) => read.metadata,
        None => Metadata { images: Vec::new() },
    };
    Some(
        ResolvedAsset {
            depot: depot.to_owned(),
            display_name: entry.display_name.clone(),
            kind,
            image_path,
            hero_image_path,
            side_image_path,
            glow: if keyboard {
                tier.mask
            } else {
                None
            },
            metadata,
            png_width,
            png_height,
        },
    )
}

/// A file of a depot, and its size if it is a picture that could be read.
#[derive(Debug)]
pub struct PictureFile {
    pub name: String,
    pub size: Option<(u32, u32)>,
}

/// What one tier holds of a standalone device's depot.
#[derive(Debug)]
pub struct StandaloneOnDisk {
    /// Whether the depot's name does not lead out of the tier.
    pub safe: bool,
    /// The depot's directory, with the mark that a file's name follows.
    pub dir: String,
    /// The picture that the depot's manifest names for the model.
    pub manifest_image: Option<String>,
    /// The files that stand in the directory itself.
    pub files: Vec<PictureFile>,
}

/// The picture of a standalone device, by name: the manifest's, or the first
/// front render that the registry lists.
pub open spec fn standalone_image(tier: StandaloneOnDisk, entry: DeviceEntry) -> Option<Seq<char>> {
    match tier.manifest_image {
        Some(name) => Some(name@),
        None => first_present(front_render_files(), entry.files@),
    }
}

/// The size of the first file from position `from` on that has a name.
pub open spec fn picture_size(files: Seq<PictureFile>, name: Seq<char>, from: int) -> Option<
    (u32, u32),
>
    decreases files.len() - from,
{
    if from < 0 || from >= files.len() {
        None
    } else if files[from].name@ == name {
        files[from].size
    } else {
        picture_size(files, name, from + 1)
    }
}

/// The picture of a standalone device that a tier can show, and its size.
pub open spec fn standalone_shown(tier: StandaloneOnDisk, entry: DeviceEntry) -> Option<
    (Seq<char>, (u32, u32)),
> {
    if !tier.safe {
        None
    } else {
        match standalone_image(tier, entry) {
            Some(name) => match picture_size(tier.files@, name, 0) {
                Some(size) => Some((name, size)),
                None => None,
            },
            None => None,
        }
    }
}

/// The first tier from position `from` on that can show a standalone device.
pub open spec fn first_standalone(
    tiers: Seq<StandaloneOnDisk>,
    entry: DeviceEntry,
    from: int,
) -> Option<int>
    decreases tiers.len() - from,
{
    if from < 0 || from >= tiers.len() {
        None
    } else if standalone_shown(tiers[from], entry) is Some {
        Some(from)
    } else {
        first_standalone(tiers, entry, from + 1)
    }
}

/// Whether `asset` is the art of a standalone device: its one picture, without
/// metadata.
pub open spec fn standalone_from(
    asset: ResolvedAsset,
    depot: Seq<char>,
    entry: DeviceEntry,
    kind: Option<DeviceKind>,
    tier: StandaloneOnDisk,
) -> bool {
    &&& standalone_shown(tier, entry) matches Some((name, size))
    &&& asset.depot@ == depot
    &&& asset.display_name@ == entry.display_name@
    &&& asset.kind == kind
    &&& asset.image_path@ == tier.dir@ + name
    &&& owned_view(asset.hero_image_path) == Some(tier.dir@ + name)
    &&& asset.side_image_path is None
    &&& asset.glow is None
    &&& asset.metadata.images@.len() == 0
    &&& (asset.png_width, asset.png_height) == size
}

fn find_size(files: &Vec<PictureFile>, name: &str) -> (size: Option<(u32, u32)>)
    ensures
        size == picture_size(files@, name@, 0),
{
    let mut i: usize = 0;
    while i < files.len()
        invariant
            i <= files@.len(),
            picture_size(files@, name@, 0) == picture_size(files@, name@, i as int),
        decreases files@.len() - i,
    {
        if same_text(files[i].name.as_str(), name) {
            return files[i].size;
        }
        i += 1;
    }
    None
}

fn find_shown(tier: &StandaloneOnDisk, entry: &DeviceEntry) -> (shown: Option<
    (String, (u32, u32)),
>)
    ensures
        match shown {
            Some((name, size)) => standalone_shown(*tier, *entry) == Some((name@, size)),
            None => standalone_shown(*tier, *entry) is None,
        },
{
    if !tier.safe {
        return None;
    }
    let named = match &tier.manifest_image {
        Some(name) => Some(name.clone()),
        None => {
            let fronts: Vec<String> = vec!["front_core.png".to_owned(), "front.png".to_owned()];
            assert(crate::order::texts(fronts@) =~= front_render_files());
            first_existing(&fronts, &entry.files)
        },
    };
    match named {
        Some(name) => match find_size(&tier.files, name.as_str()) {
            Some(size) => Some((name, size)),
            None => None,
        },
        None => None,
    }
}

/// The art of a standalone device, from the first tier that can show it.
pub fn load_standalone_files(
    depot: &str,
    entry: &DeviceEntry,
    kind: Option<DeviceKind>,
    tiers: &Vec<StandaloneOnDisk>,
) -> (asset: Option<ResolvedAsset>)
    ensures
        match (first_standalone(tiers@, *entry, 0), asset) {
            (Some(at), Some(asset)) => standalone_from(asset, depot@, *entry, kind, tiers@[at]),
            (None, None) => true,
            _ => false,
        },
{
    let mut i: usize = 0;
    while i < tiers.len()
        invariant
            i <= tiers@.len(),
            first_standalone(tiers@, *entry, 0) == first_standalone(tiers@, *entry, i as int),
        decreases tiers@.len() - i,
    {
        if let Some((name, (png_width, png_height))) = find_shown(&tiers[i], entry) {
            let image_path = joined(tiers[i].dir.as_str(), name.as_str());
            return Some(
                ResolvedAsset {
                    depot: depot.to_owned(),
                    display_name: entry.display_name.clone(),
                    kind,
                    image_path: image_path.clone(),
                    hero_image_path: Some(image_path),
                    side_image_path: None,
                    glow: None,
                    metadata: Metadata { images: Vec::new() },
                    png_width,
                    png_height,
                },
            );
        }
        i += 1;
    }
    None
}

/// A bundle that holds enough is shown from, whatever the cache behind it holds.
pub proof fn the_first_tier_wins(tiers: Seq<DepotOnDisk>, rest: Seq<DepotOnDisk>)
    requires
        tiers.len() > 0,
        usable(tiers[0]),
    ensures
        first_usable(tiers + rest, 0) == Some(0int),
        (tiers + rest)[0] == tiers[0],
{
}

/// A picture that does not stand in the depot's directory is never shown, even
/// if the manifest names it.
pub proof fn pictures_stand_in_their_depot(tier: StandaloneOnDisk, entry: DeviceEntry)
    requires
        forall|i: int|
            0 <= i < tier.files@.len() ==> Some((#[trigger] tier.files@[i]).name@)
                != standalone_image(tier, entry),
    ensures
        standalone_shown(tier, entry) is None,
{
    if let Some(name) = standalone_image(tier, entry) {
        absent_files_have_no_size(tier.files@, name, 0);
    }
}

proof fn absent_files_have_no_size(files: Seq<PictureFile>, name: Seq<char>, from: int)
    requires
        0 <= from,
        forall|i: int| 0 <= i < files.len() ==> (#[trigger] files[i]).name@ != name,
    ensures
        picture_size(files, name, from) is None,
    decreases files.len() - from,
{
    if from < files.len() {
        absent_files_have_no_size(files, name, from + 1);
    }
}

} // verus!
