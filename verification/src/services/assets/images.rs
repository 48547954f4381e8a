//! Device images and depot manifests.

use crate::table::{list_contains, lists};
use vstd::prelude::*;

verus! {

/// Why an image's size could not be read.
#[derive(Debug, Clone, Copy, PartialEq, Eq, Structural)]
pub enum PngError {
    /// There are fewer bytes than the header has.
    UnexpectedEnd,
    /// The bytes do not start as a PNG does.
    MissingSignature,
    /// The first chunk is not the header chunk.
    MissingHeaderChunk,
}

/// How a PNG starts.
pub open spec fn png_signature() -> Seq<u8> {
    seq![0x89, 0x50, 0x4e, 0x47, 0x0d, 0x0a, 0x1a, 0x0a]
}

/// The tag of the header chunk.
pub open spec fn header_tag() -> Seq<u8> {
    seq![0x49, 0x48, 0x44, 0x52]
}

/// Four bytes as a number, the most significant first.
pub open spec fn big_endian(bytes: Seq<u8>) -> int {
    bytes[0] * 0x100_0000 + bytes[1] * 0x1_0000 + bytes[2] * 0x100 + bytes[3]
}

/// The size that the leading bytes of a PNG give: eight bytes of signature, the
/// length and the tag of the header chunk, and then width and height.
pub open spec fn dimensions(bytes: Seq<u8>) -> Result<(int, int), PngError> {
    if bytes.len() < 24 {
        Err(PngError::UnexpectedEnd)
    } else if bytes.subrange(0, 8) != png_signature() {
        Err(PngError::MissingSignature)
    } else if bytes.subrange(12, 16) != header_tag() {
        Err(PngError::MissingHeaderChunk)
    } else {
        Ok((big_endian(bytes.subrange(16, 20)), big_endian(bytes.subrange(20, 24))))
    }
}

fn four_bytes(bytes: &Vec<u8>, at: usize) -> (value: u32)
    requires
        at + 4 <= bytes.len(),
    ensures
        value == big_endian(bytes@.subrange(at as int, at + 4)),
{
    let a: u32 = bytes[at] as u32;
    let b: u32 = bytes[at + 1] as u32;
    let c: u32 = bytes[at + 2] as u32;
    let d: u32 = bytes[at + 3] as u32;
    a * 0x100_0000 + b * 0x1_0000 + c * 0x100 + d
}

/// Reads the size of a PNG from its leading bytes.
pub fn read_png_dimensions(bytes: &Vec<u8>) -> (size: Result<(u32, u32), PngError>)
    ensures
        match (size, dimensions(bytes@)) {
            (Ok(size), Ok(expected)) => size.0 == expected.0 && size.1 == expected.1,
            (Err(error), Err(expected)) => error == expected,
            _ => false,
        },
{
    if bytes.len() < 24 {
        return Err(PngError::UnexpectedEnd);
    }
    let signed = bytes[0] == 0x89 && bytes[1] == 0x50 && bytes[2] == 0x4e && bytes[3] == 0x47
        && bytes[4] == 0x0d && bytes[5] == 0x0a && bytes[6] == 0x1a && bytes[7] == 0x0a;
    proof {
        let start = bytes@.subrange(0, 8);
        if signed {
            assert(start =~= png_signature());
        } else {
            assert(start[0] == bytes@[0] && start[1] == bytes@[1] && start[2] == bytes@[2]
                && start[3] == bytes@[3] && start[4] == bytes@[4] && start[5] == bytes@[5]
                && start[6] == bytes@[6] && start[7] == bytes@[7]);
        }
    }
    if !signed {
        return Err(PngError::MissingSignature);
    }
    let tagged = bytes[12] == 0x49 && bytes[13] == 0x48 && bytes[14] == 0x44 && bytes[15] == 0x52;
    proof {
        let tag = bytes@.subrange(12, 16);
        if tagged {
            assert(tag =~= header_tag());
        } else {
            assert(tag[0] == bytes@[12] && tag[1] == bytes@[13] && tag[2] == bytes@[14] && tag[3]
                == bytes@[15]);
        }
    }
    if !tagged {
        return Err(PngError::MissingHeaderChunk);
    }
    let width: u32 = four_bytes(bytes, 16);
    let height: u32 = four_bytes(bytes, 20);
    Ok((width, height))
}

/// The four bytes of a number, the most significant first.
pub open spec fn bytes_of(value: u32) -> Seq<u8> {
    seq![
        (value / 0x100_0000) as u8,
        ((value / 0x1_0000) % 0x100) as u8,
        ((value / 0x100) % 0x100) as u8,
        (value % 0x100) as u8,
    ]
}

/// The leading bytes of a PNG of this size.
pub open spec fn png_header(width: u32, height: u32) -> Seq<u8> {
    png_signature() + bytes_of(13) + header_tag() + bytes_of(width) + bytes_of(height)
}

/// The size in a PNG's leading bytes is read back from them, whatever follows.
pub proof fn a_size_is_read_back(width: u32, height: u32, rest: Seq<u8>)
    ensures
        dimensions(png_header(width, height) + rest) == Ok::<(int, int), PngError>(
            (width as int, height as int),
        ),
{
    let bytes = png_header(width, height) + rest;
    assert(bytes.subrange(0, 8) =~= png_signature());
    assert(bytes.subrange(12, 16) =~= header_tag());
    assert(bytes.subrange(16, 20) =~= bytes_of(width));
    assert(bytes.subrange(20, 24) =~= bytes_of(height));
    number_survives_its_bytes(width);
    number_survives_its_bytes(height);
}

proof fn number_survives_its_bytes(value: u32)
    ensures
        big_endian(bytes_of(value)) == value,
{
}

/// What a depot's manifest names for a model, by kind of file.
#[derive(Debug)]
pub struct DepotResources {
    pub image_metadata: Option<String>,
    pub device_buttons_image: Option<String>,
    pub device_image: Option<String>,
    pub device_camera_image: Option<String>,
    pub device_side: Option<String>,
}

/// The files chosen from one depot.
#[derive(Debug)]
pub struct DepotRenders {
    pub meta_name: String,
    pub image_name: String,
    pub image: String,
    pub hero_image: Option<String>,
    pub side_image: Option<String>,
}

/// The first of `names` that is among `existing`.
pub open spec fn first_present(names: Seq<Seq<char>>, existing: Seq<String>) -> Option<Seq<char>>
    decreases names.len(),
{
    if names.len() == 0 {
        None
    } else if lists(existing, names[0]) {
        Some(names[0])
    } else {
        first_present(names.drop_first(), existing)
    }
}

/// The first of `names` that is among `existing`.
pub fn first_existing(names: &Vec<String>, existing: &Vec<String>) -> (found: Option<String>)
    ensures
        crate::text::owned_view(found) == first_present(crate::order::texts(names@), existing@),
{
    let mut i: usize = 0;
    assert(crate::order::texts(names@).skip(0) =~= crate::order::texts(names@));
    while i < names.len()
        invariant
            i <= names@.len(),
            first_present(crate::order::texts(names@), existing@) == first_present(
                crate::order::texts(names@).skip(i as int),
                existing@,
            ),
        decreases names@.len() - i,
    {
        assert(crate::order::texts(names@).skip(i as int).drop_first()
            =~= crate::order::texts(names@).skip(i + 1));
        if list_contains(existing, names[i].as_str()) {
            return Some(names[i].clone());
        }
        i += 1;
    }
    None
}

/// A name that may be absent, as a list.
pub open spec fn listed(name: Option<String>) -> Seq<Seq<char>> {
    match name {
        Some(name) => seq![name@],
        None => seq![],
    }
}

/// The front renders that a depot may ship, by either naming scheme.
pub open spec fn front_render_files() -> Seq<Seq<char>> {
    seq!["front_core.png"@, "front.png"@]
}

/// The side renders that a depot may ship, by either naming scheme.
pub open spec fn buttons_render_files() -> Seq<Seq<char>> {
    seq!["side_core.png"@, "side.png"@]
}

/// The metadata files that a depot may ship, by either naming scheme.
pub open spec fn metadata_files() -> Seq<Seq<char>> {
    seq!["core_metadata.json"@, "metadata.json"@, "metadata_full.json"@]
}

/// The front render that the manifest names; a camera's has a name of its own.
pub open spec fn variant_front(resources: DepotResources) -> Option<String> {
    match resources.device_image {
        Some(name) => Some(name),
        None => resources.device_camera_image,
    }
}

/// The render that the button markers are calibrated against, by name.
pub open spec fn preferred_image(resources: DepotResources) -> Seq<char> {
    match resources.device_buttons_image {
        Some(name) => name@,
        None => match variant_front(resources) {
            Some(name) => name@,
            None => "side_core.png"@,
        },
    }
}

/// The renders to try for the model view, best first.
pub open spec fn image_candidates(resources: DepotResources) -> Seq<Seq<char>> {
    seq![preferred_image(resources)] + buttons_render_files() + listed(variant_front(resources))
        + front_render_files()
}

/// The renders to try for the gallery card, best first.
pub open spec fn hero_candidates(resources: DepotResources) -> Seq<Seq<char>> {
    listed(variant_front(resources)) + front_render_files()
}

/// The renders to try for the side view, best first.
pub open spec fn side_candidates(resources: DepotResources) -> Seq<Seq<char>> {
    listed(resources.device_side) + seq!["side_spectrum.png"@, "side_core.png"@, "side.png"@]
}

/// The metadata files to try, best first.
pub open spec fn metadata_candidates(resources: DepotResources) -> Seq<Seq<char>> {
    listed(resources.image_metadata) + metadata_files()
}

fn push_name(names: &mut Vec<String>, name: &str)
    ensures
        crate::order::texts(final(names)@) == crate::order::texts(old(names)@).push(name@),
{
    names.push(name.to_owned());
    assert(crate::order::texts(names@) =~= crate::order::texts(old(names)@).push(name@));
}

fn push_listed(names: &mut Vec<String>, name: &Option<String>)
    ensures
        crate::order::texts(final(names)@) == crate::order::texts(old(names)@) + listed(*name),
{
    match name {
        Some(name) => {
            push_name(names, name.as_str());
        },
        None => {},
    }
    assert(crate::order::texts(names@) =~= crate::order::texts(old(names)@) + listed(*name));
}

fn no_names() -> (names: Vec<String>)
    ensures
        crate::order::texts(names@) == Seq::<Seq<char>>::empty(),
{
    let names: Vec<String> = Vec::new();
    assert(crate::order::texts(names@) =~= Seq::<Seq<char>>::empty());
    names
}

/// Chooses metadata and renders from a depot in which the files `existing` are
/// found, of which `inside` are those whose name does not lead out of it. There
/// is nothing to show without metadata and a render for the model view.
pub fn resolve_depot_renders(
    resources: &DepotResources,
    existing: &Vec<String>,
    inside: &Vec<String>,
) -> (renders: Option<DepotRenders>)
    ensures
        match renders {
            Some(renders) => {
                &&& first_present(metadata_candidates(*resources), existing@) == Some(
                    renders.meta_name@,
                )
                &&& first_present(image_candidates(*resources), inside@) == Some(renders.image@)
                &&& renders.image_name@ == preferred_image(*resources)
                &&& crate::text::owned_view(renders.hero_image) == first_present(
                    hero_candidates(*resources),
                    inside@,
                )
                &&& crate::text::owned_view(renders.side_image) == first_present(
                    side_candidates(*resources),
                    inside@,
                )
            },
            None => first_present(metadata_candidates(*resources), existing@) is None
                || first_present(image_candidates(*resources), inside@) is None,
        },
{
    let mut metadata = no_names();
    push_listed(&mut metadata, &resources.image_metadata);
    push_name(&mut metadata, "core_metadata.json");
    push_name(&mut metadata, "metadata.json");
    push_name(&mut metadata, "metadata_full.json");
    assert(crate::order::texts(metadata@) =~= metadata_candidates(*resources));
    let meta_name = match first_existing(&metadata, existing) {
        Some(name) => name,
        None => {
            return None;
        },
    };

    let front = match &resources.device_image {
        Some(name) => Some(name.clone()),
        None => resources.device_camera_image.clone(),
    };
    assert(front == variant_front(*resources));
    let mut hero = no_names();
    push_listed(&mut hero, &front);
    push_name(&mut hero, "front_core.png");
    push_name(&mut hero, "front.png");
    assert(crate::order::texts(hero@) =~= hero_candidates(*resources));
    let hero_image = first_existing(&hero, inside);

    let image_name = match &resources.device_buttons_image {
        Some(name) => name.clone(),
        None => match &front {
            Some(name) => name.clone(),
            None => "side_core.png".to_owned(),
        },
    };
    let mut candidates = no_names();
    push_name(&mut candidates, image_name.as_str());
    push_name(&mut candidates, "side_core.png");
    push_name(&mut candidates, "side.png");
    push_listed(&mut candidates, &front);
    push_name(&mut candidates, "front_core.png");
    push_name(&mut candidates, "front.png");
    assert(crate::order::texts(candidates@) =~= image_candidates(*resources));
    let image = match first_existing(&candidates, inside) {
        Some(name) => name,
        None => {
            return None;
        },
    };

    let mut side = no_names();
    push_listed(&mut side, &resources.device_side);
    push_name(&mut side, "side_spectrum.png");
    push_name(&mut side, "side_core.png");
    push_name(&mut side, "side.png");
    assert(crate::order::texts(side@) =~= side_candidates(*resources));
    let side_image = first_existing(&side, inside);
    Some(DepotRenders { meta_name, image_name, image, hero_image, side_image })
}

/// A file that was chosen exists.
pub proof fn a_chosen_file_exists(names: Seq<Seq<char>>, existing: Seq<String>)
    ensures
        first_present(names, existing) matches Some(name) ==> lists(existing, name)
            && names.contains(name),
        first_present(names, existing) is None ==> forall|i: int|
            0 <= i < names.len() ==> !lists(existing, #[trigger] names[i]),
    decreases names.len(),
{
    if names.len() > 0 && !lists(existing, names[0]) {
        a_chosen_file_exists(names.drop_first(), existing);
        if let Some(name) = first_present(names.drop_first(), existing) {
            let i = choose|i: int|
                0 <= i < names.drop_first().len() && names.drop_first()[i] == name;
            assert(names[i + 1] == name);
        } else {
            assert forall|i: int| 0 <= i < names.len() implies !lists(
                existing,
                #[trigger] names[i],
            ) by {
                if i > 0 {
                    assert(names.drop_first()[i - 1] == names[i]);
                }
            }
        }
    }
}

} // verus!
