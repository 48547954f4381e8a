//! Where the keys of the top row are on the keyboard's picture.
//!
//! Fractions are in parts per million of the picture.

pub mod laws;

use crate::features::mouse::geometry::{clamped, WHOLE};
use crate::rank::{every_place_is_taken, everyone, in_order, order_follows_keys, rank, sorted_by};
use crate::services::assets::metadata::{Assignment, ImageEntry, ResolvedAsset};
use crate::text::same_text;
use vstd::prelude::*;

verus! {

/// How many keys the top row has at most: Esc and F1 to F19.
pub const ROW_KEYS: usize = 20;

/// How high the row is where no metadata says so.
pub const FALLBACK_KEY_Y: i64 = 153_000;

/// How far Esc is to the left of F1, in hundredths of the distance of two keys,
/// on boards whose metadata marks F1 but not Esc.
pub const ESC_LEFT_OF_F1: i64 = 155;

/// By how much a marker is off to the left of its key: markers are authored on
/// a picture with less padding.
pub const FRONT_MARKER_X_OFFSET: i64 = 20_000;

/// By how much a marker is above its key.
pub const FRONT_MARKER_Y_OFFSET: i64 = 23_000;

/// Where the first key is, of keys that are spread evenly.
pub const EVEN_SPACING_START: i64 = 40_000;

/// Where the last key is, of keys that are spread evenly.
pub const EVEN_SPACING_END: i64 = 960_000;

/// Where a key is.
#[derive(Debug, Clone, Copy, PartialEq, Eq, Structural)]
pub struct KeyPoint {
    pub x_frac: i64,
    pub y_frac: i64,
}

/// The points' distances from the left.
pub open spec fn xs(points: Seq<KeyPoint>) -> Seq<i64> {
    points.map_values(|point: KeyPoint| point.x_frac)
}

fn clamp(value: i64) -> (part: i64)
    ensures
        part == clamped(value as int),
{
    if value < 0 {
        0
    } else if value > WHOLE as i64 {
        WHOLE as i64
    } else {
        value
    }
}

fn by_x(points: &Vec<KeyPoint>) -> (sorted: Vec<KeyPoint>)
    ensures
        in_order(xs(points@), points@, sorted@),
{
    let mut keys: Vec<i64> = Vec::new();
    let mut i: usize = 0;
    while i < points.len()
        invariant
            i <= points@.len(),
            keys@ =~= xs(points@).take(i as int),
        decreases points@.len() - i,
    {
        keys.push(points[i].x_frac);
        i += 1;
    }
    assert(keys@ =~= xs(points@));
    sorted_by(&keys, points)
}

/// Which markers are taken.
#[derive(Debug, Clone, Copy, PartialEq, Eq, Structural)]
pub enum MarkerSet {
    /// Those of the pictures of keys or buttons.
    Keys,
    /// Those of the picture of the keys that switch between computers.
    EasySwitch,
}

/// Whether the markers of the picture with this key are taken.
pub open spec fn taken(set: MarkerSet, key: Seq<char>) -> bool {
    match set {
        MarkerSet::Keys => key == "device_keys_image"@ || key == "device_buttons_image"@,
        MarkerSet::EasySwitch => key == "device_easyswitch_image"@,
    }
}

fn is_taken(set: MarkerSet, key: &str) -> (taken: bool)
    ensures
        taken == self::taken(set, key@),
{
    match set {
        MarkerSet::Keys => same_text(key, "device_keys_image") || same_text(
            key,
            "device_buttons_image",
        ),
        MarkerSet::EasySwitch => same_text(key, "device_easyswitch_image"),
    }
}

/// A marker that is given in percent.
pub open spec fn percent_point(assignment: Assignment) -> KeyPoint {
    KeyPoint {
        x_frac: (assignment.marker.x * 10) as i64,
        y_frac: (assignment.marker.y * 10) as i64,
    }
}

/// The markers of the first `upto` pictures, in their order.
pub open spec fn marker_points(
    images: Seq<ImageEntry>,
    set: MarkerSet,
    upto: int,
) -> Seq<KeyPoint>
    decreases upto,
{
    if upto <= 0 {
        seq![]
    } else {
        let rest = marker_points(images, set, upto - 1);
        let image = images[upto - 1];
        if taken(set, image.key@) {
            rest + image.assignments@.map_values(|assignment: Assignment| percent_point(assignment))
        } else {
            rest
        }
    }
}

/// Whether `points` are the markers of a set from left to right.
pub open spec fn marks(points: Seq<KeyPoint>, images: Seq<ImageEntry>, set: MarkerSet) -> bool {
    let all = marker_points(images, set, images.len() as int);
    in_order(xs(all), all, points)
}

/// The markers of a set from left to right.
pub fn sorted_marker_points(asset: &ResolvedAsset, set: MarkerSet) -> (points: Vec<KeyPoint>)
    ensures
        marks(points@, asset.metadata.images@, set),
        points@.len() == marker_points(
            asset.metadata.images@,
            set,
            asset.metadata.images@.len() as int,
        ).len(),
{
    let images = &asset.metadata.images;
    let mut points: Vec<KeyPoint> = Vec::new();
    let mut i: usize = 0;
    while i < images.len()
        invariant
            images@ == asset.metadata.images@,
            i <= images@.len(),
            points@ == marker_points(images@, set, i as int),
        decreases images@.len() - i,
    {
        if is_taken(set, images[i].key.as_str()) {
            let assignments = &images[i].assignments;
            let ghost before = points@;
            let ghost more = assignments@.map_values(
                |assignment: Assignment| percent_point(assignment),
            );
            let mut j: usize = 0;
            while j < assignments.len()
                invariant
                    j <= assignments@.len(),
                    more == assignments@.map_values(
                        |assignment: Assignment| percent_point(assignment),
                    ),
                    points@ =~= before + more.take(j as int),
                decreases assignments@.len() - j,
            {
                let marker = assignments[j].marker;
                points.push(
                    KeyPoint { x_frac: marker.x as i64 * 10, y_frac: marker.y as i64 * 10 },
                );
                j += 1;
            }
            assert(more.take(more.len() as int) =~= more);
        }
        i += 1;
    }
    by_x(&points)
}

/// A coordinate in pixels as a fraction of a size.
pub open spec fn pixel_fraction(coordinate: i32, size: u32) -> int {
    if coordinate <= 0 {
        0
    } else if size == 0 {
        WHOLE as int
    } else {
        clamped((coordinate * 1000) / size as int)
    }
}

fn to_pixel_fraction(coordinate: i32, size: u32) -> (part: i64)
    ensures
        part == pixel_fraction(coordinate, size),
        0 <= part <= WHOLE,
{
    if coordinate <= 0 {
        0
    } else if size == 0 {
        WHOLE as i64
    } else {
        let scaled: i64 = coordinate as i64 * 1000;
        assert(0 <= scaled as int / size as int <= scaled) by (nonlinear_arith)
            requires
                0 <= scaled,
                0 < size,
        ;
        clamp(scaled / size as i64)
    }
}

/// The markers among the first `upto` that are given in pixels: a percentage
/// exceeds a hundred in neither direction.
pub open spec fn pixel_points(image: ImageEntry, upto: int) -> Seq<KeyPoint>
    decreases upto,
{
    if upto <= 0 {
        seq![]
    } else {
        let rest = pixel_points(image, upto - 1);
        let marker = image.assignments@[upto - 1].marker;
        if marker.x > 100_000 || marker.y > 100_000 {
            rest.push(
                KeyPoint {
                    x_frac: pixel_fraction(marker.x, image.origin.width) as i64,
                    y_frac: pixel_fraction(marker.y, image.origin.height) as i64,
                },
            )
        } else {
            rest
        }
    }
}

/// The gaps between the first `upto` points and those next to them that are
/// not empty.
pub open spec fn gaps(points: Seq<KeyPoint>, upto: int) -> Seq<i64>
    decreases upto,
{
    if upto <= 0 {
        seq![]
    } else {
        let rest = gaps(points, upto - 1);
        let gap = points[upto].x_frac - points[upto - 1].x_frac;
        if gap > 0 {
            rest.push(gap as i64)
        } else {
            rest
        }
    }
}

/// Whether `pitch` is the middle one of the gaps, the greater of two.
pub open spec fn is_median(gaps: Seq<i64>, pitch: i64) -> bool {
    exists|i: int|
        0 <= i < gaps.len() && #[trigger] gaps[i] == pitch && rank(gaps, everyone(gaps.len()), i)
            == gaps.len() as int / 2
}

/// Whether all points are on the picture from left to right.
pub open spec fn within_width(points: Seq<KeyPoint>) -> bool {
    forall|i: int| 0 <= i < points.len() ==> 0 <= (#[trigger] points[i]).x_frac <= WHOLE
}

/// The distance of two keys: the middle one of the gaps between neighbours,
/// which is not led astray by wider gaps between groups.
pub fn median_pitch(points: &Vec<KeyPoint>) -> (pitch: Option<i64>)
    requires
        within_width(points@),
    ensures
        match pitch {
            Some(pitch) => is_median(gaps(points@, points@.len() - 1), pitch) && 0 < pitch <= WHOLE,
            None => gaps(points@, points@.len() - 1).len() == 0,
        },
{
    if points.len() == 0 {
        return None;
    }
    let mut found: Vec<i64> = Vec::new();
    let mut i: usize = 0;
    while i < points.len() - 1
        invariant
            1 <= points.len(),
            i <= points.len() - 1,
            within_width(points@),
            found@ == gaps(points@, i as int),
            forall|j: int| 0 <= j < found@.len() ==> 0 < #[trigger] found@[j] <= WHOLE,
        decreases points@.len() - i,
    {
        assert(0 <= points@[i as int].x_frac <= WHOLE);
        assert(0 <= points@[i + 1].x_frac <= WHOLE);
        let gap: i64 = points[i + 1].x_frac - points[i].x_frac;
        if gap > 0 {
            found.push(gap);
        }
        i += 1;
    }
    if found.len() == 0 {
        return None;
    }
    let sorted = sorted_by(&found, &found);
    let middle = found.len() / 2;
    proof {
        let at = every_place_is_taken(found@, middle as int);
        assert(found@[at] == sorted@[middle as int]);
    }
    Some(sorted[middle])
}

/// Whether a picture can mark keys in pixels.
pub open spec fn marks_pixels(image: ImageEntry) -> bool {
    image.key@ == "device_image"@ && image.assignments@.len() > 0
}

/// Whether `at` is the first picture that can mark keys in pixels.
pub open spec fn pixel_image(images: Seq<ImageEntry>, at: int) -> bool {
    &&& 0 <= at < images.len()
    &&& marks_pixels(images[at])
    &&& forall|i: int| 0 <= i < at ==> !marks_pixels(#[trigger] images[i])
}

/// Where Esc is, by F1 and the distance of two keys.
pub open spec fn esc_beside(first: KeyPoint, pitch: int) -> KeyPoint {
    let x = first.x_frac - (ESC_LEFT_OF_F1 * pitch) / 100;
    KeyPoint {
        x_frac: if x < 0 {
            0
        } else {
            x as i64
        },
        y_frac: first.y_frac,
    }
}

/// Whether `markers` are the keys that a picture marks in pixels, from left to
/// right: at least two and no more than the row has besides Esc, with a gap
/// between some, on the very picture that is shown.
pub open spec fn legacy_markers(markers: Seq<KeyPoint>, asset: ResolvedAsset, at: int) -> bool {
    let image = asset.metadata.images@[at];
    let all = pixel_points(image, image.assignments@.len() as int);
    &&& pixel_image(asset.metadata.images@, at)
    &&& image.origin.width == asset.png_width
    &&& image.origin.height == asset.png_height
    &&& 2 <= all.len() <= ROW_KEYS - 1
    &&& in_order(xs(all), all, markers)
    &&& gaps(markers, markers.len() - 1).len() > 0
}

/// Whether `points` are Esc and the keys that a picture marks in pixels.
pub open spec fn legacy_points(points: Seq<KeyPoint>, asset: ResolvedAsset) -> bool {
    exists|at: int, pitch: i64|
        #![trigger legacy_markers(points.skip(1), asset, at), is_median(
            gaps(points.skip(1), points.skip(1).len() - 1),
            pitch,
        )]
        points.len() > 1 && legacy_markers(points.skip(1), asset, at) && is_median(
            gaps(points.skip(1), points.skip(1).len() - 1),
            pitch,
        ) && points[0] == esc_beside(points[1], pitch as int)
}

fn find_pixel_image(images: &Vec<ImageEntry>) -> (found: Option<usize>)
    ensures
        match found {
            Some(at) => pixel_image(images@, at as int),
            None => forall|i: int|
                0 <= i < images@.len() ==> !marks_pixels(#[trigger] images@[i]),
        },
{
    let mut i: usize = 0;
    while i < images.len()
        invariant
            i <= images@.len(),
            forall|j: int| 0 <= j < i ==> !marks_pixels(#[trigger] images@[j]),
        decreases images@.len() - i,
    {
        if images[i].assignments.len() > 0 && same_text(images[i].key.as_str(), "device_image") {
            return Some(i);
        }
        i += 1;
    }
    None
}

fn points_in_pixels(image: &ImageEntry) -> (points: Vec<KeyPoint>)
    ensures
        points@ == pixel_points(*image, image.assignments@.len() as int),
        within_width(points@),
{
    let mut points: Vec<KeyPoint> = Vec::new();
    let mut i: usize = 0;
    while i < image.assignments.len()
        invariant
            i <= image.assignments@.len(),
            points@ == pixel_points(*image, i as int),
            within_width(points@),
        decreases image.assignments@.len() - i,
    {
        let marker = image.assignments[i].marker;
        if marker.x > 100_000 || marker.y > 100_000 {
            let x_frac = to_pixel_fraction(marker.x, image.origin.width);
            let y_frac = to_pixel_fraction(marker.y, image.origin.height);
            points.push(KeyPoint { x_frac, y_frac });
        }
        i += 1;
    }
    points
}

proof fn one_pixel_image(images: Seq<ImageEntry>, a: int, b: int)
    requires
        pixel_image(images, a),
        pixel_image(images, b),
    ensures
        a == b,
{
    if a < b {
        assert(!marks_pixels(images[a]));
    } else if b < a {
        assert(!marks_pixels(images[b]));
    }
}

proof fn one_order(keys: Seq<i64>, items: Seq<KeyPoint>, a: Seq<KeyPoint>, b: Seq<KeyPoint>)
    requires
        keys.len() == items.len(),
        in_order(keys, items, a),
        in_order(keys, items, b),
    ensures
        a == b,
{
    assert forall|r: int| 0 <= r < a.len() implies a[r] == b[r] by {
        let i = every_place_is_taken(keys, r);
        assert(a[rank(keys, everyone(keys.len()), i)] == items[i]);
        assert(b[rank(keys, everyone(keys.len()), i)] == items[i]);
    }
    assert(a =~= b);
}

/// Esc and the keys that the shown picture marks in pixels, or `None` if it
/// does not. Markers that were authored on another picture do not count.
pub fn legacy_pixel_key_points(asset: &ResolvedAsset) -> (points: Option<Vec<KeyPoint>>)
    ensures
        match points {
            Some(points) => legacy_points(points@, *asset) && 3 <= points@.len() <= ROW_KEYS,
            None => forall|markers: Seq<KeyPoint>, at: int|
                !legacy_markers(markers, *asset, at),
        },
{
    let images = &asset.metadata.images;
    let at: usize = match find_pixel_image(images) {
        Some(at) => at,
        None => {
            return None;
        },
    };
    let image = &images[at];
    proof {
        assert forall|markers: Seq<KeyPoint>, other: int| legacy_markers(
            markers,
            *asset,
            other,
        ) implies other == at by {
            one_pixel_image(images@, at as int, other);
        }
    }
    if image.origin.width != asset.png_width || image.origin.height != asset.png_height {
        return None;
    }
    let all = points_in_pixels(image);
    if all.len() < 2 || all.len() > ROW_KEYS - 1 {
        return None;
    }
    let markers = by_x(&all);
    proof {
        assert forall|i: int| 0 <= i < markers@.len() implies 0 <= (
        #[trigger] markers@[i]).x_frac <= WHOLE by {
            let from = every_place_is_taken(xs(all@), i);
            assert(all@[from] == markers@[i]);
        }
        assert forall|other: Seq<KeyPoint>, k: int| legacy_markers(
            other,
            *asset,
            k,
        ) implies other == markers@ by {
            one_order(xs(all@), all@, markers@, other);
        }
    }
    let pitch = match median_pitch(&markers) {
        Some(pitch) => pitch,
        None => {
            return None;
        },
    };
    assert(0 <= markers@[0].x_frac <= WHOLE);
    let first = markers[0];
    let x: i64 = first.x_frac - (ESC_LEFT_OF_F1 * pitch) / 100;
    let esc = KeyPoint {
        x_frac: if x < 0 {
            0
        } else {
            x
        },
        y_frac: first.y_frac,
    };
    let mut points: Vec<KeyPoint> = Vec::new();
    points.push(esc);
    let ghost listed = markers@;
    push_all(&mut points, &markers, 0, markers.len());
    assert(points@.skip(1) =~= listed);
    assert(legacy_markers(points@.skip(1), *asset, at as int));
    assert(is_median(gaps(points@.skip(1), points@.skip(1).len() - 1), pitch));
    Some(points)
}

fn push_all(points: &mut Vec<KeyPoint>, more: &Vec<KeyPoint>, from: usize, to: usize)
    requires
        from <= to <= more@.len(),
    ensures
        final(points)@ == old(points)@ + more@.subrange(from as int, to as int),
{
    let mut i: usize = from;
    assert(points@ =~= old(points)@ + more@.subrange(from as int, from as int));
    while i < to
        invariant
            from <= i <= to <= more@.len(),
            points@ == old(points)@ + more@.subrange(from as int, i as int),
        decreases to - i,
    {
        points.push(more[i]);
        assert(points@ =~= old(points)@ + more@.subrange(from as int, i + 1));
        i += 1;
    }
}

/// Where the key of a marker is that is given in percent.
pub open spec fn calibrated(raw: KeyPoint) -> KeyPoint {
    KeyPoint {
        x_frac: clamped(raw.x_frac + FRONT_MARKER_X_OFFSET) as i64,
        y_frac: clamped(raw.y_frac + FRONT_MARKER_Y_OFFSET) as i64,
    }
}

/// The keys of markers that are given in percent.
pub open spec fn all_calibrated(raw: Seq<KeyPoint>) -> Seq<KeyPoint> {
    raw.map_values(|point: KeyPoint| calibrated(point))
}

/// Where Esc is, by the marker of F1.
pub open spec fn esc_before(first: KeyPoint) -> KeyPoint {
    let x = first.x_frac - 45_000;
    KeyPoint {
        x_frac: if x < 20_000 {
            20_000
        } else {
            x as i64
        },
        y_frac: calibrated(first).y_frac,
    }
}

/// Whether no coordinate is near the limits of its type.
pub open spec fn moderate(points: Seq<KeyPoint>) -> bool {
    forall|i: int|
        #![trigger points[i]]
        0 <= i < points.len() ==> -30_000_000_000 <= points[i].x_frac <= 30_000_000_000
            && -30_000_000_000 <= points[i].y_frac <= 30_000_000_000
}

proof fn markers_are_moderate(images: Seq<ImageEntry>, set: MarkerSet, upto: int)
    requires
        0 <= upto <= images.len(),
    ensures
        moderate(marker_points(images, set, upto)),
    decreases upto,
{
    if upto > 0 {
        markers_are_moderate(images, set, upto - 1);
        let rest = marker_points(images, set, upto - 1);
        let all = marker_points(images, set, upto);
        assert forall|i: int|
            #![trigger all[i]]
            0 <= i < all.len() implies -30_000_000_000 <= all[i].x_frac <= 30_000_000_000
            && -30_000_000_000 <= all[i].y_frac <= 30_000_000_000 by {
            if i < rest.len() {
                assert(all[i] == rest[i]);
            }
        }
    }
}

proof fn sorted_markers_are_moderate(points: Seq<KeyPoint>, images: Seq<ImageEntry>, set: MarkerSet)
    requires
        marks(points, images, set),
    ensures
        moderate(points),
{
    let all = marker_points(images, set, images.len() as int);
    markers_are_moderate(images, set, images.len() as int);
    assert forall|i: int|
        #![trigger points[i]]
        0 <= i < points.len() implies -30_000_000_000 <= points[i].x_frac <= 30_000_000_000
        && -30_000_000_000 <= points[i].y_frac <= 30_000_000_000 by {
        let from = every_place_is_taken(xs(all), i);
        assert(all[from] == points[i]);
    }
}

fn calibrated_marker_point(raw: KeyPoint) -> (point: KeyPoint)
    requires
        -30_000_000_000 <= raw.x_frac <= 30_000_000_000,
        -30_000_000_000 <= raw.y_frac <= 30_000_000_000,
    ensures
        point == calibrated(raw),
{
    KeyPoint {
        x_frac: clamp(raw.x_frac + FRONT_MARKER_X_OFFSET),
        y_frac: clamp(raw.y_frac + FRONT_MARKER_Y_OFFSET),
    }
}

fn synthesized_esc_point(first: KeyPoint) -> (point: KeyPoint)
    requires
        -30_000_000_000 <= first.x_frac <= 30_000_000_000,
        -30_000_000_000 <= first.y_frac <= 30_000_000_000,
    ensures
        point == esc_before(first),
{
    let x: i64 = first.x_frac - 45_000;
    KeyPoint {
        x_frac: if x < 20_000 {
            20_000
        } else {
            x
        },
        y_frac: calibrated_marker_point(first).y_frac,
    }
}

fn push_calibrated(points: &mut Vec<KeyPoint>, raw: &Vec<KeyPoint>, from: usize, to: usize)
    requires
        from <= to <= raw@.len(),
        moderate(raw@),
    ensures
        final(points)@ == old(points)@ + all_calibrated(raw@.subrange(from as int, to as int)),
{
    let mut i: usize = from;
    assert(points@ =~= old(points)@ + all_calibrated(raw@.subrange(from as int, from as int)));
    while i < to
        invariant
            from <= i <= to <= raw@.len(),
            moderate(raw@),
            points@ == old(points)@ + all_calibrated(raw@.subrange(from as int, i as int)),
        decreases to - i,
    {
        assert(raw@[i as int] == raw@[i as int]);
        points.push(calibrated_marker_point(raw[i]));
        assert(points@ =~= old(points)@ + all_calibrated(raw@.subrange(from as int, i + 1)));
        i += 1;
    }
}

/// Where a key is, of keys that are spread evenly.
pub open spec fn even_point(i: int) -> KeyPoint {
    KeyPoint {
        x_frac: (EVEN_SPACING_START + ((EVEN_SPACING_END - EVEN_SPACING_START) * i) / (ROW_KEYS
            - 1)) as i64,
        y_frac: FALLBACK_KEY_Y,
    }
}

/// The whole row, spread evenly.
pub open spec fn even_points() -> Seq<KeyPoint> {
    Seq::new(ROW_KEYS as nat, |i: int| even_point(i))
}

/// The whole row, spread evenly.
pub fn fallback_key_points() -> (points: Vec<KeyPoint>)
    ensures
        points@ == even_points(),
{
    let mut points: Vec<KeyPoint> = Vec::new();
    let mut i: i64 = 0;
    while i < 20
        invariant
            0 <= i <= 20,
            points@ =~= even_points().take(i as int),
        decreases 20 - i,
    {
        let x_frac: i64 = EVEN_SPACING_START + ((EVEN_SPACING_END - EVEN_SPACING_START) * i) / 19;
        points.push(KeyPoint { x_frac, y_frac: FALLBACK_KEY_Y });
        i += 1;
    }
    points
}

/// Where the keys are by markers in percent: the keys' own markers, with the
/// keys that switch between computers in the place of F13 to F15 where they are
/// marked apart; without enough markers, spread evenly.
pub open spec fn percent_points(keys: Seq<KeyPoint>, easy_switch: Seq<KeyPoint>) -> Seq<KeyPoint> {
    if keys.len() >= 16 && easy_switch.len() >= 3 {
        seq![esc_before(keys[0])] + all_calibrated(keys.take(12)) + all_calibrated(
            easy_switch.take(3),
        ) + all_calibrated(keys.skip(keys.len() - 4))
    } else if keys.len() >= ROW_KEYS - 1 {
        seq![esc_before(keys[0])] + all_calibrated(keys.take(ROW_KEYS - 1))
    } else {
        even_points()
    }
}

/// Whether `points` are where the keys are that the art shows: by markers in
/// pixels, else by markers in percent, else spread evenly. They stand for the
/// first keys of the row.
pub open spec fn shows_keys(points: Seq<KeyPoint>, asset: Option<&ResolvedAsset>) -> bool {
    match asset {
        None => points == even_points(),
        Some(asset) => if exists|markers: Seq<KeyPoint>, at: int| #[trigger]
            legacy_markers(markers, *asset, at) {
            legacy_points(points, *asset)
        } else {
            exists|keys: Seq<KeyPoint>, easy_switch: Seq<KeyPoint>|
                marks(keys, asset.metadata.images@, MarkerSet::Keys) && marks(
                    easy_switch,
                    asset.metadata.images@,
                    MarkerSet::EasySwitch,
                ) && points == #[trigger] percent_points(keys, easy_switch)
        },
    }
}

/// Where the keys are that the art shows.
pub fn key_points(asset: Option<&ResolvedAsset>) -> (points: Vec<KeyPoint>)
    ensures
        shows_keys(points@, asset),
        3 <= points@.len() <= ROW_KEYS,
{
    let art = match asset {
        Some(art) => art,
        None => {
            return fallback_key_points();
        },
    };
    if let Some(points) = legacy_pixel_key_points(art) {
        proof {
            let (at, pitch) = choose|at: int, pitch: i64|
                #![trigger legacy_markers(points@.skip(1), *art, at), is_median(
                    gaps(points@.skip(1), points@.skip(1).len() - 1),
                    pitch,
                )]
                points@.len() > 1 && legacy_markers(points@.skip(1), *art, at) && is_median(
                    gaps(points@.skip(1), points@.skip(1).len() - 1),
                    pitch,
                ) && points@[0] == esc_beside(points@[1], pitch as int);
            assert(legacy_markers(points@.skip(1), *art, at));
        }
        return points;
    }
    let keys = sorted_marker_points(art, MarkerSet::Keys);
    let easy_switch = sorted_marker_points(art, MarkerSet::EasySwitch);
    proof {
        sorted_markers_are_moderate(keys@, art.metadata.images@, MarkerSet::Keys);
        sorted_markers_are_moderate(easy_switch@, art.metadata.images@, MarkerSet::EasySwitch);
    }
    let ghost shown = percent_points(keys@, easy_switch@);
    let mut points: Vec<KeyPoint> = Vec::new();
    if keys.len() >= 16 && easy_switch.len() >= 3 {
        assert(keys@[0] == keys@[0]);
        points.push(synthesized_esc_point(keys[0]));
        push_calibrated(&mut points, &keys, 0, 12);
        push_calibrated(&mut points, &easy_switch, 0, 3);
        push_calibrated(&mut points, &keys, keys.len() - 4, keys.len());
        assert(points@ =~= shown);
        return points;
    }
    if keys.len() >= ROW_KEYS - 1 {
        assert(keys@[0] == keys@[0]);
        points.push(synthesized_esc_point(keys[0]));
        push_calibrated(&mut points, &keys, 0, ROW_KEYS - 1);
        assert(points@ =~= shown);
        return points;
    }
    let points = fallback_key_points();
    assert(points@ == percent_points(keys@, easy_switch@));
    points
}

/// Keys that are marked in pixels are on the picture and stand from left to
/// right, Esc first.
pub proof fn legacy_keys_stand_in_order(points: Seq<KeyPoint>, asset: ResolvedAsset, i: int, j: int)
    requires
        legacy_points(points, asset),
        0 <= i < j < points.len(),
    ensures
        0 <= points[i].x_frac <= points[j].x_frac,
{
    let (at, pitch) = choose|at: int, pitch: i64|
        #![trigger legacy_markers(points.skip(1), asset, at), is_median(
            gaps(points.skip(1), points.skip(1).len() - 1),
            pitch,
        )]
        points.len() > 1 && legacy_markers(points.skip(1), asset, at) && is_median(
            gaps(points.skip(1), points.skip(1).len() - 1),
            pitch,
        ) && points[0] == esc_beside(points[1], pitch as int);
    let markers = points.skip(1);
    let image = asset.metadata.images@[at];
    let all = pixel_points(image, image.assignments@.len() as int);
    pixel_points_fit(image, image.assignments@.len() as int);
    let a = every_place_is_taken(xs(all), j - 1);
    assert(all[a] == markers[j - 1]);
    assert(0 <= all[a].x_frac);
    let b = every_place_is_taken(xs(all), 0);
    assert(all[b] == markers[0]);
    assert(0 <= all[b].x_frac);
    if i >= 1 {
        let from = order_follows_keys(xs(all), all, markers, i - 1, j - 1);
        assert(0 <= all[from.0].x_frac);
    } else {
        assert forall|m: int| 0 <= m < markers.len() implies 0 <= (#[trigger] markers[m]).x_frac
            <= WHOLE by {
            let from = every_place_is_taken(xs(all), m);
            assert(all[from] == markers[m]);
        }
        gaps_are_wide(markers, markers.len() - 1);
        let k = choose|k: int|
            0 <= k < gaps(markers, markers.len() - 1).len() && #[trigger] gaps(
                markers,
                markers.len() - 1,
            )[k] == pitch && rank(
                gaps(markers, markers.len() - 1),
                everyone(gaps(markers, markers.len() - 1).len()),
                k,
            ) == gaps(markers, markers.len() - 1).len() as int / 2;
        assert(0 < gaps(markers, markers.len() - 1)[k]);
        if j > 1 {
            let from = order_follows_keys(xs(all), all, markers, 0, j - 1);
        }
    }
}

proof fn pixel_points_fit(image: ImageEntry, upto: int)
    requires
        0 <= upto <= image.assignments@.len(),
    ensures
        within_width(pixel_points(image, upto)),
    decreases upto,
{
    if upto > 0 {
        pixel_points_fit(image, upto - 1);
    }
}

proof fn gaps_are_wide(points: Seq<KeyPoint>, upto: int)
    requires
        0 <= upto < points.len(),
        within_width(points),
    ensures
        forall|k: int| 0 <= k < gaps(points, upto).len() ==> 0 < #[trigger] gaps(points, upto)[k],
    decreases upto,
{
    if upto > 0 {
        gaps_are_wide(points, upto - 1);
        assert(0 <= points[upto].x_frac <= WHOLE);
        assert(0 <= points[upto - 1].x_frac <= WHOLE);
        let rest = gaps(points, upto - 1);
        assert forall|k: int| 0 <= k < gaps(points, upto).len() implies 0 < #[trigger] gaps(
            points,
            upto,
        )[k] by {
            if k < rest.len() {
                assert(gaps(points, upto)[k] == rest[k]);
            }
        }
    }
}

/// Keys that are spread evenly go from the start to the end of their band, in
/// order.
pub proof fn even_keys_stand_in_order(i: int, j: int)
    requires
        0 <= i < j < ROW_KEYS,
    ensures
        even_points()[0].x_frac == EVEN_SPACING_START,
        even_points()[ROW_KEYS - 1].x_frac == EVEN_SPACING_END,
        EVEN_SPACING_START <= even_points()[i].x_frac < even_points()[j].x_frac
            <= EVEN_SPACING_END,
{
}

} // verus!
