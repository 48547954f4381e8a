//! Where the keys of the top row are, by the markers of the art.

use crate::features::keyboard::key_points::{
    gaps, is_median, key_points, legacy_markers, legacy_pixel_key_points, legacy_points,
    marker_points, marks, marks_pixels, pixel_image, pixel_points, sorted_marker_points, xs,
    KeyPoint, MarkerSet,
};
use crate::rank::{
    before, every_place_is_taken, everyone, in_order, order_follows_keys, rank, ranks_are_few,
    ranks_follow_keys,
};
use crate::services::assets::metadata::{Assignment, ImageEntry, ResolvedAsset};
use vstd::prelude::*;

verus! {

/// Whether a picture marks keys, or with `easy` the keys that switch between
/// computers.
pub open spec fn is_picture_of(image: ImageEntry, easy: bool) -> bool {
    if easy {
        image.key@ == "device_easyswitch_image"@
    } else {
        image.key@ == "device_keys_image"@ || image.key@ == "device_buttons_image"@
    }
}

/// The point of a marker in percent, which is given in thousandths.
pub open spec fn point_of(assignment: Assignment) -> KeyPoint {
    KeyPoint {
        x_frac: (10 * assignment.marker.x) as i64,
        y_frac: (10 * assignment.marker.y) as i64,
    }
}

/// How many markers the first `n` pictures of a sort hold.
pub open spec fn markers_of(images: Seq<ImageEntry>, easy: bool, n: int) -> nat
    decreases n,
{
    if n <= 0 {
        0
    } else if is_picture_of(images[n - 1], easy) {
        markers_of(images, easy, n - 1) + images[n - 1].assignments@.len()
    } else {
        markers_of(images, easy, n - 1)
    }
}

/// Which markers a set takes.
pub open spec fn set_of(easy: bool) -> MarkerSet {
    if easy {
        MarkerSet::EasySwitch
    } else {
        MarkerSet::Keys
    }
}

proof fn markers_are_counted(images: Seq<ImageEntry>, easy: bool, n: int)
    requires
        0 <= n <= images.len(),
    ensures
        marker_points(images, set_of(easy), n).len() == markers_of(images, easy, n),
    decreases n,
{
    if n > 0 {
        markers_are_counted(images, easy, n - 1);
    }
}

proof fn a_marker_is_listed(images: Seq<ImageEntry>, easy: bool, n: int, k: int, j: int) -> (at: int)
    requires
        0 <= k < n <= images.len(),
        is_picture_of(images[k], easy),
        0 <= j < images[k].assignments@.len(),
    ensures
        0 <= at < marker_points(images, set_of(easy), n).len(),
        marker_points(images, set_of(easy), n)[at] == point_of(images[k].assignments@[j]),
    decreases n,
{
    let rest = marker_points(images, set_of(easy), n - 1);
    if k == n - 1 {
        rest.len() + j
    } else {
        a_marker_is_listed(images, easy, n - 1, k, j)
    }
}

proof fn only_markers_are_listed(images: Seq<ImageEntry>, easy: bool, n: int, at: int) -> (from: (
    int,
    int,
))
    requires
        0 <= n <= images.len(),
        0 <= at < marker_points(images, set_of(easy), n).len(),
    ensures
        0 <= from.0 < n,
        is_picture_of(images[from.0], easy),
        0 <= from.1 < images[from.0].assignments@.len(),
        marker_points(images, set_of(easy), n)[at] == point_of(
            images[from.0].assignments@[from.1],
        ),
    decreases n,
{
    let rest = marker_points(images, set_of(easy), n - 1);
    if at < rest.len() {
        only_markers_are_listed(images, easy, n - 1, at)
    } else {
        (n - 1, at - rest.len())
    }
}

/// The markers of a set stand from left to right, each as often as it is marked:
/// every marker of its pictures is among them, and nothing else is.
pub proof fn markers_stand_from_left_to_right(
    asset: &ResolvedAsset,
    easy: bool,
    points: Vec<KeyPoint>,
    a: int,
    b: int,
    k: int,
    j: int,
)
    requires
        call_ensures(sorted_marker_points, (asset, set_of(easy)), points),
    ensures
        points@.len() == markers_of(asset.metadata.images@, easy, asset.metadata.images@.len() as int),
        0 <= a <= b < points@.len() ==> points@[a].x_frac <= points@[b].x_frac,
        0 <= k < asset.metadata.images@.len() && is_picture_of(asset.metadata.images@[k], easy)
            && 0 <= j < asset.metadata.images@[k].assignments@.len() ==> points@.contains(
            point_of(asset.metadata.images@[k].assignments@[j]),
        ),
        0 <= a < points@.len() ==> exists|m: int, n: int|
            0 <= m < asset.metadata.images@.len() && is_picture_of(
                asset.metadata.images@[m],
                easy,
            ) && 0 <= n < asset.metadata.images@[m].assignments@.len() && points@[a] == point_of(
                #[trigger] asset.metadata.images@[m].assignments@[n],
            ),
{
    let images = asset.metadata.images@;
    let n = images.len() as int;
    let all = marker_points(images, set_of(easy), n);
    markers_are_counted(images, easy, n);
    if 0 <= a < b < points@.len() {
        let from = order_follows_keys(xs(all), all, points@, a, b);
    }
    if 0 <= k < n && is_picture_of(images[k], easy) && 0 <= j < images[k].assignments@.len() {
        let at = a_marker_is_listed(images, easy, n, k, j);
        ranks_are_few(xs(all), everyone(xs(all).len()), at, xs(all).len() as int);
        assert(all[at] == points@[rank(xs(all), everyone(xs(all).len()), at)]);
    }
    if 0 <= a < points@.len() {
        let at = every_place_is_taken(xs(all), a);
        assert(all[at] == points@[a]);
        let from = only_markers_are_listed(images, easy, n, at);
        assert(points@[a] == point_of(images[from.0].assignments@[from.1]));
    }
}

/// A coordinate moved by an offset and brought onto the picture.
pub open spec fn moved(coordinate: int, offset: int) -> int {
    if coordinate + offset < 0 {
        0
    } else if coordinate + offset > 1_000_000 {
        1_000_000
    } else {
        coordinate + offset
    }
}

/// Whether a key is where its marker is, moved by the offsets of the picture.
pub open spec fn sits_at(point: KeyPoint, marker: KeyPoint) -> bool {
    point.x_frac == moved(marker.x_frac as int, 20_000) && point.y_frac == moved(
        marker.y_frac as int,
        23_000,
    )
}

proof fn markers_have_one_order(
    images: Seq<ImageEntry>,
    set: MarkerSet,
    a: Seq<KeyPoint>,
    b: Seq<KeyPoint>,
)
    requires
        marks(a, images, set),
        marks(b, images, set),
    ensures
        a == b,
{
    let all = marker_points(images, set, images.len() as int);
    same_order(xs(all), all, a, b);
}

proof fn same_order(keys: Seq<i64>, items: Seq<KeyPoint>, a: Seq<KeyPoint>, b: Seq<KeyPoint>)
    requires
        keys.len() == items.len(),
        in_order(keys, items, a),
        in_order(keys, items, b),
    ensures
        a == b,
{
    assert forall|r: int| 0 <= r < a.len() implies a[r] == b[r] by {
        let i = every_place_is_taken(keys, r);
        assert(a[rank(keys, everyone(keys.len()), i)] == items[i]);
        assert(b[rank(keys, everyone(keys.len()), i)] == items[i]);
    }
    assert(a =~= b);
}

proof fn percent_markers_count(
    asset: &ResolvedAsset,
    points: Vec<KeyPoint>,
    keys: Vec<KeyPoint>,
    easy: Vec<KeyPoint>,
)
    requires
        call_ensures(key_points, (Some(asset),), points),
        call_ensures(legacy_pixel_key_points, (asset,), None::<Vec<KeyPoint>>),
        call_ensures(sorted_marker_points, (asset, MarkerSet::Keys), keys),
        call_ensures(sorted_marker_points, (asset, MarkerSet::EasySwitch), easy),
    ensures
        points@ == crate::features::keyboard::key_points::percent_points(keys@, easy@),
{
    let images = asset.metadata.images@;
    assert(forall|markers: Seq<KeyPoint>, at: int| !legacy_markers(markers, *asset, at));
    let (a, b) = choose|a: Seq<KeyPoint>, b: Seq<KeyPoint>|
        marks(a, images, MarkerSet::Keys) && marks(b, images, MarkerSet::EasySwitch) && points@
            == #[trigger] crate::features::keyboard::key_points::percent_points(a, b);
    markers_have_one_order(images, MarkerSet::Keys, a, keys@);
    markers_have_one_order(images, MarkerSet::EasySwitch, b, easy@);
}

/// Art that marks no keys in pixels and at least nineteen in percent, and not
/// those apart that switch between computers: each key of the row after Esc is
/// where its marker is from the left, moved by the offsets of the picture and
/// brought onto it, and Esc stands to the left of the first, in its line.
pub proof fn a_fully_marked_row_follows_its_markers(
    asset: &ResolvedAsset,
    points: Vec<KeyPoint>,
    keys: Vec<KeyPoint>,
    easy: Vec<KeyPoint>,
    i: int,
)
    requires
        call_ensures(key_points, (Some(asset),), points),
        call_ensures(legacy_pixel_key_points, (asset,), None::<Vec<KeyPoint>>),
        call_ensures(sorted_marker_points, (asset, MarkerSet::Keys), keys),
        call_ensures(sorted_marker_points, (asset, MarkerSet::EasySwitch), easy),
        keys@.len() >= 19,
        easy@.len() < 3,
        1 <= i <= 19,
    ensures
        points@.len() == 20,
        sits_at(points@[i], keys@[i - 1]),
        points@[0].y_frac == points@[1].y_frac,
        points@[0].x_frac >= 20_000,
        points@[0].x_frac == 20_000 || points@[0].x_frac == keys@[0].x_frac - 45_000,
        keys@[0].x_frac >= 65_000 ==> points@[0].x_frac == keys@[0].x_frac - 45_000,
{
    percent_markers_count(asset, points, keys, easy);
}

/// Art that marks the keys apart that switch between computers: those are the
/// thirteenth to the fifteenth after Esc, with the first twelve markers of keys
/// before them and the last four behind.
pub proof fn easy_switch_keys_have_their_place(
    asset: &ResolvedAsset,
    points: Vec<KeyPoint>,
    keys: Vec<KeyPoint>,
    easy: Vec<KeyPoint>,
    i: int,
)
    requires
        call_ensures(key_points, (Some(asset),), points),
        call_ensures(legacy_pixel_key_points, (asset,), None::<Vec<KeyPoint>>),
        call_ensures(sorted_marker_points, (asset, MarkerSet::Keys), keys),
        call_ensures(sorted_marker_points, (asset, MarkerSet::EasySwitch), easy),
        keys@.len() >= 16,
        easy@.len() >= 3,
    ensures
        points@.len() == 20,
        1 <= i <= 12 ==> sits_at(points@[i], keys@[i - 1]),
        13 <= i <= 15 ==> sits_at(points@[i], easy@[i - 13]),
        16 <= i <= 19 ==> sits_at(points@[i], keys@[keys@.len() - 20 + i]),
        points@[0].y_frac == points@[1].y_frac,
        points@[0].x_frac == 20_000 || points@[0].x_frac == keys@[0].x_frac - 45_000,
        keys@[0].x_frac >= 65_000 ==> points@[0].x_frac == keys@[0].x_frac - 45_000,
{
    percent_markers_count(asset, points, keys, easy);
}

/// Whether the row is spread evenly over the picture: at one height, the first
/// key near the left border and the last near the right one, with equal gaps
/// but for rounding.
pub open spec fn spread_evenly(points: Seq<KeyPoint>) -> bool {
    &&& points.len() == 20
    &&& points[0].x_frac == 40_000
    &&& points[19].x_frac == 960_000
    &&& forall|i: int| 0 <= i < 20 ==> (#[trigger] points[i]).y_frac == 153_000
    &&& forall|i: int|
        0 <= i < 20 ==> 0 <= 920_000 * i - 19 * ((#[trigger] points[i]).x_frac - 40_000) < 19
}

proof fn evenly(points: Seq<KeyPoint>)
    requires
        points == crate::features::keyboard::key_points::even_points(),
    ensures
        spread_evenly(points),
{
}

/// Without art, the row is spread evenly.
pub proof fn without_art_the_row_is_even(points: Vec<KeyPoint>)
    requires
        call_ensures(key_points, (None::<&ResolvedAsset>,), points),
    ensures
        spread_evenly(points@),
{
    evenly(points@);
}

/// Art with too few markers: the row is spread evenly.
pub proof fn a_hardly_marked_row_is_even(
    asset: &ResolvedAsset,
    points: Vec<KeyPoint>,
    keys: Vec<KeyPoint>,
    easy: Vec<KeyPoint>,
)
    requires
        call_ensures(key_points, (Some(asset),), points),
        call_ensures(legacy_pixel_key_points, (asset,), None::<Vec<KeyPoint>>),
        call_ensures(sorted_marker_points, (asset, MarkerSet::Keys), keys),
        call_ensures(sorted_marker_points, (asset, MarkerSet::EasySwitch), easy),
        keys@.len() < 16 || keys@.len() < 19 && easy@.len() < 3,
    ensures
        spread_evenly(points@),
{
    percent_markers_count(asset, points, keys, easy);
    evenly(points@);
}

/// Whether a marker is given in pixels rather than in percent.
pub open spec fn in_pixels(assignment: Assignment) -> bool {
    assignment.marker.x > 100_000 || assignment.marker.y > 100_000
}

proof fn few_pixels_no_points(image: ImageEntry, n: int)
    requires
        0 <= n <= image.assignments@.len(),
        forall|j: int|
            0 <= j < image.assignments@.len() ==> !in_pixels(#[trigger] image.assignments@[j]),
    ensures
        pixel_points(image, n).len() == 0,
    decreases n,
{
    if n > 0 {
        few_pixels_no_points(image, n - 1);
        assert(!in_pixels(image.assignments@[n - 1]));
    }
}

/// Markers in pixels count on the picture of the device alone, and only if they
/// were made on a picture of the size that is shown.
pub proof fn other_markers_are_not_in_pixels(
    asset: &ResolvedAsset,
    points: Option<Vec<KeyPoint>>,
)
    requires
        call_ensures(legacy_pixel_key_points, (asset,), points),
        forall|k: int|
            #![trigger asset.metadata.images@[k]]
            0 <= k < asset.metadata.images@.len() ==> {
                let image = asset.metadata.images@[k];
                ||| image.key@ != "device_image"@
                ||| image.origin.width != asset.png_width
                ||| image.origin.height != asset.png_height
                ||| forall|j: int|
                    0 <= j < image.assignments@.len() ==> !in_pixels(
                        #[trigger] image.assignments@[j],
                    )
            },
    ensures
        points is None,
{
    if let Some(points) = points {
        let (at, pitch) = choose|at: int, pitch: i64|
            #![trigger legacy_markers(points@.skip(1), *asset, at), is_median(
                gaps(points@.skip(1), points@.skip(1).len() - 1),
                pitch,
            )]
            points@.len() > 1 && legacy_markers(points@.skip(1), *asset, at) && is_median(
                gaps(points@.skip(1), points@.skip(1).len() - 1),
                pitch,
            ) && points@[0] == crate::features::keyboard::key_points::esc_beside(
                points@[1],
                pitch as int,
            );
        let image = asset.metadata.images@[at];
        few_pixels_no_points(image, image.assignments@.len() as int);
        assert(false);
    }
}

/// A coordinate in pixels, in thousandths, as a part of a size.
pub open spec fn is_part_of(part: int, coordinate: int, size: int) -> bool {
    &&& 0 <= part <= 1_000_000
    &&& coordinate <= 0 ==> part == 0
    &&& coordinate > 0 && size == 0 ==> part == 1_000_000
    &&& 0 < size && 0 < coordinate <= 1000 * size ==> part * size <= 1000 * coordinate < (part + 1)
        * size
    &&& 0 < size && coordinate > 1000 * size ==> part == 1_000_000
}

proof fn fractions_are_parts(coordinate: i32, size: u32)
    ensures
        is_part_of(
            crate::features::keyboard::key_points::pixel_fraction(coordinate, size),
            coordinate as int,
            size as int,
        ),
{
    if coordinate > 0 && size > 0 {
        let scaled = coordinate * 1000;
        let s = size as int;
        let q = scaled / s;
        assert(q * s <= scaled < (q + 1) * s && 0 <= q) by (nonlinear_arith)
            requires
                0 < s,
                0 <= scaled,
                q == scaled / s,
        ;
        if coordinate <= 1000 * s {
            assert(q <= 1_000_000) by (nonlinear_arith)
                requires
                    0 < s,
                    q * s <= scaled,
                    scaled <= 1_000_000 * s,
            ;
        } else {
            assert(q >= 1_000_000) by (nonlinear_arith)
                requires
                    0 < s,
                    scaled < (q + 1) * s,
                    scaled >= 1_000_000 * s,
            ;
        }
    }
}

proof fn pixels_are_listed(image: ImageEntry, n: int, j: int) -> (at: int)
    requires
        0 <= n <= image.assignments@.len(),
        forall|m: int|
            0 <= m < image.assignments@.len() ==> in_pixels(#[trigger] image.assignments@[m]),
    ensures
        pixel_points(image, n).len() == n,
        0 <= j < n ==> at == j && is_part_of(
            pixel_points(image, n)[j].x_frac as int,
            image.assignments@[j].marker.x as int,
            image.origin.width as int,
        ) && is_part_of(
            pixel_points(image, n)[j].y_frac as int,
            image.assignments@[j].marker.y as int,
            image.origin.height as int,
        ),
    decreases n,
{
    if n > 0 {
        assert(in_pixels(image.assignments@[n - 1]));
        let m = pixels_are_listed(image, n - 1, j);
        fractions_are_parts(image.assignments@[n - 1].marker.x, image.origin.width);
        fractions_are_parts(image.assignments@[n - 1].marker.y, image.origin.height);
    }
    j
}

/// Keys that the shown picture marks in pixels: each marker has its key, as a
/// part of the picture's size; the keys stand from left to right behind Esc,
/// which is in the line of the first and to its left by about one and a half of
/// the gaps between them.
pub proof fn pixel_markers_are_parts_of_the_picture(
    asset: &ResolvedAsset,
    points: Vec<KeyPoint>,
    at: int,
    j: int,
    a: int,
    b: int,
) -> (place: int)
    requires
        call_ensures(legacy_pixel_key_points, (asset,), Some(points)),
        0 <= at < asset.metadata.images@.len(),
        asset.metadata.images@[at].key@ == "device_image"@,
        forall|k: int|
            0 <= k < at ==> (#[trigger] asset.metadata.images@[k]).key@ != "device_image"@,
        forall|m: int|
            0 <= m < asset.metadata.images@[at].assignments@.len() ==> in_pixels(
                #[trigger] asset.metadata.images@[at].assignments@[m],
            ),
        0 <= j < asset.metadata.images@[at].assignments@.len(),
    ensures
        points@.len() == asset.metadata.images@[at].assignments@.len() + 1,
        1 <= place < points@.len(),
        is_part_of(
            points@[place].x_frac as int,
            asset.metadata.images@[at].assignments@[j].marker.x as int,
            asset.metadata.images@[at].origin.width as int,
        ),
        is_part_of(
            points@[place].y_frac as int,
            asset.metadata.images@[at].assignments@[j].marker.y as int,
            asset.metadata.images@[at].origin.height as int,
        ),
        1 <= a <= b < points@.len() ==> points@[a].x_frac <= points@[b].x_frac,
        points@[0].y_frac == points@[1].y_frac,
        0 <= points@[0].x_frac <= points@[1].x_frac,
{
    let images = asset.metadata.images@;
    let (k, pitch) = choose|k: int, pitch: i64|
        #![trigger legacy_markers(points@.skip(1), *asset, k), is_median(
            gaps(points@.skip(1), points@.skip(1).len() - 1),
            pitch,
        )]
        points@.len() > 1 && legacy_markers(points@.skip(1), *asset, k) && is_median(
            gaps(points@.skip(1), points@.skip(1).len() - 1),
            pitch,
        ) && points@[0] == crate::features::keyboard::key_points::esc_beside(
            points@[1],
            pitch as int,
        );
    let markers = points@.skip(1);
    assert(pixel_image(images, k));
    if k < at {
        assert(images[k].key@ != "device_image"@);
    }
    if at < k {
        assert(!marks_pixels(images[at]));
    }
    assert(k == at);
    let image = images[at];
    let n = image.assignments@.len() as int;
    let all = pixel_points(image, n);
    let m = pixels_are_listed(image, n, j);
    let keys = xs(all);
    ranks_are_few(keys, everyone(keys.len()), j, keys.len() as int);
    let place = rank(keys, everyone(keys.len()), j);
    assert(all[j] == markers[place]);
    assert(markers[place] == points@[place + 1]);
    if 1 <= a < b < points@.len() {
        let from = order_follows_keys(keys, all, markers, a - 1, b - 1);
    }
    crate::features::keyboard::key_points::legacy_keys_stand_in_order(points@, *asset, 0, 1);
    place + 1
}

/// The keys of art that marks them in pixels are those markers' keys.
pub proof fn pixel_markers_come_first(
    asset: &ResolvedAsset,
    points: Vec<KeyPoint>,
    legacy: Vec<KeyPoint>,
    i: int,
)
    requires
        call_ensures(key_points, (Some(asset),), points),
        call_ensures(legacy_pixel_key_points, (asset,), Some(legacy)),
        0 <= i < legacy@.len(),
    ensures
        points@.len() == legacy@.len(),
        points@[i] == legacy@[i],
{
    let (k, p) = a_legacy_row(legacy@, *asset);
    assert(legacy_markers(legacy@.skip(1), *asset, k));
    let (m, q) = a_legacy_row(points@, *asset);
    let images = asset.metadata.images@;
    if k < m {
        assert(!marks_pixels(images[k]));
    }
    if m < k {
        assert(!marks_pixels(images[m]));
    }
    let image = images[k];
    let all = pixel_points(image, image.assignments@.len() as int);
    same_order(xs(all), all, legacy@.skip(1), points@.skip(1));
    one_median(gaps(legacy@.skip(1), legacy@.skip(1).len() - 1), p, q);
    assert(legacy@[1] == legacy@.skip(1)[0]);
    assert(points@[1] == points@.skip(1)[0]);
    if i > 0 {
        assert(legacy@[i] == legacy@.skip(1)[i - 1]);
        assert(points@[i] == points@.skip(1)[i - 1]);
    }
}

proof fn a_legacy_row(points: Seq<KeyPoint>, asset: ResolvedAsset) -> (found: (int, i64))
    requires
        legacy_points(points, asset),
    ensures
        points.len() > 1,
        legacy_markers(points.skip(1), asset, found.0),
        is_median(gaps(points.skip(1), points.skip(1).len() - 1), found.1),
        points[0] == crate::features::keyboard::key_points::esc_beside(
            points[1],
            found.1 as int,
        ),
{
    choose|k: int, pitch: i64|
        #![trigger legacy_markers(points.skip(1), asset, k), is_median(
            gaps(points.skip(1), points.skip(1).len() - 1),
            pitch,
        )]
        points.len() > 1 && legacy_markers(points.skip(1), asset, k) && is_median(
            gaps(points.skip(1), points.skip(1).len() - 1),
            pitch,
        ) && points[0] == crate::features::keyboard::key_points::esc_beside(points[1], pitch as int)
}

proof fn one_median(gaps: Seq<i64>, p: i64, q: i64)
    requires
        is_median(gaps, p),
        is_median(gaps, q),
    ensures
        p == q,
{
    let i = choose|i: int|
        0 <= i < gaps.len() && #[trigger] gaps[i] == p && rank(gaps, everyone(gaps.len()), i)
            == gaps.len() as int / 2;
    let j = choose|j: int|
        0 <= j < gaps.len() && #[trigger] gaps[j] == q && rank(gaps, everyone(gaps.len()), j)
            == gaps.len() as int / 2;
    if i != j {
        if before(gaps, i, j) {
            ranks_follow_keys(gaps, everyone(gaps.len()), i, j, gaps.len() as int);
        } else {
            ranks_follow_keys(gaps, everyone(gaps.len()), j, i, gaps.len() as int);
        }
    }
}

/// Keys that are marked in pixels with one gap between neighbours: Esc is to the
/// left of the first by that gap and fifty-five hundredths of it, or at the
/// border.
pub proof fn esc_keeps_the_pitch(asset: &ResolvedAsset, points: Vec<KeyPoint>, gap: int)
    requires
        call_ensures(legacy_pixel_key_points, (asset,), Some(points)),
        0 < gap <= 1_000_000,
        forall|i: int|
            #![trigger points@[i]]
            1 <= i < points@.len() - 1 ==> points@[i + 1].x_frac - points@[i].x_frac == gap,
    ensures
        ({
            let off = points@[1].x_frac - points@[0].x_frac;
            ||| points@[0].x_frac > 0 && 100 * off <= 155 * gap < 100 * off + 100
            ||| points@[0].x_frac == 0 && 100 * off <= 155 * gap
        }),
{
    let (k, pitch) = a_legacy_row(points@, *asset);
    let markers = points@.skip(1);
    let n = markers.len() - 1;
    equal_gaps(markers, n, gap);
    let i = choose|i: int|
        0 <= i < gaps(markers, n).len() && #[trigger] gaps(markers, n)[i] == pitch && rank(
            gaps(markers, n),
            everyone(gaps(markers, n).len()),
            i,
        ) == gaps(markers, n).len() as int / 2;
    assert(gaps(markers, n)[i] == gap);
    crate::features::keyboard::key_points::legacy_keys_stand_in_order(points@, *asset, 0, 1);
}

proof fn equal_gaps(markers: Seq<KeyPoint>, n: int, gap: int)
    requires
        0 <= n < markers.len(),
        0 < gap <= 1_000_000,
        forall|i: int|
            #![trigger markers[i]]
            0 <= i < markers.len() - 1 ==> markers[i + 1].x_frac - markers[i].x_frac == gap,
    ensures
        forall|i: int| 0 <= i < gaps(markers, n).len() ==> #[trigger] gaps(markers, n)[i] == gap,
    decreases n,
{
    if n > 0 {
        equal_gaps(markers, n - 1, gap);
        assert(markers[n].x_frac - markers[n - 1].x_frac == gap);
        let rest = gaps(markers, n - 1);
        assert forall|i: int| 0 <= i < gaps(markers, n).len() implies #[trigger] gaps(
            markers,
            n,
        )[i] == gap by {
            if i < rest.len() {
                assert(gaps(markers, n)[i] == rest[i]);
            }
        }
    }
}

/// Two keys that the picture of the device marks in pixels, a millionth of its
/// width apart or more, make a row with Esc before them.
pub proof fn two_pixel_markers_make_a_row(
    asset: &ResolvedAsset,
    points: Option<Vec<KeyPoint>>,
    image: ImageEntry,
    a: int,
    b: int,
)
    requires
        call_ensures(legacy_pixel_key_points, (asset,), points),
        asset.metadata.images@.len() > 0,
        image == asset.metadata.images@[0],
        image.key@ == "device_image"@,
        image.origin.width == asset.png_width,
        image.origin.height == asset.png_height,
        image.assignments@.len() == 2,
        in_pixels(image.assignments@[0]),
        in_pixels(image.assignments@[1]),
        a == image.assignments@[0].marker.x,
        b == image.assignments@[1].marker.x,
        0 <= a <= 1000 * image.origin.width,
        0 <= b <= 1000 * image.origin.width,
        1000 * (a - b) >= image.origin.width || 1000 * (b - a) >= image.origin.width,
        image.origin.width > 0,
    ensures
        points matches Some(points) && points@.len() == 3 && points@[1].x_frac < points@[2].x_frac,
{
    let w = image.origin.width as int;
    reveal_with_fuel(pixel_points, 3);
    reveal_with_fuel(gaps, 3);
    reveal_with_fuel(crate::rank::members_before, 3);
    let all = pixel_points(image, 2);
    let p = (a * 1000) / w;
    let q = (b * 1000) / w;
    assert(0 <= p <= 1_000_000 && 0 <= q <= 1_000_000 && p != q) by (nonlinear_arith)
        requires
            w > 0,
            p == (a * 1000) / w,
            q == (b * 1000) / w,
            0 <= a <= 1000 * w,
            0 <= b <= 1000 * w,
            1000 * (a - b) >= w || 1000 * (b - a) >= w,
    ;
    if a == 0 {
        assert(p == 0) by (nonlinear_arith)
            requires
                w > 0,
                a == 0,
                p == (a * 1000) / w,
        ;
    }
    if b == 0 {
        assert(q == 0) by (nonlinear_arith)
            requires
                w > 0,
                b == 0,
                q == (b * 1000) / w,
        ;
    }
    assert(all.len() == 2);
    assert(all[0].x_frac == p);
    assert(all[1].x_frac == q);
    let keys = xs(all);
    assert(keys.len() == 2 && keys[0] == p && keys[1] == q);
    let n = everyone(2);
    assert(n[0] && n[1]);
    let sorted = if p < q {
        all
    } else {
        seq![all[1], all[0]]
    };
    assert(rank(keys, n, 0) == if p < q {
        0int
    } else {
        1
    });
    assert(rank(keys, n, 1) == if p < q {
        1int
    } else {
        0
    });
    assert(in_order(keys, all, sorted));
    assert(gaps(sorted, 1).len() == 1);
    assert(pixel_image(asset.metadata.images@, 0));
    assert(legacy_markers(sorted, *asset, 0));
    if let Some(points) = points {
        let (at, pitch) = choose|at: int, pitch: i64|
            #![trigger legacy_markers(points@.skip(1), *asset, at), is_median(
                gaps(points@.skip(1), points@.skip(1).len() - 1),
                pitch,
            )]
            points@.len() > 1 && legacy_markers(points@.skip(1), *asset, at) && is_median(
                gaps(points@.skip(1), points@.skip(1).len() - 1),
                pitch,
            ) && points@[0] == crate::features::keyboard::key_points::esc_beside(
                points@[1],
                pitch as int,
            );
        assert(at == 0) by {
            if at > 0 {
                assert(!marks_pixels(asset.metadata.images@[0]));
            }
        }
        let shown = points@.skip(1);
        assert(shown.len() == 2);
        assert(shown[rank(keys, n, 0)] == all[0]);
        assert(shown[rank(keys, n, 1)] == all[1]);
        assert(points@[1] == shown[0] && points@[2] == shown[1]);
    }
}

} // verus!
