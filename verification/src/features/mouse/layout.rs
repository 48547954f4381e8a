//! Where the labels of the mouse panel go.
//!
//! Labels stand evenly spaced down one or both sides of the picture, in the
//! order of the controls that they name, so that their leader lines do not
//! cross. Back and Forward stay together. All lengths are in thousandths of a
//! pixel.

use crate::binding::ButtonId;
use crate::features::mouse::hotspots::{
    default_hotspots, plain_hotspots, thumbwheel_hotspot, Hotspot, MouseControlId,
    MOUSE_MODEL_SIZE,
};
use crate::rank::{
    an_end_has_its_rank, an_end_is_found, before, count, everyone, rank, ranks, ranks_are_few,
    ranks_follow_keys, size,
};
use vstd::prelude::*;

verus! {

/// How high a label is.
pub const LABEL_H: u32 = 56_000;

/// The gap between the labels of Back and Forward, where there is room to pull
/// them closer than the even spacing.
pub const NAVIGATION_GROUP_GAP: u32 = 16_000;

/// Whether labels stand on one side of the picture or on both.
#[derive(Debug, Clone, Copy, PartialEq, Eq, Structural)]
pub enum LabelDistribution {
    LeftOnly,
    BothSides,
}

/// A side of the picture.
#[derive(Debug, Clone, Copy, PartialEq, Eq, Structural)]
pub enum Side {
    Left,
    Right,
}

/// A label: which control it names, and where it stands.
#[derive(Debug, Clone, Copy, PartialEq, Eq, Structural)]
pub struct Label {
    pub id: MouseControlId,
    pub side: Side,
    pub y: u32,
}

/// The order of the controls from left to right.
pub open spec fn columns(hotspots: Seq<Hotspot>) -> Seq<i64> {
    hotspots.map_values(|hotspot: Hotspot| hotspot.twice_center_x() as i64)
}

/// The order of the controls from top to bottom.
pub open spec fn rows(hotspots: Seq<Hotspot>) -> Seq<i64> {
    hotspots.map_values(|hotspot: Hotspot| hotspot.twice_center_y() as i64)
}

/// The side that the label of control `i` stands on: with labels on both sides,
/// the left half of the controls has theirs on the left, the larger half if the
/// halves differ.
pub open spec fn side_of(hotspots: Seq<Hotspot>, distribution: LabelDistribution, i: int) -> Side {
    if distribution == LabelDistribution::BothSides && rank(
        columns(hotspots),
        everyone(hotspots.len()),
        i,
    ) >= (hotspots.len() + 1) / 2 {
        Side::Right
    } else {
        Side::Left
    }
}

/// Which controls have their label on `side`.
pub open spec fn on_side(
    hotspots: Seq<Hotspot>,
    distribution: LabelDistribution,
    side: Side,
) -> Seq<bool> {
    Seq::new(hotspots.len(), |i: int| side_of(hotspots, distribution, i) == side)
}

/// The least place of a member with this id among the first `upto` controls.
pub open spec fn first_place(
    hotspots: Seq<Hotspot>,
    members: Seq<bool>,
    id: MouseControlId,
    upto: int,
) -> Option<int>
    decreases upto,
{
    if upto <= 0 {
        None
    } else {
        let least = first_place(hotspots, members, id, upto - 1);
        if members[upto - 1] && hotspots[upto - 1].id == id {
            let place = rank(rows(hotspots), members, upto - 1);
            match least {
                Some(least) if least <= place => Some(least),
                _ => Some(place),
            }
        } else {
            least
        }
    }
}

/// The places of Back and of Forward on a side.
pub open spec fn navigation(hotspots: Seq<Hotspot>, members: Seq<bool>) -> Option<(int, int)> {
    match (
        first_place(
            hotspots,
            members,
            MouseControlId::Button(ButtonId::Back),
            hotspots.len() as int,
        ),
        first_place(
            hotspots,
            members,
            MouseControlId::Button(ButtonId::Forward),
            hotspots.len() as int,
        ),
    ) {
        (Some(back), Some(forward)) => if back <= forward {
            Some((back, forward))
        } else {
            Some((forward, back))
        },
        _ => None,
    }
}

/// The place of a label after the second of Back and Forward was moved up right
/// behind the first.
pub open spec fn regrouped(place: int, pair: Option<(int, int)>) -> int {
    match pair {
        Some((first, second)) => if place == second {
            first + 1
        } else if first < place < second {
            place + 1
        } else {
            place
        },
        None => place,
    }
}

/// The distance of two labels that stand next to each other on a side with
/// `size` of them.
pub open spec fn spacing(mouse_h: u32, size: int) -> int {
    mouse_h as int / (size + 1)
}

/// By how much Back and Forward are each moved towards the other.
pub open spec fn pull(step: int) -> int {
    if step > LABEL_H + NAVIGATION_GROUP_GAP {
        (step - (LABEL_H + NAVIGATION_GROUP_GAP)) / 2
    } else {
        0
    }
}

/// How far down the label at `place` stands.
pub open spec fn height(place: int, step: int, pair: Option<(int, int)>) -> int {
    step * (place + 1) + match pair {
        Some((first, _)) => if place == first {
            pull(step)
        } else if place == first + 1 {
            -pull(step)
        } else {
            0
        },
        None => 0,
    }
}

/// How far down the label of control `i` stands.
pub open spec fn label_height(
    hotspots: Seq<Hotspot>,
    mouse_h: u32,
    distribution: LabelDistribution,
    i: int,
) -> int {
    let members = on_side(hotspots, distribution, side_of(hotspots, distribution, i));
    let pair = navigation(hotspots, members);
    height(
        regrouped(rank(rows(hotspots), members, i), pair),
        spacing(mouse_h, count(members, hotspots.len() as int)),
        pair,
    )
}

/// Whether `labels` are the labels of the controls.
pub open spec fn lays_out(
    labels: Seq<Label>,
    hotspots: Seq<Hotspot>,
    mouse_h: u32,
    distribution: LabelDistribution,
) -> bool {
    &&& labels.len() == hotspots.len()
    &&& forall|i: int|
        #![trigger labels[i]]
        0 <= i < labels.len() ==> labels[i].id == hotspots[i].id && labels[i].side == side_of(
            hotspots,
            distribution,
            i,
        ) && labels[i].y == label_height(hotspots, mouse_h, distribution, i)
}

proof fn first_place_is_a_place(
    hotspots: Seq<Hotspot>,
    members: Seq<bool>,
    id: MouseControlId,
    upto: int,
) -> (at: int)
    requires
        0 <= upto <= hotspots.len(),
        members.len() == hotspots.len(),
    ensures
        first_place(hotspots, members, id, upto) matches Some(place) ==> {
            &&& 0 <= at < upto
            &&& members[at]
            &&& hotspots[at].id == id
            &&& place == rank(rows(hotspots), members, at)
            &&& 0 <= place < count(members, hotspots.len() as int)
        },
    decreases upto,
{
    if upto <= 0 {
        0
    } else {
        let at = first_place_is_a_place(hotspots, members, id, upto - 1);
        ranks_are_few(rows(hotspots), members, upto - 1, hotspots.len() as int);
        if first_place(hotspots, members, id, upto) == first_place(
            hotspots,
            members,
            id,
            upto - 1,
        ) {
            at
        } else {
            upto - 1
        }
    }
}

proof fn pair_is_ordered(hotspots: Seq<Hotspot>, members: Seq<bool>)
    requires
        members.len() == hotspots.len(),
    ensures
        navigation(hotspots, members) matches Some((first, second)) ==> 0 <= first < second
            < count(members, hotspots.len() as int),
{
    let n = hotspots.len() as int;
    let back = first_place_is_a_place(
        hotspots,
        members,
        MouseControlId::Button(ButtonId::Back),
        n,
    );
    let forward = first_place_is_a_place(
        hotspots,
        members,
        MouseControlId::Button(ButtonId::Forward),
        n,
    );
    if navigation(hotspots, members) is Some {
        assert(back != forward);
        if before(rows(hotspots), back, forward) {
            ranks_follow_keys(rows(hotspots), members, back, forward, n);
        } else {
            ranks_follow_keys(rows(hotspots), members, forward, back, n);
        }
    }
}

fn least_place(
    hotspots: &Vec<Hotspot>,
    members: &Vec<bool>,
    places: &Vec<usize>,
    id: MouseControlId,
) -> (found: Option<usize>)
    requires
        members@.len() == hotspots@.len(),
        places@.len() == hotspots@.len(),
        forall|i: int|
            0 <= i < hotspots@.len() ==> #[trigger] places@[i] == rank(
                rows(hotspots@),
                members@,
                i,
            ),
    ensures
        match found {
            Some(place) => first_place(hotspots@, members@, id, hotspots@.len() as int) == Some(
                place as int,
            ),
            None => first_place(hotspots@, members@, id, hotspots@.len() as int) is None,
        },
{
    let mut found: Option<usize> = None;
    let mut i: usize = 0;
    while i < hotspots.len()
        invariant
            i <= hotspots@.len(),
            members@.len() == hotspots@.len(),
            places@.len() == hotspots@.len(),
            forall|k: int|
                0 <= k < hotspots@.len() ==> #[trigger] places@[k] == rank(
                    rows(hotspots@),
                    members@,
                    k,
                ),
            match found {
                Some(place) => first_place(hotspots@, members@, id, i as int) == Some(
                    place as int,
                ),
                None => first_place(hotspots@, members@, id, i as int) is None,
            },
        decreases hotspots@.len() - i,
    {
        if members[i] && hotspots[i].id == id {
            match found {
                Some(least) if least <= places[i] => {},
                _ => {
                    found = Some(places[i]);
                },
            }
        }
        i += 1;
    }
    found
}

fn sides(hotspots: &Vec<Hotspot>, distribution: LabelDistribution) -> (sides: Vec<Side>)
    ensures
        sides@.len() == hotspots@.len(),
        forall|i: int|
            0 <= i < sides@.len() ==> #[trigger] sides@[i] == side_of(hotspots@, distribution, i),
{
    let mut keys: Vec<i64> = Vec::new();
    let mut members: Vec<bool> = Vec::new();
    let mut i: usize = 0;
    while i < hotspots.len()
        invariant
            i <= hotspots@.len(),
            keys@ =~= columns(hotspots@).take(i as int),
            members@ =~= everyone(i as nat),
        decreases hotspots@.len() - i,
    {
        keys.push(hotspots[i].twice_center().0);
        members.push(true);
        i += 1;
    }
    assert(keys@ =~= columns(hotspots@));
    let places = ranks(&keys, &members);
    let half: usize = hotspots.len() / 2 + hotspots.len() % 2;
    let mut sides: Vec<Side> = Vec::new();
    let mut k: usize = 0;
    while k < hotspots.len()
        invariant
            k <= hotspots@.len(),
            places@.len() == hotspots@.len(),
            half == (hotspots@.len() + 1) / 2,
            forall|i: int|
                0 <= i < hotspots@.len() ==> #[trigger] places@[i] == rank(
                    columns(hotspots@),
                    everyone(hotspots@.len()),
                    i,
                ),
            sides@.len() == k,
            forall|i: int|
                0 <= i < k ==> #[trigger] sides@[i] == side_of(hotspots@, distribution, i),
        decreases hotspots@.len() - k,
    {
        if distribution == LabelDistribution::BothSides && places[k] >= half {
            sides.push(Side::Right);
        } else {
            sides.push(Side::Left);
        }
        k += 1;
    }
    sides
}

fn to_pull(step: u32) -> (by: u32)
    ensures
        by == pull(step as int),
        2 * by <= step,
{
    if step > LABEL_H + NAVIGATION_GROUP_GAP {
        (step - (LABEL_H + NAVIGATION_GROUP_GAP)) / 2
    } else {
        0
    }
}

/// The labels of the controls: evenly down one side, or both.
pub fn labels_from_hotspots(
    hotspots: &Vec<Hotspot>,
    mouse_h: u32,
    distribution: LabelDistribution,
) -> (labels: Vec<Label>)
    ensures
        lays_out(labels@, hotspots@, mouse_h, distribution),
{
    let all = sides(hotspots, distribution);
    let left = heights(hotspots, mouse_h, distribution, &all, Side::Left);
    let right = heights(hotspots, mouse_h, distribution, &all, Side::Right);
    let mut labels: Vec<Label> = Vec::new();
    let mut i: usize = 0;
    while i < hotspots.len()
        invariant
            i <= hotspots@.len(),
            all@.len() == hotspots@.len(),
            left@.len() == hotspots@.len(),
            right@.len() == hotspots@.len(),
            forall|k: int|
                0 <= k < all@.len() ==> #[trigger] all@[k] == side_of(hotspots@, distribution, k),
            forall|k: int|
                0 <= k < left@.len() && side_of(hotspots@, distribution, k) == Side::Left
                    ==> #[trigger] left@[k] == label_height(hotspots@, mouse_h, distribution, k),
            forall|k: int|
                0 <= k < right@.len() && side_of(hotspots@, distribution, k) == Side::Right
                    ==> #[trigger] right@[k] == label_height(hotspots@, mouse_h, distribution, k),
            labels@.len() == i,
            forall|k: int|
                #![trigger labels@[k]]
                0 <= k < i ==> labels@[k].id == hotspots@[k].id && labels@[k].side == side_of(
                    hotspots@,
                    distribution,
                    k,
                ) && labels@[k].y == label_height(hotspots@, mouse_h, distribution, k),
        decreases hotspots@.len() - i,
    {
        let y: u32 = match all[i] {
            Side::Left => left[i],
            Side::Right => right[i],
        };
        labels.push(Label { id: hotspots[i].id, side: all[i], y });
        i += 1;
    }
    labels
}

fn heights(
    hotspots: &Vec<Hotspot>,
    mouse_h: u32,
    distribution: LabelDistribution,
    all: &Vec<Side>,
    side: Side,
) -> (heights: Vec<u32>)
    requires
        all@.len() == hotspots@.len(),
        forall|i: int|
            0 <= i < all@.len() ==> #[trigger] all@[i] == side_of(hotspots@, distribution, i),
    ensures
        heights@.len() == hotspots@.len(),
        forall|i: int|
            0 <= i < heights@.len() && side_of(hotspots@, distribution, i) == side
                ==> #[trigger] heights@[i] == label_height(hotspots@, mouse_h, distribution, i),
{
    let mut keys: Vec<i64> = Vec::new();
    let mut members: Vec<bool> = Vec::new();
    let ghost crew = on_side(hotspots@, distribution, side);
    let mut i: usize = 0;
    while i < hotspots.len()
        invariant
            i <= hotspots@.len(),
            all@.len() == hotspots@.len(),
            forall|k: int|
                0 <= k < all@.len() ==> #[trigger] all@[k] == side_of(hotspots@, distribution, k),
            crew == on_side(hotspots@, distribution, side),
            keys@ =~= rows(hotspots@).take(i as int),
            members@ =~= crew.take(i as int),
        decreases hotspots@.len() - i,
    {
        keys.push(hotspots[i].twice_center().1);
        members.push(all[i] == side);
        i += 1;
    }
    assert(keys@ =~= rows(hotspots@));
    assert(members@ =~= crew);
    let places = ranks(&keys, &members);
    let back = least_place(
        hotspots,
        &members,
        &places,
        MouseControlId::Button(ButtonId::Back),
    );
    let forward = least_place(
        hotspots,
        &members,
        &places,
        MouseControlId::Button(ButtonId::Forward),
    );
    let crowd = size(&members);
    let step: u32 = ((mouse_h as u128) / (crowd as u128 + 1)) as u32;
    let by = to_pull(step);
    let ghost pair = navigation(hotspots@, crew);
    proof {
        pair_is_ordered(hotspots@, crew);
    }
    let mut heights: Vec<u32> = Vec::new();
    let mut k: usize = 0;
    while k < hotspots.len()
        invariant
            k <= hotspots@.len(),
            members@ == crew,
            crew == on_side(hotspots@, distribution, side),
            places@.len() == hotspots@.len(),
            forall|i: int|
                0 <= i < hotspots@.len() ==> #[trigger] places@[i] == rank(
                    rows(hotspots@),
                    crew,
                    i,
                ),
            crowd == count(crew, hotspots@.len() as int),
            step == spacing(mouse_h, crowd as int),
            by == pull(step as int),
            2 * by <= step,
            pair == navigation(hotspots@, crew),
            pair == match (back, forward) {
                (Some(back), Some(forward)) => if back <= forward {
                    Some((back as int, forward as int))
                } else {
                    Some((forward as int, back as int))
                },
                _ => None,
            },
            pair matches Some((first, second)) ==> 0 <= first < second < crowd,
            heights@.len() == k,
            forall|i: int|
                0 <= i < k && side_of(hotspots@, distribution, i) == side ==> #[trigger] heights@[i]
                    == label_height(hotspots@, mouse_h, distribution, i),
        decreases hotspots@.len() - k,
    {
        if !members[k] {
            heights.push(0);
        } else {
            proof {
                ranks_are_few(rows(hotspots@), crew, k as int, hotspots@.len() as int);
            }
            let place = places[k];
            let mut y: u32 = 0;
            match (back, forward) {
                (Some(back), Some(forward)) => {
                    let (first, second): (usize, usize) = if back <= forward {
                        (back, forward)
                    } else {
                        (forward, back)
                    };
                    let moved: usize = if place == second {
                        first + 1
                    } else if first < place && place < second {
                        place + 1
                    } else {
                        place
                    };
                    proof {
                        rung_fits(mouse_h, crowd as int, moved as int);
                    }
                    y = ((step as u64) * (moved as u64 + 1)) as u32;
                    if moved == first {
                        proof {
                            rung_fits(mouse_h, crowd as int, moved + 1);
                            rungs_are_apart(step as int, moved as int);
                        }
                        y = y + by;
                    } else if moved == first + 1 {
                        proof {
                            rungs_are_apart(step as int, moved - 1);
                        }
                        y = y - by;
                    }
                },
                _ => {
                    proof {
                        rung_fits(mouse_h, crowd as int, place as int);
                    }
                    y = ((step as u64) * (place as u64 + 1)) as u32;
                },
            }
            heights.push(y);
        }
        k += 1;
    }
    heights
}

proof fn rungs_are_apart(step: int, place: int)
    requires
        0 <= step,
        0 <= place,
    ensures
        step * (place + 2) == step * (place + 1) + step,
        0 <= step * (place + 1),
{
    assert(step * (place + 2) == step * (place + 1) + step) by (nonlinear_arith);
    assert(0 <= step * (place + 1)) by (nonlinear_arith)
        requires
            0 <= step,
            0 <= place,
    ;
}

proof fn rung_fits(mouse_h: u32, size: int, place: int)
    requires
        0 <= place < size,
    ensures
        0 <= spacing(mouse_h, size) * (place + 1) <= mouse_h,
{
    let step = spacing(mouse_h, size);
    assert(step * (size + 1) <= mouse_h && 0 <= step) by (nonlinear_arith)
        requires
            step == mouse_h as int / (size + 1),
            0 <= size,
            0 <= mouse_h,
    ;
    assert(0 <= step * (place + 1) <= step * (size + 1)) by (nonlinear_arith)
        requires
            0 <= step,
            0 <= place < size,
    ;
}

/// The labels of the plain silhouette.
pub fn default_labels(thumbwheel: bool, distribution: LabelDistribution) -> (labels: Vec<Label>)
    ensures
        lays_out(
            labels@,
            if thumbwheel {
                plain_hotspots().push(thumbwheel_hotspot())
            } else {
                plain_hotspots()
            },
            MOUSE_MODEL_SIZE.1,
            distribution,
        ),
{
    labels_from_hotspots(&default_hotspots(thumbwheel), MOUSE_MODEL_SIZE.1, distribution)
}

/// The place of control `i`'s label on its side, counted from the top.
pub open spec fn place_of(hotspots: Seq<Hotspot>, distribution: LabelDistribution, i: int) -> int {
    let members = on_side(hotspots, distribution, side_of(hotspots, distribution, i));
    regrouped(rank(rows(hotspots), members, i), navigation(hotspots, members))
}

proof fn places_differ(hotspots: Seq<Hotspot>, distribution: LabelDistribution, i: int, j: int)
    requires
        0 <= i < hotspots.len(),
        0 <= j < hotspots.len(),
        i != j,
        side_of(hotspots, distribution, i) == side_of(hotspots, distribution, j),
    ensures
        place_of(hotspots, distribution, i) != place_of(hotspots, distribution, j),
        0 <= place_of(hotspots, distribution, i) < count(
            on_side(hotspots, distribution, side_of(hotspots, distribution, i)),
            hotspots.len() as int,
        ),
        0 <= place_of(hotspots, distribution, j),
{
    let members = on_side(hotspots, distribution, side_of(hotspots, distribution, i));
    let n = hotspots.len() as int;
    ranks_are_few(rows(hotspots), members, i, n);
    ranks_are_few(rows(hotspots), members, j, n);
    pair_is_ordered(hotspots, members);
    if before(rows(hotspots), i, j) {
        ranks_follow_keys(rows(hotspots), members, i, j, n);
    } else {
        ranks_follow_keys(rows(hotspots), members, j, i, n);
    }
}

proof fn heights_follow_places(a: int, b: int, step: int, pair: Option<(int, int)>)
    requires
        0 <= a < b,
        1 <= step,
    ensures
        height(a, step, pair) < height(b, step, pair),
{
    assert(step * (b + 1) >= step * (a + 2)) by (nonlinear_arith)
        requires
            1 <= step,
            a < b,
    ;
    rungs_are_apart(step, a);
    if b > a + 1 {
        assert(step * (b + 1) >= step * (a + 3)) by (nonlinear_arith)
            requires
                1 <= step,
                a + 1 < b,
        ;
        rungs_are_apart(step, a + 1);
    }
}

/// No two labels of a side stand at the same height, where the picture is high
/// enough for one step each.
pub proof fn labels_stand_apart(
    hotspots: Seq<Hotspot>,
    mouse_h: u32,
    distribution: LabelDistribution,
    i: int,
    j: int,
)
    requires
        0 <= i < hotspots.len(),
        0 <= j < hotspots.len(),
        i != j,
        side_of(hotspots, distribution, i) == side_of(hotspots, distribution, j),
        mouse_h > hotspots.len(),
    ensures
        label_height(hotspots, mouse_h, distribution, i) != label_height(
            hotspots,
            mouse_h,
            distribution,
            j,
        ),
{
    let members = on_side(hotspots, distribution, side_of(hotspots, distribution, i));
    let pair = navigation(hotspots, members);
    places_differ(hotspots, distribution, i, j);
    let step = wide_enough(hotspots, mouse_h, members);
    let a = place_of(hotspots, distribution, i);
    let b = place_of(hotspots, distribution, j);
    if a < b {
        heights_follow_places(a, b, step, pair);
    } else {
        heights_follow_places(b, a, step, pair);
    }
}

proof fn wide_enough(hotspots: Seq<Hotspot>, mouse_h: u32, members: Seq<bool>) -> (step: int)
    requires
        members.len() == hotspots.len(),
        mouse_h > hotspots.len(),
    ensures
        step == spacing(mouse_h, count(members, hotspots.len() as int)),
        step >= 1,
{
    let n = hotspots.len() as int;
    ranks_are_few(rows(hotspots), members, 0, n);
    let size = count(members, n);
    assert(mouse_h as int / (size + 1) >= 1) by (nonlinear_arith)
        requires
            0 <= size < mouse_h,
    ;
    spacing(mouse_h, size)
}

/// Labels of a side stand in the order of their controls, so that their leader
/// lines do not cross. The one that may be out of order is the second of Back
/// and Forward, which goes with the first.
pub proof fn labels_follow_their_controls(
    hotspots: Seq<Hotspot>,
    mouse_h: u32,
    distribution: LabelDistribution,
    i: int,
    j: int,
)
    requires
        0 <= i < hotspots.len(),
        0 <= j < hotspots.len(),
        side_of(hotspots, distribution, i) == side_of(hotspots, distribution, j),
        before(rows(hotspots), i, j),
        mouse_h > hotspots.len(),
        hotspots[j].id != MouseControlId::Button(ButtonId::Back),
        hotspots[j].id != MouseControlId::Button(ButtonId::Forward),
    ensures
        label_height(hotspots, mouse_h, distribution, i) < label_height(
            hotspots,
            mouse_h,
            distribution,
            j,
        ),
{
    let members = on_side(hotspots, distribution, side_of(hotspots, distribution, i));
    let pair = navigation(hotspots, members);
    let n = hotspots.len() as int;
    places_differ(hotspots, distribution, i, j);
    ranks_follow_keys(rows(hotspots), members, i, j, n);
    ranks_are_few(rows(hotspots), members, i, n);
    pair_is_ordered(hotspots, members);
    if pair is Some {
        not_second(hotspots, members, j);
    }
    let step = wide_enough(hotspots, mouse_h, members);
    heights_follow_places(
        place_of(hotspots, distribution, i),
        place_of(hotspots, distribution, j),
        step,
        pair,
    );
}

proof fn not_second(hotspots: Seq<Hotspot>, members: Seq<bool>, j: int)
    requires
        members.len() == hotspots.len(),
        0 <= j < hotspots.len(),
        members[j],
        hotspots[j].id != MouseControlId::Button(ButtonId::Back),
        hotspots[j].id != MouseControlId::Button(ButtonId::Forward),
        navigation(hotspots, members) is Some,
    ensures
        navigation(hotspots, members) matches Some((first, second)) ==> rank(
            rows(hotspots),
            members,
            j,
        ) != first && rank(rows(hotspots), members, j) != second,
{
    let n = hotspots.len() as int;
    let back = first_place_is_a_place(
        hotspots,
        members,
        MouseControlId::Button(ButtonId::Back),
        n,
    );
    let forward = first_place_is_a_place(
        hotspots,
        members,
        MouseControlId::Button(ButtonId::Forward),
        n,
    );
    if before(rows(hotspots), back, j) {
        ranks_follow_keys(rows(hotspots), members, back, j, n);
    } else {
        ranks_follow_keys(rows(hotspots), members, j, back, n);
    }
    if before(rows(hotspots), forward, j) {
        ranks_follow_keys(rows(hotspots), members, forward, j, n);
    } else {
        ranks_follow_keys(rows(hotspots), members, j, forward, n);
    }
}

/// Back and Forward on the same side stand next to each other, no farther apart
/// than the even spacing, and a label's height and a gap apart where that is
/// less.
pub proof fn navigation_stays_together(
    hotspots: Seq<Hotspot>,
    mouse_h: u32,
    distribution: LabelDistribution,
    side: Side,
)
    requires
        navigation(hotspots, on_side(hotspots, distribution, side)) is Some,
    ensures
        ({
            let members = on_side(hotspots, distribution, side);
            let pair = navigation(hotspots, members);
            let (first, second) = pair->0;
            let step = spacing(mouse_h, count(members, hotspots.len() as int));
            let apart = height(regrouped(second, pair), step, pair) - height(
                regrouped(first, pair),
                step,
                pair,
            );
            &&& regrouped(second, pair) == regrouped(first, pair) + 1
            &&& apart <= step
            &&& step <= LABEL_H + NAVIGATION_GROUP_GAP ==> apart == step
            &&& step > LABEL_H + NAVIGATION_GROUP_GAP ==> LABEL_H + NAVIGATION_GROUP_GAP <= apart
                <= LABEL_H + NAVIGATION_GROUP_GAP + 1
        }),
{
    let members = on_side(hotspots, distribution, side);
    pair_is_ordered(hotspots, members);
    let pair = navigation(hotspots, members);
    let step = spacing(mouse_h, count(members, hotspots.len() as int));
    assert(0 <= step) by (nonlinear_arith)
        requires
            step == mouse_h as int / (count(members, hotspots.len() as int) + 1),
            0 <= mouse_h,
            0 < count(members, hotspots.len() as int),
    ;
    let (first, _) = pair->0;
    rungs_are_apart(step, first);
}

/// With labels on both sides and two controls or more, both sides are used.
pub proof fn both_sides_are_used(hotspots: Seq<Hotspot>) -> (ends: (int, int))
    requires
        hotspots.len() >= 2,
    ensures
        0 <= ends.0 < hotspots.len(),
        0 <= ends.1 < hotspots.len(),
        side_of(hotspots, LabelDistribution::BothSides, ends.0) == Side::Left,
        side_of(hotspots, LabelDistribution::BothSides, ends.1) == Side::Right,
{
    let keys = columns(hotspots);
    let n = keys.len() as int;
    let left = an_end_is_found(keys, n, false);
    let right = an_end_is_found(keys, n, true);
    an_end_has_its_rank(keys, left, n, false);
    an_end_has_its_rank(keys, right, n, true);
    (left, right)
}

/// The plain silhouette has a label for the thumb wheel exactly if it has one.
pub proof fn the_thumbwheel_has_one_label(
    labels: Seq<Label>,
    thumbwheel: bool,
    distribution: LabelDistribution,
)
    requires
        lays_out(
            labels,
            if thumbwheel {
                plain_hotspots().push(thumbwheel_hotspot())
            } else {
                plain_hotspots()
            },
            MOUSE_MODEL_SIZE.1,
            distribution,
        ),
    ensures
        thumbwheel ==> labels.last().id == MouseControlId::ThumbwheelRotation,
        forall|i: int|
            0 <= i < labels.len() && (#[trigger] labels[i]).id
                == MouseControlId::ThumbwheelRotation ==> thumbwheel && i == labels.len() - 1,
{
}

/// How many of the first `upto` controls are to the left of control `i`, or level
/// with it and listed before it.
pub open spec fn count_left(hotspots: Seq<Hotspot>, i: int, upto: int) -> int
    decreases upto,
{
    if upto <= 0 {
        0
    } else {
        let k = upto - 1;
        let (x, own) = (2 * hotspots[k].x + hotspots[k].w, 2 * hotspots[i].x + hotspots[i].w);
        count_left(hotspots, i, k) + if x < own || x == own && k < i {
            1int
        } else {
            0
        }
    }
}

/// A control's place from left to right is the number of those to its left.
pub proof fn left_is_counted(hotspots: Seq<Hotspot>, i: int, upto: int)
    requires
        0 <= i < hotspots.len(),
        0 <= upto <= hotspots.len(),
    ensures
        crate::rank::members_before(columns(hotspots), everyone(hotspots.len()), i, upto)
            == count_left(hotspots, i, upto),
    decreases upto,
{
    if upto > 0 {
        left_is_counted(hotspots, i, upto - 1);
    }
}

} // verus!
