//! Where the controls of a mouse and their labels are, and what the inspector
//! says of them.

use crate::binding::{Action, ButtonId, GestureDirection, GestureMap};
use crate::features::mouse::geometry::{
    asset_dimensions, asset_hotspots_for_png, assigned_control, canvas_width, fraction,
    hotspot_image_key, last_mark, map_slot_id, map_slot_name, marked_hotspots, marker_fractions,
    next_break, pictures_fit_their_box,
};
use crate::features::mouse::hotspots::{Hotspot, MouseControlId};
use crate::features::mouse::inspector::{
    binding_inspector, button_inspector, gesture_action, pick_target, thumbwheel_inspector,
    BindingInspectorData, BindingStatus, ButtonInspector, Inspector, PickTarget,
    ThumbwheelInspector,
};
use crate::features::mouse::layout::{
    columns, count_left, first_place, label_height, labels_follow_their_controls,
    labels_from_hotspots, labels_stand_apart, on_side, rows, side_of, Label, LabelDistribution,
};
use crate::features::mouse::thumbwheel::{ThumbwheelPair, ThumbwheelPreset};
use crate::rank::{before, count, everyone, members_before, ranks_follow_keys};
use crate::services::assets::metadata::{ImageEntry, ResolvedAsset};
use crate::text::{parse_small_number, stands_at};
use vstd::prelude::*;

verus! {

/// A picture is drawn as large as its box allows: it fills the box in one
/// direction, is not larger in the other, and keeps its proportions but for
/// rounding down.
pub proof fn a_picture_fills_its_box(
    png_width: u32,
    png_height: u32,
    target_h: u32,
    max_w: u32,
    size: (u32, u32),
)
    requires
        call_ensures(asset_dimensions, (png_width, png_height, target_h, max_w), size),
    ensures
        png_height == 0 ==> size == (260_000u32, 420_000u32),
        png_height > 0 ==> {
            &&& size.0 <= max_w
            &&& size.1 <= target_h
            &&& size.0 == max_w || size.1 == target_h
            &&& size.1 < target_h ==> size.1 * png_width <= max_w * png_height < (size.1 + 1)
                * png_width
            &&& size.0 < max_w ==> size.0 * png_height <= target_h * png_width < (size.0 + 1)
                * png_height
        },
{
    if png_height > 0 {
        pictures_fit_their_box(png_width, png_height, target_h, max_w);
    }
}

/// A marker in percent is that part of its canvas; one in pixels is its part of
/// the canvas' size. Neither leaves the canvas.
pub proof fn markers_are_parts_of_their_canvas(
    mx: i32,
    my: i32,
    origin_w: u32,
    origin_h: u32,
    parts: (u32, u32),
)
    requires
        call_ensures(marker_fractions, (mx, my, origin_w, origin_h), parts),
    ensures
        parts.0 <= 1_000_000,
        parts.1 <= 1_000_000,
        0 <= mx <= 100_000 && 0 <= my <= 100_000 ==> parts.0 == 10 * mx && parts.1 == 10 * my,
        mx < 0 ==> parts.0 == 0,
        my < 0 ==> parts.1 == 0,
        (mx > 100_000 || my > 100_000) && 0 <= mx <= 1000 * origin_w && 0 < origin_w ==> parts.0
            * origin_w <= 1000 * mx < (parts.0 + 1) * origin_w,
        (mx > 100_000 || my > 100_000) && 0 <= my <= 1000 * origin_h && 0 < origin_h ==> parts.1
            * origin_h <= 1000 * my < (parts.1 + 1) * origin_h,
{
    parts_of(mx, origin_w);
    parts_of(my, origin_h);
}

proof fn parts_of(coordinate: i32, origin: u32)
    ensures
        0 <= coordinate <= 1000 * origin && 0 < origin ==> fraction(coordinate, origin, true) * origin
            <= 1000 * coordinate < (fraction(coordinate, origin, true) + 1) * origin,
{
    if 0 <= coordinate <= 1000 * origin && 0 < origin {
        let scaled = coordinate * 1000;
        let o = origin as int;
        let q = scaled / o;
        assert(q * o <= scaled < (q + 1) * o && 0 <= q) by (nonlinear_arith)
            requires
                0 < o,
                0 <= scaled,
                q == scaled / o,
        ;
        assert(q <= 1_000_000) by (nonlinear_arith)
            requires
                0 < o,
                q * o <= scaled,
                scaled <= 1_000_000 * o,
        ;
    }
}

/// What each slot name of the art stands for.
pub proof fn slot_names_stand_for_their_controls(name: &str, control: Option<MouseControlId>)
    requires
        call_ensures(map_slot_name, (name,), control),
    ensures
        name@ == "SLOT_NAME_LEFT_BUTTON"@ ==> control == Some(
            MouseControlId::Button(ButtonId::LeftClick),
        ),
        name@ == "SLOT_NAME_RIGHT_BUTTON"@ ==> control == Some(
            MouseControlId::Button(ButtonId::RightClick),
        ),
        name@ == "SLOT_NAME_MIDDLE_BUTTON"@ ==> control == Some(
            MouseControlId::Button(ButtonId::MiddleClick),
        ),
        name@ == "SLOT_NAME_LEFT_SCROLL_BUTTON"@ || name@ == "SLOT_NAME_SCROLL_LEFT"@ ==> control
            == Some(MouseControlId::Button(ButtonId::WheelTiltLeft)),
        name@ == "SLOT_NAME_RIGHT_SCROLL_BUTTON"@ || name@ == "SLOT_NAME_SCROLL_RIGHT"@ ==> control
            == Some(MouseControlId::Button(ButtonId::WheelTiltRight)),
        name@ == "SLOT_NAME_BACK_BUTTON"@ ==> control == Some(
            MouseControlId::Button(ButtonId::Back),
        ),
        name@ == "SLOT_NAME_FORWARD_BUTTON"@ ==> control == Some(
            MouseControlId::Button(ButtonId::Forward),
        ),
        name@ == "SLOT_NAME_MODESHIFT_BUTTON"@ || name@ == "SLOT_NAME_DPI_BUTTON"@ ==> control
            == Some(MouseControlId::Button(ButtonId::DpiToggle)),
        name@ == "SLOT_NAME_THUMBWHEEL"@ ==> control == Some(MouseControlId::ThumbwheelRotation),
        name@ == "SLOT_NAME_GESTURE_BUTTON"@ ==> control == Some(
            MouseControlId::Button(ButtonId::GestureButton),
        ),
        name@ == "ASSIGNMENT_NAME_SHOW_RADIAL_MENU"@ ==> control == Some(
            MouseControlId::Button(ButtonId::HapticPanel),
        ),
{
    reveal_strlit("SLOT_NAME_LEFT_BUTTON");
    reveal_strlit("SLOT_NAME_RIGHT_BUTTON");
    reveal_strlit("SLOT_NAME_MIDDLE_BUTTON");
    reveal_strlit("SLOT_NAME_LEFT_SCROLL_BUTTON");
    reveal_strlit("SLOT_NAME_SCROLL_LEFT");
    reveal_strlit("SLOT_NAME_RIGHT_SCROLL_BUTTON");
    reveal_strlit("SLOT_NAME_SCROLL_RIGHT");
    reveal_strlit("SLOT_NAME_BACK_BUTTON");
    reveal_strlit("SLOT_NAME_FORWARD_BUTTON");
    reveal_strlit("SLOT_NAME_MODESHIFT_BUTTON");
    reveal_strlit("SLOT_NAME_DPI_BUTTON");
    reveal_strlit("SLOT_NAME_THUMBWHEEL");
    reveal_strlit("SLOT_NAME_GESTURE_BUTTON");
    reveal_strlit("ASSIGNMENT_NAME_SHOW_RADIAL_MENU");
    assert("SLOT_NAME_LEFT_BUTTON"@[10] == 'L' && "SLOT_NAME_LEFT_BUTTON"@.len() == 21);
    assert("SLOT_NAME_SCROLL_LEFT"@[10] == 'S' && "SLOT_NAME_SCROLL_LEFT"@.len() == 21);
    assert("SLOT_NAME_BACK_BUTTON"@[10] == 'B' && "SLOT_NAME_BACK_BUTTON"@.len() == 21);
    assert("SLOT_NAME_RIGHT_BUTTON"@[10] == 'R' && "SLOT_NAME_RIGHT_BUTTON"@.len() == 22);
    assert("SLOT_NAME_SCROLL_RIGHT"@[10] == 'S' && "SLOT_NAME_SCROLL_RIGHT"@.len() == 22);
    assert("SLOT_NAME_FORWARD_BUTTON"@[10] == 'F' && "SLOT_NAME_FORWARD_BUTTON"@.len() == 24);
    assert("SLOT_NAME_GESTURE_BUTTON"@[10] == 'G' && "SLOT_NAME_GESTURE_BUTTON"@.len() == 24);
    assert("SLOT_NAME_DPI_BUTTON"@[10] == 'D' && "SLOT_NAME_DPI_BUTTON"@.len() == 20);
    assert("SLOT_NAME_THUMBWHEEL"@[10] == 'T' && "SLOT_NAME_THUMBWHEEL"@.len() == 20);
    assert("SLOT_NAME_MIDDLE_BUTTON"@.len() == 23);
    assert("SLOT_NAME_LEFT_SCROLL_BUTTON"@.len() == 28);
    assert("SLOT_NAME_RIGHT_SCROLL_BUTTON"@.len() == 29);
    assert("SLOT_NAME_MODESHIFT_BUTTON"@.len() == 26);
    assert("ASSIGNMENT_NAME_SHOW_RADIAL_MENU"@.len() == 32);
}

/// The button of a number on a G-series mouse.
pub open spec fn g_button(number: u8) -> Option<ButtonId> {
    if number == 1 {
        Some(ButtonId::LeftClick)
    } else if number == 2 {
        Some(ButtonId::RightClick)
    } else if number == 3 {
        Some(ButtonId::MiddleClick)
    } else if number == 4 {
        Some(ButtonId::Back)
    } else if number == 5 {
        Some(ButtonId::Forward)
    } else if number == 6 {
        Some(ButtonId::DpiToggle)
    } else if number == 7 {
        Some(ButtonId::DpiUp)
    } else if number == 8 {
        Some(ButtonId::DpiDown)
    } else if number == 9 {
        Some(ButtonId::ProfileCycle)
    } else if number == 10 {
        Some(ButtonId::WheelTiltLeft)
    } else if number == 11 {
        Some(ButtonId::WheelTiltRight)
    } else {
        None
    }
}

proof fn last_stands(id: Seq<char>, upto: int, at: int)
    requires
        0 <= at < upto <= id.len(),
        stands_at(id, at, "_g"@),
        forall|k: int| at < k < upto ==> !(#[trigger] stands_at(id, k, "_g"@)),
    ensures
        last_mark(id, upto) == Some(at),
    decreases upto,
{
    if at < upto - 1 {
        last_stands(id, upto - 1, at);
    }
}

proof fn none_stands(id: Seq<char>, upto: int)
    requires
        0 <= upto <= id.len(),
        forall|k: int| 0 <= k < upto ==> !(#[trigger] stands_at(id, k, "_g"@)),
    ensures
        last_mark(id, upto) is None,
    decreases upto,
{
    if upto > 0 {
        none_stands(id, upto - 1);
    }
}

proof fn breaks_at(id: Seq<char>, from: int, end: int)
    requires
        0 <= from <= end <= id.len(),
        forall|k: int| from <= k < end ==> #[trigger] id[k] != '_',
        end == id.len() || id[end] == '_',
    ensures
        next_break(id, from) == end,
    decreases end - from,
{
    if from < end {
        assert(id[from] != '_');
        breaks_at(id, from + 1, end);
    }
}

/// A slot id stands for the button whose number is written between its last `_g`
/// and the next `_`; one without a number there, or without `_g`, for none.
pub proof fn slot_ids_stand_for_their_number(
    id: &str,
    control: Option<MouseControlId>,
    at: int,
    end: int,
    digits: &str,
    number: Option<u8>,
)
    requires
        call_ensures(map_slot_id, (id,), control),
        call_ensures(parse_small_number, (digits,), number),
    ensures
        0 <= at && at + 2 <= end <= id@.len() && stands_at(id@, at, "_g"@) && (forall|k: int|
            at < k < id@.len() ==> !(#[trigger] stands_at(id@, k, "_g"@))) && (forall|k: int|
            at + 2 <= k < end ==> #[trigger] id@[k] != '_') && (end == id@.len() || id@[end]
            == '_') && digits@ == id@.subrange(at + 2, end) ==> control == match number {
            Some(number) => match g_button(number) {
                Some(button) => Some(MouseControlId::Button(button)),
                None => None,
            },
            None => None,
        },
        (forall|k: int| 0 <= k < id@.len() ==> !(#[trigger] stands_at(id@, k, "_g"@)))
            ==> control is None,
{
    if 0 <= at && at + 2 <= end <= id@.len() && stands_at(id@, at, "_g"@) && (forall|k: int|
        at < k < id@.len() ==> !(#[trigger] stands_at(id@, k, "_g"@))) && (forall|k: int|
        at + 2 <= k < end ==> #[trigger] id@[k] != '_') && (end == id@.len() || id@[end] == '_')
        && digits@ == id@.subrange(at + 2, end) {
        last_stands(id@, id@.len() as int, at);
        breaks_at(id@, at + 2, end);
    }
    if forall|k: int| 0 <= k < id@.len() ==> !(#[trigger] stands_at(id@, k, "_g"@)) {
        none_stands(id@, id@.len() as int);
    }
}

/// The markers are taken from the picture of the buttons where it marks
/// anything, and else from that of the device.
pub proof fn markers_are_those_of_the_buttons(asset: &ResolvedAsset, key: &'static str, i: int)
    requires
        call_ensures(hotspot_image_key, (asset,), key),
    ensures
        0 <= i < asset.metadata.images@.len() && asset.metadata.images@[i].key@
            == "device_buttons_image"@ && asset.metadata.images@[i].assignments@.len() > 0 ==> key@
            == "device_buttons_image"@,
        (forall|k: int|
            0 <= k < asset.metadata.images@.len() && (#[trigger] asset.metadata.images@[k]).key@
                == "device_buttons_image"@ ==> asset.metadata.images@[k].assignments@.len() == 0)
            ==> key@ == "device_image"@,
{
}

proof fn marker_is_listed(
    image: ImageEntry,
    mouse_w: u32,
    mouse_h: u32,
    png_w: u32,
    upto: int,
    j: int,
) -> (at: int)
    requires
        0 <= j < upto <= image.assignments@.len(),
        assigned_control(image.assignments@[j]) is Some,
    ensures
        0 <= at < marked_hotspots(image, mouse_w, mouse_h, png_w, upto).len(),
        ({
            let spot = marked_hotspots(image, mouse_w, mouse_h, png_w, upto)[at];
            let (x, y) = crate::features::mouse::geometry::marked_hotspot(
                image,
                image.assignments@[j],
                mouse_w,
                mouse_h,
                png_w,
            );
            &&& spot.id == assigned_control(image.assignments@[j])->0
            &&& spot.x == x as i32
            &&& spot.y == y as i32
            &&& spot.w == 56_000
            &&& spot.h == 56_000
        }),
    decreases upto,
{
    let rest = marked_hotspots(image, mouse_w, mouse_h, png_w, upto - 1);
    if j == upto - 1 {
        rest.len() as int
    } else {
        marker_is_listed(image, mouse_w, mouse_h, png_w, upto - 1, j)
    }
}

/// On a picture that is as wide as its canvas, the rectangle of a marked control
/// lies around its marker: its middle is the marker's part of the drawn size.
pub proof fn a_control_is_where_it_is_marked(
    asset: &ResolvedAsset,
    mouse_w: u32,
    mouse_h: u32,
    spots: Vec<Hotspot>,
    key: &'static str,
    i: int,
    j: int,
    name: &str,
    control: Option<MouseControlId>,
    parts: (u32, u32),
) -> (at: int)
    requires
        mouse_w <= 1_000_000_000,
        mouse_h <= 1_000_000_000,
        call_ensures(asset_hotspots_for_png, (asset, mouse_w, mouse_h), spots),
        call_ensures(hotspot_image_key, (asset,), key),
        call_ensures(map_slot_name, (name,), control),
        0 <= i < asset.metadata.images@.len(),
        asset.metadata.images@[i].key@ == key@,
        forall|k: int| 0 <= k < i ==> (#[trigger] asset.metadata.images@[k]).key@ != key@,
        0 <= j < asset.metadata.images@[i].assignments@.len(),
        name@ == asset.metadata.images@[i].assignments@[j].slot_name@,
        control is Some,
        asset.png_width > 0,
        asset.metadata.images@[i].origin.width == asset.png_width,
        asset.metadata.images@[i].origin.height > 0,
        call_ensures(
            marker_fractions,
            (
                asset.metadata.images@[i].assignments@[j].marker.x,
                asset.metadata.images@[i].assignments@[j].marker.y,
                asset.metadata.images@[i].origin.width,
                asset.metadata.images@[i].origin.height,
            ),
            parts,
        ),
    ensures
        0 <= at < spots@.len(),
        Some(spots@[at].id) == control,
        spots@[at].w == 56_000,
        spots@[at].h == 56_000,
        ({
            let x = spots@[at].x + 28_000;
            let y = spots@[at].y + 28_000;
            &&& 1_000_000 * x <= parts.0 * mouse_w < 1_000_000 * (x + 1)
            &&& 1_000_000 * y <= parts.1 * mouse_h < 1_000_000 * (y + 1)
        }),
{
    let images = asset.metadata.images@;
    let image = images[i];
    assert(crate::features::mouse::geometry::first_image(
        images,
        crate::features::mouse::geometry::marker_image(images),
        i,
    ));
    let at = marker_is_listed(
        image,
        mouse_w,
        mouse_h,
        asset.png_width,
        image.assignments@.len() as int,
        j,
    );
    let w = mouse_w as int;
    let p = asset.png_width as int;
    assert((w * p) / p == w) by (nonlinear_arith)
        requires
            p > 0,
            w >= 0,
    ;
    assert(canvas_width(mouse_w, image.origin.width, asset.png_width) == w);
    let (a, b) = (parts.0 * mouse_w, parts.1 * mouse_h);
    assert(0 <= a <= 1_000_000 * w && 0 <= b <= 1_000_000 * mouse_h) by (nonlinear_arith)
        requires
            a == parts.0 * mouse_w,
            b == parts.1 * mouse_h,
            parts.0 <= 1_000_000,
            parts.1 <= 1_000_000,
            w == mouse_w,
    ;
    at
}

/// Twice the distance of a control's middle from the left.
pub open spec fn middle_x(spot: Hotspot) -> int {
    2 * spot.x + spot.w
}

/// Twice the distance of a control's middle from the top.
pub open spec fn middle_y(spot: Hotspot) -> int {
    2 * spot.y + spot.h
}

/// Whether a control is one of the two that keep their labels together.
pub open spec fn navigates(spot: Hotspot) -> bool {
    spot.id == MouseControlId::Button(ButtonId::Back) || spot.id == MouseControlId::Button(
        ButtonId::Forward,
    )
}

/// Every control has its own label, in their order. Labels that stand on one
/// side do not coincide, and a control's label stands above those of the
/// controls below it, except that Back and Forward stay together. With labels on
/// both sides, no control that has its label on the left is to the right of one
/// that has it on the right; with one side, all are on the left.
pub proof fn labels_do_not_cross(
    hotspots: &Vec<Hotspot>,
    mouse_h: u32,
    distribution: LabelDistribution,
    labels: Vec<Label>,
    i: int,
    j: int,
)
    requires
        call_ensures(labels_from_hotspots, (hotspots, mouse_h, distribution), labels),
        0 <= i < hotspots@.len(),
        0 <= j < hotspots@.len(),
        i != j,
        mouse_h > hotspots@.len(),
    ensures
        labels@.len() == hotspots@.len(),
        labels@[i].id == hotspots@[i].id,
        labels@[i].side == labels@[j].side ==> labels@[i].y != labels@[j].y,
        labels@[i].side == labels@[j].side && middle_y(hotspots@[i]) < middle_y(hotspots@[j])
            && !navigates(hotspots@[j]) ==> labels@[i].y < labels@[j].y,
        distribution is LeftOnly ==> labels@[i].side is Left,
        distribution is BothSides && labels@[i].side is Left && labels@[j].side is Right
            ==> middle_x(hotspots@[i]) <= middle_x(hotspots@[j]),
{
    let spots = hotspots@;
    assert(labels@[i].id == spots[i].id && labels@[j].id == spots[j].id);
    if labels@[i].side == labels@[j].side {
        labels_stand_apart(spots, mouse_h, distribution, i, j);
        if middle_y(spots[i]) < middle_y(spots[j]) && !navigates(spots[j]) {
            assert(before(rows(spots), i, j));
            labels_follow_their_controls(spots, mouse_h, distribution, i, j);
        }
    }
    if distribution is BothSides && labels@[i].side is Left && labels@[j].side is Right
        && middle_x(spots[i]) > middle_x(spots[j]) {
        let all = everyone(spots.len());
        assert(before(columns(spots), j, i));
        ranks_follow_keys(columns(spots), all, j, i, spots.len() as int);
    }
}

/// With labels on both sides, each side has its half of them, the left one the
/// larger if they differ: the control with `n` controls to its left, or level
/// and listed before it, has its label on the left exactly while `n` is less
/// than half of them.
pub proof fn each_side_has_its_half(
    hotspots: &Vec<Hotspot>,
    mouse_h: u32,
    labels: Vec<Label>,
    i: int,
)
    requires
        call_ensures(
            labels_from_hotspots,
            (hotspots, mouse_h, LabelDistribution::BothSides),
            labels,
        ),
        0 <= i < hotspots@.len(),
    ensures
        labels@[i].side is Left <==> 2 * count_left(hotspots@, i, hotspots@.len() as int)
            < hotspots@.len() + hotspots@.len() % 2,
{
    crate::features::mouse::layout::left_is_counted(hotspots@, i, hotspots@.len() as int);
    assert(labels@[i].side == side_of(hotspots@, LabelDistribution::BothSides, i));
}

/// What each preset of the thumb wheel does backward and forward.
pub proof fn presets_do_what_they_say(preset: ThumbwheelPreset, pair: ThumbwheelPair)
    requires
        call_ensures(ThumbwheelPreset::pair, (preset,), pair),
    ensures
        preset is BackForward ==> pair.backward is MouseBack && pair.forward is MouseForward,
        preset is UndoRedo ==> pair.backward is Undo && pair.forward is Redo,
        preset is BrowserHistory ==> pair.backward is BrowserBack && pair.forward is BrowserForward,
        preset is Tabs ==> pair.backward is PrevTab && pair.forward is NextTab,
        preset is Desktops ==> pair.backward is PreviousDesktop && pair.forward is NextDesktop,
        preset is Tracks ==> pair.backward is PrevTrack && pair.forward is NextTrack,
        preset is Volume ==> pair.backward is VolumeDown && pair.forward is VolumeUp,
        preset is VolumeReversed ==> pair.backward is VolumeUp && pair.forward is VolumeDown,
        preset is CycleDpi ==> pair.backward is CycleDpiPresets && pair.forward is CycleDpiPresets,
        preset is VerticalScroll ==> pair.backward is ScrollDown && pair.forward is ScrollUp,
        preset is VerticalScrollReversed ==> pair.backward is ScrollUp && pair.forward
            is ScrollDown,
        preset is HorizontalScroll ==> pair.backward is HorizontalScrollRight && pair.forward
            is HorizontalScrollLeft,
        preset is HorizontalScrollReversed ==> pair.backward is HorizontalScrollLeft && pair.forward
            is HorizontalScrollRight,
{
}

/// The actions of a preset are recognized as that preset, and what is recognized
/// has those actions.
pub proof fn a_preset_is_recognized_by_its_actions(
    preset: ThumbwheelPreset,
    pair: ThumbwheelPair,
    backward: &Action,
    forward: &Action,
    found: Option<ThumbwheelPreset>,
)
    requires
        call_ensures(ThumbwheelPreset::pair, (preset,), pair),
        call_ensures(ThumbwheelPreset::recognize, (backward, forward), found),
    ensures
        backward@ == pair.backward@ && forward@ == pair.forward@ <==> found == Some(preset),
{
    if backward@ == pair.backward@ && forward@ == pair.forward@ {
        match found {
            Some(other) => {
                crate::features::mouse::thumbwheel::presets_are_recognized(preset, other);
            },
            None => {
                assert(preset.backward()@ == backward@);
            },
        }
    }
}

/// A direction of a gesture does what it is bound to. A click that is not bound
/// does what the button does by default, and any other direction nothing.
pub proof fn an_unbound_direction_does_nothing(
    gestures: &GestureMap,
    defaults: &crate::binding::ButtonMap<Action>,
    button: ButtonId,
    direction: GestureDirection,
    action: Action,
)
    requires
        call_ensures(gesture_action, (gestures, defaults, button, direction), action),
    ensures
        direction is Up ==> (gestures.up matches Some(bound) ==> action@ == bound@) && (
        gestures.up is None ==> action is Nothing),
        direction is Down ==> (gestures.down matches Some(bound) ==> action@ == bound@) && (
        gestures.down is None ==> action is Nothing),
        direction is Left ==> (gestures.left matches Some(bound) ==> action@ == bound@) && (
        gestures.left is None ==> action is Nothing),
        direction is Right ==> (gestures.right matches Some(bound) ==> action@ == bound@) && (
        gestures.right is None ==> action is Nothing),
        direction is Click ==> (gestures.click matches Some(bound) ==> action@ == bound@),
        direction is Click && gestures.click is None && defaults@.contains_key(button) ==> action@
            == defaults@[button]@,
        direction is Click && gestures.click is None && !defaults@.contains_key(button) ==> action
            is Nothing,
{
}

/// What a button does is what it is bound to, else what it does by default, else
/// nothing. In an open profile it is overridden or inherited, and only what is
/// overridden offers the way back; outside of one it is the default or
/// customized.
pub proof fn the_inspector_says_where_an_action_comes_from(
    button: ButtonId,
    data: &BindingInspectorData<'_>,
    shown: ButtonInspector,
)
    requires
        call_ensures(button_inspector, (button, data), shown),
    ensures
        shown is Gestures <==> data.editing_app is None && data.gesture_maps@.contains_key(button),
        shown is InheritedGestures <==> data.editing_app is Some && data.gesture_maps@.contains_key(
            button,
        ) && !(data.overridden matches Some(overridden) && overridden@.contains_key(button)),
        shown matches ButtonInspector::Gestures { library, direction, rows, current } ==> library
            == data.action_picker_open && rows@.len() == 5 && (data.gesture_direction matches Some(
            open,
        ) ==> direction == open) && (data.gesture_direction is None ==> direction is Click),
        shown matches ButtonInspector::Single { library, action, status, use_default, use_gestures }
            ==> {
            &&& library == data.action_picker_open
            &&& data.bindings@.contains_key(button) ==> action@ == data.bindings@[button]@
            &&& !data.bindings@.contains_key(button) && data.defaults@.contains_key(button)
                ==> action@ == data.defaults@[button]@
            &&& !data.bindings@.contains_key(button) && !data.defaults@.contains_key(button)
                ==> action is Nothing
            &&& use_default <==> (data.overridden matches Some(overridden)
                && overridden@.contains_key(button))
            &&& use_gestures <==> data.editing_app is None && data.gestures_possible
            &&& data.editing_app is Some ==> status == if use_default {
                BindingStatus::OverriddenIn
            } else {
                BindingStatus::Inherited
            }
            &&& data.editing_app is None && !data.bindings@.contains_key(button) ==> status
                == BindingStatus::DeviceDefault
            &&& data.editing_app is None && data.defaults@.contains_key(button) ==> (status
                == BindingStatus::DeviceDefault <==> action@ == data.defaults@[button]@)
            &&& data.editing_app is None ==> status == BindingStatus::DeviceDefault || status
                == BindingStatus::Customized
        },
{
}

/// A pick changes the direction that is open where gestures are shown, and else
/// what the button itself does.
pub proof fn a_pick_changes_what_is_shown(
    button: ButtonId,
    shown: &ButtonInspector,
    target: PickTarget,
)
    requires
        call_ensures(pick_target, (button, shown), target),
    ensures
        *shown matches ButtonInspector::Gestures { direction, .. } ==> target
            == PickTarget::Gesture(button, direction),
        !(*shown is Gestures) ==> target == PickTarget::Binding(button),
{
}

/// The inspector shows the selected control; the thumb wheel offers its way back
/// where the open profile changes either of its directions.
pub proof fn the_inspector_shows_the_selected_control(
    data: &BindingInspectorData<'_>,
    shown: Inspector,
    wheel: ThumbwheelInspector,
)
    requires
        call_ensures(binding_inspector, (data,), shown),
        call_ensures(thumbwheel_inspector, (data,), wheel),
    ensures
        data.selected is None <==> shown is Empty,
        data.selected matches Some(control) ==> (control is ThumbwheelRotation <==> shown
            is Thumbwheel),
        wheel.use_default <==> (data.overridden matches Some(overridden) && (
        overridden@.contains_key(ButtonId::ThumbwheelScrollDown) || overridden@.contains_key(
            ButtonId::ThumbwheelScrollUp,
        ))),
        data.editing_app is None ==> wheel.status == BindingStatus::DefaultProfile,
        data.editing_app is Some ==> wheel.status == if wheel.use_default {
            BindingStatus::OverriddenIn
        } else {
            BindingStatus::Inherited
        },
        wheel.presets is Some <==> data.action_picker_open,
{
}

/// How many of the first `upto` labels stand on the side of label `i`.
pub open spec fn count_beside(labels: Seq<Label>, i: int, upto: int) -> int
    decreases upto,
{
    if upto <= 0 {
        0
    } else {
        count_beside(labels, i, upto - 1) + if labels[upto - 1].side == labels[i].side {
            1int
        } else {
            0
        }
    }
}

/// How many of the first `upto` controls with their label on the side of label
/// `i` are above control `i`, or level with it and listed before it.
pub open spec fn count_above(
    hotspots: Seq<Hotspot>,
    labels: Seq<Label>,
    i: int,
    upto: int,
) -> int
    decreases upto,
{
    if upto <= 0 {
        0
    } else {
        let k = upto - 1;
        count_above(hotspots, labels, i, k) + if labels[k].side == labels[i].side && (middle_y(
            hotspots[k],
        ) < middle_y(hotspots[i]) || middle_y(hotspots[k]) == middle_y(hotspots[i]) && k < i) {
            1int
        } else {
            0
        }
    }
}

proof fn sides_are_counted(
    hotspots: Seq<Hotspot>,
    distribution: LabelDistribution,
    labels: Seq<Label>,
    i: int,
    upto: int,
)
    requires
        labels.len() == hotspots.len(),
        forall|k: int|
            #![trigger labels[k]]
            0 <= k < labels.len() ==> labels[k].side == side_of(hotspots, distribution, k),
        0 <= i < hotspots.len(),
        0 <= upto <= hotspots.len(),
    ensures
        ({
            let members = on_side(hotspots, distribution, side_of(hotspots, distribution, i));
            &&& count(members, upto) == count_beside(labels, i, upto)
            &&& members_before(rows(hotspots), members, i, upto) == count_above(
                hotspots,
                labels,
                i,
                upto,
            )
        }),
    decreases upto,
{
    if upto > 0 {
        sides_are_counted(hotspots, distribution, labels, i, upto - 1);
        assert(labels[upto - 1].side == side_of(hotspots, distribution, upto - 1));
        assert(labels[i].side == side_of(hotspots, distribution, i));
    }
}

proof fn no_place(hotspots: Seq<Hotspot>, members: Seq<bool>, id: MouseControlId, upto: int)
    requires
        0 <= upto <= hotspots.len(),
        forall|k: int| 0 <= k < hotspots.len() ==> (#[trigger] hotspots[k]).id != id,
    ensures
        first_place(hotspots, members, id, upto) is None,
    decreases upto,
{
    if upto > 0 {
        no_place(hotspots, members, id, upto - 1);
    }
}

/// Without both Back and Forward, the labels of a side stand evenly down the
/// picture: the distance of two is the height by one more than there are, and a
/// label with `n` others above it stands `n` and one distances down.
pub proof fn labels_stand_evenly(
    hotspots: &Vec<Hotspot>,
    mouse_h: u32,
    distribution: LabelDistribution,
    labels: Vec<Label>,
    i: int,
)
    requires
        call_ensures(labels_from_hotspots, (hotspots, mouse_h, distribution), labels),
        0 <= i < hotspots@.len(),
        (forall|k: int|
            0 <= k < hotspots@.len() ==> (#[trigger] hotspots@[k]).id != MouseControlId::Button(
                ButtonId::Back,
            )) || (forall|k: int|
            0 <= k < hotspots@.len() ==> (#[trigger] hotspots@[k]).id != MouseControlId::Button(
                ButtonId::Forward,
            )),
    ensures
        ({
            let n = hotspots@.len() as int;
            let step = mouse_h as int / (count_beside(labels@, i, n) + 1);
            labels@[i].y == step * (count_above(hotspots@, labels@, i, n) + 1)
        }),
{
    let spots = hotspots@;
    let n = spots.len() as int;
    let members = on_side(spots, distribution, side_of(spots, distribution, i));
    assert(labels@[i].y == label_height(spots, mouse_h, distribution, i));
    sides_are_counted(spots, distribution, labels@, i, n);
    if forall|k: int|
        0 <= k < spots.len() ==> (#[trigger] spots[k]).id != MouseControlId::Button(
            ButtonId::Back,
        ) {
        no_place(spots, members, MouseControlId::Button(ButtonId::Back), n);
    } else {
        no_place(spots, members, MouseControlId::Button(ButtonId::Forward), n);
    }
}

} // verus!
