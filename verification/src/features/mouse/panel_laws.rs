//! What the mouse panel shows: its hotspots, and what is said of gestures.

use crate::binding::{Action, ButtonId, ButtonMap, GestureDirection, GestureMap};
use crate::features::mouse::geometry::{
    asset_dimensions, asset_dimensions_for_png, asset_has_button_labels, asset_hotspots_for_image,
    asset_hotspots_for_png, find_image, has_controls, hotspot_image_key, map_slot_id,
    map_slot_name, marks_a_control,
};
use crate::features::mouse::hotspots::{default_hotspots, Hotspot, MouseControlId};
use crate::features::mouse::inspector::{
    empty_inspector, gesture_action, gesture_directions, thumbwheel_inspector,
    BindingInspectorData, BindingStatus, ButtonInspector, DirectionRow, ThumbwheelInspector,
};
use crate::features::mouse::thumbwheel::ThumbwheelPreset;
use crate::services::assets::metadata::{ImageEntry, ResolvedAsset};
use vstd::prelude::*;

verus! {

/// Every direction of a gesture is listed once, with what it does, and the open
/// one marked.
pub proof fn every_direction_is_listed(
    active: GestureDirection,
    gestures: &GestureMap,
    defaults: &ButtonMap<Action>,
    button: ButtonId,
    rows: Vec<DirectionRow>,
    i: int,
    action: Action,
)
    requires
        call_ensures(gesture_directions, (active, gestures, defaults, button), rows),
        0 <= i < rows@.len(),
        call_ensures(
            gesture_action,
            (gestures, defaults, button, rows@[i].direction),
            action,
        ),
    ensures
        rows@.len() == 5,
        rows@[0].direction == GestureDirection::Up,
        rows@[1].direction == GestureDirection::Down,
        rows@[2].direction == GestureDirection::Left,
        rows@[3].direction == GestureDirection::Right,
        rows@[4].direction == GestureDirection::Click,
        rows@[i].action@ == action@,
        rows@[i].selected <==> rows@[i].direction == active,
{
    assert(rows@[i].direction == rows@[i].direction);
    assert(rows@[0].direction == rows@[0].direction);
    assert(rows@[1].direction == rows@[1].direction);
    assert(rows@[2].direction == rows@[2].direction);
    assert(rows@[3].direction == rows@[3].direction);
    assert(rows@[4].direction == rows@[4].direction);
}

/// What heads the inspector: where a single action comes from; five directions
/// for gestures, or that they are inherited.
pub proof fn the_heading_says_where_it_comes_from(shown: &ButtonInspector, status: BindingStatus)
    requires
        call_ensures(ButtonInspector::heading, (shown,), status),
    ensures
        shown is Gestures ==> status == BindingStatus::FiveDirections,
        shown is InheritedGestures ==> status == BindingStatus::Inherited,
        *shown matches ButtonInspector::Single { library: _, action: _, status: own, use_default: _, use_gestures: _ }
            ==> status == own,
{
}

/// The messages of the places that an action may come from.
pub proof fn each_status_has_its_message(status: BindingStatus, message: &'static str)
    requires
        call_ensures(BindingStatus::message, (status,), message),
    ensures
        status == BindingStatus::OverriddenIn ==> message@ == "Overridden in %{app}"@,
        status == BindingStatus::Inherited ==> message@ == "Inherited from Default"@,
        status == BindingStatus::DeviceDefault ==> message@ == "Device default"@,
        status == BindingStatus::Customized ==> message@ == "Customized"@,
        status == BindingStatus::DefaultProfile ==> message@ == "Default profile"@,
        status == BindingStatus::FiveDirections ==> message@ == "5 directions"@,
{
}

/// Without a selection the inspector says what to do, and in a profile how much
/// it overrides.
pub proof fn an_empty_inspector_counts_overrides(
    app: Option<&str>,
    override_count: usize,
    message: &'static str,
)
    requires
        call_ensures(empty_inspector, (app, override_count), message),
    ensures
        app is None ==> message@ == "Select a button on the device to change what it does."@,
        app is Some && override_count == 0 ==> message@
            == "No overrides yet. Select a button to customize for %{app}."@,
        app is Some && override_count == 1 ==> message@
            == "%{app} overrides 1 button. Others inherit Default."@,
        app is Some && override_count > 1 ==> message@
            == "%{app} overrides %{count} buttons. Others inherit Default."@,
{
}

/// Whether two rectangles have a point in common.
pub open spec fn overlap(a: Hotspot, b: Hotspot) -> bool {
    &&& a.x < b.x + b.w
    &&& b.x < a.x + a.w
    &&& a.y < b.y + b.h
    &&& b.y < a.y + a.h
}

/// The hotspots of a mouse without art lie on its model and apart from each
/// other: the wheel in the middle above the mode button, the side buttons on the
/// left with the forward one above the back one, and the gesture button below.
pub proof fn plain_hotspots_lie_apart(
    thumbwheel: bool,
    hotspots: Vec<Hotspot>,
    i: int,
    j: int,
)
    requires
        call_ensures(default_hotspots, (thumbwheel,), hotspots),
        0 <= i < j < hotspots@.len(),
    ensures
        !thumbwheel ==> hotspots@.len() == 5,
        thumbwheel ==> hotspots@.len() == 6,
        0 <= hotspots@[i].x && hotspots@[i].x + hotspots@[i].w <= 260_000,
        0 <= hotspots@[i].y && hotspots@[i].y + hotspots@[i].h <= 420_000,
        hotspots@[i].w > 0 && hotspots@[i].h > 0,
        !overlap(hotspots@[i], hotspots@[j]),
        hotspots@[i].id != hotspots@[j].id,
        ({
            let wheel = hotspots@[0];
            let mode = hotspots@[1];
            let forward = hotspots@[2];
            let back = hotspots@[3];
            let gesture = hotspots@[4];
            &&& wheel.id == MouseControlId::Button(ButtonId::MiddleClick)
            &&& mode.id == MouseControlId::Button(ButtonId::DpiToggle)
            &&& forward.id == MouseControlId::Button(ButtonId::Forward)
            &&& back.id == MouseControlId::Button(ButtonId::Back)
            &&& gesture.id == MouseControlId::Button(ButtonId::GestureButton)
            &&& 2 * wheel.x + wheel.w == 260_000
            &&& 2 * mode.x + mode.w == 260_000
            &&& wheel.y == 60_000 && wheel.h == 80_000 && wheel.w == 40_000
            &&& mode.y == wheel.y + wheel.h + 20_000 && mode.h == 40_000 && mode.w == 40_000
            &&& forward.x == back.x && forward.w == back.w && forward.h == back.h
            &&& forward.x == 10_000 && forward.y == 150_000 && forward.w == 40_000
            &&& forward.h == 50_000 && back.y == forward.y + forward.h + 10_000
            &&& gesture.x == 0 && gesture.y == back.y + back.h + 20_000
            &&& gesture.w == 40_000 && gesture.h == 70_000
        }),
        thumbwheel ==> hotspots@[5].id == MouseControlId::ThumbwheelRotation && hotspots@[5].x
            == 55_000 && hotspots@[5].y == 175_000 && hotspots@[5].w == 30_000 && hotspots@[5].h
            == 60_000,
{
}

/// Twice the centre lies between the edges.
pub proof fn a_centre_lies_between_the_edges(hotspot: &Hotspot, center: (i64, i64))
    requires
        call_ensures(Hotspot::twice_center, (hotspot,), center),
    ensures
        center.0 - 2 * hotspot.x == hotspot.w,
        center.1 - 2 * hotspot.y == hotspot.h,
{
}

/// Art has labels for the buttons as soon as one of its markers stands for a
/// control, by its name or by its number.
pub proof fn one_marked_control_is_enough(
    asset: &ResolvedAsset,
    labels: bool,
    i: int,
    j: int,
    name: &str,
    id: &str,
    named: Option<MouseControlId>,
    numbered: Option<MouseControlId>,
)
    requires
        call_ensures(asset_has_button_labels, (asset,), labels),
        0 <= i < asset.metadata.images@.len(),
        0 <= j < asset.metadata.images@[i].assignments@.len(),
        name@ == asset.metadata.images@[i].assignments@[j].slot_name@,
        id@ == asset.metadata.images@[i].assignments@[j].slot_id@,
        call_ensures(map_slot_name, (name,), named),
        call_ensures(map_slot_id, (id,), numbered),
    ensures
        named is Some || numbered is Some ==> labels,
        !labels ==> named is None && numbered is None,
{
    if named is Some || numbered is Some {
        assert(marks_a_control(asset.metadata.images@[i]));
        assert(has_controls(asset.metadata));
    }
}

/// Art without a marker has no labels.
pub proof fn art_without_markers_has_no_labels(asset: &ResolvedAsset, labels: bool)
    requires
        call_ensures(asset_has_button_labels, (asset,), labels),
        forall|i: int|
            0 <= i < asset.metadata.images@.len() ==> (
            #[trigger] asset.metadata.images@[i]).assignments@.len() == 0,
    ensures
        !labels,
{
}

/// A picture is found by its key, and the first one is.
pub proof fn the_first_picture_is_found(
    images: &Vec<ImageEntry>,
    key: &str,
    found: Option<usize>,
    k: int,
)
    requires
        call_ensures(find_image, (images, key), found),
    ensures
        found matches Some(at) ==> at < images@.len() && images@[at as int].key@ == key@,
        found matches Some(at) ==> 0 <= k < at ==> images@[k].key@ != key@,
        found is None ==> 0 <= k < images@.len() ==> images@[k].key@ != key@,
{
}

/// The size and the hotspots of art are those of its picture and its markers.
pub proof fn art_is_drawn_as_its_picture(
    asset: &ResolvedAsset,
    target_h: u32,
    max_w: u32,
    size: (u32, u32),
    same: (u32, u32),
    mouse_w: u32,
    mouse_h: u32,
    spots: Vec<Hotspot>,
    key: &'static str,
    of_image: Vec<Hotspot>,
    found: Option<usize>,
    images: &Vec<ImageEntry>,
)
    requires
        call_ensures(asset_dimensions_for_png, (asset, target_h, max_w), size),
        call_ensures(asset_dimensions, (asset.png_width, asset.png_height, target_h, max_w), same),
        mouse_w <= 1_000_000_000,
        mouse_h <= 1_000_000_000,
        call_ensures(asset_hotspots_for_png, (asset, mouse_w, mouse_h), spots),
        call_ensures(hotspot_image_key, (asset,), key),
        call_ensures(
            asset_hotspots_for_image,
            (asset, mouse_w, mouse_h, key, asset.png_width, asset.png_height),
            of_image,
        ),
        *images == asset.metadata.images,
        call_ensures(find_image, (images, key), found),
    ensures
        size == same,
        spots@ == of_image@,
        found is None ==> spots@.len() == 0,
{
}

/// A preset of the thumb wheel is called by what its two directions do.
pub proof fn presets_are_called_by_what_they_do(preset: ThumbwheelPreset, label: &'static str)
    requires
        call_ensures(ThumbwheelPreset::label, (preset,), label),
    ensures
        preset == ThumbwheelPreset::BackForward ==> label@ == "Back / Forward"@,
        preset == ThumbwheelPreset::UndoRedo ==> label@ == "Undo / Redo"@,
        preset == ThumbwheelPreset::BrowserHistory ==> label@ == "Browser Back / Forward"@,
        preset == ThumbwheelPreset::Tabs ==> label@ == "Previous / Next Tab"@,
        preset == ThumbwheelPreset::Desktops ==> label@ == "Previous / Next Desktop"@,
        preset == ThumbwheelPreset::Tracks ==> label@ == "Previous / Next Track"@,
        preset == ThumbwheelPreset::Volume ==> label@ == "Volume Down / Up"@,
        preset == ThumbwheelPreset::VolumeReversed ==> label@ == "Volume Up / Down"@,
        preset == ThumbwheelPreset::CycleDpi ==> label@ == "Cycle DPI Presets"@,
        preset == ThumbwheelPreset::VerticalScroll ==> label@ == "Vertical Scroll"@,
        preset == ThumbwheelPreset::VerticalScrollReversed ==> label@
            == "Vertical Scroll (Reversed)"@,
        preset == ThumbwheelPreset::HorizontalScroll ==> label@ == "Horizontal Scroll"@,
        preset == ThumbwheelPreset::HorizontalScrollReversed ==> label@
            == "Horizontal Scroll (Reversed)"@,
{
}

/// A preset of the thumb wheel has its icon.
pub proof fn presets_have_their_icons(preset: ThumbwheelPreset, icon: &'static str)
    requires
        call_ensures(ThumbwheelPreset::icon, (preset,), icon),
    ensures
        preset == ThumbwheelPreset::BackForward ==> icon@ == "action-icons/circle-arrow-right.svg"@,
        preset == ThumbwheelPreset::UndoRedo ==> icon@ == "action-icons/redo-2.svg"@,
        preset == ThumbwheelPreset::BrowserHistory ==> icon@ == "action-icons/arrow-right.svg"@,
        preset == ThumbwheelPreset::Tabs ==> icon@ == "action-icons/chevron-right.svg"@,
        preset == ThumbwheelPreset::Desktops ==> icon@ == "action-icons/square-arrow-right.svg"@,
        preset == ThumbwheelPreset::Tracks ==> icon@ == "action-icons/skip-forward.svg"@,
        preset == ThumbwheelPreset::Volume || preset == ThumbwheelPreset::VolumeReversed ==> icon@
            == "action-icons/volume-2.svg"@,
        preset == ThumbwheelPreset::CycleDpi ==> icon@ == "action-icons/gauge.svg"@,
        preset == ThumbwheelPreset::VerticalScroll || preset
            == ThumbwheelPreset::VerticalScrollReversed ==> icon@
            == "action-icons/chevrons-up.svg"@,
        preset == ThumbwheelPreset::HorizontalScroll || preset
            == ThumbwheelPreset::HorizontalScrollReversed ==> icon@
            == "action-icons/chevrons-right.svg"@,
{
}

/// The open picker lists every preset of the thumb wheel once, and marks the one
/// that is bound.
pub proof fn the_picker_lists_every_preset(
    data: &BindingInspectorData<'_>,
    shown: ThumbwheelInspector,
    i: int,
    j: int,
)
    requires
        call_ensures(thumbwheel_inspector, (data,), shown),
    ensures
        shown.presets is Some <==> data.action_picker_open,
        shown.presets matches Some(rows) ==> rows@.len() == 13,
        shown.presets matches Some(rows) ==> (0 <= i < 13 ==> (rows@[i].selected
            <==> shown.current == Some(rows@[i].preset))),
        shown.presets matches Some(rows) ==> (0 <= i < j < 13 ==> rows@[i].preset
            != rows@[j].preset),
        shown.presets matches Some(rows) ==> rows@[0].preset == ThumbwheelPreset::BackForward
            && rows@[12].preset == ThumbwheelPreset::HorizontalScrollReversed,
{
    if let Some(rows) = shown.presets {
        assert(rows@[0].preset == rows@[0].preset);
        assert(rows@[12].preset == rows@[12].preset);
        if 0 <= i < 13 {
            assert(rows@[i].preset == rows@[i].preset);
        }
        if 0 <= j < 13 {
            assert(rows@[j].preset == rows@[j].preset);
        }
    }
}

} // verus!
