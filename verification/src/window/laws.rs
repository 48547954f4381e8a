//! What the gallery says of devices, and in which order.

use crate::device::{DeviceRoute, DeviceTransports};
use crate::record::DeviceRecord;
use crate::services::assets::metadata::GlowGeometry;
use crate::state::event::StateEvent;
use crate::state::refresh::Selection;
use crate::state::AppState;
use crate::window::home::glow::{contain, glow_quads, Bounds};
use crate::window::home::views::{
    carousel_position, carousel_selected, connected_devices_come_first,
    device_accessibility_description, device_grid, device_list, each_device_is_shown_once,
    ordered_device_indices, place_of, view_switched, DeviceRow, DeviceViewMode, GalleryCard,
};
use crate::window::home::{
    connection_icon, connection_summary, custom_model_subtitle, device_card, device_image,
    device_menu, keyboard_glow, ConnectionIcon, DeviceCard, DeviceFacts, DeviceImage, DeviceMenu,
    GlanceColor,
};
use crate::window::phrase::{phrase, Piece, PieceView};
use crate::window::widgets::{main_window_title, route_label, status_badge};
use crate::hid::Rgb;
use std::sync::Arc;
use vstd::prelude::*;

verus! {

/// The gallery shows each device once: those that are connected first, and each
/// group in the order of the list.
pub proof fn connected_devices_stand_first(
    records: &Vec<DeviceRecord>,
    order: Vec<usize>,
    at: usize,
    j: int,
    k: int,
)
    requires
        call_ensures(ordered_device_indices, (records,), order),
        at < records@.len(),
    ensures
        order@.len() == records@.len(),
        order@.contains(at),
        order@.no_duplicates(),
        0 <= j < k < order@.len() ==> {
            let first = records@[order@[j] as int];
            let second = records@[order@[k] as int];
            &&& second.online ==> first.online
            &&& first.online == second.online ==> order@[j] < order@[k]
        },
{
    assert(records@.len() == records.len());
    each_device_is_shown_once(records@, at as int);
    if 0 <= j < k < order@.len() {
        connected_devices_come_first(records@, j, k);
    }
}

proof fn stands_first(order: Seq<usize>, sought: usize, from: int, i: int)
    requires
        0 <= from <= i <= order.len(),
        forall|k: int| from <= k < i ==> #[trigger] order[k] != sought,
        i < order.len() ==> order[i] == sought,
    ensures
        place_of(order, sought, from) == if i < order.len() {
            Some(i)
        } else {
            None
        },
    decreases i - from,
{
    if from < i {
        assert(order[from] != sought);
        stands_first(order, sought, from + 1, i);
    }
}

/// The carousel rests on the card of the selected device, or on the first.
pub proof fn the_carousel_rests_on_the_selected_card(
    order: &Vec<usize>,
    active: usize,
    position: usize,
    i: int,
)
    requires
        call_ensures(carousel_position, (order, active), position),
        0 <= i <= order@.len(),
        forall|k: int| 0 <= k < i ==> #[trigger] order@[k] != active,
        i < order@.len() ==> order@[i] == active,
    ensures
        i < order@.len() ==> position == i,
        i == order@.len() ==> position == 0,
{
    stands_first(order@, active, 0, i);
}

/// A carousel that comes to rest on another card selects its device and says so.
pub proof fn the_carousel_selects_the_card_it_rests_on(
    state: &mut AppState,
    order: &Vec<usize>,
    position: usize,
    selected: Option<(Selection, StateEvent)>,
)
    requires
        call_ensures(carousel_selected, (state, order, position), selected),
    ensures
        selected is Some <==> position < order@.len() && order@[position as int] < old(
            state).devices.records@.len() && old(state).devices.selected != Some(
            order@[position as int],
        ),
        selected is None ==> *final(state) == *old(state),
        selected is Some ==> final(state).devices.selected == Some(order@[position as int]),
        selected matches Some((selection, event)) ==> selection.key@ == old(
            state).devices.records@[order@[position as int] as int].config_key@ && (event matches
            StateEvent::DeviceSelected(key) && key@ == selection.key@),
{
}

/// A click switches to a layout; one that would only uncheck it does nothing.
pub proof fn a_layout_is_not_unchecked(
    mode: DeviceViewMode,
    checked: bool,
    next: Option<DeviceViewMode>,
)
    requires
        call_ensures(view_switched, (mode, checked), next),
    ensures
        checked ==> next == Some(mode),
        !checked ==> next is None,
{
}

/// The glyph of a link: that of its receiver, the cable for a raw device, and for
/// a direct link the cable only where the device has no Bluetooth radio.
pub proof fn the_glyph_says_what_carries_the_link(
    route: Option<DeviceRoute>,
    transports: Option<DeviceTransports>,
    icon: ConnectionIcon,
)
    requires
        call_ensures(connection_icon, (route, transports), icon),
    ensures
        route matches Some(DeviceRoute::Bolt { .. }) ==> icon == ConnectionIcon::Bolt,
        route matches Some(DeviceRoute::Unifying { .. }) ==> icon == ConnectionIcon::Unifying,
        route matches Some(DeviceRoute::RawHid { .. }) ==> icon == ConnectionIcon::Usb,
        route is None || (route matches Some(DeviceRoute::Direct { .. })) ==> {
            &&& transports is None ==> icon == ConnectionIcon::Bluetooth
            &&& transports matches Some(t) ==> {
                &&& t.bluetooth || t.btle ==> icon == ConnectionIcon::Bluetooth
                &&& !t.bluetooth && !t.btle && (t.usb || t.equad) ==> icon == ConnectionIcon::Usb
                &&& !t.bluetooth && !t.btle && !t.usb && !t.equad ==> icon
                    == ConnectionIcon::Bluetooth
            }
        },
{
}

/// What is said of a link names how the device is reached, and on a receiver the
/// channel.
pub proof fn the_summary_names_the_channel(
    record: &DeviceRecord,
    summary: Vec<Piece>,
    reached: &'static str,
)
    requires
        call_ensures(connection_summary, (record,), summary),
        call_ensures(route_label, (record.route,), reached),
    ensures
        summary@.len() > 0,
        summary@[0]@ == PieceView::Message(reached@),
        (record.route matches Some(DeviceRoute::Bolt { .. }) || record.route matches Some(
            DeviceRoute::Unifying { .. },
        )) ==> summary@.len() == 5 && summary@[2]@ == PieceView::Message("device.channel"@)
            && summary@[4]@ == PieceView::Number(record.slot as nat),
        !(record.route matches Some(DeviceRoute::Bolt { .. }) || record.route matches Some(
            DeviceRoute::Unifying { .. },
        )) ==> summary@.len() == 1,
{
    let views = phrase(summary@);
    assert(views.len() == summary@.len());
    assert(views[0] == summary@[0]@);
    if record.route matches Some(DeviceRoute::Bolt { .. }) || record.route matches Some(
        DeviceRoute::Unifying { .. },
    ) {
        assert(views[2] == summary@[2]@);
        assert(views[4] == summary@[4]@);
    }
}

/// The messages that say how a device is reached and whether it is connected.
pub proof fn messages_say_how_a_device_is_reached(
    route: Option<DeviceRoute>,
    reached: &'static str,
    online: bool,
    badge: &'static str,
)
    requires
        call_ensures(route_label, (route,), reached),
        call_ensures(status_badge, (online,), badge),
    ensures
        route matches Some(DeviceRoute::Bolt { .. }) ==> reached@ == "device.bolt_receiver"@,
        route matches Some(DeviceRoute::Unifying { .. }) ==> reached@
            == "device.unifying_receiver"@,
        (route matches Some(DeviceRoute::Direct { .. }) || route matches Some(
            DeviceRoute::RawHid { .. },
        )) ==> reached@ == "device.direct_connection"@,
        route is None ==> reached@ == "common.unavailable"@,
        online ==> badge@ == "device.connected"@,
        !online ==> badge@ == "device.offline"@,
{
}

/// The model's name stands under a name of the user's own, and only there.
pub proof fn a_custom_name_shows_the_model(record: &DeviceRecord, subtitle: Option<String>)
    requires
        call_ensures(custom_model_subtitle, (record,), subtitle),
    ensures
        subtitle is Some <==> record.display_name@ != record.model_name@,
        subtitle matches Some(subtitle) ==> subtitle@ == record.model_name@,
{
}

/// A device's menu offers to delete it only while it is offline and a physical
/// one; renaming starts from the user's own name, if there is one.
pub proof fn only_offline_devices_can_be_deleted(record: &DeviceRecord, menu: DeviceMenu)
    requires
        call_ensures(device_menu, (record,), menu),
    ensures
        menu.deletable <==> record.persistent && !record.online,
        menu.record_key@ == record.record_key@,
        menu.display_name@ == record.display_name@,
        menu.model_name@ == record.model_name@,
        record.display_name@ == record.model_name@ ==> menu.custom_name@ == ""@,
        record.display_name@ != record.model_name@ ==> menu.custom_name@ == record.display_name@,
{
}

/// A light is drawn as it shines; any other device by its picture, and without
/// one by the glyph of a camera or of a device.
pub proof fn a_device_is_drawn_by_its_picture(record: &DeviceRecord, light: bool, image: DeviceImage)
    requires
        call_ensures(device_image, (record, light), image),
    ensures
        record.kind is Light ==> image == (DeviceImage::Light {
            online: record.online,
            enabled: light,
        }),
        !(record.kind is Light) ==> (record.asset matches Some(asset) ==> asset.hero_image_path
            matches Some(path) ==> (image matches DeviceImage::Picture(shown) && shown@ == path@)),
        !(record.kind is Light) && (record.asset is None || record.asset->0.hero_image_path
            is None) ==> (image is Camera <==> record.kind is Camera) && (image is Chip <==> !(
        record.kind is Camera)),
{
}

/// A keyboard glows in the color of its lighting while that is on and the art
/// ships a mask; nothing else glows.
pub proof fn only_lit_keyboards_glow(
    state: &AppState,
    record: &DeviceRecord,
    transient: bool,
    glow: Option<(Arc<GlowGeometry>, Rgb)>,
)
    requires
        call_ensures(keyboard_glow, (state, record, transient), glow),
    ensures
        glow is Some ==> record.kind is Keyboard && !transient,
        glow matches Some((geometry, _)) ==> (record.asset matches Some(asset) && asset.glow == Some(
            geometry,
        )),
        glow is Some ==> state.config.devices@.contains_key(record.config_key@),
{
}

/// A card names its device, dims one that is offline, rings one that the service
/// may not touch, and offers a menu for a physical one.
pub proof fn a_card_shows_its_device(
    record: &DeviceRecord,
    enabled: bool,
    glow: Option<(Arc<GlowGeometry>, Rgb)>,
    light: bool,
    card: DeviceCard,
)
    requires
        call_ensures(device_card, (record, enabled, glow, light), card),
    ensures
        card.record_key@ == record.record_key@,
        card.name@ == record.display_name@,
        card.ringed <==> !enabled,
        record.online ==> card.opacity == 100,
        !record.online ==> card.opacity == 38,
        card.glow == glow,
        card.battery == record.battery,
        card.menu is Some <==> record.persistent,
        record.kind is Camera ==> card.glance.icon == ConnectionIcon::Usb,
        !(record.kind is Camera) && (record.route matches Some(DeviceRoute::Bolt { .. }))
            ==> card.glance.icon == ConnectionIcon::Bolt,
        card.glance.icon == ConnectionIcon::Bluetooth ==> card.glance.color == GlanceColor::Accent,
        card.glance.icon == ConnectionIcon::Bolt || card.glance.icon == ConnectionIcon::Unifying
            ==> card.glance.color == GlanceColor::Connected,
        card.glance.icon == ConnectionIcon::Usb ==> card.glance.color == GlanceColor::Muted,
{
}

/// The grid has a card for each device, in the gallery's order, with the selected
/// one marked.
pub proof fn the_grid_shows_every_device(
    state: &AppState,
    facts: &Vec<DeviceFacts>,
    order: Vec<usize>,
    cards: Vec<GalleryCard>,
    rows: Vec<DeviceRow>,
    k: int,
    selected: usize,
)
    requires
        facts@.len() == state.devices.records@.len(),
        call_ensures(ordered_device_indices, (&state.devices.records,), order),
        call_ensures(device_grid, (state, facts), cards),
        call_ensures(device_list, (state, facts), rows),
        state.devices.selected == Some(selected),
        0 <= k < order@.len(),
    ensures
        cards@.len() == order@.len(),
        rows@.len() == order@.len(),
        cards@[k].label@ == state.devices.records@[order@[k] as int].display_name@,
        cards@[k].card.record_key@ == state.devices.records@[order@[k] as int].record_key@,
        cards@[k].active <==> order@[k] == selected,
        rows@[k].name@ == state.devices.records@[order@[k] as int].display_name@,
        rows@[k].record_key@ == state.devices.records@[order@[k] as int].record_key@,
        rows@[k].active <==> order@[k] == selected,
        rows@[k].battery == state.devices.records@[order@[k] as int].battery,
        rows@[k].ringed <==> !facts@[order@[k] as int].enabled,
        cards@[k].card.ringed <==> !facts@[order@[k] as int].enabled,
{
    assert(cards@[k].label@ == cards@[k].label@);
    assert(rows@[k].name@ == rows@[k].name@);
}

/// What is told of a device begins with whether it is connected, and ends with
/// its battery, where one was read.
pub proof fn a_description_begins_with_the_connection(
    record: &DeviceRecord,
    description: Vec<Piece>,
    badge: &'static str,
)
    requires
        call_ensures(device_accessibility_description, (record,), description),
        call_ensures(status_badge, (record.online,), badge),
    ensures
        description@.len() > 0,
        description@[0]@ == PieceView::Message(badge@),
        record.battery matches Some(battery) ==> !battery.charging_without_reading
            ==> description@.len() > 3 && description@[description@.len() - 3]@
            == PieceView::Number(battery.percentage as nat),
        record.battery matches Some(battery) ==> battery.charging_without_reading
            ==> description@.len() > 2 && description@[description@.len() - 2]@
            == PieceView::Message("device.charging"@),
{
    let views = phrase(description@);
    let n = description@.len() as int;
    assert(views.len() == n);
    assert(views[0] == description@[0]@);
    if n > 3 {
        assert(views[n - 3] == description@[n - 3]@);
    }
    if n > 2 {
        assert(views[n - 2] == description@[n - 2]@);
    }
}

/// The window's title names the selected device while it is shown.
pub proof fn the_title_names_the_device(state: &AppState, title: String, plain: String, i: usize)
    requires
        call_ensures(main_window_title, (true, Some(state)), title),
        call_ensures(main_window_title, (false, Some(state)), plain),
    ensures
        state.devices.selected == Some(i) && i < state.devices.records@.len() ==> title@
            == "OpenLogi - "@ + state.devices.records@[i as int].display_name@,
        state.devices.selected is None ==> title@ == "OpenLogi"@,
        plain@ == "OpenLogi"@,
{
}

/// The picture that glows fills its box as far as its proportions allow.
pub proof fn a_glowing_picture_fills_its_box(w: u32, h: u32, aspect: u32, size: (u32, u32))
    requires
        w > 0,
        h > 0,
        call_ensures(contain, (w, h, aspect), size),
    ensures
        size.0 <= w,
        size.1 <= h,
        size.0 == w || size.1 == h,
        size.0 < w ==> 1_000_000 * size.0 <= h * aspect < 1_000_000 * (size.0 + 1),
        size.1 < h && aspect > 0 ==> aspect * size.1 <= 1_000_000 * w < aspect * (size.1 + 1),
{
    let product = w * 1_000_000;
    if aspect > 0 {
        let a = aspect as int;
        let q = product / a;
        assert(a * q <= product < a * (q + 1)) by (nonlinear_arith)
            requires
                a > 0,
                product >= 0,
                q == product / a,
        ;
    }
}

/// Each gap is lit where it is on the picture, which is centred in its box, and
/// is at least a pixel wide and high. A box without an area shows none.
pub proof fn gaps_are_lit_on_the_picture(
    geometry: &GlowGeometry,
    x: i32,
    y: i32,
    w: u32,
    h: u32,
    quads: Vec<Bounds>,
    size: (u32, u32),
    i: int,
)
    requires
        call_ensures(glow_quads, (geometry, x, y, w, h), quads),
        w > 0 && h > 0 ==> call_ensures(contain, (w, h, geometry.aspect), size),
    ensures
        w == 0 || h == 0 ==> quads@.len() == 0,
        w > 0 && h > 0 ==> quads@.len() == geometry.segments@.len(),
        w > 0 && h > 0 && 0 <= i < quads@.len() ==> {
            let segment = geometry.segments@[i];
            let left = quads@[i].x - x - (w - size.0) / 2;
            let top = quads@[i].y - y - (h - size.1) / 2;
            &&& quads@[i].w >= 1_000
            &&& quads@[i].h >= 1_000
            &&& 1_000_000 * left <= segment.x * size.0 < 1_000_000 * (left + 1)
            &&& 1_000_000 * top <= segment.y * size.1 < 1_000_000 * (top + 1)
            &&& quads@[i].w > 1_000 ==> 1_000_000 * quads@[i].w <= segment.w * size.0 < 1_000_000
                * (quads@[i].w + 1)
            &&& quads@[i].h > 1_000 ==> 1_000_000 * quads@[i].h <= segment.h * size.1 < 1_000_000
                * (quads@[i].h + 1)
        },
{
    if w > 0 && h > 0 && 0 <= i < quads@.len() {
        assert(quads@[i].x == quads@[i].x);
    }
}

} // verus!
