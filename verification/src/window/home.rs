//! The gallery's cards and rows: what they say of a device.

pub mod glow;
pub mod views;

use crate::device::{BatteryInfo, DeviceKind, DeviceRoute, DeviceTransports};
use crate::hid::Rgb;
use crate::record::DeviceRecord;
use crate::services::assets::metadata::GlowGeometry;
use crate::state::AppState;
use crate::text::same_text;
use crate::window::phrase::{append, phrase, push, Piece, PieceView};
use crate::window::widgets::{connectivity, route_label, route_message, status_badge};
use std::sync::Arc;
use vstd::prelude::*;

verus! {

/// The message that counts the devices, and their number.
pub fn device_count_label(device_count: usize) -> (label: (&'static str, usize))
    ensures
        label.0@ == if device_count == 1 {
            "device.device_count_singular"@
        } else {
            "device.device_count_plural"@
        },
        label.1 == device_count,
{
    if device_count == 1 {
        ("device.device_count_singular", device_count)
    } else {
        ("device.device_count_plural", device_count)
    }
}

/// The glyph for the medium that carries a device's link.
#[derive(Debug, Clone, Copy, PartialEq, Eq, Structural)]
pub enum ConnectionIcon {
    Bolt,
    Unifying,
    Usb,
    Bluetooth,
}

impl ConnectionIcon {
    /// The glyph's file.
    pub open spec fn file(self) -> Seq<char> {
        match self {
            ConnectionIcon::Bolt => "action-icons/bolt.svg"@,
            ConnectionIcon::Unifying => "action-icons/unifying.svg"@,
            ConnectionIcon::Usb => "action-icons/usb.svg"@,
            ConnectionIcon::Bluetooth => "action-icons/bluetooth.svg"@,
        }
    }

    /// The glyph's file.
    pub fn path(self) -> (path: &'static str)
        ensures
            path@ == self.file(),
    {
        match self {
            ConnectionIcon::Bolt => "action-icons/bolt.svg",
            ConnectionIcon::Unifying => "action-icons/unifying.svg",
            ConnectionIcon::Usb => "action-icons/usb.svg",
            ConnectionIcon::Bluetooth => "action-icons/bluetooth.svg",
        }
    }
}

/// Whether a device has a cable and no Bluetooth radio. A radio that only talks
/// to receivers carries no direct link, so it counts as a cable.
pub open spec fn only_wired(transports: Option<DeviceTransports>) -> bool {
    transports matches Some(t) && (t.usb || t.equad) && !t.bluetooth && !t.btle
}

/// The glyph for a link. A direct link says how the device is addressed, not
/// what carries it: only a device without a Bluetooth radio is surely on the
/// cable.
pub open spec fn icon_of(
    route: Option<DeviceRoute>,
    transports: Option<DeviceTransports>,
) -> ConnectionIcon {
    match route {
        Some(DeviceRoute::Bolt { .. }) => ConnectionIcon::Bolt,
        Some(DeviceRoute::Unifying { .. }) => ConnectionIcon::Unifying,
        Some(DeviceRoute::RawHid { .. }) => ConnectionIcon::Usb,
        _ => if only_wired(transports) {
            ConnectionIcon::Usb
        } else {
            ConnectionIcon::Bluetooth
        },
    }
}

/// The glyph for a link.
pub fn connection_icon(route: Option<DeviceRoute>, transports: Option<DeviceTransports>) -> (icon:
    ConnectionIcon)
    ensures
        icon == icon_of(route, transports),
{
    match route {
        Some(DeviceRoute::Bolt { .. }) => ConnectionIcon::Bolt,
        Some(DeviceRoute::Unifying { .. }) => ConnectionIcon::Unifying,
        Some(DeviceRoute::RawHid { .. }) => ConnectionIcon::Usb,
        _ => match transports {
            Some(t) => if (t.usb || t.equad) && !t.bluetooth && !t.btle {
                ConnectionIcon::Usb
            } else {
                ConnectionIcon::Bluetooth
            },
            None => ConnectionIcon::Bluetooth,
        },
    }
}

/// The file of the glyph for a link.
pub fn connection_icon_path(
    route: Option<DeviceRoute>,
    transports: Option<DeviceTransports>,
) -> (path: &'static str)
    ensures
        path@ == icon_of(route, transports).file(),
{
    connection_icon(route, transports).path()
}

/// The glyph on a device's card. A camera is always on the cable.
pub open spec fn record_icon(record: DeviceRecord) -> ConnectionIcon {
    if record.kind == DeviceKind::Camera {
        ConnectionIcon::Usb
    } else {
        icon_of(
            record.route,
            match record.model_info {
                Some(model) => Some(model.transports),
                None => None,
            },
        )
    }
}

fn icon_for(record: &DeviceRecord) -> (icon: ConnectionIcon)
    ensures
        icon == record_icon(*record),
{
    if record.kind == DeviceKind::Camera {
        return ConnectionIcon::Usb;
    }
    let transports = match &record.model_info {
        Some(model) => Some(model.transports),
        None => None,
    };
    connection_icon(record.route, transports)
}

/// What is said of a device's link: how it is reached, and on a receiver the
/// channel.
pub open spec fn summary_of(route: Option<DeviceRoute>, slot: u8) -> Seq<PieceView> {
    let reached = PieceView::Message(route_message(route));
    match route {
        Some(DeviceRoute::Bolt { .. }) | Some(DeviceRoute::Unifying { .. }) => seq![
            reached,
            PieceView::Text(" \u{b7} "@),
            PieceView::Message("device.channel"@),
            PieceView::Text(" "@),
            PieceView::Number(slot as nat),
        ],
        _ => seq![reached],
    }
}

/// What is said of a device's link.
pub fn connection_summary(record: &DeviceRecord) -> (summary: Vec<Piece>)
    ensures
        phrase(summary@) == summary_of(record.route, record.slot),
{
    let mut summary: Vec<Piece> = Vec::new();
    assert(phrase(summary@) =~= seq![]);
    push(&mut summary, Piece::Message(route_label(record.route)));
    let on_receiver = match record.route {
        Some(DeviceRoute::Bolt { .. }) | Some(DeviceRoute::Unifying { .. }) => true,
        _ => false,
    };
    if on_receiver {
        push(&mut summary, Piece::Mark(" \u{b7} "));
        push(&mut summary, Piece::Message("device.channel"));
        push(&mut summary, Piece::Mark(" "));
        push(&mut summary, Piece::Number(record.slot as u64));
    }
    assert(phrase(summary@) =~= summary_of(record.route, record.slot));
    summary
}

/// The color of a link's glyph.
#[derive(Debug, Clone, Copy, PartialEq, Eq, Structural)]
pub enum GlanceColor {
    Accent,
    Connected,
    Muted,
}

/// The color of a link's glyph: by the medium, not by whether it is up.
pub open spec fn glance_color(icon: ConnectionIcon) -> GlanceColor {
    match icon {
        ConnectionIcon::Bluetooth => GlanceColor::Accent,
        ConnectionIcon::Bolt => GlanceColor::Connected,
        ConnectionIcon::Unifying => GlanceColor::Connected,
        ConnectionIcon::Usb => GlanceColor::Muted,
    }
}

/// A link's glyph in the corner of a card, and its hint.
#[derive(Debug)]
pub struct TransportGlance {
    pub icon: ConnectionIcon,
    pub color: GlanceColor,
    pub hint: Vec<Piece>,
}

/// The hint at a link's glyph.
pub open spec fn glance_hint(record: DeviceRecord) -> Seq<PieceView> {
    seq![PieceView::Message(connectivity(record.online)), PieceView::Text(" \u{b7} "@)]
        + summary_of(record.route, record.slot)
}

/// A link's glyph in the corner of a card.
pub fn transport_glance(record: &DeviceRecord) -> (glance: TransportGlance)
    ensures
        glance.icon == record_icon(*record),
        glance.color == glance_color(record_icon(*record)),
        phrase(glance.hint@) == glance_hint(*record),
{
    let icon = icon_for(record);
    let color = match icon {
        ConnectionIcon::Bluetooth => GlanceColor::Accent,
        ConnectionIcon::Bolt => GlanceColor::Connected,
        ConnectionIcon::Unifying => GlanceColor::Connected,
        ConnectionIcon::Usb => GlanceColor::Muted,
    };
    let mut hint: Vec<Piece> = Vec::new();
    assert(phrase(hint@) =~= seq![]);
    push(&mut hint, Piece::Message(status_badge(record.online)));
    push(&mut hint, Piece::Mark(" \u{b7} "));
    append(&mut hint, connection_summary(record));
    assert(phrase(hint@) =~= glance_hint(*record));
    TransportGlance { icon, color, hint }
}

/// The line about a device's link in a row of the list.
#[derive(Debug)]
pub struct ConnectionView {
    pub online: bool,
    pub status: &'static str,
    pub icon: ConnectionIcon,
    pub summary: Vec<Piece>,
}

/// The line about a device's link in a row of the list.
pub fn connection_view(record: &DeviceRecord) -> (view: ConnectionView)
    ensures
        view.online == record.online,
        view.status@ == connectivity(record.online),
        view.icon == record_icon(*record),
        phrase(view.summary@) == summary_of(record.route, record.slot),
{
    ConnectionView {
        online: record.online,
        status: status_badge(record.online),
        icon: icon_for(record),
        summary: connection_summary(record),
    }
}

/// The model's name under a name of the user's own; none where the name is the
/// model's.
pub open spec fn subtitle_of(record: DeviceRecord) -> Option<Seq<char>> {
    if record.display_name@ != record.model_name@ {
        Some(record.model_name@)
    } else {
        None
    }
}

/// The model's name under a name of the user's own.
pub fn custom_model_subtitle(record: &DeviceRecord) -> (subtitle: Option<String>)
    ensures
        crate::text::owned_view(subtitle) == subtitle_of(*record),
{
    if same_text(record.display_name.as_str(), record.model_name.as_str()) {
        None
    } else {
        Some(record.model_name.clone())
    }
}

/// What a device's menu acts on.
#[derive(Debug)]
pub struct DeviceMenu {
    pub record_key: String,
    /// What the rename dialog starts with: the user's own name, if there is one.
    pub custom_name: String,
    pub model_name: String,
    pub display_name: String,
    /// Whether the menu offers to delete the device. A live one would come back
    /// with the next snapshot.
    pub deletable: bool,
}

/// Whether `menu` is the menu of a device.
pub open spec fn menu_of(menu: DeviceMenu, record: DeviceRecord) -> bool {
    &&& menu.record_key@ == record.record_key@
    &&& menu.custom_name@ == if record.display_name@ == record.model_name@ {
        ""@
    } else {
        record.display_name@
    }
    &&& menu.model_name@ == record.model_name@
    &&& menu.display_name@ == record.display_name@
    &&& menu.deletable == (record.persistent && !record.online)
}

/// The menu of a device.
pub fn device_menu(record: &DeviceRecord) -> (menu: DeviceMenu)
    ensures
        menu_of(menu, *record),
{
    let unnamed = same_text(record.display_name.as_str(), record.model_name.as_str());
    DeviceMenu {
        record_key: record.record_key.clone(),
        custom_name: if unnamed {
            "".to_owned()
        } else {
            record.display_name.clone()
        },
        model_name: record.model_name.clone(),
        display_name: record.display_name.clone(),
        deletable: record.persistent && !record.online,
    }
}

/// The picture of a device.
#[derive(Debug)]
pub enum DeviceImage {
    /// A light, drawn as it shines.
    Light { online: bool, enabled: bool },
    /// A picture file.
    Picture(String),
    /// The glyph of a camera, which has no picture.
    Camera,
    /// The glyph of any other device without a picture.
    Chip,
}

/// Whether `image` is the picture of a device.
pub open spec fn depicts(image: DeviceImage, record: DeviceRecord, light_enabled: bool) -> bool {
    if record.kind == DeviceKind::Light {
        image == (DeviceImage::Light { online: record.online, enabled: light_enabled })
    } else {
        match hero_of(record) {
            Some(path) => image matches DeviceImage::Picture(shown) && shown@ == path,
            None => if record.kind == DeviceKind::Camera {
                image is Camera
            } else {
                image is Chip
            },
        }
    }
}

/// The picture file of a device.
pub open spec fn hero_of(record: DeviceRecord) -> Option<Seq<char>> {
    match record.asset {
        Some(asset) => crate::text::owned_view(asset.hero_image_path),
        None => None,
    }
}

/// The picture of a device.
pub fn device_image(record: &DeviceRecord, light_enabled: bool) -> (image: DeviceImage)
    ensures
        depicts(image, *record, light_enabled),
{
    if record.kind == DeviceKind::Light {
        return DeviceImage::Light { online: record.online, enabled: light_enabled };
    }
    if let Some(asset) = &record.asset {
        if let Some(path) = &asset.hero_image_path {
            return DeviceImage::Picture(path.clone());
        }
    }
    if record.kind == DeviceKind::Camera {
        DeviceImage::Camera
    } else {
        DeviceImage::Chip
    }
}

/// What the settings say of a device.
#[derive(Debug, Clone, Copy, PartialEq, Eq, Structural)]
pub struct DeviceFacts {
    /// Whether the service may touch the device.
    pub enabled: bool,
    /// Whether a light is on.
    pub light_on: bool,
    /// Whether the device's settings key names no physical device.
    pub transient: bool,
}

/// Where and in which color a keyboard glows: between its keys and in the color
/// of its lighting, if that is on and the art ships a mask.
pub open spec fn glow_of(state: AppState, record: DeviceRecord, transient: bool) -> Option<
    (Arc<GlowGeometry>, Rgb),
> {
    if record.kind != DeviceKind::Keyboard {
        None
    } else {
        match (
            state.stored_lighting(record.config_key@, transient, record.route_key@),
            record.asset,
        ) {
            (Some(lighting), Some(asset)) => match asset.glow {
                Some(geometry) if lighting.enabled => Some((geometry, lighting.color)),
                _ => None,
            },
            _ => None,
        }
    }
}

/// Where and in which color a keyboard glows.
pub fn keyboard_glow(state: &AppState, record: &DeviceRecord, transient: bool) -> (glow: Option<
    (Arc<GlowGeometry>, Rgb),
>)
    ensures
        glow == glow_of(*state, *record, transient),
{
    if record.kind != DeviceKind::Keyboard {
        return None;
    }
    let lighting = state.lighting_for(
        record.config_key.as_str(),
        transient,
        record.route_key.as_str(),
    );
    match (lighting, &record.asset) {
        (Some(lighting), Some(asset)) => match &asset.glow {
            Some(geometry) if lighting.enabled => Some((geometry.clone(), lighting.color)),
            _ => None,
        },
        _ => None,
    }
}

/// How much of a picture shows through, in hundredths: an offline device's is
/// dimmed.
pub open spec fn opacity_of(online: bool) -> u8 {
    if online {
        100
    } else {
        38
    }
}

/// A device's card.
#[derive(Debug)]
pub struct DeviceCard {
    pub record_key: String,
    pub name: String,
    pub kind: &'static str,
    pub subtitle: Option<String>,
    /// Whether the card is ringed as one that the service may not touch.
    pub ringed: bool,
    pub opacity: u8,
    pub glow: Option<(Arc<GlowGeometry>, Rgb)>,
    pub image: DeviceImage,
    pub glance: TransportGlance,
    pub battery: Option<BatteryInfo>,
    /// The menu of the button in the corner, which half-read devices lack.
    pub menu: Option<DeviceMenu>,
}

/// Whether `card` is the card of a device.
pub open spec fn card_of(
    card: DeviceCard,
    record: DeviceRecord,
    enabled: bool,
    glow: Option<(Arc<GlowGeometry>, Rgb)>,
    light_enabled: bool,
) -> bool {
    &&& card.record_key@ == record.record_key@
    &&& card.name@ == record.display_name@
    &&& card.kind@ == crate::window::widgets::kind_message(record.kind)
    &&& crate::text::owned_view(card.subtitle) == subtitle_of(record)
    &&& card.ringed == !enabled
    &&& card.opacity == opacity_of(record.online)
    &&& card.glow == glow
    &&& depicts(card.image, record, light_enabled)
    &&& card.glance.icon == record_icon(record)
    &&& card.glance.color == glance_color(record_icon(record))
    &&& phrase(card.glance.hint@) == glance_hint(record)
    &&& card.battery == record.battery
    &&& match card.menu {
        Some(menu) => record.persistent && menu_of(menu, record),
        None => !record.persistent,
    }
}

/// The card of a device.
pub fn device_card(
    record: &DeviceRecord,
    enabled: bool,
    glow: Option<(Arc<GlowGeometry>, Rgb)>,
    light_enabled: bool,
) -> (card: DeviceCard)
    ensures
        card_of(card, *record, enabled, glow, light_enabled),
{
    DeviceCard {
        record_key: record.record_key.clone(),
        name: record.display_name.clone(),
        kind: crate::window::widgets::kind_label(record.kind),
        subtitle: custom_model_subtitle(record),
        ringed: !enabled,
        opacity: if record.online {
            100
        } else {
            38
        },
        glow,
        image: device_image(record, light_enabled),
        glance: transport_glance(record),
        battery: record.battery,
        menu: if record.persistent {
            Some(device_menu(record))
        } else {
            None
        },
    }
}

/// A device that could be on Bluetooth is never shown on the cable over a
/// direct link.
pub proof fn radios_are_not_shown_as_cables(endpoint: u64, transports: DeviceTransports)
    requires
        transports.bluetooth || transports.btle,
    ensures
        icon_of(Some(DeviceRoute::Direct { endpoint }), Some(transports))
            == ConnectionIcon::Bluetooth,
        icon_of(None, Some(transports)) == ConnectionIcon::Bluetooth,
{
}

} // verus!
