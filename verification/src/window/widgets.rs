//! Small pieces that several screens share.

use crate::device::{DeviceKind, DeviceRoute};
use crate::state::AppState;
use crate::text::push_text;
use vstd::prelude::*;

verus! {

/// The main window's title.
pub open spec fn title_of(show_device: bool, state: Option<&AppState>) -> Seq<char> {
    match state {
        Some(state) => match state.current() {
            Some(record) => if show_device {
                "OpenLogi - "@ + record.display_name@
            } else {
                "OpenLogi"@
            },
            None => "OpenLogi"@,
        },
        None => "OpenLogi"@,
    }
}

/// The main window's title: with the selected device's name while it is shown.
pub fn main_window_title(show_device: bool, state: Option<&AppState>) -> (title: String)
    ensures
        title@ == title_of(show_device, state),
{
    if show_device {
        if let Some(state) = state {
            if let Some(record) = state.current_record() {
                let mut title = "OpenLogi - ".to_owned();
                push_text(&mut title, record.display_name.as_str());
                return title;
            }
        }
    }
    "OpenLogi".to_owned()
}

/// The message that says whether a device is connected.
pub open spec fn connectivity(online: bool) -> Seq<char> {
    if online {
        "device.connected"@
    } else {
        "device.offline"@
    }
}

/// The message that says whether a device is connected.
pub fn status_badge(online: bool) -> (label: &'static str)
    ensures
        label@ == connectivity(online),
{
    if online {
        "device.connected"
    } else {
        "device.offline"
    }
}

/// The message that says how a device is reached.
pub open spec fn route_message(route: Option<DeviceRoute>) -> Seq<char> {
    match route {
        Some(DeviceRoute::Bolt { .. }) => "device.bolt_receiver"@,
        Some(DeviceRoute::Unifying { .. }) => "device.unifying_receiver"@,
        Some(DeviceRoute::Direct { .. }) => "device.direct_connection"@,
        Some(DeviceRoute::RawHid { .. }) => "device.direct_connection"@,
        None => "common.unavailable"@,
    }
}

/// The message that says how a device is reached.
pub fn route_label(route: Option<DeviceRoute>) -> (label: &'static str)
    ensures
        label@ == route_message(route),
{
    match route {
        Some(DeviceRoute::Bolt { .. }) => "device.bolt_receiver",
        Some(DeviceRoute::Unifying { .. }) => "device.unifying_receiver",
        Some(DeviceRoute::Direct { .. }) => "device.direct_connection",
        Some(DeviceRoute::RawHid { .. }) => "device.direct_connection",
        None => "common.unavailable",
    }
}

/// The message that names a kind of device.
pub open spec fn kind_message(kind: DeviceKind) -> Seq<char> {
    match kind {
        DeviceKind::Mouse => "device.mouse"@,
        DeviceKind::Keyboard => "device.keyboard"@,
        DeviceKind::Numpad => "device.numpad"@,
        DeviceKind::Presenter => "device.presenter"@,
        DeviceKind::Remote => "device.remote"@,
        DeviceKind::Trackball => "device.trackball"@,
        DeviceKind::Touchpad => "device.touchpad"@,
        DeviceKind::Tablet => "device.tablet"@,
        DeviceKind::Gamepad => "device.gamepad"@,
        DeviceKind::Joystick => "device.joystick"@,
        DeviceKind::Headset => "device.headset"@,
        DeviceKind::Camera => "camera.camera"@,
        DeviceKind::Unknown => "device.device"@,
        DeviceKind::Light => "device.lighting"@,
    }
}

/// The message that names a kind of device.
pub fn kind_label(kind: DeviceKind) -> (label: &'static str)
    ensures
        label@ == kind_message(kind),
{
    match kind {
        DeviceKind::Mouse => "device.mouse",
        DeviceKind::Keyboard => "device.keyboard",
        DeviceKind::Numpad => "device.numpad",
        DeviceKind::Presenter => "device.presenter",
        DeviceKind::Remote => "device.remote",
        DeviceKind::Trackball => "device.trackball",
        DeviceKind::Touchpad => "device.touchpad",
        DeviceKind::Tablet => "device.tablet",
        DeviceKind::Gamepad => "device.gamepad",
        DeviceKind::Joystick => "device.joystick",
        DeviceKind::Headset => "device.headset",
        DeviceKind::Camera => "camera.camera",
        DeviceKind::Unknown => "device.device",
        DeviceKind::Light => "device.lighting",
    }
}

} // verus!
