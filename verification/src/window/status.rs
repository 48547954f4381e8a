//! What stands in place of the real screens while the background service is
//! connecting, out of reach or newer than the window.

use crate::window::phrase::Piece;
use vstd::prelude::*;

verus! {

/// A button of a frame.
#[derive(Debug, Clone, Copy, PartialEq, Eq, Structural)]
pub enum FrameButton {
    Relaunch,
    OpenConfigFolder,
    AddDevice,
}

impl FrameButton {
    /// The message on the button.
    pub open spec fn message(self) -> Seq<char> {
        match self {
            FrameButton::Relaunch => "agent.relaunch_openlogi"@,
            FrameButton::OpenConfigFolder => "app.open_configuration_folder"@,
            FrameButton::AddDevice => "pairing.add_device"@,
        }
    }

    /// The message on the button.
    pub fn label(self) -> (label: &'static str)
        ensures
            label@ == self.message(),
    {
        match self {
            FrameButton::Relaunch => "agent.relaunch_openlogi",
            FrameButton::OpenConfigFolder => "app.open_configuration_folder",
            FrameButton::AddDevice => "pairing.add_device",
        }
    }
}

/// A frame that fills the screen.
#[derive(Debug)]
pub enum Frame {
    /// Something is under way. It ends, so it may be animated.
    Loading { message: &'static str },
    /// Something is wrong, maybe for good, so nothing moves.
    Notice { headline: &'static str, caption: Piece, buttons: Vec<FrameButton> },
    /// There is nothing to show.
    Empty { headline: &'static str, help: &'static str, button: FrameButton, hint: &'static str },
}

/// Whether `frame` is a notice with the given messages and buttons.
pub open spec fn notifies(
    frame: Frame,
    headline: Seq<char>,
    caption: Seq<char>,
    buttons: Seq<FrameButton>,
) -> bool {
    frame matches Frame::Notice { headline: shown, caption: below, buttons: listed } && shown@
        == headline && (below matches Piece::Message(key) && key@ == caption) && listed@ == buttons
}

/// From the window's opening until the service's first answer.
pub fn connecting_body() -> (frame: Frame)
    ensures
        frame matches Frame::Loading { message } && message@
            == "agent.connecting_to_the_background_service"@,
{
    Frame::Loading { message: "agent.connecting_to_the_background_service" }
}

/// Once the service was out of reach for long.
pub fn unreachable_body() -> (frame: Frame)
    ensures
        notifies(
            frame,
            "agent.cant_reach_the_background_service"@,
            "agent.agent_connection_retry"@,
            seq![],
        ),
{
    let buttons: Vec<FrameButton> = Vec::new();
    assert(buttons@ =~= seq![]);
    Frame::Notice {
        headline: "agent.cant_reach_the_background_service",
        caption: Piece::Message("agent.agent_connection_retry"),
        buttons,
    }
}

/// Once the service turned out to be newer than the window.
pub fn outdated_gui_body() -> (frame: Frame)
    ensures
        notifies(
            frame,
            "agent.openlogi_was_updated"@,
            "agent.updated_window_requires_relaunch"@,
            seq![FrameButton::Relaunch],
        ),
{
    let buttons: Vec<FrameButton> = vec![FrameButton::Relaunch];
    assert(buttons@ =~= seq![FrameButton::Relaunch]);
    Frame::Notice {
        headline: "agent.openlogi_was_updated",
        caption: Piece::Message("agent.updated_window_requires_relaunch"),
        buttons,
    }
}

/// Once the configuration could not be read or written, as `message` says.
pub fn config_issue_body(message: &str) -> (frame: Frame)
    ensures
        frame matches Frame::Notice { headline, caption, buttons } && headline@
            == "device.configuration"@ && (caption matches Piece::Text(text) && text@ == message@)
            && buttons@ == seq![FrameButton::OpenConfigFolder, FrameButton::Relaunch],
{
    let buttons: Vec<FrameButton> = vec![FrameButton::OpenConfigFolder, FrameButton::Relaunch];
    assert(buttons@ =~= seq![FrameButton::OpenConfigFolder, FrameButton::Relaunch]);
    Frame::Notice {
        headline: "device.configuration",
        caption: Piece::Text(message.to_owned()),
        buttons,
    }
}

/// While the first scan for devices is under way: their set is not empty but
/// unknown.
pub fn device_scanning_state() -> (frame: Frame)
    ensures
        frame matches Frame::Loading { message } && message@ == "agent.scanning_for_devices"@,
{
    Frame::Loading { message: "agent.scanning_for_devices" }
}

/// Once scanning for devices turned out to be broken.
pub fn scanning_unavailable_state() -> (frame: Frame)
    ensures
        notifies(
            frame,
            "agent.device_scanning_is_unavailable"@,
            "agent.device_scan_failure_description"@,
            seq![],
        ),
{
    let buttons: Vec<FrameButton> = Vec::new();
    assert(buttons@ =~= seq![]);
    Frame::Notice {
        headline: "agent.device_scanning_is_unavailable",
        caption: Piece::Message("agent.device_scan_failure_description"),
        buttons,
    }
}

/// Once a scan found no device.
pub fn device_empty_state() -> (frame: Frame)
    ensures
        frame matches Frame::Empty { headline, help, button, hint } && headline@
            == "device.no_devices_connected"@ && help@ == "device.device_connection_help"@
            && button == FrameButton::AddDevice && hint@ == "device.quit_logi_options_hid_access"@,
{
    Frame::Empty {
        headline: "device.no_devices_connected",
        help: "device.device_connection_help",
        button: FrameButton::AddDevice,
        hint: "device.quit_logi_options_hid_access",
    }
}

/// The bar for a permission that was refused, on a system that has it.
pub fn attention_footer(has_permission_gate: bool) -> (message: Option<&'static str>)
    ensures
        match message {
            Some(message) => has_permission_gate && message@
                == "permissions.accessibility_not_granted_click_to_grant"@,
            None => !has_permission_gate,
        },
{
    if has_permission_gate {
        Some("permissions.accessibility_not_granted_click_to_grant")
    } else {
        None
    }
}

} // verus!
