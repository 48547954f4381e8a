//! What panels are told of changes, and which changes each has to repaint for.

use crate::state::AppState;
use crate::text::same_text;
use vstd::prelude::*;

verus! {

/// A change of the window's state. Those that belong to one device carry its
/// key.
#[derive(Debug)]
pub enum StateEvent {
    InventoryChanged,
    DeviceSelected(String),
    BindingsChanged(String),
    LightingChanged(String),
    DpiChanged(String),
    ReportRateChanged(String),
    SmartShiftChanged(String),
    DeviceConfigChanged(String),
    CameraChanged,
    CameraPermissionChanged,
    SettingsChanged,
}

/// A panel that follows the state.
#[derive(Debug, Clone, Copy, PartialEq, Eq, Structural)]
pub enum Panel {
    ActionRing,
    FunctionRow,
    DeviceLighting,
    StandaloneLight,
    Dpi,
    ReportRate,
    SmartShift,
    Camera,
}

/// Whether the selected device's key is `key`.
pub open spec fn is_current(current: Option<Seq<char>>, key: Seq<char>) -> bool {
    current == Some(key)
}

/// Whether a panel has to repaint for an event, with `current` the selected
/// device's key. Any panel does for a change of the device list or of the
/// selection; for a change of one device it does if the change is of the
/// panel's sort and the device is the selected one.
pub open spec fn concerns(panel: Panel, event: StateEvent, current: Option<Seq<char>>) -> bool {
    match event {
        StateEvent::InventoryChanged => true,
        StateEvent::DeviceSelected(_) => true,
        StateEvent::BindingsChanged(key) => panel != Panel::StandaloneLight && panel
            != Panel::Camera && is_current(current, key@),
        StateEvent::LightingChanged(key) => (panel == Panel::DeviceLighting || panel
            == Panel::StandaloneLight) && is_current(current, key@),
        StateEvent::DpiChanged(key) => panel == Panel::Dpi && is_current(current, key@),
        StateEvent::ReportRateChanged(key) => panel == Panel::ReportRate && is_current(
            current,
            key@,
        ),
        StateEvent::SmartShiftChanged(key) => panel == Panel::SmartShift && is_current(
            current,
            key@,
        ),
        StateEvent::DeviceConfigChanged(key) => panel == Panel::SmartShift && is_current(
            current,
            key@,
        ),
        StateEvent::CameraChanged => panel == Panel::Camera || panel == Panel::StandaloneLight,
        StateEvent::CameraPermissionChanged => panel == Panel::Camera,
        StateEvent::SettingsChanged => false,
    }
}

impl AppState {
    /// The selected device's key.
    pub open spec fn current_key(self) -> Option<Seq<char>> {
        match self.current() {
            Some(record) => Some(record.config_key@),
            None => None,
        }
    }

    /// The selected device's key.
    pub fn current_device_key(&self) -> (key: Option<String>)
        ensures
            crate::text::owned_view(key) == self.current_key(),
    {
        match self.current_record() {
            Some(record) => Some(record.config_key.clone()),
            None => None,
        }
    }

    fn is_selected(&self, key: &str) -> (selected: bool)
        ensures
            selected == is_current(self.current_key(), key@),
    {
        match self.current_record() {
            Some(record) => same_text(record.config_key.as_str(), key),
            None => false,
        }
    }

    /// Whether a panel has to repaint for an event.
    pub fn relevant(&self, panel: Panel, event: &StateEvent) -> (relevant: bool)
        ensures
            relevant == concerns(panel, *event, self.current_key()),
    {
        match event {
            StateEvent::InventoryChanged => true,
            StateEvent::DeviceSelected(_) => true,
            StateEvent::BindingsChanged(key) => panel != Panel::StandaloneLight && panel
                != Panel::Camera && self.is_selected(key.as_str()),
            StateEvent::LightingChanged(key) => (panel == Panel::DeviceLighting || panel
                == Panel::StandaloneLight) && self.is_selected(key.as_str()),
            StateEvent::DpiChanged(key) => panel == Panel::Dpi && self.is_selected(key.as_str()),
            StateEvent::ReportRateChanged(key) => panel == Panel::ReportRate && self.is_selected(
                key.as_str(),
            ),
            StateEvent::SmartShiftChanged(key) => panel == Panel::SmartShift && self.is_selected(
                key.as_str(),
            ),
            StateEvent::DeviceConfigChanged(key) => panel == Panel::SmartShift && self.is_selected(
                key.as_str(),
            ),
            StateEvent::CameraChanged => panel == Panel::Camera || panel == Panel::StandaloneLight,
            StateEvent::CameraPermissionChanged => panel == Panel::Camera,
            StateEvent::SettingsChanged => false,
        }
    }
}

/// A change of a device that is not selected repaints no panel, unless it is
/// the selection itself that changed.
pub proof fn other_devices_repaint_nothing(panel: Panel, key: String, current: Option<Seq<char>>)
    requires
        current != Some(key@),
    ensures
        !concerns(panel, StateEvent::BindingsChanged(key), current),
        !concerns(panel, StateEvent::LightingChanged(key), current),
        !concerns(panel, StateEvent::DpiChanged(key), current),
        !concerns(panel, StateEvent::ReportRateChanged(key), current),
        !concerns(panel, StateEvent::SmartShiftChanged(key), current),
        !concerns(panel, StateEvent::DeviceConfigChanged(key), current),
{
}

} // verus!
