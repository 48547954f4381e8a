//! Standalone lights.
//!
//! A brightness is kept in percent and shown in the light's own unit; the
//! caller converts between the two and passes `None` where that is not
//! possible.

use crate::device::{LightCapabilities, LightValueRange, LightValueUnit};
use crate::record::DeviceRecord;
use crate::state::AppState;
use crate::text::{
    decimal, optional_view, owned_view, push_decimal, push_text, same_optional_text,
};
use crate::window::phrase::{Piece, PieceView};
use vstd::prelude::*;

verus! {

/// A light's settings.
#[derive(Debug, Clone, Copy, PartialEq, Eq, Structural)]
pub struct LightSettings {
    pub enabled: bool,
    pub brightness_percent: u8,
    pub temperature_kelvin: Option<u16>,
    /// Whether the light follows the camera.
    pub auto_camera: bool,
}

/// The grid value in the middle of a range.
pub open spec fn middle(range: LightValueRange) -> int {
    range.quantized(range.spec_min() + (range.spec_max() - range.spec_min()) / 2)
}

/// The grid value in the middle of a range.
pub fn midpoint(range: LightValueRange) -> (value: u16)
    ensures
        value == middle(range),
{
    let min = range.min();
    let max = range.max();
    range.quantize(min + (max - min) / 2)
}

/// Where the brightness slider stands.
pub open spec fn shown_brightness(range: LightValueRange, native: Option<u16>) -> int {
    match native {
        Some(native) => native as int,
        None => range.spec_min(),
    }
}

fn brightness_value(range: LightValueRange, native: Option<u16>) -> (value: u16)
    ensures
        value == shown_brightness(range, native),
{
    match native {
        Some(native) => native,
        None => range.min(),
    }
}

/// Where the temperature slider stands.
pub open spec fn shown_temperature(range: LightValueRange, kelvin: Option<u16>) -> int {
    match kelvin {
        Some(kelvin) => range.quantized(kelvin as int),
        None => middle(range),
    }
}

fn temperature_value(range: LightValueRange, kelvin: Option<u16>) -> (value: u16)
    ensures
        value == shown_temperature(range, kelvin),
{
    match kelvin {
        Some(kelvin) => range.quantize(kelvin),
        None => midpoint(range),
    }
}

/// A slider: its range and where it stands.
#[derive(Debug, Clone, Copy, PartialEq, Eq, Structural)]
pub struct LightSlider {
    pub range: LightValueRange,
    pub value: u16,
}

/// The panel: the light that its sliders were made for, and what they last
/// followed.
#[derive(Debug)]
pub struct LightPanel {
    pub brightness: Option<LightSlider>,
    pub temperature: Option<LightSlider>,
    pub device_key: Option<String>,
    pub last_brightness: u8,
    pub last_temperature: Option<u16>,
}

/// The range of a slider.
pub open spec fn range_of(slider: Option<LightSlider>) -> Option<LightValueRange> {
    match slider {
        Some(slider) => Some(slider.range),
        None => None,
    }
}

fn slider_range(slider: Option<LightSlider>) -> (range: Option<LightValueRange>)
    ensures
        range == range_of(slider),
{
    match slider {
        Some(slider) => Some(slider.range),
        None => None,
    }
}

/// The range of a light's brightness.
pub open spec fn brightness_of(capabilities: Option<LightCapabilities>) -> Option<LightValueRange> {
    match capabilities {
        Some(capabilities) => capabilities.brightness,
        None => None,
    }
}

/// The range of a light's temperature.
pub open spec fn temperature_of(capabilities: Option<LightCapabilities>) -> Option<LightValueRange> {
    match capabilities {
        Some(capabilities) => capabilities.temperature,
        None => None,
    }
}

fn same_range(a: Option<LightValueRange>, b: Option<LightValueRange>) -> (same: bool)
    ensures
        same == (a == b),
{
    match (a, b) {
        (Some(a), Some(b)) => a == b,
        (None, None) => true,
        _ => false,
    }
}

impl LightPanel {
    /// The panel before a light is known.
    pub fn new(settings: LightSettings) -> (panel: Self)
        ensures
            panel == (LightPanel {
                brightness: None,
                temperature: None,
                device_key: None,
                last_brightness: settings.brightness_percent,
                last_temperature: settings.temperature_kelvin,
            }),
    {
        LightPanel {
            brightness: None,
            temperature: None,
            device_key: None,
            last_brightness: settings.brightness_percent,
            last_temperature: settings.temperature_kelvin,
        }
    }

    /// Whether the sliders were made for this light.
    pub open spec fn made_for(
        self,
        key: Option<Seq<char>>,
        capabilities: Option<LightCapabilities>,
    ) -> bool {
        &&& owned_view(self.device_key) == key
        &&& range_of(self.brightness) == brightness_of(capabilities)
        &&& range_of(self.temperature) == temperature_of(capabilities)
    }

    /// Whether `after` is this panel with the sliders that a light can use,
    /// which are left alone if they were made for it.
    pub open spec fn sliders_ensured(
        self,
        after: LightPanel,
        key: Option<Seq<char>>,
        capabilities: Option<LightCapabilities>,
        settings: LightSettings,
        native: Option<u16>,
    ) -> bool {
        &&& after.made_for(key, capabilities)
        &&& after.last_brightness == self.last_brightness
        &&& after.last_temperature == self.last_temperature
        &&& self.made_for(key, capabilities) ==> after == self
        &&& !self.made_for(key, capabilities) ==> {
            &&& after.brightness matches Some(slider) ==> slider.value == shown_brightness(
                slider.range,
                native,
            )
            &&& after.temperature matches Some(slider) ==> slider.value == shown_temperature(
                slider.range,
                settings.temperature_kelvin,
            )
        }
    }

    /// This panel with its sliders moved after the settings, where these
    /// changed.
    pub open spec fn followed(self, settings: LightSettings, native: Option<u16>) -> LightPanel {
        LightPanel {
            brightness: match self.brightness {
                Some(slider) if settings.brightness_percent != self.last_brightness => Some(
                    LightSlider {
                        range: slider.range,
                        value: shown_brightness(slider.range, native) as u16,
                    },
                ),
                slider => slider,
            },
            temperature: match self.temperature {
                Some(slider) if settings.temperature_kelvin != self.last_temperature => Some(
                    LightSlider {
                        range: slider.range,
                        value: shown_temperature(slider.range, settings.temperature_kelvin) as u16,
                    },
                ),
                slider => slider,
            },
            device_key: self.device_key,
            last_brightness: settings.brightness_percent,
            last_temperature: settings.temperature_kelvin,
        }
    }

    /// Makes the sliders that a light can use, unless they were made for it.
    pub fn ensure_sliders(
        &mut self,
        key: Option<&str>,
        capabilities: Option<LightCapabilities>,
        settings: LightSettings,
        native: Option<u16>,
    )
        ensures
            old(self).sliders_ensured(
                *final(self),
                optional_view(key),
                capabilities,
                settings,
                native,
            ),
    {
        let (brightness, temperature): (Option<LightValueRange>, Option<LightValueRange>) =
            match capabilities {
            Some(capabilities) => (capabilities.brightness, capabilities.temperature),
            None => (None, None),
        };
        let same_key = match (&self.device_key, key) {
            (Some(made), Some(key)) => same_optional_text(Some(made.as_str()), Some(key)),
            (None, None) => true,
            _ => false,
        };
        if same_key && same_range(slider_range(self.brightness), brightness) && same_range(
            slider_range(self.temperature),
            temperature,
        ) {
            return;
        }
        self.device_key = match key {
            Some(key) => Some(key.to_owned()),
            None => None,
        };
        self.brightness = match brightness {
            Some(range) => Some(LightSlider { range, value: brightness_value(range, native) }),
            None => None,
        };
        self.temperature = match temperature {
            Some(range) => Some(
                LightSlider { range, value: temperature_value(range, settings.temperature_kelvin) },
            ),
            None => None,
        };
    }

    /// Moves the sliders after the settings, where these changed.
    pub fn follow(&mut self, settings: LightSettings, native: Option<u16>)
        ensures
            *final(self) == old(self).followed(settings, native),
    {
        if settings.brightness_percent != self.last_brightness {
            self.last_brightness = settings.brightness_percent;
            if let Some(slider) = self.brightness {
                self.brightness = Some(
                    LightSlider {
                        range: slider.range,
                        value: brightness_value(slider.range, native),
                    },
                );
            }
        }
        if !same_kelvin(settings.temperature_kelvin, self.last_temperature) {
            self.last_temperature = settings.temperature_kelvin;
            if let Some(slider) = self.temperature {
                self.temperature = Some(
                    LightSlider {
                        range: slider.range,
                        value: temperature_value(slider.range, settings.temperature_kelvin),
                    },
                );
            }
        }
    }
}

fn same_kelvin(a: Option<u16>, b: Option<u16>) -> (same: bool)
    ensures
        same == (a == b),
{
    match (a, b) {
        (Some(a), Some(b)) => a == b,
        (None, None) => true,
        _ => false,
    }
}

/// The settings after the brightness slider was let go at a percentage. That
/// turns the light on, unless the camera has it in hand.
pub fn released_brightness(settings: LightSettings, percent: Option<u8>, camera: bool) -> (after:
    Option<LightSettings>)
    ensures
        after == match percent {
            None => None,
            Some(percent) => Some(
                LightSettings {
                    enabled: settings.enabled || !camera,
                    brightness_percent: percent,
                    ..settings
                },
            ),
        },
{
    match percent {
        None => None,
        Some(percent) => Some(
            LightSettings {
                enabled: settings.enabled || !camera,
                brightness_percent: percent,
                temperature_kelvin: settings.temperature_kelvin,
                auto_camera: settings.auto_camera,
            },
        ),
    }
}

/// The settings after the temperature slider was let go.
pub fn released_temperature(
    settings: LightSettings,
    range: LightValueRange,
    kelvin: u16,
    camera: bool,
) -> (after: LightSettings)
    ensures
        after == (LightSettings {
            enabled: settings.enabled || !camera,
            temperature_kelvin: Some(range.quantized(kelvin as int) as u16),
            ..settings
        }),
{
    LightSettings {
        enabled: settings.enabled || !camera,
        brightness_percent: settings.brightness_percent,
        temperature_kelvin: Some(range.quantize(kelvin)),
        auto_camera: settings.auto_camera,
    }
}

/// The settings after the switch that lets the light follow the camera was
/// turned.
pub fn camera_automation(settings: LightSettings, auto_camera: bool) -> (after: LightSettings)
    ensures
        after == (LightSettings { auto_camera, ..settings }),
{
    LightSettings {
        enabled: settings.enabled,
        brightness_percent: settings.brightness_percent,
        temperature_kelvin: settings.temperature_kelvin,
        auto_camera,
    }
}

/// A value with its unit.
pub open spec fn with_unit(value: int, unit: LightValueUnit) -> Seq<char> {
    decimal(value as nat) + match unit {
        LightValueUnit::Lumens => " lm"@,
        LightValueUnit::Kelvin => " K"@,
        LightValueUnit::Percent => "%"@,
    }
}

/// A value with its unit.
pub fn format_light_value(value: u16, unit: LightValueUnit) -> (text: String)
    ensures
        text@ == with_unit(value as int, unit),
{
    let mut text = String::new();
    push_decimal(&mut text, value as u64);
    assert(text@ =~= decimal(value as nat));
    push_text(
        &mut text,
        match unit {
            LightValueUnit::Lumens => " lm",
            LightValueUnit::Kelvin => " K",
            LightValueUnit::Percent => "%",
        },
    );
    text
}

/// The ends of a range with their unit.
pub fn format_range_endpoints(range: LightValueRange) -> (ends: (String, String))
    ensures
        ends.0@ == with_unit(range.spec_min(), range.spec_unit()),
        ends.1@ == with_unit(range.spec_max(), range.spec_unit()),
{
    (format_light_value(range.min(), range.unit()), format_light_value(range.max(), range.unit()))
}

/// What a light's status line says, and whether its dot is lit.
pub fn light_status(online: bool, enabled: bool) -> (status: (&'static str, bool))
    ensures
        status.0@ == if !online {
            "device.offline"@
        } else if enabled {
            "common.on"@
        } else {
            "common.off"@
        },
        status.1 == (online && enabled),
{
    if !online {
        ("device.offline", false)
    } else if enabled {
        ("common.on", true)
    } else {
        ("common.off", false)
    }
}

/// What became of the last command to a light.
#[derive(Debug)]
pub enum LightCommandStatus {
    Pending,
    /// It failed, for the reason given.
    Failed(String),
    Offline,
}

/// What is said of the last command: a message, and what stands behind it.
pub fn light_command_status(status: &LightCommandStatus) -> (line: (&'static str, Option<&str>))
    ensures
        match *status {
            LightCommandStatus::Failed(error) => line.1 matches Some(reason) && reason@ == error@,
            _ => line.1 is None,
        },
        line.0@ == command_message(*status),
{
    match status {
        LightCommandStatus::Pending => ("lighting.applying_light_setting", None),
        LightCommandStatus::Failed(error) => ("common.unavailable", Some(error.as_str())),
        LightCommandStatus::Offline => ("device.offline", None),
    }
}

/// What the panel shows.
#[derive(Debug)]
pub struct LightPanelView {
    /// Whether the switch and the status line are shown.
    pub power: bool,
    pub status: (&'static str, bool),
    /// The value and the ends of each slider that is shown.
    pub brightness: Option<(String, (String, String))>,
    pub temperature: Option<(String, (String, String))>,
}

/// Whether `shown` are the value and the ends of a slider.
pub open spec fn shows_slider(
    shown: Option<(String, (String, String))>,
    range: Option<LightValueRange>,
    value: int,
) -> bool {
    match range {
        None => shown is None,
        Some(range) => shown matches Some((text, ends)) && text@ == with_unit(
            value,
            range.spec_unit(),
        ) && ends.0@ == with_unit(range.spec_min(), range.spec_unit()) && ends.1@ == with_unit(
            range.spec_max(),
            range.spec_unit(),
        ),
    }
}

/// Whether `view` is what a panel shows of a light.
pub open spec fn shows_light(
    view: LightPanelView,
    panel: LightPanel,
    capabilities: Option<LightCapabilities>,
    settings: LightSettings,
    native: Option<u16>,
    online: bool,
    enabled: bool,
) -> bool {
    &&& view.power == (capabilities matches Some(capabilities) && capabilities.power)
    &&& view.status.1 == (online && enabled)
    &&& view.status.0@ == if !online {
        "device.offline"@
    } else if enabled {
        "common.on"@
    } else {
        "common.off"@
    }
    &&& match range_of(panel.brightness) {
        Some(range) => shows_slider(
            view.brightness,
            Some(range),
            shown_brightness(range, native),
        ),
        None => view.brightness is None,
    }
    &&& match range_of(panel.temperature) {
        Some(range) => shows_slider(
            view.temperature,
            Some(range),
            shown_temperature(range, settings.temperature_kelvin),
        ),
        None => view.temperature is None,
    }
}

/// What the panel shows of a light.
pub fn light_panel_view(
    panel: &LightPanel,
    capabilities: Option<LightCapabilities>,
    settings: LightSettings,
    native: Option<u16>,
    online: bool,
    enabled: bool,
) -> (view: LightPanelView)
    ensures
        shows_light(view, *panel, capabilities, settings, native, online, enabled),
{
    LightPanelView {
        power: match capabilities {
            Some(capabilities) => capabilities.power,
            None => false,
        },
        status: light_status(online, enabled),
        brightness: match panel.brightness {
            Some(slider) => Some(
                (
                    format_light_value(
                        brightness_value(slider.range, native),
                        slider.range.unit(),
                    ),
                    format_range_endpoints(slider.range),
                ),
            ),
            None => None,
        },
        temperature: match panel.temperature {
            Some(slider) => Some(
                (
                    format_light_value(
                        temperature_value(slider.range, settings.temperature_kelvin),
                        slider.range.unit(),
                    ),
                    format_range_endpoints(slider.range),
                ),
            ),
            None => None,
        },
    }
}

/// The selected device.
pub open spec fn selected(state: Option<&AppState>) -> Option<DeviceRecord> {
    match state {
        Some(state) => state.current(),
        None => None,
    }
}

/// The key that a device is kept under.
pub open spec fn key_of(record: Option<DeviceRecord>) -> Option<Seq<char>> {
    match record {
        Some(record) => Some(record.config_key@),
        None => None,
    }
}

/// What a device can do as a light.
pub open spec fn capabilities_of(record: Option<DeviceRecord>) -> Option<LightCapabilities> {
    match record {
        Some(record) => record.light_capabilities,
        None => None,
    }
}

/// The panel as it is drawn.
#[derive(Debug)]
pub struct LightScreen {
    /// The light's name; without a light the panel's own heading stands there.
    pub name: Piece,
    /// The switch that lets the light follow the camera, where there is one.
    pub automation: Option<bool>,
    pub view: LightPanelView,
    /// What is said of the last command, and what stands behind it.
    pub command: Option<(&'static str, Option<String>)>,
}

/// The message of what became of a command.
pub open spec fn command_message(status: LightCommandStatus) -> Seq<char> {
    match status {
        LightCommandStatus::Pending => "lighting.applying_light_setting"@,
        LightCommandStatus::Failed(_) => "common.unavailable"@,
        LightCommandStatus::Offline => "device.offline"@,
    }
}

/// Whether `line` says what became of the last command, if anything is said.
pub open spec fn tells_command(
    line: Option<(&'static str, Option<String>)>,
    status: Option<LightCommandStatus>,
) -> bool {
    match status {
        None => line is None,
        Some(status) => line matches Some((message, reason)) && message@ == command_message(status)
            && owned_view(reason) == match status {
            LightCommandStatus::Failed(error) => Some(error@),
            _ => None,
        },
    }
}

impl LightPanel {
    /// What the panel shows of the selected device with the settings `settings`,
    /// of which `native` is the brightness in the light's own unit, `enabled`
    /// whether it shines, and `status` what became of its last command;
    /// `automatable` says whether lights can follow the camera on this system.
    /// The sliders are made for the light first and then follow the settings.
    pub fn render(
        &mut self,
        state: Option<&AppState>,
        settings: LightSettings,
        native: Option<u16>,
        enabled: bool,
        status: Option<&LightCommandStatus>,
        automatable: bool,
    ) -> (screen: LightScreen)
        ensures
            exists|made: LightPanel| #[trigger]
                old(self).sliders_ensured(
                    made,
                    key_of(selected(state)),
                    capabilities_of(selected(state)),
                    settings,
                    native,
                ) && *final(self) == made.followed(settings, native),
            shows_light(
                screen.view,
                *final(self),
                capabilities_of(selected(state)),
                settings,
                native,
                selected(state) matches Some(record) && record.online,
                enabled,
            ),
            screen.name@ == match selected(state) {
                Some(record) => PieceView::Text(record.display_name@),
                None => PieceView::Message("device.lighting"@),
            },
            screen.automation == if screen.view.power && automatable {
                Some(settings.auto_camera)
            } else {
                None
            },
            match status {
                Some(status) => tells_command(screen.command, Some(*status)),
                None => screen.command is None,
            },
    {
        let record = match state {
            Some(state) => state.current_record(),
            None => None,
        };
        let (key, capabilities, online, name) = match record {
            Some(record) => (
                Some(record.config_key.as_str()),
                record.light_capabilities,
                record.online,
                Piece::Text(record.display_name.clone()),
            ),
            None => (None, None, false, Piece::Message("device.lighting")),
        };
        self.ensure_sliders(key, capabilities, settings, native);
        let ghost made = *self;
        self.follow(settings, native);
        assert(old(self).sliders_ensured(
            made,
            key_of(selected(state)),
            capabilities_of(selected(state)),
            settings,
            native,
        ));
        let view = light_panel_view(self, capabilities, settings, native, online, enabled);
        let command = match status {
            Some(status) => {
                let (message, reason) = light_command_status(status);
                Some(
                    (
                        message,
                        match reason {
                            Some(reason) => Some(reason.to_owned()),
                            None => None,
                        },
                    ),
                )
            },
            None => None,
        };
        let automation = if view.power && automatable {
            Some(settings.auto_camera)
        } else {
            None
        };
        LightScreen { name, automation, view, command }
    }
}

/// A value on the grid is shown where it was set: snapping it changes nothing.
pub proof fn grid_values_are_kept(range: LightValueRange, steps: int)
    requires
        range.spec_step() > 0,
        0 <= steps,
        range.spec_min() + steps * range.spec_step() <= range.spec_max(),
    ensures
        range.quantized(range.spec_min() + steps * range.spec_step()) == range.spec_min() + steps
            * range.spec_step(),
{
    let step = range.spec_step();
    assert(0 <= steps * step) by (nonlinear_arith)
        requires
            0 <= steps,
            0 < step,
    ;
    assert((steps * step + step / 2) / step == steps) by (nonlinear_arith)
        requires
            0 <= steps,
            0 < step,
    ;
}

} // verus!
