//! How the lighting panels are drawn.

use crate::device::{LightCapabilities, LightValueRange, LightValueUnit};
use crate::features::lighting::device::{
    lighting_controls, palette, zone_on, LightingControls, LightingPanel, LightingPanelView,
};
use crate::features::lighting::preview::next_phase;
use crate::features::lighting::standalone::{
    format_light_value, format_range_endpoints, light_command_status, light_status, midpoint,
    LightCommandStatus, LightPanel, LightScreen, LightSettings,
};
use crate::hid::{Lighting, LightingInfo, Rgb};
use crate::state::load::Load;
use crate::state::AppState;
use crate::text::push_decimal;
use crate::window::phrase::PieceView;
use vstd::prelude::*;

verus! {

/// Whether a color is made of these three shares.
pub open spec fn is_color(color: Rgb, red: int, green: int, blue: int) -> bool {
    color.red == red && color.green == green && color.blue == blue
}

/// The palette goes from red over the rainbow to white.
pub proof fn the_palette_ends_in_white(colors: [Rgb; 9])
    requires
        call_ensures(palette, (), colors),
    ensures
        is_color(colors@[0], 255, 59, 48),
        is_color(colors@[1], 255, 149, 0),
        is_color(colors@[2], 255, 204, 0),
        is_color(colors@[3], 52, 199, 89),
        is_color(colors@[4], 0, 199, 190),
        is_color(colors@[5], 0, 122, 255),
        is_color(colors@[6], 88, 86, 214),
        is_color(colors@[7], 175, 82, 222),
        is_color(colors@[8], 255, 255, 255),
{
}

/// The panel shows the lighting that holds for the selected device, with the
/// controls, effects and zones that the device is known to have.
pub proof fn the_panel_shows_the_lighting_that_holds(
    panel: &mut LightingPanel,
    state: &AppState,
    default: &Lighting,
    asks: bool,
    view: LightingPanelView,
    shown: Lighting,
    i: usize,
    info: &LightingInfo,
    controls: LightingControls,
    k: int,
    on: bool,
)
    requires
        call_ensures(LightingPanel::render, (panel, Some(state), default, asks), view),
        call_ensures(AppState::lighting, (state, default), shown),
        state.devices.selected == Some(i),
        i < state.devices.records@.len(),
        ({
            let key = state.devices.records@[i as int].config_key@;
            let reads = state.pointer.reads.lighting@;
            reads.contains_key(key) && (reads[key].load matches Load::Ready(known) && *known
                == *info)
        }),
        call_ensures(lighting_controls, (Some(info), shown@.effect, asks), controls),
        0 <= k < info.zones@.len() ==> call_ensures(zone_on, (&view.lighting, info.zones@[k]), on),
    ensures
        view.lighting@ == shown@,
        view.controls == controls,
        view.tiles@.len() == info.prefabs@.len(),
        0 <= k < info.prefabs@.len() ==> view.tiles@[k].effect == info.prefabs@[k].effect && (
        view.tiles@[k].selected <==> info.prefabs@[k].effect == shown@.effect),
        info.zones@.len() <= 1 ==> view.zones@.len() == 0,
        info.zones@.len() > 1 ==> view.zones@.len() == info.zones@.len(),
        info.zones@.len() > 1 && 0 <= k < info.zones@.len() ==> view.zones@[k]
            == (info.zones@[k], on),
        view.moves.brightness is Some <==> shown@.brightness != old(panel).last_brightness,
        view.moves.brightness matches Some(value) ==> value == shown@.brightness,
        view.moves.speed is Some <==> shown@.speed != old(panel).last_speed,
        view.moves.speed matches Some(value) ==> value == shown@.speed,
        final(panel).last_brightness == shown@.brightness,
        final(panel).last_speed == shown@.speed,
        final(panel).preview_t == old(panel).preview_t,
{
}

/// A device whose lighting was not read yet has neither effects nor zones.
pub proof fn an_unread_device_has_no_effects(
    panel: &mut LightingPanel,
    state: &AppState,
    default: &Lighting,
    asks: bool,
    view: LightingPanelView,
    i: usize,
)
    requires
        call_ensures(LightingPanel::render, (panel, Some(state), default, asks), view),
        state.devices.selected == Some(i),
        i < state.devices.records@.len(),
        ({
            let key = state.devices.records@[i as int].config_key@;
            let reads = state.pointer.reads.lighting@;
            !reads.contains_key(key) || !(reads[key].load is Ready)
        }),
    ensures
        view.tiles@.len() == 0,
        view.zones@.len() == 0,
        !view.controls.effects,
        !view.controls.colors,
        !view.controls.speed,
        !view.controls.brightness,
        !view.controls.zones,
        !view.controls.screen_recording_hint,
{
}

/// A tick moves the samples on by one step and nothing else.
pub proof fn a_tick_moves_the_samples(panel: &mut LightingPanel, next: u32)
    requires
        old(panel).preview_t < 1_000_000,
        call_ensures(LightingPanel::tick, (panel,), ()),
        call_ensures(next_phase, (old(panel).preview_t,), next),
    ensures
        final(panel).preview_t == next,
        final(panel).last_brightness == old(panel).last_brightness,
        final(panel).last_speed == old(panel).last_speed,
{
}

/// The middle of a range is the step nearest to halfway between its ends.
pub proof fn the_middle_is_halfway(
    range: LightValueRange,
    value: u16,
    min: u16,
    max: u16,
    half: u16,
    snapped: u16,
)
    requires
        call_ensures(midpoint, (range,), value),
        call_ensures(LightValueRange::min, (&range,), min),
        call_ensures(LightValueRange::max, (&range,), max),
        half - min <= max - half <= half - min + 1,
        call_ensures(LightValueRange::quantize, (&range, half), snapped),
    ensures
        value == snapped,
        min <= value <= max,
{
}

/// The sliders of a light that is shown already stay where they are; those of
/// another light show its temperature, or the middle where none is set.
pub proof fn sliders_of_the_same_light_stay(
    panel: &mut LightPanel,
    key: Option<&str>,
    capabilities: LightCapabilities,
    settings: LightSettings,
    native: Option<u16>,
    range: LightValueRange,
    kelvin: u16,
    snapped: u16,
    middle: u16,
)
    requires
        call_ensures(
            LightPanel::ensure_sliders,
            (panel, key, Some(capabilities), settings, native),
            (),
        ),
        call_ensures(LightValueRange::quantize, (&range, kelvin), snapped),
        call_ensures(midpoint, (range,), middle),
    ensures
        ({
            let same = crate::text::owned_view(old(panel).device_key) == crate::text::optional_view(
                key,
            ) && capabilities.brightness == (match old(panel).brightness {
                Some(slider) => Some(slider.range),
                None => None,
            }) && capabilities.temperature == (match old(panel).temperature {
                Some(slider) => Some(slider.range),
                None => None,
            });
            &&& same ==> final(panel).brightness == old(panel).brightness
                && final(panel).temperature == old(panel).temperature
            &&& !same && capabilities.temperature == Some(range) && settings.temperature_kelvin
                == Some(kelvin) ==> (final(panel).temperature matches Some(slider) && slider.value
                == snapped)
            &&& !same && capabilities.temperature == Some(range)
                && settings.temperature_kelvin is None ==> (final(panel).temperature matches Some(
                slider,
            ) && slider.value == middle)
        }),
{
}

/// A light's value is its number followed by its unit.
pub proof fn a_value_has_its_unit(
    value: u16,
    unit: LightValueUnit,
    text: String,
    number: &mut String,
)
    requires
        call_ensures(format_light_value, (value, unit), text),
        old(number)@ == Seq::<char>::empty(),
        call_ensures(push_decimal, (number, value as u64), ()),
    ensures
        unit == LightValueUnit::Lumens ==> text@ == final(number)@ + " lm"@,
        unit == LightValueUnit::Kelvin ==> text@ == final(number)@ + " K"@,
        unit == LightValueUnit::Percent ==> text@ == final(number)@ + "%"@,
{
    assert(final(number)@ =~= crate::text::decimal(value as nat));
}

/// A range shows its least and its greatest value.
pub proof fn a_range_shows_its_ends(
    range: LightValueRange,
    ends: (String, String),
    min: u16,
    max: u16,
    unit: LightValueUnit,
    low: String,
    high: String,
)
    requires
        call_ensures(format_range_endpoints, (range,), ends),
        call_ensures(LightValueRange::min, (&range,), min),
        call_ensures(LightValueRange::max, (&range,), max),
        call_ensures(LightValueRange::unit, (&range,), unit),
        call_ensures(format_light_value, (min, unit), low),
        call_ensures(format_light_value, (max, unit), high),
    ensures
        ends.0@ == low@,
        ends.1@ == high@,
{
}

/// What is told of a command: that it is under way, why it failed, or that the
/// light is offline.
pub proof fn a_failed_command_says_why(
    status: &LightCommandStatus,
    line: (&'static str, Option<&str>),
)
    requires
        call_ensures(light_command_status, (status,), line),
    ensures
        status is Pending ==> line.0@ == "lighting.applying_light_setting"@,
        status is Failed ==> line.0@ == "common.unavailable"@,
        status is Offline ==> line.0@ == "device.offline"@,
        line.1 is Some <==> status is Failed,
        *status matches LightCommandStatus::Failed(error) ==> (line.1 matches Some(reason)
            && reason@ == error@),
{
}

/// The panel of a light: its name and status, whether cameras switch it, where it
/// can be switched, and what is told of a command.
pub proof fn the_panel_shows_the_selected_light(
    panel: &mut LightPanel,
    state: &AppState,
    settings: LightSettings,
    native: Option<u16>,
    enabled: bool,
    status: Option<&LightCommandStatus>,
    automatable: bool,
    screen: LightScreen,
    i: usize,
    line: (&'static str, bool),
)
    requires
        call_ensures(
            LightPanel::render,
            (panel, Some(state), settings, native, enabled, status, automatable),
            screen,
        ),
        state.devices.selected == Some(i),
        i < state.devices.records@.len(),
        call_ensures(light_status, (state.devices.records@[i as int].online, enabled), line),
    ensures
        ({
            let record = state.devices.records@[i as int];
            &&& screen.name@ == PieceView::Text(record.display_name@)
            &&& screen.view.power <==> (record.light_capabilities matches Some(c) && c.power)
            &&& screen.view.brightness is Some <==> (record.light_capabilities matches Some(c)
                && c.brightness is Some)
            &&& screen.view.temperature is Some <==> (record.light_capabilities matches Some(c)
                && c.temperature is Some)
            &&& final(panel).device_key matches Some(key) && key@ == record.config_key@
        }),
        screen.view.status.0@ == line.0@,
        screen.view.status.1 == line.1,
        screen.automation is Some <==> screen.view.power && automatable,
        screen.automation matches Some(on) ==> on == settings.auto_camera,
        screen.command is Some <==> status is Some,
        final(panel).last_brightness == settings.brightness_percent,
        final(panel).last_temperature == settings.temperature_kelvin,
{
}

} // verus!
