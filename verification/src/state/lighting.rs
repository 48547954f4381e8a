//! Per-device lighting settings.

use crate::device::DeviceRoute;
use crate::hid::{Lighting, LightingEffect, LightingView, OnboardLed, OnboardLedMode};
use crate::record::DeviceRecord;
use crate::services::device_reads::{numbered, DeviceReads, ReadStart};
use crate::state::config::{device_edited, DeviceConfig};
use crate::state::load::{LightingLoad, Load};
use crate::state::{saves, AppState, PointerState, Save, SaveOutcome};
use crate::text::same_text;
use vstd::prelude::*;

verus! {

/// The effect that shows what an onboard mode does, if there is one.
pub open spec fn effect_of_mode(mode: OnboardLedMode) -> Option<LightingEffect> {
    match mode {
        OnboardLedMode::Solid => Some(LightingEffect::Solid),
        OnboardLedMode::Cycle => Some(LightingEffect::ColorCycle),
        OnboardLedMode::Breathing => Some(LightingEffect::Breathing),
        OnboardLedMode::Off => None,
        OnboardLedMode::Other => None,
    }
}

/// The effect that shows what an onboard mode does, if there is one.
pub fn effect_from_onboard(mode: OnboardLedMode) -> (effect: Option<LightingEffect>)
    ensures
        effect == effect_of_mode(mode),
{
    match mode {
        OnboardLedMode::Solid => Some(LightingEffect::Solid),
        OnboardLedMode::Cycle => Some(LightingEffect::ColorCycle),
        OnboardLedMode::Breathing => Some(LightingEffect::Breathing),
        OnboardLedMode::Off => None,
        OnboardLedMode::Other => None,
    }
}

/// Lighting settings that show an onboard LED; what the LED does not say is as
/// in `default`. Firmware that reports no brightness means full brightness.
pub open spec fn onboard_lighting(led: OnboardLed, default: LightingView) -> LightingView {
    LightingView {
        enabled: led.mode != OnboardLedMode::Off,
        color: led.color,
        brightness: if led.brightness == 0 {
            100
        } else {
            led.brightness
        },
        effect: match effect_of_mode(led.mode) {
            Some(effect) => effect,
            None => default.effect,
        },
        ..default
    }
}

/// Lighting settings that show an onboard LED.
pub fn lighting_from_onboard(led: OnboardLed, default: &Lighting) -> (lighting: Lighting)
    ensures
        lighting@ == onboard_lighting(led, default@),
{
    let copy = default.clone();
    Lighting {
        enabled: led.mode != OnboardLedMode::Off,
        color: led.color,
        brightness: if led.brightness == 0 {
            100
        } else {
            led.brightness
        },
        speed: copy.speed,
        effect: match effect_from_onboard(led.mode) {
            Some(effect) => effect,
            None => copy.effect,
        },
        zones: copy.zones,
    }
}

/// Whether `key` is that of a half-read probe among `records`.
pub open spec fn names_a_probe(records: Seq<DeviceRecord>, key: Seq<char>) -> bool {
    exists|i: int|
        0 <= i < records.len() && (#[trigger] records[i]).config_key@ == key
            && !records[i].persistent
}

impl AppState {
    /// The lighting stored for `key` on `route`. None for a half-read probe.
    pub open spec fn stored_lighting(
        self,
        key: Seq<char>,
        transient: bool,
        route: Seq<char>,
    ) -> Option<LightingView> {
        if transient || names_a_probe(self.devices.records@, key)
            || !self.config.devices@.contains_key(key) {
            None
        } else {
            self.config.devices@[key].lighting_on(route)
        }
    }

    /// The lighting of the selected device: stored, or else the onboard LED's,
    /// or else `default`.
    pub open spec fn lighting_shown(self, default: LightingView) -> LightingView {
        match self.current() {
            Some(record) => {
                let stored = if record.persistent {
                    self.stored_lighting(record.config_key@, false, record.route_key@)
                } else {
                    None
                };
                match stored {
                    Some(lighting) => lighting,
                    None => match self.first_onboard_led() {
                        Some(led) => onboard_lighting(led, default),
                        None => default,
                    },
                }
            },
            None => default,
        }
    }

    /// The lighting of the selected device.
    pub fn lighting(&self, default: &Lighting) -> (lighting: Lighting)
        ensures
            lighting@ == self.lighting_shown(default@),
    {
        if let Some(record) = self.current_record() {
            if let Some(key) = record.persistent_config_key() {
                if let Some(lighting) = self.lighting_for(key, false, record.route_key.as_str()) {
                    return lighting;
                }
            }
        }
        match self.onboard_led() {
            Some(led) => lighting_from_onboard(led, default),
            None => default.clone(),
        }
    }

    /// What is shown of the selected device's lighting catalog.
    pub open spec fn lighting_catalog(self) -> LightingLoad {
        match self.current() {
            Some(record) => crate::services::device_reads::shown(
                self.pointer.reads.lighting@,
                record.config_key@,
            ),
            None => Load::Unknown,
        }
    }

    /// What is shown of the selected device's lighting catalog.
    pub fn lighting_info(&self) -> (info: LightingLoad)
        ensures
            info == self.lighting_catalog(),
    {
        match self.current_record() {
            Some(record) => self.pointer.reads.lighting_status(record.config_key.as_str()),
            None => Load::Unknown,
        }
    }

    /// Starts the selected device's lighting read, unless it is watched over
    /// the device's route. Only a reachable device with lighting is asked.
    pub fn load_current_lighting_info(
        &mut self,
    ) -> (started: Option<(String, DeviceRoute, ReadStart)>)
        ensures
            match old(self).current() {
                Some(record) => match (record.capabilities, record.route) {
                    (Some(capabilities), Some(route)) => if capabilities.lighting {
                        &&& started matches Some(started)
                        &&& started.0@ == record.config_key@
                        &&& started.1 == route
                        &&& started.2 == crate::services::device_reads::start_of(
                            old(self).pointer.reads.lighting@,
                            old(self).pointer.reads.attached,
                            old(self).pointer.reads.next_generation,
                            record.config_key@,
                            route,
                        )
                        &&& final(self).pointer.reads.lighting@ == if started.2 is Watched {
                            old(self).pointer.reads.lighting@
                        } else {
                            old(self).pointer.reads.lighting@.remove(record.config_key@)
                        }
                    } else {
                        started is None && *final(self) == *old(self)
                    },
                    _ => started is None && *final(self) == *old(self),
                },
                None => started is None && *final(self) == *old(self),
            },
            *final(self) == (AppState {
                pointer: PointerState {
                    reads: DeviceReads {
                        lighting: final(self).pointer.reads.lighting,
                        next_generation: numbered(
                            match started {
                                Some(started) => Some(started.2),
                                None => None,
                            },
                            old(self).pointer.reads.next_generation,
                        ),
                        ..old(self).pointer.reads
                    },
                    ..old(self).pointer
                },
                ..*old(self)
            }),
    {
        let (key, route) = match self.current_record() {
            Some(record) => {
                let lit = match record.capabilities {
                    Some(capabilities) => capabilities.lighting,
                    None => false,
                };
                match record.route {
                    Some(route) => if lit {
                        (record.config_key.clone(), route)
                    } else {
                        return None;
                    },
                    None => {
                        return None;
                    },
                }
            },
            None => {
                return None;
            },
        };
        let start = self.pointer.reads.ensure_lighting(key.as_str(), route);
        Some((key, route, start))
    }

    /// The first LED record read from the selected device's firmware.
    pub open spec fn first_onboard_led(self) -> Option<OnboardLed> {
        match self.current() {
            Some(record) => if self.onboard_leds@.contains_key(record.config_key@)
                && self.onboard_leds@[record.config_key@]@.len() > 0 {
                Some(self.onboard_leds@[record.config_key@]@[0])
            } else {
                None
            },
            None => None,
        }
    }

    /// The LED records read from the selected device's firmware.
    pub fn onboard_leds(&self) -> (leds: Option<&Vec<OnboardLed>>)
        ensures
            match leds {
                Some(leds) => self.current() matches Some(record)
                    && self.onboard_leds@.contains_key(record.config_key@)
                    && self.onboard_leds@[record.config_key@] == *leds,
                None => !(self.current() matches Some(record) && self.onboard_leds@.contains_key(
                    record.config_key@,
                )),
            },
    {
        match self.current_record() {
            Some(record) => self.onboard_leds.get(record.config_key.as_str()),
            None => None,
        }
    }

    /// The first LED record read from the selected device's firmware.
    pub fn onboard_led(&self) -> (led: Option<OnboardLed>)
        ensures
            led == self.first_onboard_led(),
    {
        match self.onboard_leds() {
            Some(leds) => if leds.len() > 0 {
                Some(leds[0])
            } else {
                None
            },
            None => None,
        }
    }

    /// The lighting stored for `key` on `route`, or none where it is unset, or
    /// unset on that link. A `transient` key names no physical device and has
    /// none.
    pub fn lighting_for(&self, key: &str, transient: bool, route: &str) -> (lighting: Option<
        Lighting,
    >)
        ensures
            self.stored_lighting(key@, transient, route@) == match lighting {
                Some(lighting) => Some(lighting@),
                None => None,
            },
    {
        if transient {
            return None;
        }
        let mut i: usize = 0;
        while i < self.devices.records.len()
            invariant
                i <= self.devices.records@.len(),
                !transient,
                forall|j: int|
                    0 <= j < i ==> !((#[trigger] self.devices.records@[j]).config_key@ == key@
                        && !self.devices.records@[j].persistent),
            decreases self.devices.records@.len() - i,
        {
            let record = &self.devices.records[i];
            if same_text(record.config_key.as_str(), key) && !record.persistent {
                return None;
            }
            i += 1;
        }
        match self.config.devices.get(key) {
            Some(device) => match device.effective_lighting(route) {
                Some(lighting) => Some(lighting.clone()),
                None => None,
            },
            None => None,
        }
    }

    /// Puts lighting for the selected device into its settings, if it is a
    /// physical one. The agent is told separately, so it need not reload. Once
    /// the file is written, or if there is nothing to write,
    /// [`AppState::finish_lighting`] says where to send it.
    pub fn commit_lighting(&mut self, lighting: &Lighting) -> (save: Option<Save>)
        ensures
            match old(self).current_settings_key() {
                Some(key) => {
                    &&& saves(save, "lighting"@, false)
                    &&& *final(self) == (AppState { config: final(self).config, ..*old(self) })
                    &&& device_edited(
                        old(self).config,
                        final(self).config,
                        key,
                        old(self).ring_defaults,
                        |before: DeviceConfig, device: DeviceConfig|
                            device == (DeviceConfig { lighting: device.lighting, ..before })
                                && (device.lighting matches Some(stored) && stored@ == lighting@),
                    )
                },
                None => save is None && *final(self) == *old(self),
            },
    {
        let key = match self.current_persistent_key() {
            Some(key) => key,
            None => {
                return None;
            },
        };
        let mut device = self.config.take_device(key.as_str(), &self.ring_defaults);
        let ghost before = device;
        device.lighting = Some(lighting.clone());
        self.config.put_device(key.as_str(), device);
        proof {
            assert(old(self).config.has_or_initial(key@, self.ring_defaults, before));
            assert(self.config.devices@.remove(key@) =~= old(self).config.devices@.remove(key@));
        }
        Some(Save { what: "lighting", reload: false })
    }

    /// The route to send committed lighting to. Where the settings of a
    /// physical device could not be saved, they are put back and nothing is
    /// sent.
    pub fn finish_lighting(&mut self, outcome: SaveOutcome) -> (route: Option<DeviceRoute>)
        ensures
            match old(self).current() {
                Some(record) => if record.persistent {
                    &&& *final(self) == old(self).after_save(outcome)
                    &&& route == if outcome is Saved {
                        record.route
                    } else {
                        None
                    }
                } else {
                    route == record.route && *final(self) == *old(self)
                },
                None => route is None && *final(self) == *old(self),
            },
    {
        let (persistent, route) = match self.current_record() {
            Some(record) => (record.persistent, record.route),
            None => {
                return None;
            },
        };
        if persistent && !self.finish_save(outcome) {
            return None;
        }
        route
    }
}

/// Lighting that was committed for a device is what is stored for it on every
/// link that inherits the device's own.
pub proof fn committed_lighting_is_stored(
    before: AppState,
    after: AppState,
    lighting: LightingView,
    route: Seq<char>,
)
    requires
        before.current_settings_key() matches Some(key) && {
            &&& after == (AppState { config: after.config, ..before })
            &&& device_edited(
                before.config,
                after.config,
                key,
                before.ring_defaults,
                |from: DeviceConfig, to: DeviceConfig|
                    to == (DeviceConfig { lighting: to.lighting, ..from }) && (
                    to.lighting matches Some(stored) && stored@ == lighting),
            )
            &&& !names_a_probe(before.devices.records@, key)
            &&& before.config.devices@.contains_key(key)
                && before.config.devices@[key].links@.contains_key(route)
                ==> before.config.devices@[key].links@[route].overrides.lighting is Inherited
        },
    ensures
        after.stored_lighting(before.current_settings_key()->0, false, route) == Some(lighting),
{
}

} // verus!
