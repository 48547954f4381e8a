//! Per-device scroll inversion and wheel resolution.

use crate::hid::ScrollResolution;
use crate::record::DeviceRecord;
use crate::state::config::{device_edited, AppOverrides, DeviceConfig, LinkConfig};
use crate::state::{saves, AppState, Save};
use crate::table::key_at;
use crate::text::same_text;
use vstd::prelude::*;

verus! {

/// Whether a device has the hi-res wheel, as far as was measured.
pub open spec fn has_hires_wheel(record: DeviceRecord) -> bool {
    record.capabilities matches Some(capabilities) && capabilities.hires_wheel
}

/// Whether a device can invert its wheel, as far as was measured.
pub open spec fn can_invert(record: DeviceRecord) -> bool {
    record.capabilities matches Some(capabilities) && capabilities.scroll_inversion
}

/// Whether a link other than `route` measured a hi-res wheel.
pub open spec fn hires_elsewhere(links: Map<Seq<char>, LinkConfig>, route: Seq<char>) -> bool {
    exists|other: Seq<char>| #[trigger]
        links.contains_key(other) && other != route && (links[other].capabilities matches Some(
            capabilities,
        ) && capabilities.hires_wheel)
}

/// `overrides` of a device after `app`'s profile was given `changed`.
pub open spec fn app_overridden(before: DeviceConfig, device: DeviceConfig, app: Seq<char>, changed: AppOverrides) -> bool {
    &&& device.per_app_settings@ == before.per_app_settings@.insert(app, changed)
    &&& device == (DeviceConfig { per_app_settings: device.per_app_settings, ..before })
}

/// Whether `device` is `before` with the wheel inversion of a profile set.
pub open spec fn inversion_set(
    before: DeviceConfig,
    device: DeviceConfig,
    app: Option<Seq<char>>,
    invert: bool,
) -> bool {
    match app {
        Some(app) => app_overridden(
            before,
            device,
            app,
            AppOverrides { invert_scroll: Some(invert), ..before.overrides_of(Some(app)) },
        ),
        None => device == (DeviceConfig { invert_scroll: invert, ..before }),
    }
}

/// Whether `device` is `before` with the wheel resolution of a profile set.
pub open spec fn resolution_set(
    before: DeviceConfig,
    device: DeviceConfig,
    app: Option<Seq<char>>,
    resolution: Option<ScrollResolution>,
) -> bool {
    match app {
        Some(app) => app_overridden(
            before,
            device,
            app,
            AppOverrides { scroll_resolution: resolution, ..before.overrides_of(Some(app)) },
        ),
        None => device == (DeviceConfig { scroll_resolution: resolution, ..before }),
    }
}

impl DeviceConfig {
    /// Gives `app`'s profile the overrides that `change` makes of its own.
    pub(crate) fn take_overrides(&self, app: &str) -> (overrides: AppOverrides)
        ensures
            overrides == self.overrides_of(Some(app@)),
    {
        match self.per_app_settings.get(app) {
            Some(overrides) => *overrides,
            None => AppOverrides::none(),
        }
    }
}

impl AppState {
    /// Whether the wheel of the selected device is inverted in the open
    /// profile. Not without settings.
    pub open spec fn shown_inversion(self) -> bool {
        match self.current() {
            Some(record) => record.persistent && self.config.devices@.contains_key(
                record.config_key@,
            ) && self.config.devices@[record.config_key@].inverted(record.route_key@, self.scope()),
            None => false,
        }
    }

    /// The wheel resolution of the selected device in the open profile.
    pub open spec fn shown_resolution(self) -> Option<ScrollResolution> {
        match self.current() {
            Some(record) => if record.persistent && self.config.devices@.contains_key(
                record.config_key@,
            ) {
                self.config.devices@[record.config_key@].resolution(record.route_key@, self.scope())
            } else {
                None
            },
            None => None,
        }
    }

    /// Whether the wheel of the selected device is inverted.
    pub fn current_invert_scroll(&self) -> (inverted: bool)
        ensures
            inverted == self.shown_inversion(),
    {
        if let Some(record) = self.current_record() {
            if let Some(key) = record.persistent_config_key() {
                if let Some(device) = self.config.devices.get(key) {
                    return device.effective_invert_scroll_for_app(
                        record.route_key.as_str(),
                        self.editing_app(),
                    );
                }
            }
        }
        false
    }

    /// The wheel resolution and inversion to write to the selected device for
    /// the open profile. `None` leaves the device as it is: it lacks the
    /// capability, or nothing is configured.
    pub fn configured_wheel_mode_for_editing(
        &self,
    ) -> (mode: (Option<ScrollResolution>, Option<bool>))
        ensures
            match self.current() {
                Some(record) => if record.persistent {
                    &&& mode.0 == if has_hires_wheel(record) {
                        self.shown_resolution()
                    } else {
                        None
                    }
                    &&& mode.1 == if can_invert(record) {
                        Some(self.shown_inversion())
                    } else {
                        None
                    }
                } else {
                    mode == (None::<ScrollResolution>, None::<bool>)
                },
                None => mode == (None::<ScrollResolution>, None::<bool>),
            },
    {
        let record = match self.current_record() {
            Some(record) => record,
            None => {
                return (None, None);
            },
        };
        let capabilities = match record.capabilities {
            Some(capabilities) => capabilities,
            None => {
                return (None, None);
            },
        };
        if !record.persistent {
            return (None, None);
        }
        let resolution = if capabilities.hires_wheel {
            self.current_scroll_resolution()
        } else {
            None
        };
        let inverted = if capabilities.scroll_inversion {
            Some(self.current_invert_scroll())
        } else {
            None
        };
        (resolution, inverted)
    }

    /// Whether the selected device can invert its wheel.
    pub fn current_scroll_inversion_supported(&self) -> (supported: bool)
        ensures
            supported == (self.current() matches Some(record) && can_invert(record)),
    {
        match self.current_record() {
            Some(record) => match record.capabilities {
                Some(capabilities) => capabilities.scroll_inversion,
                None => false,
            },
            None => false,
        }
    }

    /// Sets the wheel inversion of the selected device in the open profile.
    /// Nothing changes without a physical device that supports it.
    pub fn commit_invert_scroll(&mut self, invert: bool) -> (save: Option<Save>)
        ensures
            match old(self).current() {
                Some(record) => if record.persistent && can_invert(record) {
                    &&& saves(save, "invert scroll"@, true)
                    &&& *final(self) == (AppState { config: final(self).config, ..*old(self) })
                    &&& device_edited(
                        old(self).config,
                        final(self).config,
                        record.config_key@,
                        old(self).ring_defaults,
                        |before: DeviceConfig, device: DeviceConfig|
                            inversion_set(before, device, old(self).scope(), invert),
                    )
                } else {
                    save is None && *final(self) == *old(self)
                },
                None => save is None && *final(self) == *old(self),
            },
    {
        if !self.current_scroll_inversion_supported() {
            return None;
        }
        let key = match self.current_persistent_key() {
            Some(key) => key,
            None => {
                return None;
            },
        };
        let mut device = self.config.take_device(key.as_str(), &self.ring_defaults);
        let ghost before = device;
        match self.editing_app() {
            Some(app) => {
                let mut overrides = device.take_overrides(app);
                overrides.invert_scroll = Some(invert);
                device.per_app_settings.insert(app, overrides);
            },
            None => {
                device.invert_scroll = invert;
            },
        }
        self.config.put_device(key.as_str(), device);
        proof {
            assert(old(self).config.has_or_initial(key@, self.ring_defaults, before));
            assert(inversion_set(before, device, old(self).scope(), invert));
            assert(self.config.devices@.remove(key@) =~= old(self).config.devices@.remove(key@));
        }
        Some(Save { what: "invert scroll", reload: true })
    }

    /// The wheel resolution of the selected device, or `None` where the
    /// device's own is left alone.
    pub fn current_scroll_resolution(&self) -> (resolution: Option<ScrollResolution>)
        ensures
            resolution == self.shown_resolution(),
    {
        if let Some(record) = self.current_record() {
            if let Some(key) = record.persistent_config_key() {
                if let Some(device) = self.config.devices.get(key) {
                    return device.effective_scroll_resolution_for_app(
                        record.route_key.as_str(),
                        self.editing_app(),
                    );
                }
            }
        }
        None
    }

    /// Whether the selected device has a hi-res wheel.
    pub fn current_hires_wheel_supported(&self) -> (supported: bool)
        ensures
            supported == (self.current() matches Some(record) && has_hires_wheel(record)),
    {
        match self.current_record() {
            Some(record) => match record.capabilities {
                Some(capabilities) => capabilities.hires_wheel,
                None => false,
            },
            None => false,
        }
    }

    /// Whether some *other* link of the selected device measured a hi-res
    /// wheel. A device may have it on one transport and not on another, so its
    /// absence here is not a claim about the device.
    pub fn hires_wheel_supported_on_another_link(&self) -> (supported: bool)
        ensures
            supported == match self.current() {
                Some(record) => self.config.devices@.contains_key(record.config_key@)
                    && hires_elsewhere(
                    self.config.devices@[record.config_key@].links@,
                    record.route_key@,
                ),
                None => false,
            },
    {
        let record = match self.current_record() {
            Some(record) => record,
            None => {
                return false;
            },
        };
        let device = match self.config.devices.get(record.config_key.as_str()) {
            Some(device) => device,
            None => {
                return false;
            },
        };
        let length: usize = device.links.len();
        let mut i: usize = 0;
        while i < length
            invariant
                i <= length,
                length == device.links.in_order().len(),
                forall|j: int| #![trigger device.links.in_order()[j]]
                    0 <= j < i && device.links.in_order()[j].0@ != record.route_key@ ==> !(
                    device.links.in_order()[j].1.capabilities matches Some(capabilities)
                        && capabilities.hires_wheel),
                self.config.devices@.contains_key(record.config_key@),
                self.config.devices@[record.config_key@] == *device,
                self.current() == Some(*record),
            decreases length - i,
        {
            let (route, link) = device.links.entry(i);
            if !same_text(route, record.route_key.as_str()) {
                if let Some(capabilities) = link.capabilities {
                    if capabilities.hires_wheel {
                        return true;
                    }
                }
            }
            i += 1;
        }
        proof {
            let links = device.links@;
            assert forall|other: Seq<char>| links.contains_key(other) && other
                != record.route_key@ implies !(links[other].capabilities matches Some(capabilities)
                && capabilities.hires_wheel) by {
                let at = choose|at: int| key_at(device.links.in_order(), other, at);
                assert(device.links.in_order()[at].0@ == other);
            }
        }
        false
    }

    /// Sets the wheel resolution of the selected device in the open profile;
    /// `None` leaves the device's own alone. Nothing changes without a
    /// physical device that has a hi-res wheel.
    pub fn commit_scroll_resolution(
        &mut self,
        resolution: Option<ScrollResolution>,
    ) -> (save: Option<Save>)
        ensures
            match old(self).current() {
                Some(record) => if record.persistent && has_hires_wheel(record) {
                    &&& saves(save, "wheel resolution"@, true)
                    &&& *final(self) == (AppState { config: final(self).config, ..*old(self) })
                    &&& device_edited(
                        old(self).config,
                        final(self).config,
                        record.config_key@,
                        old(self).ring_defaults,
                        |before: DeviceConfig, device: DeviceConfig|
                            resolution_set(before, device, old(self).scope(), resolution),
                    )
                } else {
                    save is None && *final(self) == *old(self)
                },
                None => save is None && *final(self) == *old(self),
            },
    {
        if !self.current_hires_wheel_supported() {
            return None;
        }
        let key = match self.current_persistent_key() {
            Some(key) => key,
            None => {
                return None;
            },
        };
        let mut device = self.config.take_device(key.as_str(), &self.ring_defaults);
        let ghost before = device;
        match self.editing_app() {
            Some(app) => {
                let mut overrides = device.take_overrides(app);
                overrides.scroll_resolution = resolution;
                device.per_app_settings.insert(app, overrides);
            },
            None => {
                device.scroll_resolution = resolution;
            },
        }
        self.config.put_device(key.as_str(), device);
        proof {
            assert(old(self).config.has_or_initial(key@, self.ring_defaults, before));
            assert(resolution_set(before, device, old(self).scope(), resolution));
            assert(self.config.devices@.remove(key@) =~= old(self).config.devices@.remove(key@));
        }
        Some(Save { what: "wheel resolution", reload: true })
    }
}

/// An inversion that was committed for an application's profile is shown in
/// it; so is one for the default profile, unless the link has its own.
pub proof fn a_committed_inversion_is_shown(before: AppState, after: AppState, invert: bool)
    requires
        before.current() matches Some(record) && {
            &&& record.persistent
            &&& after == (AppState { config: after.config, ..before })
            &&& device_edited(
                before.config,
                after.config,
                record.config_key@,
                before.ring_defaults,
                |from: DeviceConfig, to: DeviceConfig|
                    inversion_set(from, to, before.scope(), invert),
            )
            &&& before.scope() is None && before.config.devices@.contains_key(record.config_key@)
                && before.config.devices@[record.config_key@].links@.contains_key(record.route_key@)
                ==> before.config.devices@[record.config_key@].links@[record.route_key@].overrides.invert_scroll
                is None
        },
    ensures
        after.shown_inversion() == invert,
{
}

/// Changing one profile's inversion changes no other profile's, and not that
/// of the default profile.
pub proof fn profiles_keep_their_own_inversion(
    before: DeviceConfig,
    after: DeviceConfig,
    app: Seq<char>,
    invert: bool,
    route: Seq<char>,
    other: Option<Seq<char>>,
)
    requires
        inversion_set(before, after, Some(app), invert),
        other != Some(app),
    ensures
        after.inverted(route, other) == before.inverted(route, other),
{
}

} // verus!
