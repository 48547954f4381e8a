//! The persisted settings, as far as the window reads and changes them.

use crate::device::{Capabilities, DeviceKind, DeviceModelInfo, LightCapabilities};
use crate::hid::{Lighting, LightingView, ReportRateHz, ScrollResolution, SmartShiftStatus};
use crate::state::action_ring::{ActionRingConfig, RingDefaults};
use crate::table::Table;
use crate::text::{optional_view, owned_view, same_owned_text, same_text};
use vstd::prelude::*;

verus! {

/// What an application's profile overrides.
#[derive(Debug, Clone, Copy, PartialEq, Eq, Structural)]
pub struct AppOverrides {
    pub invert_scroll: Option<bool>,
    pub scroll_resolution: Option<ScrollResolution>,
    pub report_rate: Option<ReportRateHz>,
}

/// A link's own lighting.
#[derive(Debug)]
pub enum LinkLighting {
    /// As the device has it.
    Inherited,
    /// None on this link.
    Unset,
    /// This one.
    Own(Lighting),
}

/// What a link overrides.
#[derive(Debug)]
pub struct LinkOverrides {
    pub invert_scroll: Option<bool>,
    pub scroll_resolution: Option<ScrollResolution>,
    pub lighting: LinkLighting,
}

/// What is kept of one link of a device.
#[derive(Debug)]
pub struct LinkConfig {
    pub capabilities: Option<Capabilities>,
    pub overrides: LinkOverrides,
}

/// What is remembered of a device while it is away.
#[derive(Debug)]
pub struct DeviceIdentity {
    pub display_name: String,
    pub kind: DeviceKind,
    pub capabilities: Capabilities,
    pub light_capabilities: Option<LightCapabilities>,
    pub model_info: Option<DeviceModelInfo>,
    pub codename: Option<String>,
    pub driver_id: Option<String>,
    pub registry_model_id: Option<String>,
}

/// What a [`DeviceIdentity`] holds.
pub struct DeviceIdentityView {
    pub display_name: Seq<char>,
    pub kind: DeviceKind,
    pub capabilities: Capabilities,
    pub light_capabilities: Option<LightCapabilities>,
    pub model_info: Option<DeviceModelInfo>,
    pub codename: Option<Seq<char>>,
    pub driver_id: Option<Seq<char>>,
    pub registry_model_id: Option<Seq<char>>,
}

impl View for DeviceIdentity {
    type V = DeviceIdentityView;

    open spec fn view(&self) -> DeviceIdentityView {
        DeviceIdentityView {
            display_name: self.display_name@,
            kind: self.kind,
            capabilities: self.capabilities,
            light_capabilities: self.light_capabilities,
            model_info: self.model_info,
            codename: owned_view(self.codename),
            driver_id: owned_view(self.driver_id),
            registry_model_id: owned_view(self.registry_model_id),
        }
    }
}

impl DeviceIdentity {
    /// Whether two identities agree in every field.
    pub fn same(&self, other: &DeviceIdentity) -> (same: bool)
        ensures
            same == (self@ == other@),
    {
        same_text(self.display_name.as_str(), other.display_name.as_str())
            && self.kind == other.kind
            && self.capabilities == other.capabilities
            && self.light_capabilities == other.light_capabilities
            && self.model_info == other.model_info
            && same_owned_text(&self.codename, &other.codename)
            && same_owned_text(&self.driver_id, &other.driver_id)
            && same_owned_text(&self.registry_model_id, &other.registry_model_id)
    }
}

/// One device's settings.
#[derive(Debug)]
pub struct DeviceConfig {
    /// The links that the device was reached over, by route.
    pub links: Table<LinkConfig>,
    /// What application profiles override, by application.
    pub per_app_settings: Table<AppOverrides>,
    pub action_ring: ActionRingConfig,
    pub invert_scroll: bool,
    pub scroll_resolution: Option<ScrollResolution>,
    pub report_rate: Option<ReportRateHz>,
    pub lighting: Option<Lighting>,
    pub smartshift: Option<SmartShiftStatus>,
    pub identity: Option<DeviceIdentity>,
}

/// The persisted settings.
#[derive(Debug)]
pub struct Config {
    pub devices: Table<DeviceConfig>,
    pub selected_device: Option<String>,
}

impl AppOverrides {
    /// Nothing is overridden.
    pub open spec fn nothing() -> AppOverrides {
        AppOverrides { invert_scroll: None, scroll_resolution: None, report_rate: None }
    }

    /// Nothing is overridden.
    pub fn none() -> (overrides: Self)
        ensures
            overrides == Self::nothing(),
    {
        AppOverrides { invert_scroll: None, scroll_resolution: None, report_rate: None }
    }
}

impl LinkOverrides {
    /// Nothing is overridden.
    pub fn none() -> (overrides: Self)
        ensures
            overrides.invert_scroll is None,
            overrides.scroll_resolution is None,
            overrides.lighting is Inherited,
    {
        LinkOverrides {
            invert_scroll: None,
            scroll_resolution: None,
            lighting: LinkLighting::Inherited,
        }
    }
}

impl DeviceConfig {
    /// Whether the settings are those of a device that has none yet.
    pub open spec fn is_initial(self, ring: RingDefaults) -> bool {
        &&& self.links@ == Map::<Seq<char>, LinkConfig>::empty()
        &&& self.per_app_settings@ == Map::<Seq<char>, AppOverrides>::empty()
        &&& self.action_ring.is_initial(ring)
        &&& !self.invert_scroll
        &&& self.scroll_resolution is None
        &&& self.report_rate is None
        &&& self.lighting is None
        &&& self.smartshift is None
        &&& self.identity is None
    }

    /// The settings of a device that has none yet.
    pub fn new(ring: &RingDefaults) -> (device: Self)
        ensures
            device.is_initial(*ring),
    {
        DeviceConfig {
            links: Table::new(),
            per_app_settings: Table::new(),
            action_ring: ActionRingConfig::new(ring),
            invert_scroll: false,
            scroll_resolution: None,
            report_rate: None,
            lighting: None,
            smartshift: None,
            identity: None,
        }
    }

    /// What the application's profile overrides.
    pub open spec fn overrides_of(self, app: Option<Seq<char>>) -> AppOverrides {
        match app {
            Some(app) => if self.per_app_settings@.contains_key(app) {
                self.per_app_settings@[app]
            } else {
                AppOverrides::nothing()
            },
            None => AppOverrides::nothing(),
        }
    }

    fn app_overrides(&self, app: Option<&str>) -> (overrides: AppOverrides)
        ensures
            overrides == self.overrides_of(optional_view(app)),
    {
        match app {
            Some(app) => match self.per_app_settings.get(app) {
                Some(overrides) => *overrides,
                None => AppOverrides::none(),
            },
            None => AppOverrides::none(),
        }
    }

    /// Whether the wheel is inverted: what the application's profile says, or
    /// else the link, or else the device.
    pub open spec fn inverted(self, route: Seq<char>, app: Option<Seq<char>>) -> bool {
        match self.overrides_of(app).invert_scroll {
            Some(invert) => invert,
            None => if self.links@.contains_key(route) {
                match self.links@[route].overrides.invert_scroll {
                    Some(invert) => invert,
                    None => self.invert_scroll,
                }
            } else {
                self.invert_scroll
            },
        }
    }

    /// Whether the wheel is inverted on `route` in `app`'s profile.
    pub fn effective_invert_scroll_for_app(&self, route: &str, app: Option<&str>) -> (inverted: bool)
        ensures
            inverted == self.inverted(route@, optional_view(app)),
    {
        if let Some(invert) = self.app_overrides(app).invert_scroll {
            return invert;
        }
        if let Some(link) = self.links.get(route) {
            if let Some(invert) = link.overrides.invert_scroll {
                return invert;
            }
        }
        self.invert_scroll
    }

    /// The wheel resolution: what the application's profile says, or else the
    /// link, or else the device.
    pub open spec fn resolution(
        self,
        route: Seq<char>,
        app: Option<Seq<char>>,
    ) -> Option<ScrollResolution> {
        match self.overrides_of(app).scroll_resolution {
            Some(resolution) => Some(resolution),
            None => if self.links@.contains_key(route) {
                match self.links@[route].overrides.scroll_resolution {
                    Some(resolution) => Some(resolution),
                    None => self.scroll_resolution,
                }
            } else {
                self.scroll_resolution
            },
        }
    }

    /// The wheel resolution on `route` in `app`'s profile.
    pub fn effective_scroll_resolution_for_app(
        &self,
        route: &str,
        app: Option<&str>,
    ) -> (resolution: Option<ScrollResolution>)
        ensures
            resolution == self.resolution(route@, optional_view(app)),
    {
        if let Some(resolution) = self.app_overrides(app).scroll_resolution {
            return Some(resolution);
        }
        if let Some(link) = self.links.get(route) {
            if let Some(resolution) = link.overrides.scroll_resolution {
                return Some(resolution);
            }
        }
        self.scroll_resolution
    }

    /// The lighting on `route`: the link's own, none if the link unsets it, or
    /// else the device's.
    pub open spec fn lighting_on(self, route: Seq<char>) -> Option<LightingView> {
        let stored = match self.lighting {
            Some(lighting) => Some(lighting@),
            None => None,
        };
        if self.links@.contains_key(route) {
            match self.links@[route].overrides.lighting {
                LinkLighting::Inherited => stored,
                LinkLighting::Unset => None,
                LinkLighting::Own(lighting) => Some(lighting@),
            }
        } else {
            stored
        }
    }

    /// The lighting on `route`.
    pub fn effective_lighting(&self, route: &str) -> (lighting: Option<&Lighting>)
        ensures
            self.lighting_on(route@) == match lighting {
                Some(lighting) => Some(lighting@),
                None => None,
            },
    {
        if let Some(link) = self.links.get(route) {
            match &link.overrides.lighting {
                LinkLighting::Inherited => {},
                LinkLighting::Unset => {
                    return None;
                },
                LinkLighting::Own(lighting) => {
                    return Some(lighting);
                },
            }
        }
        match &self.lighting {
            Some(lighting) => Some(lighting),
            None => None,
        }
    }
}

/// Whether `after` is `before` with the settings of `key` changed, and the
/// change is one that `change` allows from what the device had before.
pub open spec fn device_edited(
    before: Config,
    after: Config,
    key: Seq<char>,
    ring: RingDefaults,
    change: spec_fn(DeviceConfig, DeviceConfig) -> bool,
) -> bool {
    &&& Config::only_device_changed(before, after, key)
    &&& exists|base: DeviceConfig| #[trigger]
        before.has_or_initial(key, ring, base) && change(base, after.devices@[key])
}

impl Config {
    /// No settings.
    pub fn new() -> (config: Self)
        ensures
            config.devices@ == Map::<Seq<char>, DeviceConfig>::empty(),
            config.selected_device is None,
    {
        Config { devices: Table::new(), selected_device: None }
    }

    /// `device` is what `key` has, or what a device has that has no settings
    /// yet.
    pub open spec fn has_or_initial(
        self,
        key: Seq<char>,
        ring: RingDefaults,
        device: DeviceConfig,
    ) -> bool {
        if self.devices@.contains_key(key) {
            device == self.devices@[key]
        } else {
            device.is_initial(ring)
        }
    }

    /// Takes `key`'s settings out for editing. A device without settings gets
    /// the initial ones.
    pub(crate) fn take_device(&mut self, key: &str, ring: &RingDefaults) -> (device: DeviceConfig)
        ensures
            old(self).has_or_initial(key@, *ring, device),
            final(self).devices@ == old(self).devices@.remove(key@),
            final(self).selected_device == old(self).selected_device,
    {
        match self.devices.remove(key) {
            Some(device) => device,
            None => DeviceConfig::new(ring),
        }
    }

    /// Whether `after` differs from `before` in the settings of `key` alone.
    pub open spec fn only_device_changed(before: Config, after: Config, key: Seq<char>) -> bool {
        &&& after.devices@.contains_key(key)
        &&& after.devices@.remove(key) == before.devices@.remove(key)
        &&& after.selected_device == before.selected_device
    }

    /// Puts `key`'s settings back after editing.
    pub(crate) fn put_device(&mut self, key: &str, device: DeviceConfig)
        ensures
            final(self).devices@ == old(self).devices@.insert(key@, device),
            final(self).selected_device == old(self).selected_device,
    {
        self.devices.insert(key, device);
    }
}

} // verus!
