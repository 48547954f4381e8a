//! One device of the gallery.

use crate::device::{
    BatteryInfo, Capabilities, DeviceKind, DeviceModelInfo, DeviceRoute, LightCapabilities,
};
use crate::services::assets::metadata::{ResolvedAsset, ResolvedAssetView};
use crate::text::{owned_view, same_owned_text, same_text};
use std::sync::Arc;
use vstd::prelude::*;

verus! {

/// One device of the gallery: live, or remembered from an earlier sighting.
#[derive(Debug)]
pub struct DeviceRecord {
    /// Under which key the device's settings are kept.
    pub config_key: String,
    /// The device's own transport-free key, where it differs.
    pub canonical_key: Option<String>,
    /// Whether `config_key` names a physical device. A half-read probe has a
    /// key that names none.
    pub persistent: bool,
    /// Under which key snapshots are matched with each other.
    pub inventory_key: String,
    /// Under which key the window finds the card again.
    pub record_key: String,
    /// The `direct:<vid>:<pid>` part of `config_key`, if it has one.
    pub direct_prefix: Option<String>,
    /// The product id that the record's model proves, if any.
    pub wire_pid: Option<String>,
    /// Where the record stands in the gallery: records are ordered by this.
    pub order_key: String,
    /// The link the device was seen on.
    pub route_key: String,
    /// Which model the device is.
    pub model_key: String,
    pub model_name: String,
    pub display_name: String,
    /// The art that was found for the device.
    pub asset: Option<Arc<ResolvedAsset>>,
    pub model_info: Option<DeviceModelInfo>,
    pub codename: Option<String>,
    /// The unit's own serial number and id. They tell it from others of its
    /// model and are not remembered.
    pub serial_number: Option<String>,
    pub unit_id: u32,
    /// The serial number and the unit id that stand beside `model_info` in what
    /// the firmware says.
    pub firmware_serial_number: Option<String>,
    pub firmware_unit_id: u32,
    pub driver_id: Option<String>,
    pub registry_model_id: Option<String>,
    /// How to reach the device now.
    pub route: Option<DeviceRoute>,
    /// The system's id of a camera's capture device.
    pub capture_id: Option<String>,
    pub kind: DeviceKind,
    pub capabilities: Option<Capabilities>,
    pub light_capabilities: Option<LightCapabilities>,
    pub slot: u8,
    pub online: bool,
    pub battery: Option<BatteryInfo>,
}

/// What a [`DeviceRecord`] holds.
pub struct DeviceRecordView {
    pub config_key: Seq<char>,
    pub canonical_key: Option<Seq<char>>,
    pub persistent: bool,
    pub inventory_key: Seq<char>,
    pub record_key: Seq<char>,
    pub direct_prefix: Option<Seq<char>>,
    pub wire_pid: Option<Seq<char>>,
    pub order_key: Seq<char>,
    pub route_key: Seq<char>,
    pub model_key: Seq<char>,
    pub model_name: Seq<char>,
    pub display_name: Seq<char>,
    pub asset: Option<ResolvedAssetView>,
    pub model_info: Option<DeviceModelInfo>,
    pub codename: Option<Seq<char>>,
    pub serial_number: Option<Seq<char>>,
    pub unit_id: u32,
    pub firmware_serial_number: Option<Seq<char>>,
    pub firmware_unit_id: u32,
    pub driver_id: Option<Seq<char>>,
    pub registry_model_id: Option<Seq<char>>,
    pub route: Option<DeviceRoute>,
    pub capture_id: Option<Seq<char>>,
    pub kind: DeviceKind,
    pub capabilities: Option<Capabilities>,
    pub light_capabilities: Option<LightCapabilities>,
    pub slot: u8,
    pub online: bool,
    pub battery: Option<BatteryInfo>,
}

/// What an optional asset holds.
pub open spec fn asset_view(asset: Option<Arc<ResolvedAsset>>) -> Option<ResolvedAssetView> {
    match asset {
        Some(asset) => Some((*asset)@),
        None => None,
    }
}

impl View for DeviceRecord {
    type V = DeviceRecordView;

    open spec fn view(&self) -> DeviceRecordView {
        DeviceRecordView {
            config_key: self.config_key@,
            canonical_key: owned_view(self.canonical_key),
            persistent: self.persistent,
            inventory_key: self.inventory_key@,
            record_key: self.record_key@,
            direct_prefix: owned_view(self.direct_prefix),
            wire_pid: owned_view(self.wire_pid),
            order_key: self.order_key@,
            route_key: self.route_key@,
            model_key: self.model_key@,
            model_name: self.model_name@,
            display_name: self.display_name@,
            asset: asset_view(self.asset),
            model_info: self.model_info,
            codename: owned_view(self.codename),
            serial_number: owned_view(self.serial_number),
            unit_id: self.unit_id,
            firmware_serial_number: owned_view(self.firmware_serial_number),
            firmware_unit_id: self.firmware_unit_id,
            driver_id: owned_view(self.driver_id),
            registry_model_id: owned_view(self.registry_model_id),
            route: self.route,
            capture_id: owned_view(self.capture_id),
            kind: self.kind,
            capabilities: self.capabilities,
            light_capabilities: self.light_capabilities,
            slot: self.slot,
            online: self.online,
            battery: self.battery,
        }
    }
}

impl Clone for DeviceRecord {
    fn clone(&self) -> (copy: Self)
        ensures
            copy == *self,
    {
        DeviceRecord {
            config_key: self.config_key.clone(),
            canonical_key: self.canonical_key.clone(),
            persistent: self.persistent,
            inventory_key: self.inventory_key.clone(),
            record_key: self.record_key.clone(),
            direct_prefix: self.direct_prefix.clone(),
            wire_pid: self.wire_pid.clone(),
            order_key: self.order_key.clone(),
            route_key: self.route_key.clone(),
            model_key: self.model_key.clone(),
            model_name: self.model_name.clone(),
            display_name: self.display_name.clone(),
            asset: match &self.asset {
                Some(asset) => Some(asset.clone()),
                None => None,
            },
            model_info: self.model_info,
            codename: self.codename.clone(),
            serial_number: self.serial_number.clone(),
            unit_id: self.unit_id,
            firmware_serial_number: self.firmware_serial_number.clone(),
            firmware_unit_id: self.firmware_unit_id,
            driver_id: self.driver_id.clone(),
            registry_model_id: self.registry_model_id.clone(),
            route: self.route,
            capture_id: self.capture_id.clone(),
            kind: self.kind,
            capabilities: self.capabilities,
            light_capabilities: self.light_capabilities,
            slot: self.slot,
            online: self.online,
            battery: self.battery,
        }
    }
}

fn same_asset(a: &Option<Arc<ResolvedAsset>>, b: &Option<Arc<ResolvedAsset>>) -> (same: bool)
    ensures
        same == (asset_view(*a) == asset_view(*b)),
{
    match (a, b) {
        (Some(a), Some(b)) => a.same(b),
        (None, None) => true,
        _ => false,
    }
}

impl DeviceRecord {
    /// Whether two records agree in every field.
    pub fn same(&self, other: &DeviceRecord) -> (same: bool)
        ensures
            same == (self@ == other@),
    {
        same_text(self.config_key.as_str(), other.config_key.as_str())
            && same_owned_text(&self.canonical_key, &other.canonical_key)
            && self.persistent == other.persistent
            && same_text(self.inventory_key.as_str(), other.inventory_key.as_str())
            && same_text(self.record_key.as_str(), other.record_key.as_str())
            && same_owned_text(&self.direct_prefix, &other.direct_prefix)
            && same_owned_text(&self.wire_pid, &other.wire_pid)
            && same_text(self.order_key.as_str(), other.order_key.as_str())
            && same_text(self.route_key.as_str(), other.route_key.as_str())
            && same_text(self.model_key.as_str(), other.model_key.as_str())
            && same_text(self.model_name.as_str(), other.model_name.as_str())
            && same_text(self.display_name.as_str(), other.display_name.as_str())
            && same_asset(&self.asset, &other.asset)
            && self.model_info == other.model_info
            && same_owned_text(&self.codename, &other.codename)
            && same_owned_text(&self.serial_number, &other.serial_number)
            && self.unit_id == other.unit_id
            && same_owned_text(&self.firmware_serial_number, &other.firmware_serial_number)
            && self.firmware_unit_id == other.firmware_unit_id
            && same_owned_text(&self.driver_id, &other.driver_id)
            && same_owned_text(&self.registry_model_id, &other.registry_model_id)
            && self.route == other.route
            && same_owned_text(&self.capture_id, &other.capture_id)
            && self.kind == other.kind
            && self.capabilities == other.capabilities
            && self.light_capabilities == other.light_capabilities
            && self.slot == other.slot
            && self.online == other.online
            && self.battery == other.battery
    }

    /// The key that the device's settings are kept under, if it names a
    /// physical device.
    pub fn persistent_config_key(&self) -> (key: Option<&str>)
        ensures
            crate::text::optional_view(key) == self.settings_key(),
    {
        if self.persistent {
            Some(self.config_key.as_str())
        } else {
            None
        }
    }

    /// The key that the device's settings are kept under, if any.
    pub open spec fn settings_key(self) -> Option<Seq<char>> {
        if self.persistent {
            Some(self.config_key@)
        } else {
            None
        }
    }
}

/// What a list of records holds.
pub open spec fn views(records: Seq<DeviceRecord>) -> Seq<DeviceRecordView> {
    records.map_values(|record: DeviceRecord| record@)
}

/// Whether two lists agree in every field of every record.
pub fn same_records(a: &Vec<DeviceRecord>, b: &Vec<DeviceRecord>) -> (same: bool)
    ensures
        same == (views(a@) == views(b@)),
{
    if a.len() != b.len() {
        assert(views(a@).len() != views(b@).len());
        return false;
    }
    let mut i: usize = 0;
    while i < a.len()
        invariant
            i <= a@.len(),
            a@.len() == b@.len(),
            forall|j: int| 0 <= j < i ==> (#[trigger] views(a@)[j]) == views(b@)[j],
        decreases a@.len() - i,
    {
        if !a[i].same(&b[i]) {
            assert(views(a@)[i as int] != views(b@)[i as int]);
            return false;
        }
        i += 1;
    }
    assert(views(a@) =~= views(b@));
    true
}

/// A change of a device's art or battery alone makes the list another one, so
/// that a refresh never passes over it.
pub proof fn a_change_of_art_or_battery_is_seen(
    before: Seq<DeviceRecord>,
    after: Seq<DeviceRecord>,
    i: int,
)
    requires
        0 <= i < before.len(),
        before.len() == after.len(),
        asset_view(before[i].asset) != asset_view(after[i].asset) || before[i].battery
            != after[i].battery,
    ensures
        views(before) != views(after),
{
    assert(views(before)[i] == before[i]@ && views(after)[i] == after[i]@);
}

} // verus!
