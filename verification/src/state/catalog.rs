//! The device list, its selection, and the per-device runtime rows.

use crate::record::DeviceRecord;
use crate::state::smartshift::SmartShiftDeviceState;
use crate::table::Table;
use vstd::prelude::*;

verus! {

/// What is tracked of a device outside its settings and reads. A device
/// without a row is one whose every field is at its default.
#[derive(Debug, Clone, Copy, PartialEq, Eq, Structural)]
pub struct DeviceRuntimeState {
    /// Consecutive snapshots that omitted the device.
    pub inventory_misses: u8,
    pub smartshift: SmartShiftDeviceState,
}

impl DeviceRuntimeState {
    /// The row of a device of which nothing was tracked yet.
    pub open spec fn initial() -> DeviceRuntimeState {
        DeviceRuntimeState { inventory_misses: 0, smartshift: SmartShiftDeviceState::Idle }
    }

    /// The row of a device of which nothing was tracked yet.
    pub fn new() -> (row: Self)
        ensures
            row == Self::initial(),
    {
        DeviceRuntimeState { inventory_misses: 0, smartshift: SmartShiftDeviceState::Idle }
    }
}

/// The row of `key`, which is at its default if there is none.
pub open spec fn row_of(rows: Map<Seq<char>, DeviceRuntimeState>, key: Seq<char>) -> DeviceRuntimeState {
    if rows.contains_key(key) {
        rows[key]
    } else {
        DeviceRuntimeState::initial()
    }
}

/// The device list and which device of it is selected.
#[derive(Debug)]
pub struct DeviceCatalog {
    pub records: Vec<DeviceRecord>,
    pub selected: Option<usize>,
    pub runtime: Table<DeviceRuntimeState>,
}

impl DeviceCatalog {
    /// The selected device.
    pub open spec fn current(self) -> Option<DeviceRecord> {
        match self.selected {
            Some(i) => if i < self.records@.len() {
                Some(self.records@[i as int])
            } else {
                None
            },
            None => None,
        }
    }

    /// No devices.
    pub fn new() -> (catalog: Self)
        ensures
            catalog.records@ == Seq::<DeviceRecord>::empty(),
            catalog.selected is None,
            catalog.runtime@ == Map::<Seq<char>, DeviceRuntimeState>::empty(),
    {
        DeviceCatalog { records: Vec::new(), selected: None, runtime: Table::new() }
    }

    /// The selected device.
    pub fn current_record(&self) -> (record: Option<&DeviceRecord>)
        ensures
            match record {
                Some(record) => self.current() == Some(*record),
                None => self.current() is None,
            },
    {
        match self.selected {
            Some(i) => if i < self.records.len() {
                Some(&self.records[i])
            } else {
                None
            },
            None => None,
        }
    }

    /// The position of the selected device.
    pub fn selected_index(&self) -> (index: Option<usize>)
        ensures
            index == self.selected,
    {
        self.selected
    }

    /// Selects the device at `index`. Returns whether that changed anything: a
    /// position out of range and the one already selected do not.
    pub fn select(&mut self, index: usize) -> (changed: bool)
        ensures
            changed == (index < old(self).records@.len() && old(self).selected != Some(index)),
            *final(self) == (DeviceCatalog {
                selected: if changed {
                    Some(index)
                } else {
                    old(self).selected
                },
                ..*old(self)
            }),
    {
        if index >= self.records.len() {
            return false;
        }
        if let Some(selected) = self.selected {
            if selected == index {
                return false;
            }
        }
        self.selected = Some(index);
        true
    }

    /// Replaces the list and selects the device at `index`, or none if there
    /// is no such device.
    pub fn replace(&mut self, records: Vec<DeviceRecord>, index: usize)
        ensures
            *final(self) == (DeviceCatalog {
                records,
                selected: if index < records@.len() {
                    Some(index)
                } else {
                    None
                },
                ..*old(self)
            }),
    {
        self.selected = if index < records.len() {
            Some(index)
        } else {
            None
        };
        self.records = records;
    }
}

} // verus!
