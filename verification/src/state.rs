//! The window's state and how requests and answers change it.

pub mod action_ring;
pub mod catalog;
pub mod config;
pub mod edit_laws;
pub mod event;
pub mod inventory;
pub mod laws;
pub mod lighting;
pub mod load;
pub mod merge;
pub mod misses;
pub mod refresh;
pub mod report_rate;
pub mod scroll;
pub mod select_laws;
pub mod smartshift;

use crate::hid::{Dpi, OnboardLed, ReportRateHz};
use crate::record::DeviceRecord;
use crate::services::device_reads::DeviceReads;
use crate::state::action_ring::RingDefaults;
use crate::state::catalog::DeviceCatalog;
use crate::state::config::Config;
use crate::table::Table;
use crate::text::{borrowed, optional_view, owned_view};
use vstd::prelude::*;

verus! {

/// What the pointer panels show.
#[derive(Debug)]
pub struct PointerState {
    pub reads: DeviceReads,
    pub dpi: Dpi,
    pub report_rate: ReportRateHz,
    /// The id that the next SmartShift write gets.
    pub next_smartshift_write_id: u64,
}

/// The window's state.
#[derive(Debug)]
pub struct AppState {
    pub devices: DeviceCatalog,
    pub config: Config,
    pub pointer: PointerState,
    /// The application whose profile is open, or `None` for the default one.
    pub editing_app: Option<String>,
    /// LED records last read from firmware, by device.
    pub onboard_leds: Table<Vec<OnboardLed>>,
    /// The Actions Ring that a device has until its first edit.
    pub ring_defaults: RingDefaults,
    /// The resolution that is shown before one was read.
    pub default_dpi: Dpi,
    /// How many snapshots in a row may omit a known device before its card goes.
    pub inventory_miss_grace: u8,
}

/// A request to write the configuration to disk.
#[derive(Debug, Clone, Copy)]
pub struct Save {
    /// What was changed, for the log.
    pub what: &'static str,
    /// Whether the agent has to read the file again afterwards.
    pub reload: bool,
}

/// What came of writing the configuration to disk. A write that failed comes
/// with the configuration that is still there.
#[derive(Debug)]
pub enum SaveOutcome {
    Saved,
    Failed { persisted: Config },
}

/// Whether `save` asks to write `what`, with a reload of the agent if `reload`.
pub open spec fn saves(save: Option<Save>, what: Seq<char>, reload: bool) -> bool {
    save matches Some(save) && save.what@ == what && save.reload == reload
}

impl AppState {
    /// The selected device.
    pub open spec fn current(self) -> Option<DeviceRecord> {
        self.devices.current()
    }

    /// The key that the selected device's settings are kept under, if it is a
    /// physical device.
    pub open spec fn current_settings_key(self) -> Option<Seq<char>> {
        match self.current() {
            Some(record) => record.settings_key(),
            None => None,
        }
    }

    /// The application whose profile is open.
    pub open spec fn scope(self) -> Option<Seq<char>> {
        owned_view(self.editing_app)
    }

    /// The state after a write of the configuration: one that failed puts the
    /// settings back as they are on disk.
    pub open spec fn after_save(self, outcome: SaveOutcome) -> AppState {
        match outcome {
            SaveOutcome::Saved => self,
            SaveOutcome::Failed { persisted } => AppState { config: persisted, ..self },
        }
    }

    /// Ends a write of the configuration. Where it failed, the settings go back
    /// to what is on disk, so that memory and disk agree. Returns whether the
    /// settings were saved.
    pub fn finish_save(&mut self, outcome: SaveOutcome) -> (saved: bool)
        ensures
            saved == (outcome is Saved),
            *final(self) == old(self).after_save(outcome),
    {
        match outcome {
            SaveOutcome::Saved => true,
            SaveOutcome::Failed { persisted } => {
                self.config = persisted;
                false
            },
        }
    }

    /// The selected device.
    pub fn current_record(&self) -> (record: Option<&DeviceRecord>)
        ensures
            match record {
                Some(record) => self.current() == Some(*record),
                None => self.current() is None,
            },
    {
        self.devices.current_record()
    }

    /// The application whose profile is open.
    pub fn editing_app(&self) -> (app: Option<&str>)
        ensures
            optional_view(app) == self.scope(),
    {
        borrowed(&self.editing_app)
    }

    /// The selected device's settings key, owned.
    pub(crate) fn current_persistent_key(&self) -> (key: Option<String>)
        ensures
            owned_view(key) == self.current_settings_key(),
    {
        match self.current_record() {
            Some(record) => match record.persistent_config_key() {
                Some(key) => Some(key.to_owned()),
                None => None,
            },
            None => None,
        }
    }
}

/// A change of the settings that could not be saved leaves nothing behind: with
/// the settings that were there before put back, the state is what it was.
pub proof fn a_failed_save_undoes_the_change(before: AppState, after: AppState)
    requires
        after == (AppState { config: after.config, ..before }),
    ensures
        after.after_save(SaveOutcome::Failed { persisted: before.config }) == before,
        after.after_save(SaveOutcome::Saved) == after,
{
}

} // verus!
