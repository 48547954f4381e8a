//! Polling-frequency reads and writes.

use crate::device::DeviceRoute;
use crate::hid::{first_nearest, ReportRateHz, ReportRateInfo, SupportedValues};
use crate::services::device_reads::{numbered, shows_report_rate, DeviceReads, ReadStart};
use crate::state::config::{device_edited, AppOverrides, DeviceConfig};
use crate::state::load::{Load, ReportRateStatus};
use crate::state::scroll::app_overridden;
use crate::state::{saves, AppState, PointerState, Save, SaveOutcome};
use crate::text::same_text;
use vstd::prelude::*;

verus! {

/// The polling frequency that is shown before one was read.
pub const DEFAULT_REPORT_RATE: ReportRateHz = 1000;

/// Whether `device` is `before` with the polling frequency of a profile set.
pub open spec fn report_rate_set(
    before: DeviceConfig,
    device: DeviceConfig,
    app: Option<Seq<char>>,
    rate: ReportRateHz,
) -> bool {
    match app {
        Some(app) => app_overridden(
            before,
            device,
            app,
            AppOverrides { report_rate: Some(rate), ..before.overrides_of(Some(app)) },
        ),
        None => device == (DeviceConfig { report_rate: Some(rate), ..before }),
    }
}

impl AppState {
    /// What was read of the selected device's polling frequencies.
    pub open spec fn report_rate_info(self) -> Option<ReportRateInfo> {
        match self.current() {
            Some(record) => if self.pointer.reads.report_rate@.contains_key(record.config_key@) {
                match self.pointer.reads.report_rate@[record.config_key@].load {
                    Load::Ready(info) => Some(*info),
                    _ => None,
                }
            } else {
                None
            },
            None => None,
        }
    }

    /// Whether `snapped` is `rate` snapped to what the selected device
    /// supports, as far as that is known.
    pub open spec fn snapped_rate(self, rate: ReportRateHz, snapped: ReportRateHz) -> bool {
        match self.report_rate_info() {
            Some(info) => exists|at: int| #[trigger]
                first_nearest(info.capabilities@, rate as int, at) && snapped
                    == info.capabilities@[at],
            None => snapped == rate,
        }
    }

    /// Starts the selected device's polling-frequency read, unless it is
    /// watched over the device's route, and takes over what is known of it.
    pub fn load_current_report_rate(
        &mut self,
    ) -> (started: Option<(String, DeviceRoute, ReadStart)>)
        ensures
            match old(self).current() {
                Some(record) => match record.route {
                    Some(route) => {
                        &&& started matches Some(started)
                        &&& started.0@ == record.config_key@
                        &&& started.1 == route
                        &&& started.2 == crate::services::device_reads::start_of(
                            old(self).pointer.reads.report_rate@,
                            old(self).pointer.reads.attached,
                            old(self).pointer.reads.next_generation,
                            record.config_key@,
                            route,
                        )
                        &&& final(self).pointer.reads.report_rate@ == if started.2 is Watched {
                            old(self).pointer.reads.report_rate@
                        } else {
                            old(self).pointer.reads.report_rate@.remove(record.config_key@)
                        }
                        &&& final(self).pointer.report_rate == match final(self).report_rate_info() {
                            Some(info) => info.current,
                            None => old(self).pointer.report_rate,
                        }
                    },
                    None => started is None && *final(self) == *old(self),
                },
                None => started is None && *final(self) == *old(self),
            },
            *final(self) == (AppState {
                pointer: PointerState {
                    reads: DeviceReads {
                        report_rate: final(self).pointer.reads.report_rate,
                        next_generation: numbered(
                            match started {
                                Some(started) => Some(started.2),
                                None => None,
                            },
                            old(self).pointer.reads.next_generation,
                        ),
                        ..old(self).pointer.reads
                    },
                    report_rate: final(self).pointer.report_rate,
                    ..old(self).pointer
                },
                ..*old(self)
            }),
    {
        let (key, route) = match self.current_record() {
            Some(record) => match record.route {
                Some(route) => (record.config_key.clone(), route),
                None => {
                    return None;
                },
            },
            None => {
                return None;
            },
        };
        let start = self.pointer.reads.ensure_report_rate(key.as_str(), route);
        self.apply_report_rate_read(key.as_str());
        Some((key, route, start))
    }

    /// The polling frequency read from the selected device, or the default.
    pub fn report_rate_for_current(&self) -> (rate: ReportRateHz)
        ensures
            rate == match self.report_rate_info() {
                Some(info) => info.current,
                None => DEFAULT_REPORT_RATE,
            },
    {
        if let Some(record) = self.current_record() {
            if let Some(Load::Ready(info)) = self.pointer.reads.report_rate_load(
                record.config_key.as_str(),
            ) {
                return info.current;
            }
        }
        DEFAULT_REPORT_RATE
    }

    /// Takes over the polling frequency read from `key`, if that device is the
    /// selected one.
    pub fn apply_report_rate_read(&mut self, key: &str)
        ensures
            *final(self) == (AppState {
                pointer: PointerState {
                    report_rate: match old(self).report_rate_info() {
                        Some(info) => if old(self).current()->0.config_key@ == key@ {
                            info.current
                        } else {
                            old(self).pointer.report_rate
                        },
                        None => old(self).pointer.report_rate,
                    },
                    ..old(self).pointer
                },
                ..*old(self)
            }),
    {
        let selected = match self.current_record() {
            Some(record) => same_text(record.config_key.as_str(), key),
            None => false,
        };
        if !selected {
            return;
        }
        let rate: Option<ReportRateHz> = match self.pointer.reads.report_rate_load(key) {
            Some(Load::Ready(info)) => Some(info.current),
            _ => None,
        };
        if let Some(rate) = rate {
            self.pointer.report_rate = rate;
        }
    }

    /// The polling frequencies that the selected device supports, if known.
    pub fn active_report_rate_capabilities(&self) -> (capabilities: Option<&SupportedValues>)
        ensures
            match capabilities {
                Some(capabilities) => self.report_rate_info() matches Some(info)
                    && info.capabilities == *capabilities,
                None => self.report_rate_info() is None,
            },
    {
        if let Some(record) = self.current_record() {
            if let Some(Load::Ready(info)) = self.pointer.reads.report_rate_load(
                record.config_key.as_str(),
            ) {
                return Some(&info.capabilities);
            }
        }
        None
    }

    /// Snaps `rate` to what the selected device supports, if known.
    pub fn normalize_active_report_rate(&self, rate: ReportRateHz) -> (snapped: ReportRateHz)
        ensures
            self.snapped_rate(rate, snapped),
    {
        match self.active_report_rate_capabilities() {
            Some(capabilities) => capabilities.nearest(rate),
            None => rate,
        }
    }

    /// Takes a polling frequency over for the selected device: snapped to what
    /// it supports, shown at once, and put into the open profile's settings if
    /// the device is a physical one. Once the file is written, or if there is
    /// nothing to write, [`AppState::finish_report_rate`] applies it. Returns
    /// the snapped frequency and what to save.
    pub fn commit_report_rate(&mut self, rate: ReportRateHz) -> (committed: (
        ReportRateHz,
        Option<Save>,
    ))
        ensures
            old(self).snapped_rate(rate, committed.0),
            final(self).pointer == (PointerState {
                report_rate: committed.0,
                ..old(self).pointer
            }),
            *final(self) == (AppState {
                config: final(self).config,
                pointer: final(self).pointer,
                ..*old(self)
            }),
            match old(self).current_settings_key() {
                Some(key) => {
                    &&& saves(committed.1, "report rate"@, true)
                    &&& device_edited(
                        old(self).config,
                        final(self).config,
                        key,
                        old(self).ring_defaults,
                        |before: DeviceConfig, device: DeviceConfig|
                            report_rate_set(before, device, old(self).scope(), committed.0),
                    )
                },
                None => committed.1 is None && final(self).config == old(self).config,
            },
    {
        let rate: ReportRateHz = self.normalize_active_report_rate(rate);
        self.pointer.report_rate = rate;
        let key = match self.current_persistent_key() {
            Some(key) => key,
            None => {
                return (rate, None);
            },
        };
        let mut device = self.config.take_device(key.as_str(), &self.ring_defaults);
        let ghost before = device;
        match self.editing_app() {
            Some(app) => {
                let mut overrides = device.take_overrides(app);
                overrides.report_rate = Some(rate);
                device.per_app_settings.insert(app, overrides);
            },
            None => {
                device.report_rate = Some(rate);
            },
        }
        self.config.put_device(key.as_str(), device);
        proof {
            assert(old(self).config.has_or_initial(key@, self.ring_defaults, before));
            assert(report_rate_set(before, device, old(self).scope(), rate));
            assert(self.config.devices@.remove(key@) =~= old(self).config.devices@.remove(key@));
        }
        (rate, Some(Save { what: "report rate", reload: true }))
    }

    /// Applies a committed polling frequency: shows it as the device's own and
    /// returns the route to write it to and whether the cache takes it over.
    /// Where the settings of a physical device could not be saved, they are put
    /// back and nothing is applied.
    pub fn finish_report_rate(
        &mut self,
        rate: ReportRateHz,
        outcome: SaveOutcome,
    ) -> (sent: Option<(Option<DeviceRoute>, bool)>)
        ensures
            match old(self).current() {
                Some(record) => if record.persistent && !(outcome is Saved) {
                    sent is None && *final(self) == old(self).after_save(outcome)
                } else {
                    &&& sent matches Some(sent) && sent.0 == record.route && sent.1 == (
                    old(self).report_rate_info() is Some && old(self).pointer.reads.attached)
                    &&& shows_report_rate(
                        old(self).pointer.reads.report_rate@,
                        final(self).pointer.reads.report_rate@,
                        record.config_key@,
                        rate,
                    )
                    &&& *final(self) == (AppState {
                        pointer: PointerState {
                            reads: DeviceReads {
                                report_rate: final(self).pointer.reads.report_rate,
                                ..old(self).pointer.reads
                            },
                            ..old(self).pointer
                        },
                        ..*old(self)
                    })
                },
                None => sent is None && *final(self) == *old(self),
            },
    {
        let (key, route) = match self.current_record() {
            Some(record) => {
                if record.persistent {
                    if let SaveOutcome::Failed { .. } = outcome {
                        self.finish_save(outcome);
                        return None;
                    }
                }
                (record.config_key.clone(), record.route)
            },
            None => {
                return None;
            },
        };
        let publish = self.pointer.reads.set_report_rate_ready(key.as_str(), rate);
        Some((route, publish))
    }

    /// The polling frequency that is shown.
    pub fn report_rate(&self) -> (rate: ReportRateHz)
        ensures
            rate == self.pointer.report_rate,
    {
        self.pointer.report_rate
    }

    /// What is shown of `key`'s polling-frequency read.
    pub fn report_rate_status_for(&self, key: &str) -> (status: ReportRateStatus)
        ensures
            status == crate::services::device_reads::shown(self.pointer.reads.report_rate@, key@),
    {
        self.pointer.reads.report_rate_status(key)
    }
}

} // verus!
