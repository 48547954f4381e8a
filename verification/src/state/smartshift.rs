//! SmartShift writes, shown before the device confirms them, and their
//! confirmation.

pub mod laws;

use crate::device::DeviceRoute;
use crate::hid::SmartShiftStatus;
use crate::services::device_reads::{following, numbered, retried, DeviceReads, ReadStart};
use crate::state::catalog::{row_of, DeviceRuntimeState};
use crate::state::load::{Load, SmartShiftLoad};
use crate::state::{saves, AppState, PointerState, Save, SaveOutcome};
use vstd::prelude::*;

verus! {

/// One device's SmartShift write.
///
/// A queued confirmation and a running one are different states: only the
/// latter takes an answer, and only the one tagged with its own id.
#[derive(Debug, Clone, Copy, PartialEq, Eq, Structural)]
pub enum SmartShiftDeviceState {
    Idle,
    Queued { expected: SmartShiftStatus, write_id: u64 },
    Confirming { expected: SmartShiftStatus, write_id: u64 },
    Confirmed,
    Failed,
}

/// What the panel says of a write.
#[derive(Debug, Clone, Copy, PartialEq, Eq, Structural)]
pub enum SmartShiftWriteStatus {
    Applying { expected: SmartShiftStatus, write_id: u64 },
    Confirmed,
    Failed,
}

/// What a confirming read brought.
#[derive(Debug, Clone, Copy, PartialEq, Eq, Structural)]
pub enum ConfirmationOutcome {
    Confirmed,
    Failed,
}

impl SmartShiftDeviceState {
    /// What the panel says of the write.
    pub open spec fn spec_status(self) -> Option<SmartShiftWriteStatus> {
        match self {
            Self::Idle => None,
            Self::Queued { expected, write_id } => Some(
                SmartShiftWriteStatus::Applying { expected, write_id },
            ),
            Self::Confirming { expected, write_id } => Some(
                SmartShiftWriteStatus::Applying { expected, write_id },
            ),
            Self::Confirmed => Some(SmartShiftWriteStatus::Confirmed),
            Self::Failed => Some(SmartShiftWriteStatus::Failed),
        }
    }

    /// What the panel says of the write.
    pub fn status(&self) -> (status: Option<SmartShiftWriteStatus>)
        ensures
            status == self.spec_status(),
    {
        match *self {
            Self::Idle => None,
            Self::Queued { expected, write_id } => Some(
                SmartShiftWriteStatus::Applying { expected, write_id },
            ),
            Self::Confirming { expected, write_id } => Some(
                SmartShiftWriteStatus::Applying { expected, write_id },
            ),
            Self::Confirmed => Some(SmartShiftWriteStatus::Confirmed),
            Self::Failed => Some(SmartShiftWriteStatus::Failed),
        }
    }

    /// A write went out and waits for its confirmation to start.
    pub fn queue(&mut self, expected: SmartShiftStatus, write_id: u64)
        ensures
            *final(self) == (Self::Queued { expected, write_id }),
    {
        *self = Self::Queued { expected, write_id };
    }

    /// The state once its confirmation has started.
    pub open spec fn begun(self) -> SmartShiftDeviceState {
        match self {
            Self::Queued { expected, write_id } => Self::Confirming { expected, write_id },
            other => other,
        }
    }

    /// Starts a queued confirmation and returns its id.
    pub fn begin_confirmation(&mut self) -> (started: Option<u64>)
        ensures
            *final(self) == old(self).begun(),
            started == match *old(self) {
                Self::Queued { expected, write_id } => Some(write_id),
                _ => None,
            },
    {
        if let Self::Queued { expected, write_id } = *self {
            *self = Self::Confirming { expected, write_id };
            return Some(write_id);
        }
        None
    }

    /// What the running confirmation with this id waits for.
    pub open spec fn awaited(self, write_id: u64) -> Option<SmartShiftStatus> {
        match self {
            Self::Confirming { expected, write_id: current } => if current == write_id {
                Some(expected)
            } else {
                None
            },
            _ => None,
        }
    }

    /// What the running confirmation with this id waits for.
    pub fn confirming_expected(&self, write_id: u64) -> (expected: Option<SmartShiftStatus>)
        ensures
            expected == self.awaited(write_id),
    {
        match *self {
            Self::Confirming { expected, write_id: current } => if current == write_id {
                Some(expected)
            } else {
                None
            },
            _ => None,
        }
    }

    /// The state after the confirmation with this id could not be asked for.
    pub open spec fn given_up(self, write_id: u64) -> SmartShiftDeviceState {
        if self.awaited(write_id) is Some {
            Self::Failed
        } else {
            self
        }
    }

    /// Fails the running confirmation with this id, and no other.
    pub fn fail_confirmation(&mut self, write_id: u64)
        ensures
            *final(self) == old(self).given_up(write_id),
    {
        if self.confirming_expected(write_id).is_some() {
            *self = Self::Failed;
        }
    }

    /// Forgets the write.
    pub fn reset(&mut self)
        ensures
            *final(self) == Self::Idle,
    {
        *self = Self::Idle;
    }

    /// The state after an answer to the confirmation with this id brought
    /// `load`.
    pub open spec fn settled(self, write_id: u64, load: Option<SmartShiftLoad>) -> Self {
        match self.awaited(write_id) {
            Some(expected) => match outcome_of(expected, load) {
                Some(ConfirmationOutcome::Confirmed) => Self::Confirmed,
                Some(ConfirmationOutcome::Failed) => Self::Failed,
                None => self,
            },
            None => self,
        }
    }
}

/// What a read says of a write that should have left the device at `expected`.
pub open spec fn outcome_of(
    expected: SmartShiftStatus,
    load: Option<SmartShiftLoad>,
) -> Option<ConfirmationOutcome> {
    match load {
        Some(Load::Ready(actual)) => if *actual == expected {
            Some(ConfirmationOutcome::Confirmed)
        } else {
            Some(ConfirmationOutcome::Failed)
        },
        Some(Load::Failed(_)) => Some(ConfirmationOutcome::Failed),
        Some(Load::Unsupported(_)) => Some(ConfirmationOutcome::Failed),
        Some(Load::Unknown) => None,
        Some(Load::Loading) => None,
        None => None,
    }
}

/// What a read says of a write that should have left the device at `expected`.
pub fn smartshift_write_outcome(
    expected: SmartShiftStatus,
    load: Option<&SmartShiftLoad>,
) -> (outcome: Option<ConfirmationOutcome>)
    ensures
        outcome == outcome_of(
            expected,
            match load {
                Some(load) => Some(*load),
                None => None,
            },
        ),
{
    match load {
        Some(Load::Ready(actual)) => if **actual == expected {
            Some(ConfirmationOutcome::Confirmed)
        } else {
            Some(ConfirmationOutcome::Failed)
        },
        Some(Load::Failed(_)) => Some(ConfirmationOutcome::Failed),
        Some(Load::Unsupported(_)) => Some(ConfirmationOutcome::Failed),
        Some(Load::Unknown) => None,
        Some(Load::Loading) => None,
        None => None,
    }
}

/// Whether a read still counts: an untagged one unless a write is under way, a
/// tagged one only for the confirmation that runs under its tag.
pub open spec fn read_counts(read_id: Option<u64>, write: Option<SmartShiftDeviceState>) -> bool {
    match read_id {
        Some(read_id) => write matches Some(SmartShiftDeviceState::Confirming { write_id, .. })
            && write_id == read_id,
        None => !(write matches Some(SmartShiftDeviceState::Queued { .. })) && !(write matches Some(
            SmartShiftDeviceState::Confirming { .. },
        )),
    }
}

/// Whether a read still counts.
pub fn smartshift_read_is_current(
    read_id: Option<u64>,
    write: Option<&SmartShiftDeviceState>,
) -> (current: bool)
    ensures
        current == read_counts(
            read_id,
            match write {
                Some(write) => Some(*write),
                None => None,
            },
        ),
{
    match (read_id, write) {
        (Some(read_id), Some(SmartShiftDeviceState::Confirming { write_id, .. })) => read_id
            == *write_id,
        (Some(_), _) => false,
        (None, Some(SmartShiftDeviceState::Queued { .. })) => false,
        (None, Some(SmartShiftDeviceState::Confirming { .. })) => false,
        (None, _) => true,
    }
}

/// `rows` with the write of an existing row replaced by `write`.
pub open spec fn write_replaced(
    rows: Map<Seq<char>, DeviceRuntimeState>,
    key: Seq<char>,
    write: SmartShiftDeviceState,
) -> Map<Seq<char>, DeviceRuntimeState> {
    if rows.contains_key(key) {
        rows.insert(key, DeviceRuntimeState { smartshift: write, ..rows[key] })
    } else {
        rows
    }
}

/// The write of `key`'s row, if there is a row.
pub open spec fn write_of(
    rows: Map<Seq<char>, DeviceRuntimeState>,
    key: Seq<char>,
) -> Option<SmartShiftDeviceState> {
    if rows.contains_key(key) {
        Some(rows[key].smartshift)
    } else {
        None
    }
}

impl AppState {
    /// What the read of `key` holds, if it is watched.
    pub open spec fn smartshift_load_of(self, key: Seq<char>) -> Option<SmartShiftLoad> {
        if self.pointer.reads.smartshift@.contains_key(key) {
            Some(self.pointer.reads.smartshift@[key].load)
        } else {
            None
        }
    }

    /// Whether `after` is this state with other rows, and nothing else changed.
    pub open spec fn only_rows_changed(
        self,
        after: AppState,
        rows: Map<Seq<char>, DeviceRuntimeState>,
    ) -> bool {
        &&& after.devices.runtime@ == rows
        &&& after == (AppState {
            devices: crate::state::catalog::DeviceCatalog {
                runtime: after.devices.runtime,
                ..self.devices
            },
            ..self
        })
    }

    fn replace_write(&mut self, key: &str, write: SmartShiftDeviceState)
        ensures
            old(self).only_rows_changed(
                *final(self),
                old(self).devices.runtime@.insert(
                    key@,
                    DeviceRuntimeState {
                        smartshift: write,
                        ..row_of(old(self).devices.runtime@, key@)
                    },
                ),
            ),
    {
        let inventory_misses: u8 = match self.devices.runtime.get(key) {
            Some(row) => row.inventory_misses,
            None => 0,
        };
        self.devices.runtime.insert(
            key,
            DeviceRuntimeState { inventory_misses, smartshift: write },
        );
    }

    /// Starts the selected device's SmartShift read, unless it is watched over
    /// the device's route. Without a reachable device there is nothing to read.
    pub fn load_current_smartshift(&mut self) -> (started: Option<(String, DeviceRoute, ReadStart)>)
        ensures
            match old(self).current() {
                Some(record) => match record.route {
                    Some(route) => {
                        &&& started matches Some(started)
                        &&& started.0@ == record.config_key@
                        &&& started.1 == route
                        &&& started.2 == crate::services::device_reads::start_of(
                            old(self).pointer.reads.smartshift@,
                            old(self).pointer.reads.attached,
                            old(self).pointer.reads.next_generation,
                            record.config_key@,
                            route,
                        )
                        &&& final(self).pointer.reads.smartshift@ == if started.2 is Subscribe {
                            old(self).pointer.reads.smartshift@.remove(record.config_key@)
                        } else {
                            old(self).pointer.reads.smartshift@
                        }
                    },
                    None => started is None && *final(self) == *old(self),
                },
                None => started is None && *final(self) == *old(self),
            },
            *final(self) == (AppState {
                pointer: PointerState {
                    reads: DeviceReads {
                        smartshift: final(self).pointer.reads.smartshift,
                        next_generation: numbered(
                            match started {
                                Some(started) => Some(started.2),
                                None => None,
                            },
                            old(self).pointer.reads.next_generation,
                        ),
                        ..old(self).pointer.reads
                    },
                    ..old(self).pointer
                },
                ..*old(self)
            }),
    {
        let (key, route) = match self.current_record() {
            Some(record) => match record.route {
                Some(route) => (record.config_key.clone(), route),
                None => {
                    return None;
                },
            },
            None => {
                return None;
            },
        };
        let start = self.pointer.reads.ensure_smartshift(key.as_str(), route);
        Some((key, route, start))
    }

    /// The selected device's SmartShift configuration, if it was read. A
    /// caller that changes one field of it keeps the others.
    pub fn current_smartshift_ready(&self) -> (ready: Option<SmartShiftStatus>)
        ensures
            ready == match self.current() {
                Some(record) => match self.smartshift_load_of(record.config_key@) {
                    Some(Load::Ready(status)) => Some(*status),
                    _ => None,
                },
                None => None,
            },
    {
        match self.current_record() {
            Some(record) => match self.pointer.reads.smartshift_load(record.config_key.as_str()) {
                Some(Load::Ready(status)) => Some(**status),
                _ => None,
            },
            None => None,
        }
    }

    /// What is shown of `key`'s SmartShift read.
    pub fn smartshift_status_for(&self, key: &str) -> (status: SmartShiftLoad)
        ensures
            status == match self.smartshift_load_of(key@) {
                Some(load) => load,
                None => Load::Unknown,
            },
    {
        self.pointer.reads.smartshift_status(key)
    }

    /// What the panel says of the selected device's last write.
    pub open spec fn current_write_status(self) -> Option<SmartShiftWriteStatus> {
        match self.current() {
            Some(record) => match write_of(self.devices.runtime@, record.config_key@) {
                Some(write) => write.spec_status(),
                None => None,
            },
            None => None,
        }
    }

    /// What the panel says of the selected device's last write.
    pub fn current_smartshift_write_status(&self) -> (status: Option<SmartShiftWriteStatus>)
        ensures
            status == self.current_write_status(),
    {
        match self.current_record() {
            Some(record) => match self.devices.runtime.get(record.config_key.as_str()) {
                Some(row) => row.smartshift.status(),
                None => None,
            },
            None => None,
        }
    }

    /// Asks for `key`'s SmartShift configuration again and forgets what was
    /// said of its last write. Returns whether there is a read to revalidate.
    pub fn retry_smartshift(&mut self, key: &str) -> (revalidate: bool)
        ensures
            revalidate == old(self).pointer.reads.smartshift@.contains_key(key@),
            final(self).pointer.reads.smartshift@ == if revalidate {
                old(self).pointer.reads.smartshift@.insert(
                    key@,
                    retried(old(self).pointer.reads.smartshift@[key@]),
                )
            } else {
                old(self).pointer.reads.smartshift@
            },
            final(self).devices.runtime@ == write_replaced(
                old(self).devices.runtime@,
                key@,
                SmartShiftDeviceState::Idle,
            ),
            old(self).rows_and_smartshift_changed(*final(self)),
            final(self).pointer.next_smartshift_write_id
                == old(self).pointer.next_smartshift_write_id,
    {
        let revalidate = self.pointer.reads.retry_smartshift(key);
        if self.devices.runtime.contains_key(key) {
            self.replace_write(key, SmartShiftDeviceState::Idle);
        }
        revalidate
    }

    /// Whether `after` differs from this state in the rows and the SmartShift
    /// reads alone.
    pub open spec fn rows_and_smartshift_changed(self, after: AppState) -> bool {
        after == (AppState {
            devices: crate::state::catalog::DeviceCatalog {
                runtime: after.devices.runtime,
                ..self.devices
            },
            pointer: PointerState {
                reads: DeviceReads {
                    smartshift: after.pointer.reads.smartshift,
                    ..self.pointer.reads
                },
                next_smartshift_write_id: after.pointer.next_smartshift_write_id,
                ..self.pointer
            },
            ..self
        })
    }

    /// Takes a settled read into the write that it confirms. A read that does
    /// not belong to the running confirmation changes nothing.
    pub fn apply_smartshift_read(&mut self, key: &str, write_id: Option<u64>)
        ensures
            old(self).only_rows_changed(
                *final(self),
                match (write_id, write_of(old(self).devices.runtime@, key@)) {
                    (Some(write_id), Some(write)) => write_replaced(
                        old(self).devices.runtime@,
                        key@,
                        write.settled(write_id, old(self).smartshift_load_of(key@)),
                    ),
                    _ => old(self).devices.runtime@,
                },
            ),
    {
        let write = match self.devices.runtime.get(key) {
            Some(row) => Some(row.smartshift),
            None => None,
        };
        if !smartshift_read_is_current(write_id, write.as_ref()) {
            proof {
                assert(self.devices.runtime@ =~= write_replaced(
                    self.devices.runtime@,
                    key@,
                    self.devices.runtime@[key@].smartshift,
                ));
            }
            return;
        }
        let write_id: u64 = match write_id {
            Some(write_id) => write_id,
            None => {
                return;
            },
        };
        let expected = match write {
            Some(write) => write.confirming_expected(write_id),
            None => None,
        };
        if let Some(expected) = expected {
            match smartshift_write_outcome(expected, self.pointer.reads.smartshift_load(key)) {
                Some(ConfirmationOutcome::Confirmed) => {
                    self.replace_write(key, SmartShiftDeviceState::Confirmed);
                },
                Some(ConfirmationOutcome::Failed) => {
                    self.replace_write(key, SmartShiftDeviceState::Failed);
                },
                None => {
                    proof {
                        assert(self.devices.runtime@ =~= write_replaced(
                            self.devices.runtime@,
                            key@,
                            self.devices.runtime@[key@].smartshift,
                        ));
                    }
                },
            }
        }
    }

    /// Puts a SmartShift configuration for the selected device into its
    /// settings: the device forgets it when it loses power. A half-read probe
    /// has no settings to keep it in. Once the file is written, or if there is
    /// nothing to write, [`AppState::finish_smartshift`] applies it.
    pub fn commit_smartshift(&mut self, status: SmartShiftStatus) -> (save: Option<Save>)
        ensures
            match old(self).current_settings_key() {
                Some(key) => {
                    &&& saves(save, "SmartShift"@, true)
                    &&& *final(self) == (AppState { config: final(self).config, ..*old(self) })
                    &&& crate::state::config::device_edited(
                        old(self).config,
                        final(self).config,
                        key,
                        old(self).ring_defaults,
                        |before: crate::state::config::DeviceConfig,
                         device: crate::state::config::DeviceConfig|
                            device == (crate::state::config::DeviceConfig {
                                smartshift: Some(status),
                                ..before
                            }),
                    )
                },
                None => save is None && *final(self) == *old(self),
            },
    {
        let key = match self.current_persistent_key() {
            Some(key) => key,
            None => {
                return None;
            },
        };
        let mut device = self.config.take_device(key.as_str(), &self.ring_defaults);
        let ghost before = device;
        device.smartshift = Some(status);
        self.config.put_device(key.as_str(), device);
        proof {
            assert(old(self).config.has_or_initial(key@, self.ring_defaults, before));
            assert(self.config.devices@.remove(key@) =~= old(self).config.devices@.remove(key@));
        }
        Some(Save { what: "SmartShift", reload: true })
    }

    /// Applies a SmartShift configuration to the selected device: shows it at
    /// once and queues its confirmation, since the write itself brings no
    /// answer. A device that cannot be reached now has failed to apply it.
    /// Where the settings could not be saved, they are put back and nothing is
    /// applied. Returns
    /// the route to write to and whether the cache takes the value over.
    pub fn finish_smartshift(
        &mut self,
        status: SmartShiftStatus,
        outcome: SaveOutcome,
    ) -> (sent: Option<(Option<DeviceRoute>, bool)>)
        ensures
            match old(self).current() {
                Some(record) => if record.persistent && !(outcome is Saved) {
                    sent is None && *final(self) == old(self).after_save(outcome)
                } else {
                    &&& sent == Some((record.route, old(self).pointer.reads.attached))
                    &&& crate::services::device_reads::shows_smartshift(
                        old(self).pointer.reads.smartshift@,
                        final(self).pointer.reads.smartshift@,
                        record.config_key@,
                        status,
                    )
                    &&& final(self).devices.runtime@ == old(self).devices.runtime@.insert(
                        record.config_key@,
                        DeviceRuntimeState {
                            smartshift: if record.route is Some {
                                SmartShiftDeviceState::Queued {
                                    expected: status,
                                    write_id: old(self).pointer.next_smartshift_write_id,
                                }
                            } else {
                                SmartShiftDeviceState::Failed
                            },
                            ..row_of(old(self).devices.runtime@, record.config_key@)
                        },
                    )
                    &&& final(self).pointer.next_smartshift_write_id == if record.route is Some {
                        following(old(self).pointer.next_smartshift_write_id)
                    } else {
                        old(self).pointer.next_smartshift_write_id
                    }
                    &&& old(self).rows_and_smartshift_changed(*final(self))
                },
                None => sent is None && *final(self) == *old(self),
            },
    {
        let (key, route) = match self.current_record() {
            Some(record) => {
                if record.persistent {
                    if let SaveOutcome::Failed { .. } = outcome {
                        self.finish_save(outcome);
                        return None;
                    }
                }
                (record.config_key.clone(), record.route)
            },
            None => {
                return None;
            },
        };
        let publish = self.pointer.reads.set_smartshift_ready(key.as_str(), status);
        if route.is_some() {
            let write_id: u64 = self.pointer.next_smartshift_write_id;
            if write_id < u64::MAX {
                self.pointer.next_smartshift_write_id = write_id + 1;
            }
            self.replace_write(
                key.as_str(),
                SmartShiftDeviceState::Queued { expected: status, write_id },
            );
        } else {
            self.replace_write(key.as_str(), SmartShiftDeviceState::Failed);
        }
        Some((route, publish))
    }

    /// Starts the selected device's queued confirmation and returns what to
    /// ask: the device, its route, and the confirmation's id. It is handed out
    /// once.
    pub fn take_active_smartshift_confirm(
        &mut self,
    ) -> (confirm: Option<(String, DeviceRoute, u64)>)
        ensures
            match old(self).current() {
                Some(record) => match (
                    record.route,
                    write_of(old(self).devices.runtime@, record.config_key@),
                ) {
                    (Some(route), Some(write)) => {
                        &&& old(self).only_rows_changed(
                            *final(self),
                            write_replaced(
                                old(self).devices.runtime@,
                                record.config_key@,
                                write.begun(),
                            ),
                        )
                        &&& match write {
                            SmartShiftDeviceState::Queued { expected, write_id } => {
                                &&& confirm matches Some(confirm)
                                &&& confirm.0@ == record.config_key@
                                &&& confirm.1 == route
                                &&& confirm.2 == write_id
                            },
                            _ => confirm is None,
                        }
                    },
                    _ => confirm is None && *final(self) == *old(self),
                },
                None => confirm is None && *final(self) == *old(self),
            },
    {
        let (key, route) = match self.current_record() {
            Some(record) => match record.route {
                Some(route) => (record.config_key.clone(), route),
                None => {
                    return None;
                },
            },
            None => {
                return None;
            },
        };
        let mut write = match self.devices.runtime.get(key.as_str()) {
            Some(row) => row.smartshift,
            None => {
                return None;
            },
        };
        match write.begin_confirmation() {
            Some(write_id) => {
                self.replace_write(key.as_str(), write);
                Some((key, route, write_id))
            },
            None => {
                proof {
                    assert(self.devices.runtime@ =~= write_replaced(
                        self.devices.runtime@,
                        key@,
                        self.devices.runtime@[key@].smartshift,
                    ));
                }
                None
            },
        }
    }

    /// Fails the running confirmation of `key` with this id, and no other.
    pub fn fail_smartshift_confirm(&mut self, key: &str, write_id: u64)
        ensures
            old(self).only_rows_changed(
                *final(self),
                match write_of(old(self).devices.runtime@, key@) {
                    Some(write) => write_replaced(
                        old(self).devices.runtime@,
                        key@,
                        write.given_up(write_id),
                    ),
                    None => old(self).devices.runtime@,
                },
            ),
    {
        let mut write = match self.devices.runtime.get(key) {
            Some(row) => row.smartshift,
            None => {
                return;
            },
        };
        write.fail_confirmation(write_id);
        self.replace_write(key, write);
    }

    /// Starts the selected device's queued confirmation and the read that
    /// settles it. Without a cache to ask, the confirmation fails at once.
    pub fn confirm_current_smartshift(
        &mut self,
    ) -> (started: Option<(String, DeviceRoute, u64, ReadStart)>)
        ensures
            match old(self).current() {
                Some(record) => match (
                    record.route,
                    write_of(old(self).devices.runtime@, record.config_key@),
                ) {
                    (
                        Some(route),
                        Some(SmartShiftDeviceState::Queued { expected, write_id }),
                    ) => if old(self).pointer.reads.attached {
                        &&& started matches Some(started)
                        &&& started.0@ == record.config_key@
                        &&& started.1 == route
                        &&& started.2 == write_id
                        &&& started.3 == (ReadStart::Subscribe {
                            generation: old(self).pointer.reads.next_generation,
                            clear: false,
                            invalidate: true,
                        })
                        &&& final(self).devices.runtime@ == write_replaced(
                            old(self).devices.runtime@,
                            record.config_key@,
                            SmartShiftDeviceState::Confirming { expected, write_id },
                        )
                        &&& final(self).pointer.reads.smartshift@ == old(
                            self).pointer.reads.smartshift@.remove(record.config_key@)
                        &&& *final(self) == (AppState {
                            devices: crate::state::catalog::DeviceCatalog {
                                runtime: final(self).devices.runtime,
                                ..old(self).devices
                            },
                            pointer: PointerState {
                                reads: DeviceReads {
                                    smartshift: final(self).pointer.reads.smartshift,
                                    next_generation: following(
                                        old(self).pointer.reads.next_generation,
                                    ),
                                    ..old(self).pointer.reads
                                },
                                ..old(self).pointer
                            },
                            ..*old(self)
                        })
                    } else {
                        &&& started is None
                        &&& final(self).devices.runtime@ == write_replaced(
                            old(self).devices.runtime@,
                            record.config_key@,
                            SmartShiftDeviceState::Failed,
                        )
                        &&& final(self).pointer.reads.smartshift@
                            == old(self).pointer.reads.smartshift@
                        &&& old(self).rows_and_smartshift_changed(*final(self))
                        &&& final(self).pointer.next_smartshift_write_id
                            == old(self).pointer.next_smartshift_write_id
                    },
                    _ => started is None && old(self).only_rows_changed(
                        *final(self),
                        old(self).devices.runtime@,
                    ),
                },
                None => started is None && *final(self) == *old(self),
            },
    {
        let taken = self.take_active_smartshift_confirm();
        match taken {
            Some((key, route, write_id)) => {
                let ghost rows = self.devices.runtime@;
                let start = self.pointer.reads.confirm_smartshift(key.as_str());
                match start {
                    ReadStart::NoCache => {
                        self.fail_smartshift_confirm(key.as_str(), write_id);
                        proof {
                            assert(self.devices.runtime@ =~= write_replaced(
                                old(self).devices.runtime@,
                                key@,
                                SmartShiftDeviceState::Failed,
                            ));
                        }
                        None
                    },
                    _ => Some((key, route, write_id, start)),
                }
            },
            None => {
                proof {
                    assert(self.devices.runtime@ =~= old(self).devices.runtime@);
                }
                None
            },
        }
    }
}

/// An answer that is not tagged with the running confirmation's id never
/// changes a write.
pub proof fn stale_answers_change_no_write(
    write: SmartShiftDeviceState,
    write_id: u64,
    load: Option<SmartShiftLoad>,
)
    requires
        !(write matches SmartShiftDeviceState::Confirming { write_id: current, .. } && current
            == write_id),
    ensures
        write.settled(write_id, load) == write,
        write.given_up(write_id) == write,
{
}

/// A queued write takes no answer until its confirmation has started, and its
/// confirmation starts once.
pub proof fn a_confirmation_starts_once(expected: SmartShiftStatus, write_id: u64, other: u64)
    ensures
        (SmartShiftDeviceState::Queued { expected, write_id }).awaited(other) is None,
        (SmartShiftDeviceState::Queued { expected, write_id }).begun().awaited(write_id) == Some(
            expected,
        ),
        (SmartShiftDeviceState::Queued { expected, write_id }).begun().begun() == (
        SmartShiftDeviceState::Queued { expected, write_id }).begun(),
{
}

/// A write is confirmed only by an answer that brings the very value written.
pub proof fn only_the_value_written_confirms(
    write: SmartShiftDeviceState,
    write_id: u64,
    load: Option<SmartShiftLoad>,
)
    requires
        write != SmartShiftDeviceState::Confirmed,
        write.settled(write_id, load) == SmartShiftDeviceState::Confirmed,
    ensures
        write.awaited(write_id) matches Some(expected) && load matches Some(Load::Ready(actual))
            && *actual == expected,
{
}

/// The panel shows a write as under way exactly while it is queued or being
/// confirmed.
pub proof fn applying_means_under_way(write: SmartShiftDeviceState)
    ensures
        write.spec_status() matches Some(SmartShiftWriteStatus::Applying { .. }) <==> (write
            is Queued || write is Confirming),
{
}

} // verus!
