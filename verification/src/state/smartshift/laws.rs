//! What becomes of a SmartShift write, from the click to its confirmation.

use crate::device::DeviceRoute;
use crate::hid::SmartShiftStatus;
use crate::services::device_reads::ReadStart;
use crate::state::load::{Load, SmartShiftLoad};
use crate::state::smartshift::{
    smartshift_read_is_current, smartshift_write_outcome, ConfirmationOutcome,
    SmartShiftDeviceState, SmartShiftWriteStatus,
};
use crate::state::{AppState, Save, SaveOutcome};
use vstd::prelude::*;

verus! {

/// A settled read says of a write what it brought: the value that was expected
/// confirms it, and another value, an error and a missing feature fail it.
/// Nothing else decides.
pub proof fn a_settled_read_decides(
    expected: SmartShiftStatus,
    load: Option<&SmartShiftLoad>,
    outcome: Option<ConfirmationOutcome>,
)
    requires
        call_ensures(smartshift_write_outcome, (expected, load), outcome),
    ensures
        load matches Some(load) ==> *load matches Load::Ready(actual) ==> outcome is Some && (
        outcome == Some(ConfirmationOutcome::Confirmed) <==> *actual == expected),
        load matches Some(load) ==> load is Failed || load is Unsupported ==> outcome == Some(
            ConfirmationOutcome::Failed,
        ),
        load matches Some(load) ==> load is Unknown || load is Loading ==> outcome is None,
        load is None ==> outcome is None,
{
}

/// Whether `after` is `before` but for the write of the row `key`, which is
/// `write`.
pub open spec fn only_the_write_changed(
    before: AppState,
    after: AppState,
    key: Seq<char>,
    write: SmartShiftDeviceState,
) -> bool {
    &&& after.devices.runtime@.contains_key(key)
    &&& after.devices.runtime@[key].smartshift == write
    &&& forall|other: Seq<char>|
        other != key ==> (#[trigger] after.devices.runtime@.contains_key(other))
            == before.devices.runtime@.contains_key(other)
    &&& forall|other: Seq<char>|
        other != key && before.devices.runtime@.contains_key(other) ==> (
        #[trigger] after.devices.runtime@[other]) == before.devices.runtime@[other]
    &&& before.devices.runtime@.contains_key(key) ==> after.devices.runtime@[key].inventory_misses
        == before.devices.runtime@[key].inventory_misses
    &&& !before.devices.runtime@.contains_key(key)
        ==> after.devices.runtime@[key].inventory_misses == 0
    &&& after.devices.records == before.devices.records
    &&& after.devices.selected == before.devices.selected
    &&& after.config == before.config
    &&& after.pointer.reads.dpi == before.pointer.reads.dpi
    &&& after.pointer.reads.report_rate == before.pointer.reads.report_rate
    &&& after.pointer.reads.lighting == before.pointer.reads.lighting
    &&& after.pointer.dpi == before.pointer.dpi
    &&& after.pointer.report_rate == before.pointer.report_rate
    &&& after.editing_app == before.editing_app
    &&& after.onboard_leds == before.onboard_leds
}

/// A running confirmation is settled by every settled read that is tagged with
/// its id. The expected value confirms the write; another value, an error and a
/// missing feature fail it. Only a read that is still open leaves it running.
pub proof fn a_tagged_read_settles_its_write(
    state: &mut AppState,
    key: &str,
    tag: u64,
    expected: SmartShiftStatus,
)
    requires
        call_ensures(AppState::apply_smartshift_read, (state, key, Some(tag)), ()),
        old(state).devices.runtime@.contains_key(key@),
        old(state).devices.runtime@[key@].smartshift == (SmartShiftDeviceState::Confirming {
            expected,
            write_id: tag,
        }),
    ensures
        old(state).pointer.reads.smartshift@.contains_key(key@) ==> match old(
            state).pointer.reads.smartshift@[key@].load {
            Load::Ready(actual) => only_the_write_changed(
                *old(state),
                *final(state),
                key@,
                if *actual == expected {
                    SmartShiftDeviceState::Confirmed
                } else {
                    SmartShiftDeviceState::Failed
                },
            ),
            Load::Failed(_) | Load::Unsupported(_) => only_the_write_changed(
                *old(state),
                *final(state),
                key@,
                SmartShiftDeviceState::Failed,
            ),
            Load::Unknown | Load::Loading => only_the_write_changed(
                *old(state),
                *final(state),
                key@,
                SmartShiftDeviceState::Confirming { expected, write_id: tag },
            ),
        },
        !old(state).pointer.reads.smartshift@.contains_key(key@) ==> only_the_write_changed(
            *old(state),
            *final(state),
            key@,
            SmartShiftDeviceState::Confirming { expected, write_id: tag },
        ),
        final(state).pointer == old(state).pointer,
{
}

/// A read that is not tagged, or tagged with another id than the running
/// confirmation's, changes no write.
pub proof fn other_reads_settle_nothing(state: &mut AppState, key: &str, tag: Option<u64>)
    requires
        call_ensures(AppState::apply_smartshift_read, (state, key, tag), ()),
        tag matches Some(tag) ==> !(old(state).devices.runtime@.contains_key(key@) && (old(
            state).devices.runtime@[key@].smartshift matches SmartShiftDeviceState::Confirming {
            write_id,
            ..
        } && write_id == tag)),
    ensures
        final(state).devices.runtime@ == old(state).devices.runtime@,
        final(state).devices.records == old(state).devices.records,
        final(state).config == old(state).config,
        final(state).pointer == old(state).pointer,
{
    assert(final(state).devices.runtime@ =~= old(state).devices.runtime@);
}

/// An untagged read counts unless a write is under way, and a tagged one only
/// while the confirmation of that tag runs.
pub proof fn reads_count_by_their_tag(
    tag: Option<u64>,
    write: Option<&SmartShiftDeviceState>,
    current: bool,
)
    requires
        call_ensures(smartshift_read_is_current, (tag, write), current),
    ensures
        tag is None ==> (current <==> !(write matches Some(write) && (write is Queued
            || write is Confirming))),
        tag matches Some(tag) ==> (current <==> (write matches Some(write) && *write matches
            SmartShiftDeviceState::Confirming { write_id, .. } && write_id == tag)),
{
}

/// A write to a device that can be reached is shown at once and waits for its
/// confirmation under a fresh id; to one that cannot, it has failed.
pub proof fn a_write_is_shown_and_queued(
    state: &mut AppState,
    status: SmartShiftStatus,
    outcome: SaveOutcome,
    sent: Option<(Option<DeviceRoute>, bool)>,
    i: usize,
)
    requires
        call_ensures(AppState::finish_smartshift, (state, status, outcome), sent),
        old(state).devices.selected == Some(i),
        i < old(state).devices.records@.len(),
        !old(state).devices.records@[i as int].persistent || outcome is Saved,
    ensures
        sent == Some(
            (old(state).devices.records@[i as int].route, old(state).pointer.reads.attached),
        ),
        ({
            let key = old(state).devices.records@[i as int].config_key@;
            &&& old(state).pointer.reads.smartshift@.contains_key(key) ==> {
                &&& final(state).pointer.reads.smartshift@.contains_key(key)
                &&& final(state).pointer.reads.smartshift@[key].load matches Load::Ready(shown)
                &&& *shown == status
            }
            &&& old(state).devices.records@[i as int].route is Some ==> {
                &&& only_the_write_changed(
                    *old(state),
                    *final(state),
                    key,
                    SmartShiftDeviceState::Queued {
                        expected: status,
                        write_id: old(state).pointer.next_smartshift_write_id,
                    },
                )
                &&& old(state).pointer.next_smartshift_write_id < u64::MAX
                    ==> final(state).pointer.next_smartshift_write_id
                    > old(state).pointer.next_smartshift_write_id
            }
            &&& old(state).devices.records@[i as int].route is None ==> {
                &&& only_the_write_changed(
                    *old(state),
                    *final(state),
                    key,
                    SmartShiftDeviceState::Failed,
                )
                &&& final(state).pointer.next_smartshift_write_id
                    == old(state).pointer.next_smartshift_write_id
            }
        }),
{
}

/// Settings that could not be saved are put back, and nothing is written to the
/// device.
pub proof fn an_unsaved_write_is_not_sent(
    state: &mut AppState,
    status: SmartShiftStatus,
    outcome: SaveOutcome,
    sent: Option<(Option<DeviceRoute>, bool)>,
    i: usize,
)
    requires
        call_ensures(AppState::finish_smartshift, (state, status, outcome), sent),
        old(state).devices.selected == Some(i),
        i < old(state).devices.records@.len(),
        old(state).devices.records@[i as int].persistent,
        outcome is Failed,
    ensures
        sent is None,
        final(state).config == outcome->persisted,
        final(state).devices == old(state).devices,
        final(state).pointer == old(state).pointer,
{
}

/// A confirmation runs once it was taken, under the id and for the value of the
/// write, and is taken once.
pub proof fn a_queued_write_is_confirmed_once(
    state: &mut AppState,
    confirm: Option<(String, DeviceRoute, u64)>,
    i: usize,
)
    requires
        call_ensures(AppState::take_active_smartshift_confirm, (state,), confirm),
        old(state).devices.selected == Some(i),
        i < old(state).devices.records@.len(),
        old(state).devices.records@[i as int].route is Some,
        old(state).devices.runtime@.contains_key(
            old(state).devices.records@[i as int].config_key@,
        ),
    ensures
        ({
            let record = old(state).devices.records@[i as int];
            let before = old(state).devices.runtime@[record.config_key@].smartshift;
            &&& confirm is Some <==> before is Queued
            &&& before matches SmartShiftDeviceState::Queued { expected, write_id } ==> {
                &&& confirm matches Some(confirm)
                &&& confirm.0@ == record.config_key@
                &&& confirm.1 == record.route->0
                &&& confirm.2 == write_id
                &&& only_the_write_changed(
                    *old(state),
                    *final(state),
                    record.config_key@,
                    SmartShiftDeviceState::Confirming { expected, write_id },
                )
            }
            &&& !(before is Queued) ==> only_the_write_changed(
                *old(state),
                *final(state),
                record.config_key@,
                before,
            )
        }),
{
}

/// A confirmation that cannot be asked for fails its own write and no other.
pub proof fn a_given_up_confirmation_fails_its_write(
    state: &mut AppState,
    key: &str,
    write_id: u64,
)
    requires
        call_ensures(AppState::fail_smartshift_confirm, (state, key, write_id), ()),
        old(state).devices.runtime@.contains_key(key@),
    ensures
        only_the_write_changed(
            *old(state),
            *final(state),
            key@,
            if old(state).devices.runtime@[key@].smartshift matches
                SmartShiftDeviceState::Confirming { write_id: running, .. } && running
                == write_id {
                SmartShiftDeviceState::Failed
            } else {
                old(state).devices.runtime@[key@].smartshift
            },
        ),
{
}

/// A queued write is confirmed by a read that starts anew, past what the cache
/// holds; without a cache it fails.
pub proof fn a_confirming_read_starts_anew(
    state: &mut AppState,
    started: Option<(String, DeviceRoute, u64, ReadStart)>,
    i: usize,
    expected: SmartShiftStatus,
    write_id: u64,
)
    requires
        call_ensures(AppState::confirm_current_smartshift, (state,), started),
        old(state).devices.selected == Some(i),
        i < old(state).devices.records@.len(),
        old(state).devices.records@[i as int].route is Some,
        old(state).devices.runtime@.contains_key(
            old(state).devices.records@[i as int].config_key@,
        ),
        old(state).devices.runtime@[old(state).devices.records@[i as int].config_key@].smartshift
            == (SmartShiftDeviceState::Queued { expected, write_id }),
    ensures
        ({
            let record = old(state).devices.records@[i as int];
            &&& started is Some <==> old(state).pointer.reads.attached
            &&& started matches Some(started) ==> {
                &&& started.0@ == record.config_key@
                &&& started.1 == record.route->0
                &&& started.2 == write_id
                &&& started.3 matches ReadStart::Subscribe { generation, clear, invalidate }
                    && generation == old(state).pointer.reads.next_generation && !clear
                    && invalidate
                &&& !final(state).pointer.reads.smartshift@.contains_key(record.config_key@)
                &&& only_the_write_changed(
                    *old(state),
                    *final(state),
                    record.config_key@,
                    SmartShiftDeviceState::Confirming { expected, write_id },
                )
            }
            &&& started is None ==> only_the_write_changed(
                *old(state),
                *final(state),
                record.config_key@,
                SmartShiftDeviceState::Failed,
            )
        }),
{
}

/// The panel says that a write is being applied while it is queued or confirmed,
/// with its value and id, and tells how it ended.
pub proof fn the_panel_tells_of_the_write(
    write: &SmartShiftDeviceState,
    status: Option<SmartShiftWriteStatus>,
)
    requires
        call_ensures(SmartShiftDeviceState::status, (write,), status),
    ensures
        status is None <==> *write is Idle,
        status == Some(SmartShiftWriteStatus::Confirmed) <==> *write is Confirmed,
        status == Some(SmartShiftWriteStatus::Failed) <==> *write is Failed,
        *write matches SmartShiftDeviceState::Queued { expected, write_id } ==> status == Some(
            SmartShiftWriteStatus::Applying { expected, write_id },
        ),
        *write matches SmartShiftDeviceState::Confirming { expected, write_id } ==> status == Some(
            SmartShiftWriteStatus::Applying { expected, write_id },
        ),
{
}

/// Asking again forgets what was said of the last write, of this device alone.
pub proof fn asking_again_forgets_the_write(state: &mut AppState, key: &str, revalidate: bool)
    requires
        call_ensures(AppState::retry_smartshift, (state, key), revalidate),
    ensures
        revalidate == old(state).pointer.reads.smartshift@.contains_key(key@),
        old(state).devices.runtime@.contains_key(key@) ==> only_the_write_changed(
            *old(state),
            *final(state),
            key@,
            SmartShiftDeviceState::Idle,
        ),
        !old(state).devices.runtime@.contains_key(key@) ==> final(state).devices.runtime@
            == old(state).devices.runtime@,
{
}

/// A configuration for a physical device goes into its settings, with the rest
/// of them as they were, and the agent reads them again.
pub proof fn a_committed_configuration_is_kept(
    state: &mut AppState,
    status: SmartShiftStatus,
    save: Option<Save>,
    i: usize,
    other: Seq<char>,
)
    requires
        call_ensures(AppState::commit_smartshift, (state, status), save),
        old(state).devices.selected == Some(i),
        i < old(state).devices.records@.len(),
    ensures
        save is Some <==> old(state).devices.records@[i as int].persistent,
        save matches Some(save) ==> save.reload,
        ({
            let key = old(state).devices.records@[i as int].config_key@;
            old(state).devices.records@[i as int].persistent ==> {
                &&& final(state).config.devices@.contains_key(key)
                &&& final(state).config.devices@[key].smartshift == Some(status)
                &&& old(state).config.devices@.contains_key(key) ==> {
                    &&& final(state).config.devices@[key].identity
                        == old(state).config.devices@[key].identity
                    &&& final(state).config.devices@[key].lighting
                        == old(state).config.devices@[key].lighting
                    &&& final(state).config.devices@[key].report_rate
                        == old(state).config.devices@[key].report_rate
                    &&& final(state).config.devices@[key].per_app_settings
                        == old(state).config.devices@[key].per_app_settings
                }
            }
        }),
        other != old(state).devices.records@[i as int].config_key@ ==> final(
            state).config.devices@.contains_key(other) == old(state).config.devices@.contains_key(
            other,
        ),
        other != old(state).devices.records@[i as int].config_key@ && old(
            state).config.devices@.contains_key(other) ==> final(state).config.devices@[other]
            == old(state).config.devices@[other],
        !old(state).devices.records@[i as int].persistent ==> *final(state) == *old(state),
        final(state).devices == old(state).devices,
        final(state).pointer == old(state).pointer,
{
    let key = old(state).devices.records@[i as int].config_key@;
    if old(state).devices.records@[i as int].persistent {
        let (before, after) = (old(state).config.devices@, final(state).config.devices@);
        assert(before.remove(key).contains_key(other) == after.remove(key).contains_key(other));
        assert(before.remove(key)[other] == after.remove(key)[other]);
    }
}

} // verus!
