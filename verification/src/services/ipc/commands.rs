//! Commands to the agent and what their answers mean.
//!
//! The caller connects and makes the call; here stands which call a command
//! is, what its answer tells the window, and what the window is told where
//! there is no agent to call.

use crate::device::DeviceRoute;
use crate::hid::{
    Dpi, DpiInfo, LightCommand, Lighting, LightingInfo, ReportRateHz, ReportRateInfo,
    ScrollResolution, SmartShiftStatus, WriteError,
};
use crate::text::push_text;
use vstd::prelude::*;

verus! {

/// Why the agent did not take over the configuration on disk.
#[derive(Debug)]
pub struct ConfigReloadError {
    pub message: String,
}

/// Why a pairing session will not appear.
#[derive(Debug)]
pub enum PairingFailure {
    /// There is no agent to hold it.
    AgentRestarted,
    /// The agent refused it, for the reason given.
    Refused { reason: String },
}

/// A call that did not reach the agent or did not come back.
#[derive(Debug)]
pub struct RpcError {
    pub message: String,
}

/// What the window is told. `S` is the agent's state.
#[derive(Debug)]
pub enum GuiUpdate<S> {
    /// The agent's state, as of a generation not seen before.
    Snapshot(S),
    /// The agent is unreachable, not just starting.
    Unreachable,
    /// The agent is newer than the window.
    OutdatedGui,
    /// What came of a light command.
    LightCommandResult {
        key: String,
        request_id: u64,
        command: LightCommand,
        result: Result<(), WriteError>,
    },
    /// Whether the agent took over the configuration on disk.
    ConfigReloadResult(Result<(), ConfigReloadError>),
    /// A pairing command came to nothing.
    PairingUndeliverable(PairingFailure),
}

/// A command to the agent. Those that read carry the number of the reply slot
/// that waits for the answer.
#[derive(Debug)]
pub enum Command {
    SetDpi(DeviceRoute, Dpi),
    SetReportRate(DeviceRoute, ReportRateHz),
    SetLighting(DeviceRoute, Lighting),
    SetLight(DeviceRoute, LightCommand, String, u64),
    SetLightManualPower(DeviceRoute, bool, String, u64),
    SetSmartShift(DeviceRoute, SmartShiftStatus),
    SetScrollWheelMode(DeviceRoute, Option<ScrollResolution>, Option<bool>),
    ReadDpi(DeviceRoute, u64),
    ReadReportRate(DeviceRoute, u64),
    ReadSmartShift(DeviceRoute, u64),
    ReadOnboardProfile(DeviceRoute, u64),
    ReadLightingInfo(DeviceRoute, u64),
    ReloadConfig,
    /// Pins the application profile that is in effect for a device.
    SetAppProfileOverride(String, Option<String>),
    /// Asks the agent to ask for the accessibility permission: the dialog has
    /// to name the agent, not the window.
    RequestAccessibilityPrompt,
    StartPairing(u64),
    PairDevice([u8; 6]),
    CancelPairing,
    /// Drains the agent's event monitor.
    PollEventMonitor(u64),
}

/// What the agent answered to a call. `P` is an onboard profile and `E` a list
/// of monitor events.
#[derive(Debug)]
pub enum Reply<P, E> {
    /// To a command that sets something.
    Applied(Result<(), WriteError>),
    Dpi(Result<DpiInfo, WriteError>),
    ReportRate(Result<ReportRateInfo, WriteError>),
    SmartShift(Result<SmartShiftStatus, WriteError>),
    OnboardProfile(Result<P, WriteError>),
    LightingInfo(Result<LightingInfo, WriteError>),
    Reloaded(Result<(), ConfigReloadError>),
    /// To a command whose answer says nothing.
    Done,
    /// To a pairing command; a refusal gives its reason.
    Pairing(Result<(), String>),
    Events(E),
}

/// Whether `reply` is of the kind that the agent answers `command` with.
pub open spec fn answers<P, E>(command: Command, reply: Reply<P, E>) -> bool {
    match command {
        Command::SetDpi(..) => reply is Applied,
        Command::SetReportRate(..) => reply is Applied,
        Command::SetLighting(..) => reply is Applied,
        Command::SetLight(..) => reply is Applied,
        Command::SetLightManualPower(..) => reply is Applied,
        Command::SetSmartShift(..) => reply is Applied,
        Command::SetScrollWheelMode(..) => reply is Applied,
        Command::ReadDpi(..) => reply is Dpi,
        Command::ReadReportRate(..) => reply is ReportRate,
        Command::ReadSmartShift(..) => reply is SmartShift,
        Command::ReadOnboardProfile(..) => reply is OnboardProfile,
        Command::ReadLightingInfo(..) => reply is LightingInfo,
        Command::ReloadConfig => reply is Reloaded,
        Command::SetAppProfileOverride(..) => reply is Done,
        Command::RequestAccessibilityPrompt => reply is Done,
        Command::StartPairing(..) => reply is Pairing,
        Command::PairDevice(..) => reply is Pairing,
        Command::CancelPairing => reply is Pairing,
        Command::PollEventMonitor(..) => reply is Events,
    }
}

/// Whether `reply` is of the kind that the agent answers `command` with.
pub fn is_answer<P, E>(command: &Command, reply: &Reply<P, E>) -> (answer: bool)
    ensures
        answer == answers(*command, *reply),
{
    match (command, reply) {
        (Command::SetDpi(..), Reply::Applied(_)) => true,
        (Command::SetReportRate(..), Reply::Applied(_)) => true,
        (Command::SetLighting(..), Reply::Applied(_)) => true,
        (Command::SetLight(..), Reply::Applied(_)) => true,
        (Command::SetLightManualPower(..), Reply::Applied(_)) => true,
        (Command::SetSmartShift(..), Reply::Applied(_)) => true,
        (Command::SetScrollWheelMode(..), Reply::Applied(_)) => true,
        (Command::ReadDpi(..), Reply::Dpi(_)) => true,
        (Command::ReadReportRate(..), Reply::ReportRate(_)) => true,
        (Command::ReadSmartShift(..), Reply::SmartShift(_)) => true,
        (Command::ReadOnboardProfile(..), Reply::OnboardProfile(_)) => true,
        (Command::ReadLightingInfo(..), Reply::LightingInfo(_)) => true,
        (Command::ReloadConfig, Reply::Reloaded(_)) => true,
        (Command::SetAppProfileOverride(..), Reply::Done) => true,
        (Command::RequestAccessibilityPrompt, Reply::Done) => true,
        (Command::StartPairing(..), Reply::Pairing(_)) => true,
        (Command::PairDevice(..), Reply::Pairing(_)) => true,
        (Command::CancelPairing, Reply::Pairing(_)) => true,
        (Command::PollEventMonitor(..), Reply::Events(_)) => true,
        _ => false,
    }
}

/// The reply slot of a command that reads.
pub open spec fn slot(command: Command) -> Option<u64> {
    match command {
        Command::ReadDpi(_, slot) => Some(slot),
        Command::ReadReportRate(_, slot) => Some(slot),
        Command::ReadSmartShift(_, slot) => Some(slot),
        Command::ReadOnboardProfile(_, slot) => Some(slot),
        Command::ReadLightingInfo(_, slot) => Some(slot),
        Command::PollEventMonitor(slot) => Some(slot),
        _ => None,
    }
}

/// Of a command to a light: the light's key, the request's number, and the
/// control that it writes.
pub open spec fn light_request(command: Command) -> Option<(String, u64, LightCommand)> {
    match command {
        Command::SetLight(_, light, key, request_id) => Some((key, request_id, light)),
        Command::SetLightManualPower(_, enabled, key, request_id) => Some(
            (key, request_id, LightCommand::Power(enabled)),
        ),
        _ => None,
    }
}

/// What came of a command.
#[derive(Debug)]
pub struct Settled<S, P, E> {
    /// Whether the connection broke.
    pub dropped: bool,
    /// What goes to which reply slot.
    pub answer: Option<(u64, Reply<P, E>)>,
    /// What the window is told.
    pub update: Option<GuiUpdate<S>>,
}

/// Whether `update` tells what came of a light command.
pub open spec fn tells_light<S>(
    update: Option<GuiUpdate<S>>,
    request: (String, u64, LightCommand),
    told: Result<(), WriteError>,
) -> bool {
    update == Some(
        GuiUpdate::<S>::LightCommandResult {
            key: request.0,
            request_id: request.1,
            command: request.2,
            result: told,
        },
    )
}

/// Whether `update` tells that a reload failed with `message`.
pub open spec fn tells_reload_failure<S>(update: Option<GuiUpdate<S>>, message: Seq<char>) -> bool {
    update matches Some(GuiUpdate::ConfigReloadResult(Err(error))) && error.message@ == message
}

/// What the window is told of a reload that did not reach the agent.
pub open spec fn unreached_reload(error: Seq<char>) -> Seq<char> {
    "saved, but the agent could not be reached to apply it: "@ + error
}

/// What the window is told of a reload without an agent.
pub open spec fn unapplied_reload() -> Seq<char> {
    "saved, but the agent is not running, so it has not been applied yet"@
}

/// Whether `update` is what the window is told after `command` was answered
/// with `reply`.
pub open spec fn tells_reply<S, P, E>(
    update: Option<GuiUpdate<S>>,
    command: Command,
    reply: Reply<P, E>,
) -> bool {
    match reply {
        Reply::Applied(result) => match light_request(command) {
            Some(request) => tells_light(update, request, result),
            None => update is None,
        },
        Reply::Reloaded(result) => update == Some(GuiUpdate::<S>::ConfigReloadResult(result)),
        Reply::Pairing(Err(reason)) => update == Some(
            GuiUpdate::<S>::PairingUndeliverable(PairingFailure::Refused { reason }),
        ),
        _ => update is None,
    }
}

/// Whether `update` is what the window is told after the call of `command`
/// failed with `error`.
pub open spec fn tells_failure<S>(
    update: Option<GuiUpdate<S>>,
    command: Command,
    error: RpcError,
) -> bool {
    match light_request(command) {
        Some(request) => tells_light(update, request, Err(WriteError::AgentUnavailable)),
        None => if command is ReloadConfig {
            tells_reload_failure(update, unreached_reload(error.message@))
        } else {
            update is None
        },
    }
}

/// What came of a light command.
pub fn send_light_result<S>(
    key: String,
    request_id: u64,
    command: LightCommand,
    result: Option<Result<(), WriteError>>,
) -> (update: GuiUpdate<S>)
    ensures
        tells_light(
            Some(update),
            (key, request_id, command),
            match result {
                Some(result) => result,
                None => Err(WriteError::AgentUnavailable),
            },
        ),
{
    let result = match result {
        Some(result) => result,
        None => Err(WriteError::AgentUnavailable),
    };
    GuiUpdate::LightCommandResult { key, request_id, command, result }
}

/// What the window is told of a pairing command: nothing if it was accepted,
/// since its session shows up in the agent's state; a refusal otherwise.
pub fn pairing_command_result<S>(result: Result<(), String>) -> (update: Option<GuiUpdate<S>>)
    ensures
        update == match result {
            Ok(_) => None,
            Err(reason) => Some(
                GuiUpdate::<S>::PairingUndeliverable(PairingFailure::Refused { reason }),
            ),
        },
{
    match result {
        Ok(()) => None,
        Err(reason) => Some(GuiUpdate::PairingUndeliverable(PairingFailure::Refused { reason })),
    }
}

fn to_slot<S, P, E>(slot: u64, reply: Reply<P, E>) -> (settled: Settled<S, P, E>)
    ensures
        settled == (Settled::<S, P, E> {
            dropped: false,
            answer: Some((slot, reply)),
            update: None,
        }),
{
    Settled { dropped: false, answer: Some((slot, reply)), update: None }
}

fn to_window<S, P, E>(dropped: bool, update: Option<GuiUpdate<S>>) -> (settled: Settled<S, P, E>)
    ensures
        settled == (Settled::<S, P, E> { dropped, answer: None, update }),
{
    Settled { dropped, answer: None, update }
}

/// What an answered command comes to. What a command read goes to its reply
/// slot. The window is told of lights, of the reload and of refused pairing;
/// that a device refused to set something else is not its concern.
pub fn settle<S, P, E>(command: Command, reply: Reply<P, E>) -> (settled: Settled<S, P, E>)
    requires
        answers(command, reply),
    ensures
        !settled.dropped,
        settled.answer == match slot(command) {
            Some(slot) => Some((slot, reply)),
            None => None,
        },
        tells_reply(settled.update, command, reply),
{
    match (command, reply) {
        (Command::SetLight(_, light, key, request_id), Reply::Applied(result)) => to_window(
            false,
            Some(send_light_result(key, request_id, light, Some(result))),
        ),
        (Command::SetLightManualPower(_, enabled, key, request_id), Reply::Applied(result)) => {
            let light = LightCommand::Power(enabled);
            to_window(false, Some(send_light_result(key, request_id, light, Some(result))))
        },
        (Command::ReadDpi(_, slot), reply) => to_slot(slot, reply),
        (Command::ReadReportRate(_, slot), reply) => to_slot(slot, reply),
        (Command::ReadSmartShift(_, slot), reply) => to_slot(slot, reply),
        (Command::ReadOnboardProfile(_, slot), reply) => to_slot(slot, reply),
        (Command::ReadLightingInfo(_, slot), reply) => to_slot(slot, reply),
        (Command::PollEventMonitor(slot), reply) => to_slot(slot, reply),
        (_, Reply::Reloaded(result)) => to_window(
            false,
            Some(GuiUpdate::ConfigReloadResult(result)),
        ),
        (_, Reply::Pairing(result)) => to_window(false, pairing_command_result(result)),
        _ => to_window(false, None),
    }
}

/// What a command comes to whose call failed. Its connection counts as broken,
/// except where the command pins a profile, whose answer nobody waits for. A
/// reply slot gets no answer.
pub fn settle_failure<S, P, E>(command: Command, error: RpcError) -> (settled: Settled<S, P, E>)
    ensures
        settled.dropped == !(command is SetAppProfileOverride),
        settled.answer is None,
        tells_failure(settled.update, command, error),
{
    match command {
        Command::SetLight(_, light, key, request_id) => to_window(
            true,
            Some(send_light_result(key, request_id, light, None)),
        ),
        Command::SetLightManualPower(_, enabled, key, request_id) => {
            let light = LightCommand::Power(enabled);
            to_window(true, Some(send_light_result(key, request_id, light, None)))
        },
        Command::ReloadConfig => {
            let mut message = "saved, but the agent could not be reached to apply it: ".to_owned();
            push_text(&mut message, error.message.as_str());
            to_window(
                true,
                Some(GuiUpdate::ConfigReloadResult(Err(ConfigReloadError { message }))),
            )
        },
        Command::SetAppProfileOverride(_, _) => to_window(false, None),
        _ => to_window(true, None),
    }
}

/// What goes to the reply slot of a read without an agent: that the agent is
/// not there, for now. The event monitor's slot gets nothing.
pub open spec fn disconnected_answer<P, E>(command: Command) -> Option<(u64, Reply<P, E>)> {
    match command {
        Command::ReadDpi(_, slot) => Some((slot, Reply::Dpi(Err(WriteError::AgentUnavailable)))),
        Command::ReadReportRate(_, slot) => Some(
            (slot, Reply::ReportRate(Err(WriteError::AgentUnavailable))),
        ),
        Command::ReadSmartShift(_, slot) => Some(
            (slot, Reply::SmartShift(Err(WriteError::AgentUnavailable))),
        ),
        Command::ReadOnboardProfile(_, slot) => Some(
            (slot, Reply::OnboardProfile(Err(WriteError::AgentUnavailable))),
        ),
        Command::ReadLightingInfo(_, slot) => Some(
            (slot, Reply::LightingInfo(Err(WriteError::AgentUnavailable))),
        ),
        _ => None,
    }
}

/// Whether `update` is what the window is told of a command without an agent.
pub open spec fn tells_disconnect<S>(update: Option<GuiUpdate<S>>, command: Command) -> bool {
    match light_request(command) {
        Some(request) => tells_light(update, request, Err(WriteError::AgentUnavailable)),
        None => match command {
            Command::StartPairing(_) => update == Some(
                GuiUpdate::<S>::PairingUndeliverable(PairingFailure::AgentRestarted),
            ),
            Command::PairDevice(_) => update == Some(
                GuiUpdate::<S>::PairingUndeliverable(PairingFailure::AgentRestarted),
            ),
            Command::ReloadConfig => tells_reload_failure(update, unapplied_reload()),
            _ => update is None,
        },
    }
}

/// What a command comes to without an agent. There was no connection, so none
/// broke.
pub fn reply_disconnected<S, P, E>(command: Command) -> (settled: Settled<S, P, E>)
    ensures
        !settled.dropped,
        settled.answer == disconnected_answer::<P, E>(command),
        tells_disconnect(settled.update, command),
{
    match command {
        Command::ReadDpi(_, slot) => to_slot(slot, Reply::Dpi(Err(WriteError::AgentUnavailable))),
        Command::ReadReportRate(_, slot) => to_slot(
            slot,
            Reply::ReportRate(Err(WriteError::AgentUnavailable)),
        ),
        Command::ReadSmartShift(_, slot) => to_slot(
            slot,
            Reply::SmartShift(Err(WriteError::AgentUnavailable)),
        ),
        Command::ReadOnboardProfile(_, slot) => to_slot(
            slot,
            Reply::OnboardProfile(Err(WriteError::AgentUnavailable)),
        ),
        Command::ReadLightingInfo(_, slot) => to_slot(
            slot,
            Reply::LightingInfo(Err(WriteError::AgentUnavailable)),
        ),
        Command::SetLight(_, light, key, request_id) => to_window(
            false,
            Some(send_light_result(key, request_id, light, None)),
        ),
        Command::SetLightManualPower(_, enabled, key, request_id) => {
            let light = LightCommand::Power(enabled);
            to_window(false, Some(send_light_result(key, request_id, light, None)))
        },
        Command::StartPairing(_) => to_window(
            false,
            Some(GuiUpdate::PairingUndeliverable(PairingFailure::AgentRestarted)),
        ),
        Command::PairDevice(_) => to_window(
            false,
            Some(GuiUpdate::PairingUndeliverable(PairingFailure::AgentRestarted)),
        ),
        Command::ReloadConfig => {
            let message =
                "saved, but the agent is not running, so it has not been applied yet".to_owned();
            to_window(
                false,
                Some(GuiUpdate::ConfigReloadResult(Err(ConfigReloadError { message }))),
            )
        },
        _ => to_window(false, None),
    }
}

/// A reload never fails in silence: whatever becomes of it, the window is told.
pub proof fn a_reload_is_always_reported<S, P, E>(
    reply: Reply<P, E>,
    error: RpcError,
    answered: Option<GuiUpdate<S>>,
    failed: Option<GuiUpdate<S>>,
    disconnected: Option<GuiUpdate<S>>,
)
    requires
        answers(Command::ReloadConfig, reply),
        tells_reply(answered, Command::ReloadConfig, reply),
        tells_failure(failed, Command::ReloadConfig, error),
        tells_disconnect(disconnected, Command::ReloadConfig),
    ensures
        answered matches Some(GuiUpdate::ConfigReloadResult(_)),
        failed matches Some(GuiUpdate::ConfigReloadResult(Err(_))),
        disconnected matches Some(GuiUpdate::ConfigReloadResult(Err(_))),
{
}

/// A light command is always answered to its own key and request, as applied
/// only where the agent said so.
pub proof fn a_light_command_is_always_answered<S, P, E>(
    command: Command,
    reply: Reply<P, E>,
    error: RpcError,
    answered: Option<GuiUpdate<S>>,
    failed: Option<GuiUpdate<S>>,
    disconnected: Option<GuiUpdate<S>>,
)
    requires
        light_request(command) is Some,
        answers(command, reply),
        tells_reply(answered, command, reply),
        tells_failure(failed, command, error),
        tells_disconnect(disconnected, command),
    ensures
        tells_light(answered, light_request(command)->0, reply->Applied_0),
        tells_light(failed, light_request(command)->0, Err(WriteError::AgentUnavailable)),
        tells_light(disconnected, light_request(command)->0, Err(WriteError::AgentUnavailable)),
{
}

} // verus!
