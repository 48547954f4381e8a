//! When the window connects to the agent and starts it, and what it is told.

use crate::hid::{LightCommand, WriteError};
use crate::services::ipc::commands::{
    reply_disconnected, settle, settle_failure, Command, GuiUpdate, PairingFailure, Reply, RpcError,
    Settled,
};
use crate::services::ipc::{
    observe_deadline, ConnectFailure, Handshake, Link, LiveConnection, Observation, Observer,
    SpawnReflex, Turn, Woken,
};
use vstd::prelude::*;

verus! {

/// Whether the agent is due to be started: nothing newer runs, it was never
/// reached or has been lost for two seconds, and the last start is thirty
/// seconds back.
pub open spec fn due(reflex: SpawnReflex, now: int) -> bool {
    &&& !reflex.agent_is_newer
    &&& reflex.link is Cold || (reflex.link matches Link::Lost { since } && now >= since
        + 2_000_000_000)
    &&& reflex.last_fired is None || (reflex.last_fired matches Some(at) && now >= at
        + 30_000_000_000)
}

/// The agent is started exactly when that is due.
pub proof fn the_agent_is_started_when_due(reflex: &SpawnReflex, now: u64, fire: bool)
    requires
        call_ensures(SpawnReflex::should_fire, (reflex, now), fire),
    ensures
        fire <==> due(*reflex, now as int),
{
}

/// A loss starts the downtime, and a second one does not start it anew; a
/// connection ends it.
pub proof fn a_loss_starts_the_downtime(
    reflex: &mut SpawnReflex,
    now: u64,
    later: &SpawnReflex,
    since: Option<u64>,
)
    requires
        call_ensures(SpawnReflex::lost, (reflex, now), ()),
        *later == *final(reflex),
        call_ensures(SpawnReflex::down_since, (later,), since),
    ensures
        old(reflex).link is Connected ==> since == Some(now) && final(reflex).link is Lost,
        old(reflex).link matches Link::Cold { since: before } ==> since == Some(before)
            && final(reflex).link is Cold,
        old(reflex).link matches Link::Lost { since: before } ==> since == Some(before)
            && final(reflex).link is Lost,
        final(reflex).last_fired == old(reflex).last_fired,
        final(reflex).agent_is_newer == old(reflex).agent_is_newer,
{
}

/// A handshake makes a connection exactly where the agent speaks the window's
/// protocol and took its declaration. An agent that is newer is told apart from
/// one that cannot be reached. A new connection has an id of its own and has
/// seen nothing; a live one is kept.
pub proof fn a_handshake_makes_a_connection(
    observer: &mut Observer,
    handshake: Option<Handshake>,
    conn: Result<LiveConnection, ConnectFailure>,
)
    requires
        old(observer).connects(handshake),
        old(observer).conn_seq < u64::MAX,
        call_ensures(Observer::ensure, (observer, handshake), conn),
    ensures
        handshake == Some(Handshake::Failed) ==> conn
            == Err::<LiveConnection, ConnectFailure>(ConnectFailure::Unreachable),
        handshake matches Some(Handshake::Answered { version, declared }) ==> {
            &&& version > old(observer).protocol ==> conn
                == Err::<LiveConnection, ConnectFailure>(ConnectFailure::NewerAgent)
            &&& version < old(observer).protocol || version == old(observer).protocol && !declared
                ==> conn == Err::<LiveConnection, ConnectFailure>(ConnectFailure::Unreachable)
            &&& version == old(observer).protocol && declared ==> {
                &&& conn matches Ok(conn)
                &&& conn.id == old(observer).conn_seq + 1
                &&& conn.seen == 0
                &&& final(observer).link == Some(conn)
                &&& final(observer).conn_seq == conn.id
            }
        },
        handshake is None ==> (conn matches Ok(conn) && old(observer).link == Some(conn))
            && *final(observer) == *old(observer),
        conn is Err ==> *final(observer) == *old(observer),
        final(observer).reflex == old(observer).reflex,
        final(observer).inflight == old(observer).inflight,
{
}

/// An answer on the live connection hands the window the agent's state where its
/// generation is new, and the next request is opened from that generation.
pub proof fn news_are_handed_on_once<S>(
    observer: &mut Observer,
    conn: LiveConnection,
    observation: Observation<S>,
    now: u64,
    turn: Turn<S>,
)
    requires
        old(observer).well_formed(),
        old(observer).inflight == Some(conn.id),
        old(observer).conn_seq < u64::MAX,
        old(observer).link == Some(conn),
        call_ensures(
            Observer::step::<S>,
            (observer, Woken::Observed { id: conn.id, observed: Some(observation) }, now),
            turn,
        ),
    ensures
        turn.snapshot is Some <==> observation.generation != conn.seen,
        turn.snapshot matches Some(snapshot) ==> snapshot == observation.snapshot,
        turn.arm == Some(LiveConnection { id: conn.id, seen: observation.generation }),
        final(observer).link == turn.arm,
        final(observer).inflight == Some(conn.id),
        final(observer).reflex.link is Connected,
        !final(observer).reflex.agent_is_newer,
        !turn.stop,
        !turn.outdated,
        !turn.unreachable,
        !turn.spawn,
        !final(observer).notified_outdated,
        !final(observer).notified_unreachable,
{
}

/// A live connection that breaks is gone; the downtime starts with it, and the
/// agent is given its time to come back.
pub proof fn a_broken_connection_starts_the_wait<S>(
    observer: &mut Observer,
    conn: LiveConnection,
    now: u64,
    turn: Turn<S>,
)
    requires
        old(observer).well_formed(),
        old(observer).inflight == Some(conn.id),
        old(observer).conn_seq < u64::MAX,
        old(observer).link == Some(conn),
        old(observer).reflex.link is Connected,
        call_ensures(
            Observer::step::<S>,
            (observer, Woken::<S>::Observed { id: conn.id, observed: None }, now),
            turn,
        ),
    ensures
        final(observer).link is None,
        final(observer).inflight is None,
        final(observer).reflex.link == (Link::Lost { since: now }),
        turn.snapshot is None,
        turn.arm is None,
        !turn.spawn,
        !turn.unreachable,
        !turn.stop,
{
}

/// An answer on a connection that is no longer the live one tells nothing, and
/// the live one is asked.
pub proof fn late_answers_tell_nothing<S>(
    observer: &mut Observer,
    id: u64,
    observed: Option<Observation<S>>,
    now: u64,
    turn: Turn<S>,
)
    requires
        old(observer).well_formed(),
        old(observer).inflight == Some(id),
        old(observer).conn_seq < u64::MAX,
        !(old(observer).link matches Some(conn) && conn.id == id),
        call_ensures(Observer::step::<S>, (observer, Woken::Observed { id, observed }, now), turn),
    ensures
        turn.snapshot is None,
        turn.arm == old(observer).link,
        final(observer).link == old(observer).link,
        final(observer).reflex.link == old(observer).reflex.link,
        final(observer).inflight is Some <==> old(observer).link is Some,
{
}

/// An attempt to connect that meets a newer agent tells the window so once, and
/// starts no agent; one that fails starts it when that is due. The window is told
/// that the agent is unreachable once, after fifteen seconds without one.
pub proof fn a_failed_attempt_is_told<S>(
    observer: &mut Observer,
    handshake: Handshake,
    now: u64,
    turn: Turn<S>,
    since: u64,
)
    requires
        old(observer).well_formed(),
        old(observer).inflight is None,
        old(observer).link is None,
        old(observer).conn_seq < u64::MAX,
        old(observer).reflex.link == (Link::Cold { since }) || old(observer).reflex.link == (
        Link::Lost { since }),
        call_ensures(
            Observer::step::<S>,
            (observer, Woken::<S>::Reconnect { handshake: Some(handshake) }, now),
            turn,
        ),
        !(handshake matches Handshake::Answered { version, declared } && version
            == old(observer).protocol && declared),
    ensures
        ({
            let newer = handshake matches Handshake::Answered { version, .. } && version
                > old(observer).protocol;
            &&& turn.outdated <==> newer && !old(observer).notified_outdated
            &&& turn.spawn <==> due(
                SpawnReflex { agent_is_newer: newer, ..old(observer).reflex },
                now as int,
            )
            &&& final(observer).reflex.agent_is_newer == newer
            &&& newer ==> final(observer).notified_outdated
            &&& !newer ==> final(observer).notified_outdated == old(observer).notified_outdated
        }),
        final(observer).notified_unreachable <==> old(observer).notified_unreachable
            || turn.unreachable,
        turn.unreachable <==> !old(observer).notified_unreachable && now >= since
            + 15_000_000_000,
        turn.spawn ==> final(observer).reflex.last_fired == Some(now),
        !turn.spawn ==> final(observer).reflex.last_fired == old(observer).reflex.last_fired,
        turn.snapshot is None,
        turn.arm is None,
        final(observer).link is None,
        final(observer).reflex.link == old(observer).reflex.link,
{
}

/// An attempt that succeeds is observed at once, from nothing seen.
pub proof fn a_new_connection_is_observed<S>(
    observer: &mut Observer,
    now: u64,
    turn: Turn<S>,
)
    requires
        old(observer).well_formed(),
        old(observer).inflight is None,
        old(observer).link is None,
        old(observer).conn_seq < u64::MAX,
        call_ensures(
            Observer::step::<S>,
            (
                observer,
                Woken::<S>::Reconnect {
                    handshake: Some(
                        Handshake::Answered { version: old(observer).protocol, declared: true },
                    ),
                },
                now,
            ),
            turn,
        ),
    ensures
        turn.arm matches Some(conn) && conn.id == old(observer).conn_seq + 1 && conn.seen == 0,
        final(observer).link == turn.arm,
        final(observer).reflex.link is Connected,
        !turn.spawn,
        !turn.unreachable,
        !turn.outdated,
{
}

/// The client ends when no more commands will come, and only then.
pub proof fn the_client_ends_with_its_commands<S>(
    observer: &mut Observer,
    woken: Woken<S>,
    now: u64,
    turn: Turn<S>,
)
    requires
        old(observer).well_formed(),
        old(observer).can_wake(woken),
        old(observer).conn_seq < u64::MAX,
        call_ensures(Observer::step::<S>, (observer, woken, now), turn),
    ensures
        turn.stop <==> woken is Closed,
        woken is Closed ==> *final(observer) == *old(observer) && turn.snapshot is None && turn.arm
            is None && !turn.spawn && !turn.unreachable && !turn.outdated,
{
}

/// A request is given five seconds more than the agent holds it.
pub proof fn a_request_outlives_its_hold(hold: u64, deadline: u64)
    requires
        call_ensures(observe_deadline, (hold,), deadline),
    ensures
        hold <= u64::MAX - 5_000_000_000 ==> deadline == hold + 5_000_000_000,
        hold > u64::MAX - 5_000_000_000 ==> deadline == u64::MAX,
{
}

/// The reply slot that a command reads into.
pub open spec fn reads_into(command: Command, slot: u64) -> bool {
    match command {
        Command::ReadDpi(_, own) => own == slot,
        Command::ReadReportRate(_, own) => own == slot,
        Command::ReadSmartShift(_, own) => own == slot,
        Command::ReadOnboardProfile(_, own) => own == slot,
        Command::ReadLightingInfo(_, own) => own == slot,
        Command::PollEventMonitor(own) => own == slot,
        _ => false,
    }
}

/// What a command read goes to its own reply slot, and nothing else goes to one.
/// A light is told what came of its command, a reload is told whether it was
/// taken over, and a refused pairing why.
pub proof fn an_answer_goes_where_it_is_awaited<S, P, E>(
    command: Command,
    reply: Reply<P, E>,
    settled: Settled<S, P, E>,
    slot: u64,
)
    requires
        crate::services::ipc::commands::answers(command, reply),
        call_ensures(settle::<S, P, E>, (command, reply), settled),
    ensures
        !settled.dropped,
        reads_into(command, slot) ==> settled.answer == Some((slot, reply)) && settled.update
            is None,
        (forall|own: u64| !reads_into(command, own)) ==> settled.answer is None,
        command matches Command::SetLight(_, light, key, request) ==> settled.update == Some(
            GuiUpdate::<S>::LightCommandResult {
                key,
                request_id: request,
                command: light,
                result: reply->Applied_0,
            },
        ),
        command matches Command::SetLightManualPower(_, on, key, request) ==> settled.update
            == Some(
            GuiUpdate::<S>::LightCommandResult {
                key,
                request_id: request,
                command: LightCommand::Power(on),
                result: reply->Applied_0,
            },
        ),
        command is ReloadConfig ==> settled.update == Some(
            GuiUpdate::<S>::ConfigReloadResult(reply->Reloaded_0),
        ),
        reply matches Reply::Pairing(Err(reason)) ==> settled.update == Some(
            GuiUpdate::<S>::PairingUndeliverable(PairingFailure::Refused { reason }),
        ),
        reply matches Reply::Pairing(Ok(_)) ==> settled.update is None,
        command is SetDpi || command is SetReportRate || command is SetLighting
            || command is SetSmartShift || command is SetScrollWheelMode ==> settled.update
            is None,
{
    if forall|own: u64| !reads_into(command, own) {
        match command {
            Command::ReadDpi(_, own) => assert(reads_into(command, own)),
            Command::ReadReportRate(_, own) => assert(reads_into(command, own)),
            Command::ReadSmartShift(_, own) => assert(reads_into(command, own)),
            Command::ReadOnboardProfile(_, own) => assert(reads_into(command, own)),
            Command::ReadLightingInfo(_, own) => assert(reads_into(command, own)),
            Command::PollEventMonitor(own) => assert(reads_into(command, own)),
            _ => {},
        }
    }
}

/// A call that failed breaks its connection, unless it only pinned a profile. No
/// slot is answered; a light and a reload are told.
pub proof fn a_failed_call_breaks_its_connection<S, P, E>(
    command: Command,
    error: RpcError,
    settled: Settled<S, P, E>,
)
    requires
        call_ensures(settle_failure::<S, P, E>, (command, error), settled),
    ensures
        settled.dropped <==> !(command is SetAppProfileOverride),
        settled.answer is None,
        command matches Command::SetLight(_, light, key, request) ==> settled.update == Some(
            GuiUpdate::<S>::LightCommandResult {
                key,
                request_id: request,
                command: light,
                result: Err(WriteError::AgentUnavailable),
            },
        ),
        command is ReloadConfig ==> (settled.update matches Some(
            GuiUpdate::ConfigReloadResult(Err(_)),
        )),
        settled.update is Some <==> command is SetLight || command is SetLightManualPower || command
            is ReloadConfig,
{
}

/// Without an agent, a read is told that there is none for now, a light and a
/// reload are told, and a pairing that was to begin comes to nothing.
pub proof fn without_an_agent_readers_are_told<S, P, E>(
    command: Command,
    settled: Settled<S, P, E>,
)
    requires
        call_ensures(reply_disconnected::<S, P, E>, (command,), settled),
    ensures
        !settled.dropped,
        command matches Command::ReadDpi(_, slot) ==> settled.answer == Some(
            (slot, Reply::<P, E>::Dpi(Err(WriteError::AgentUnavailable))),
        ),
        command matches Command::ReadReportRate(_, slot) ==> settled.answer == Some(
            (slot, Reply::<P, E>::ReportRate(Err(WriteError::AgentUnavailable))),
        ),
        command matches Command::ReadSmartShift(_, slot) ==> settled.answer == Some(
            (slot, Reply::<P, E>::SmartShift(Err(WriteError::AgentUnavailable))),
        ),
        command matches Command::ReadOnboardProfile(_, slot) ==> settled.answer == Some(
            (slot, Reply::<P, E>::OnboardProfile(Err(WriteError::AgentUnavailable))),
        ),
        command matches Command::ReadLightingInfo(_, slot) ==> settled.answer == Some(
            (slot, Reply::<P, E>::LightingInfo(Err(WriteError::AgentUnavailable))),
        ),
        command is PollEventMonitor ==> settled.answer is None,
        command matches Command::SetLight(_, light, key, request) ==> settled.update == Some(
            GuiUpdate::<S>::LightCommandResult {
                key,
                request_id: request,
                command: light,
                result: Err(WriteError::AgentUnavailable),
            },
        ),
        command is StartPairing || command is PairDevice ==> settled.update == Some(
            GuiUpdate::<S>::PairingUndeliverable(PairingFailure::AgentRestarted),
        ),
        command is CancelPairing ==> settled.update is None,
        command is ReloadConfig ==> (settled.update matches Some(
            GuiUpdate::ConfigReloadResult(Err(_)),
        )),
{
}

} // verus!
