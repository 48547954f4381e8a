//! The connection to the background service.

use openlogi_desktop::device::DeviceRoute;
use openlogi_desktop::hid::{LightCommand, WriteError};
use openlogi_desktop::services::ipc::commands::{
    pairing_command_result, reply_disconnected, send_light_result, settle, settle_failure, Command,
    ConfigReloadError, GuiUpdate, PairingFailure, Reply, RpcError, Settled,
};
use openlogi_desktop::services::ipc::{
    observe_deadline, ConnectFailure, Handshake, Observation, Observer, SpawnReflex, Woken,
    OBSERVE_MARGIN, SPAWN_AFTER_LOSS, SPAWN_RETRY_PERIOD, UNREACHABLE_AFTER,
};

const SECOND: u64 = 1_000_000_000;

#[test]
fn a_never_reached_agent_is_spawned_immediately() {
    let reflex = SpawnReflex::new(7);
    assert!(reflex.should_fire(7));
}

#[test]
fn a_lost_connection_waits_out_the_first_responders() {
    let t0 = 7;
    let mut reflex = SpawnReflex::new(t0);
    reflex.connected();
    assert!(!reflex.should_fire(t0 + 120 * SECOND));
    reflex.lost(t0 + 120 * SECOND);
    assert!(!reflex.should_fire(t0 + 121 * SECOND));
    assert!(reflex.should_fire(t0 + 120 * SECOND + SPAWN_AFTER_LOSS));
}

#[test]
fn a_live_newer_agent_is_never_spawned_at() {
    let t0 = 7;
    let mut reflex = SpawnReflex::new(t0);
    reflex.newer_agent_running();
    assert!(!reflex.should_fire(t0 + 120 * SECOND));
    reflex.agent_unreachable();
    assert!(reflex.should_fire(t0 + 120 * SECOND));
}

#[test]
fn retries_are_rate_limited() {
    let t0 = 7;
    let mut reflex = SpawnReflex::new(t0);
    reflex.fired(t0);
    assert!(!reflex.should_fire(t0 + 29 * SECOND));
    assert!(reflex.should_fire(t0 + SPAWN_RETRY_PERIOD));
}

#[test]
fn a_reload_that_never_reached_the_agent_is_reported() {
    let settled: Settled<(), (), ()> = reply_disconnected(Command::ReloadConfig);
    let Some(GuiUpdate::ConfigReloadResult(Err(error))) = settled.update else {
        panic!("a reload that never reached the agent must be reported as failed");
    };
    assert!(!error.message.is_empty(), "the notice needs a reason");
}

#[test]
fn a_refused_reload_is_reported_with_its_reason() {
    let settled: Settled<(), (), ()> = settle(
        Command::ReloadConfig,
        Reply::Reloaded(Err(ConfigReloadError { message: "bad file".into() })),
    );
    match settled.update {
        Some(GuiUpdate::ConfigReloadResult(Err(error))) => assert_eq!(error.message, "bad file"),
        other => panic!("unexpected {other:?}"),
    }
}

#[test]
fn a_failed_call_drops_the_connection() {
    let settled: Settled<(), (), ()> = settle_failure(
        Command::SetDpi(DeviceRoute::Direct { endpoint: 1 }, 800),
        RpcError { message: "closed".into() },
    );
    assert!(settled.dropped);
}

#[test]
fn a_light_command_is_answered_even_while_disconnected() {
    let route = DeviceRoute::RawHid { endpoint: 3 };
    let settled: Settled<(), (), ()> =
        reply_disconnected(Command::SetLight(route, LightCommand::Power(true), "light".into(), 9));
    match settled.update {
        Some(GuiUpdate::LightCommandResult { key, request_id, result, .. }) => {
            assert_eq!((key.as_str(), request_id), ("light", 9));
            assert_eq!(result, Err(WriteError::AgentUnavailable));
        }
        other => panic!("unexpected {other:?}"),
    }
    let sent: GuiUpdate<()> =
        send_light_result("light".into(), 9, LightCommand::Power(true), Some(Ok(())));
    assert!(matches!(sent, GuiUpdate::LightCommandResult { result: Ok(()), .. }));
}

#[test]
fn only_refused_pairings_are_told() {
    assert!(pairing_command_result::<()>(Ok(())).is_none());
    match pairing_command_result::<()>(Err("busy".into())) {
        Some(GuiUpdate::PairingUndeliverable(PairingFailure::Refused { reason })) => {
            assert_eq!(reason, "busy");
        }
        other => panic!("unexpected {other:?}"),
    }
}

#[test]
fn a_poll_may_hold_for_its_margin() {
    assert_eq!(observe_deadline(20 * SECOND), 20 * SECOND + OBSERVE_MARGIN);
}

#[test]
fn the_observer_connects_arms_and_shows_each_generation_once() {
    let mut observer = Observer::new(3, 0);
    let turn = observer.step::<u8>(
        Woken::Reconnect { handshake: Some(Handshake::Answered { version: 3, declared: true }) },
        SECOND,
    );
    assert!(!turn.stop && !turn.spawn);
    let armed = turn.arm.expect("a live connection is observed");
    let observed = |generation| Woken::Observed {
        id: armed.id,
        observed: Some(Observation { generation, snapshot: 42u8 }),
    };
    let turn = observer.step(observed(1), 2 * SECOND);
    assert_eq!(turn.snapshot, Some(42));
    let armed = turn.arm.expect("observing goes on");
    assert_eq!(armed.seen, 1);
    let turn = observer.step(observed(1), 3 * SECOND);
    assert_eq!(turn.snapshot, None);
}

#[test]
fn an_answer_of_an_old_connection_is_ignored() {
    let mut observer = Observer::new(3, 0);
    let turn = observer.step::<u8>(
        Woken::Reconnect { handshake: Some(Handshake::Answered { version: 3, declared: true }) },
        SECOND,
    );
    let first = turn.arm.expect("a live connection is observed");
    let turn = observer.step::<u8>(
        Woken::Observed { id: first.id, observed: None },
        2 * SECOND,
    );
    assert_eq!(turn.snapshot, None);
    assert!(observer.link.is_none());
}

#[test]
fn an_outage_is_told_once_it_lasts() {
    let mut observer = Observer::new(3, 0);
    let failed = || Woken::<u8>::Reconnect { handshake: Some(Handshake::Failed) };
    let early = observer.step(failed(), SECOND);
    assert!(!early.unreachable && early.spawn);
    let late = observer.step(failed(), UNREACHABLE_AFTER);
    assert!(late.unreachable);
    let later = observer.step(failed(), UNREACHABLE_AFTER + SECOND);
    assert!(!later.unreachable);
}

#[test]
fn a_newer_agent_is_told_and_not_started_over() {
    let mut observer = Observer::new(3, 0);
    let conn = observer.ensure(Some(Handshake::Answered { version: 4, declared: true }));
    assert!(matches!(conn, Err(ConnectFailure::NewerAgent)));
    let mut observer = Observer::new(3, 0);
    let turn = observer.step::<u8>(
        Woken::Reconnect { handshake: Some(Handshake::Answered { version: 4, declared: true }) },
        SECOND,
    );
    assert!(turn.outdated && !turn.spawn);
    let turn = observer.step::<u8>(Woken::Closed, 2 * SECOND);
    assert!(turn.stop);
}
