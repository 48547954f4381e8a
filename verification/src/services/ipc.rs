//! The client side of the agent link: when to connect, when to start the
//! agent, and what the window is told.
//!
//! One request is kept open that carries the generation last seen; the agent
//! answers as soon as its state differs from that. Every answer is the whole
//! state, so that a reconnect needs no resynchronisation. All moments are in
//! nanoseconds on one clock that never goes back.

pub mod commands;
pub mod laws;

use vstd::prelude::*;

verus! {

/// The least gap between two attempts to start the agent.
pub const SPAWN_RETRY_PERIOD: u64 = 30_000_000_000;

/// How long a lost connection must stay down before the agent is started. A
/// supervised restart, a self-update and a deliberate quit announce themselves
/// within that time.
pub const SPAWN_AFTER_LOSS: u64 = 2_000_000_000;

/// The wait before another attempt to connect.
pub const RECONNECT_DELAY: u64 = 250_000_000;

/// How long there may be no usable connection before the window is told that
/// the agent is unreachable.
pub const UNREACHABLE_AFTER: u64 = 15_000_000_000;

/// How long the deadline of the open request is beyond the agent's own hold.
pub const OBSERVE_MARGIN: u64 = 5_000_000_000;

/// The time from `since` to `now`, none if `now` is not later.
pub open spec fn elapsed(since: u64, now: u64) -> int {
    if now > since {
        now - since
    } else {
        0
    }
}

fn time_since(since: u64, now: u64) -> (time: u64)
    ensures
        time == elapsed(since, now),
{
    if now > since {
        now - since
    } else {
        0
    }
}

/// The deadline of the open request, for an agent that holds it for `hold`.
pub fn observe_deadline(hold: u64) -> (deadline: u64)
    ensures
        deadline == if hold + OBSERVE_MARGIN <= u64::MAX {
            hold + OBSERVE_MARGIN
        } else {
            u64::MAX as int
        },
{
    match hold.checked_add(OBSERVE_MARGIN) {
        Some(deadline) => deadline,
        None => u64::MAX,
    }
}

/// What is known of the link to the agent.
#[derive(Debug, Clone, Copy, PartialEq, Eq, Structural)]
pub enum Link {
    /// There is a usable connection.
    Connected,
    /// There never was one.
    Cold { since: u64 },
    /// There was one, and it dropped.
    Lost { since: u64 },
}

/// The rule for when the agent is started.
#[derive(Debug, Clone, Copy, PartialEq, Eq, Structural)]
pub struct SpawnReflex {
    pub link: Link,
    /// Whether the last attempt found a live agent that is newer than the
    /// window: starting one cannot help then.
    pub agent_is_newer: bool,
    pub last_fired: Option<u64>,
}

impl SpawnReflex {
    /// Nothing was reached yet.
    pub fn new(now: u64) -> (reflex: Self)
        ensures
            reflex == (SpawnReflex {
                link: Link::Cold { since: now },
                agent_is_newer: false,
                last_fired: None,
            }),
    {
        SpawnReflex { link: Link::Cold { since: now }, agent_is_newer: false, last_fired: None }
    }

    /// A connection is up.
    pub fn connected(&mut self)
        ensures
            *final(self) == (SpawnReflex {
                link: Link::Connected,
                agent_is_newer: false,
                ..*old(self)
            }),
    {
        self.link = Link::Connected;
        self.agent_is_newer = false;
    }

    /// The reflex after a connection dropped: the downtime starts `now`, unless
    /// the link was down already.
    pub open spec fn after_loss(self, now: u64) -> SpawnReflex {
        if self.link is Connected {
            SpawnReflex { link: Link::Lost { since: now }, ..self }
        } else {
            self
        }
    }

    /// A connection dropped.
    pub fn lost(&mut self, now: u64)
        ensures
            *final(self) == old(self).after_loss(now),
    {
        match self.link {
            Link::Connected => {
                self.link = Link::Lost { since: now };
            },
            _ => {},
        }
    }

    /// An attempt to connect found no usable agent.
    pub fn agent_unreachable(&mut self)
        ensures
            *final(self) == (SpawnReflex { agent_is_newer: false, ..*old(self) }),
    {
        self.agent_is_newer = false;
    }

    /// An attempt to connect found an agent that is newer than the window.
    pub fn newer_agent_running(&mut self)
        ensures
            *final(self) == (SpawnReflex { agent_is_newer: true, ..*old(self) }),
    {
        self.agent_is_newer = true;
    }

    /// When the downtime started.
    pub open spec fn downtime(self) -> Option<u64> {
        match self.link {
            Link::Connected => None,
            Link::Cold { since } => Some(since),
            Link::Lost { since } => Some(since),
        }
    }

    /// When the downtime started, or `None` while there is a connection.
    pub fn down_since(&self) -> (since: Option<u64>)
        ensures
            since == self.downtime(),
    {
        match self.link {
            Link::Connected => None,
            Link::Cold { since } => Some(since),
            Link::Lost { since } => Some(since),
        }
    }

    /// Whether the first responders to a lost connection had their time.
    pub open spec fn waited(self, now: u64) -> bool {
        match self.link {
            Link::Connected => false,
            Link::Cold { .. } => true,
            Link::Lost { since } => elapsed(since, now) >= SPAWN_AFTER_LOSS,
        }
    }

    /// Whether the agent is to be started: at once if it was never reached,
    /// after a wait if it was lost, never while a newer one runs, and not too
    /// often.
    pub open spec fn fires(self, now: u64) -> bool {
        &&& !self.agent_is_newer
        &&& self.waited(now)
        &&& self.last_fired matches Some(at) ==> elapsed(at, now) >= SPAWN_RETRY_PERIOD
    }

    /// Whether the agent is to be started.
    pub fn should_fire(&self, now: u64) -> (fire: bool)
        ensures
            fire == self.fires(now),
    {
        if self.agent_is_newer {
            return false;
        }
        let waited = match self.link {
            Link::Connected => {
                return false;
            },
            Link::Cold { .. } => true,
            Link::Lost { since } => time_since(since, now) >= SPAWN_AFTER_LOSS,
        };
        waited && match self.last_fired {
            None => true,
            Some(at) => time_since(at, now) >= SPAWN_RETRY_PERIOD,
        }
    }

    /// The agent was started.
    pub fn fired(&mut self, now: u64)
        ensures
            *final(self) == (SpawnReflex { last_fired: Some(now), ..*old(self) }),
    {
        self.last_fired = Some(now);
    }
}

/// A declared connection.
#[derive(Debug, Clone, Copy, PartialEq, Eq, Structural)]
pub struct LiveConnection {
    /// Its place in the sequence of connections.
    pub id: u64,
    /// The last generation seen on it; a fresh one has seen nothing.
    pub seen: u64,
}

/// What came of an attempt to connect.
#[derive(Debug, Clone, Copy, PartialEq, Eq, Structural)]
pub enum Handshake {
    /// No socket, or no answer on it.
    Failed,
    /// The agent told its protocol version; if that is the window's own, the
    /// window declared itself, and `declared` says whether that was accepted.
    Answered { version: u32, declared: bool },
}

/// Why there is no usable connection.
#[derive(Debug, Clone, Copy, PartialEq, Eq, Structural)]
pub enum ConnectFailure {
    /// Nothing answers, or the agent is older than the window: a restart of the
    /// agent helps.
    Unreachable,
    /// The agent is newer than the window: only a restart of the window helps.
    NewerAgent,
}

/// Whether a handshake gives a usable connection to a window that speaks
/// `protocol`, and if not, why.
pub open spec fn verdict(handshake: Handshake, protocol: u32) -> Result<(), ConnectFailure> {
    match handshake {
        Handshake::Failed => Err(ConnectFailure::Unreachable),
        Handshake::Answered { version, declared } => if version > protocol {
            Err(ConnectFailure::NewerAgent)
        } else if version == protocol && declared {
            Ok(())
        } else {
            Err(ConnectFailure::Unreachable)
        },
    }
}

/// The agent's state as of a generation.
#[derive(Debug)]
pub struct Observation<S> {
    pub generation: u64,
    pub snapshot: S,
}

/// Why the client woke up.
#[derive(Debug)]
pub enum Woken<S> {
    /// The request that was opened on connection `id` was answered, or its
    /// connection dropped.
    Observed { id: u64, observed: Option<Observation<S>> },
    /// A command was run. `handshake` is what came of connecting for it, where
    /// there was no connection; `dropped` says that its connection broke.
    Command { handshake: Option<Handshake>, dropped: bool },
    /// No more commands will come.
    Closed,
    /// It is time to connect again; `handshake` is what came of it, where there
    /// was no connection.
    Reconnect { handshake: Option<Handshake> },
}

/// What the client does after it woke up, in this order.
#[derive(Debug)]
pub struct Turn<S> {
    /// Ends.
    pub stop: bool,
    /// Hands the window the agent's new state.
    pub snapshot: Option<S>,
    /// Opens the next request on this connection, from the generation it has
    /// seen.
    pub arm: Option<LiveConnection>,
    /// Tells the window that the agent is newer.
    pub outdated: bool,
    /// Tells the window that the agent is unreachable.
    pub unreachable: bool,
    /// Starts the agent.
    pub spawn: bool,
}

/// The client's state.
#[derive(Debug, Clone, Copy, PartialEq, Eq, Structural)]
pub struct Observer {
    /// The protocol version that the window speaks.
    pub protocol: u32,
    pub link: Option<LiveConnection>,
    /// How many connections were made.
    pub conn_seq: u64,
    pub reflex: SpawnReflex,
    pub notified_unreachable: bool,
    pub notified_outdated: bool,
    /// The connection that the open request was made on.
    pub inflight: Option<u64>,
}

impl Observer {
    /// A client that has not connected yet.
    pub fn new(protocol: u32, now: u64) -> (observer: Self)
        ensures
            observer == (Observer {
                protocol,
                link: None,
                conn_seq: 0,
                reflex: SpawnReflex {
                    link: Link::Cold { since: now },
                    agent_is_newer: false,
                    last_fired: None,
                },
                notified_unreachable: false,
                notified_outdated: false,
                inflight: None,
            }),
            observer.well_formed(),
    {
        Observer {
            protocol,
            link: None,
            conn_seq: 0,
            reflex: SpawnReflex::new(now),
            notified_unreachable: false,
            notified_outdated: false,
            inflight: None,
        }
    }

    /// Ids come from the sequence of connections, and the live connection is
    /// the last of them.
    pub open spec fn well_formed(self) -> bool {
        &&& self.link matches Some(conn) ==> conn.id == self.conn_seq
        &&& self.inflight matches Some(id) ==> id <= self.conn_seq
    }

    /// Whether a `handshake` tells what came of connecting exactly where there
    /// was no connection.
    pub open spec fn connects(self, handshake: Option<Handshake>) -> bool {
        handshake is Some == self.link is None
    }

    /// The client after it made sure of a connection.
    pub open spec fn ensured(self, handshake: Option<Handshake>) -> Observer {
        if handshake matches Some(handshake) && verdict(handshake, self.protocol) is Ok {
            let id = (self.conn_seq + 1) as u64;
            Observer { conn_seq: id, link: Some(LiveConnection { id, seen: 0 }), ..self }
        } else {
            self
        }
    }

    /// Makes sure of a connection: keeps the live one, or takes the one that a
    /// handshake just made.
    pub fn ensure(&mut self, handshake: Option<Handshake>) -> (conn: Result<
        LiveConnection,
        ConnectFailure,
    >)
        requires
            old(self).connects(handshake),
            old(self).conn_seq < u64::MAX,
        ensures
            *final(self) == old(self).ensured(handshake),
            conn == match (handshake, old(self).link) {
                (Some(handshake), _) => match verdict(handshake, old(self).protocol) {
                    Ok(_) => Ok(LiveConnection { id: (old(self).conn_seq + 1) as u64, seen: 0 }),
                    Err(failure) => Err(failure),
                },
                (None, Some(conn)) => Ok(conn),
                (None, None) => Err(ConnectFailure::Unreachable),
            },
    {
        if let Some(handshake) = handshake {
            match handshake {
                Handshake::Failed => {
                    return Err(ConnectFailure::Unreachable);
                },
                Handshake::Answered { version, declared } => {
                    if version > self.protocol {
                        return Err(ConnectFailure::NewerAgent);
                    }
                    if version < self.protocol || !declared {
                        return Err(ConnectFailure::Unreachable);
                    }
                },
            }
            self.conn_seq += 1;
            self.link = Some(LiveConnection { id: self.conn_seq, seen: 0 });
        }
        match self.link {
            Some(conn) => Ok(conn),
            None => Err(ConnectFailure::Unreachable),
        }
    }

    /// The client after the request of connection `id` was answered with
    /// `generation`, or its connection dropped.
    pub open spec fn observed(self, id: u64, generation: Option<u64>, now: u64) -> Observer {
        match self.link {
            Some(conn) if conn.id == id => match generation {
                Some(generation) => Observer {
                    link: Some(LiveConnection { seen: generation, ..conn }),
                    reflex: SpawnReflex {
                        link: Link::Connected,
                        agent_is_newer: false,
                        ..self.reflex
                    },
                    notified_unreachable: false,
                    notified_outdated: false,
                    inflight: Some(id),
                    ..self
                },
                None => Observer {
                    link: None,
                    reflex: self.reflex.after_loss(now),
                    inflight: None,
                    ..self
                },
            },
            Some(conn) => Observer { inflight: Some(conn.id), ..self },
            None => Observer { inflight: None, ..self },
        }
    }

    /// The client after a command.
    pub open spec fn commanded(self, handshake: Option<Handshake>, dropped: bool, now: u64) -> Observer {
        let ensured = self.ensured(handshake);
        if dropped && ensured.link is Some {
            Observer { link: None, reflex: ensured.reflex.after_loss(now), ..ensured }
        } else {
            ensured
        }
    }

    /// The client after it tried to connect again.
    pub open spec fn reconnected(self, handshake: Option<Handshake>) -> Observer {
        let ensured = self.ensured(handshake);
        match ensured.link {
            Some(conn) => Observer {
                reflex: SpawnReflex {
                    link: Link::Connected,
                    agent_is_newer: false,
                    ..self.reflex
                },
                inflight: Some(conn.id),
                ..ensured
            },
            None => if self.meets_newer(handshake) {
                Observer {
                    reflex: SpawnReflex { agent_is_newer: true, ..self.reflex },
                    notified_outdated: true,
                    ..self
                }
            } else {
                Observer { reflex: SpawnReflex { agent_is_newer: false, ..self.reflex }, ..self }
            },
        }
    }

    /// Whether a handshake met an agent that is newer than the window.
    pub open spec fn meets_newer(self, handshake: Option<Handshake>) -> bool {
        handshake matches Some(handshake) && verdict(handshake, self.protocol) == Err::<
            (),
            ConnectFailure,
        >(ConnectFailure::NewerAgent)
    }

    /// Whether the window is to be told that the agent is unreachable.
    pub open spec fn overdue(self, now: u64) -> bool {
        self.reflex.downtime() matches Some(since) && !self.notified_unreachable && elapsed(
            since,
            now,
        ) >= UNREACHABLE_AFTER
    }

    /// The client after it looked at the clock.
    pub open spec fn timed(self, now: u64) -> Observer {
        Observer {
            notified_unreachable: self.notified_unreachable || self.overdue(now),
            reflex: if self.reflex.fires(now) {
                SpawnReflex { last_fired: Some(now), ..self.reflex }
            } else {
                self.reflex
            },
            ..self
        }
    }

    /// The client after it woke up, before it looked at the clock.
    pub open spec fn woke<S>(self, woken: Woken<S>, now: u64) -> Observer {
        match woken {
            Woken::Observed { id, observed } => self.observed(
                id,
                match observed {
                    Some(observation) => Some(observation.generation),
                    None => None,
                },
                now,
            ),
            Woken::Command { handshake, dropped } => self.commanded(handshake, dropped, now),
            Woken::Closed => self,
            Woken::Reconnect { handshake } => self.reconnected(handshake),
        }
    }

    /// Whether the client can wake up for this reason: a request is answered
    /// only while it is open, and a handshake is made only where there is no
    /// connection.
    pub open spec fn can_wake<S>(self, woken: Woken<S>) -> bool {
        match woken {
            Woken::Observed { id, .. } => self.inflight == Some(id),
            Woken::Command { handshake, .. } => self.connects(handshake),
            Woken::Closed => true,
            Woken::Reconnect { handshake } => self.connects(handshake) && self.inflight is None,
        }
    }

    /// Whether an answer tells the window something: it came on the live
    /// connection, with a generation not seen there.
    pub open spec fn news<S>(self, woken: Woken<S>) -> Option<S> {
        match woken {
            Woken::Observed { id, observed: Some(observation) } => match self.link {
                Some(conn) if conn.id == id && conn.seen != observation.generation => Some(
                    observation.snapshot,
                ),
                _ => None,
            },
            _ => None,
        }
    }

    /// One turn of the client.
    pub fn step<S>(&mut self, woken: Woken<S>, now: u64) -> (turn: Turn<S>)
        requires
            old(self).well_formed(),
            old(self).can_wake(woken),
            old(self).conn_seq < u64::MAX,
        ensures
            final(self).well_formed(),
            turn.stop == (woken is Closed),
            woken is Closed ==> *final(self) == *old(self),
            !(woken is Closed) ==> *final(self) == old(self).woke(woken, now).timed(now),
            turn.snapshot == old(self).news(woken),
            turn.arm == if woken is Observed || woken is Reconnect {
                old(self).woke(woken, now).link
            } else {
                None
            },
            turn.outdated == (!old(self).notified_outdated && (woken matches Woken::Reconnect {
                handshake,
            } && old(self).meets_newer(handshake))),
            turn.unreachable == (!(woken is Closed) && old(self).woke(woken, now).overdue(now)),
            turn.spawn == (!(woken is Closed) && old(self).woke(woken, now).reflex.fires(now)),
    {
        let mut turn = Turn {
            stop: false,
            snapshot: None,
            arm: None,
            outdated: false,
            unreachable: false,
            spawn: false,
        };
        match woken {
            Woken::Observed { id, observed } => {
                self.inflight = None;
                match self.link {
                    Some(conn) if conn.id == id => match observed {
                        Some(observation) => {
                            self.reflex.connected();
                            self.notified_unreachable = false;
                            self.notified_outdated = false;
                            let seen = observation.generation;
                            if seen != conn.seen {
                                turn.snapshot = Some(observation.snapshot);
                            }
                            self.link = Some(LiveConnection { id, seen });
                            self.inflight = Some(id);
                        },
                        None => {
                            self.link = None;
                            self.reflex.lost(now);
                        },
                    },
                    Some(conn) => {
                        self.inflight = Some(conn.id);
                    },
                    None => {},
                }
                turn.arm = self.link;
            },
            Woken::Command { handshake, dropped } => {
                let ensured = self.ensure(handshake);
                if ensured.is_ok() && dropped {
                    self.link = None;
                    self.reflex.lost(now);
                }
            },
            Woken::Closed => {
                turn.stop = true;
                return turn;
            },
            Woken::Reconnect { handshake } => match self.ensure(handshake) {
                Ok(conn) => {
                    self.reflex.connected();
                    self.inflight = Some(conn.id);
                    turn.arm = Some(conn);
                },
                Err(ConnectFailure::Unreachable) => {
                    self.reflex.agent_unreachable();
                },
                Err(ConnectFailure::NewerAgent) => {
                    self.reflex.newer_agent_running();
                    turn.outdated = !self.notified_outdated;
                    self.notified_outdated = true;
                },
            },
        }
        if let Some(since) = self.reflex.down_since() {
            if !self.notified_unreachable && time_since(since, now) >= UNREACHABLE_AFTER {
                self.notified_unreachable = true;
                turn.unreachable = true;
            }
            if self.reflex.should_fire(now) {
                self.reflex.fired(now);
                turn.spawn = true;
            }
        }
        turn
    }
}

/// The agent is never started while there is a connection or while a newer one
/// runs, and a lost one gets its time first.
pub proof fn the_reflex_is_patient(reflex: SpawnReflex, now: u64)
    ensures
        reflex.link is Connected ==> !reflex.fires(now),
        reflex.agent_is_newer ==> !reflex.fires(now),
        reflex.link matches Link::Lost { since } ==> elapsed(since, now) < SPAWN_AFTER_LOSS
            ==> !reflex.fires(now),
{
}

/// An agent that was never reached is started at once.
pub proof fn a_cold_link_fires_at_once(reflex: SpawnReflex, now: u64)
    requires
        reflex.link is Cold,
        !reflex.agent_is_newer,
        reflex.last_fired is None,
    ensures
        reflex.fires(now),
{
}

/// Two starts are at least [`SPAWN_RETRY_PERIOD`] apart, whatever happens in
/// between.
pub proof fn starts_are_rate_limited(reflex: SpawnReflex, first: u64, second: u64)
    requires
        reflex.last_fired == Some(first),
        reflex.fires(second),
    ensures
        second >= first + SPAWN_RETRY_PERIOD,
{
}

/// Nothing that happens to a client forgets when the agent was last started.
pub proof fn the_last_start_is_remembered<S>(observer: Observer, woken: Woken<S>, now: u64)
    ensures
        observer.woke(woken, now).reflex.last_fired == observer.reflex.last_fired,
        observer.timed(now).reflex.last_fired == if observer.reflex.fires(now) {
            Some(now)
        } else {
            observer.reflex.last_fired
        },
{
}

/// A second loss does not restart the clock of the downtime.
pub proof fn downtime_keeps_its_start(reflex: SpawnReflex, first: u64, second: u64)
    ensures
        reflex.after_loss(first).after_loss(second) == reflex.after_loss(first),
{
}

/// The answer to a request of a connection that is gone changes nothing but the
/// open request: it neither counts as seen nor breaks the live connection.
pub proof fn stale_polls_are_ignored<S>(observer: Observer, woken: Woken<S>, now: u64)
    requires
        woken matches Woken::Observed { id, .. } && !(observer.link matches Some(conn)
            && conn.id == id),
    ensures
        observer.news(woken) is None,
        observer.woke(woken, now) == (Observer {
            inflight: match observer.link {
                Some(conn) => Some(conn.id),
                None => None,
            },
            ..observer
        }),
{
}

/// Two connections never have the same id.
pub proof fn ids_are_never_reused<S>(observer: Observer, woken: Woken<S>, now: u64)
    requires
        observer.well_formed(),
        observer.can_wake(woken),
        observer.conn_seq < u64::MAX,
    ensures
        observer.woke(woken, now).conn_seq >= observer.conn_seq,
        (observer.woke(woken, now).link matches Some(conn) && !(observer.link matches Some(before)
            && before.id == conn.id)) ==> observer.woke(woken, now).link->0.id
            > observer.conn_seq,
{
}

/// The window gets a snapshot exactly when the generation is new on the live
/// connection, and the same generation is not told twice in a row.
pub proof fn a_generation_is_told_once<S>(
    observer: Observer,
    id: u64,
    first: Observation<S>,
    second: Observation<S>,
    now: u64,
)
    requires
        observer.link matches Some(conn) && conn.id == id,
        first.generation == second.generation,
    ensures
        observer.news(Woken::Observed { id, observed: Some(first) }) is Some
            == (observer.link->0.seen != first.generation),
        observer.woke(Woken::Observed { id, observed: Some(first) }, now).timed(now).news(
            Woken::Observed { id, observed: Some(second) },
        ) is None,
{
}

/// The window is told of one outage once: after it was told, only an answer
/// from the agent makes it possible again.
pub proof fn an_outage_is_told_once<S>(observer: Observer, woken: Woken<S>, now: u64)
    ensures
        observer.overdue(now) ==> observer.timed(now).notified_unreachable
            && !observer.timed(now).overdue(now),
        observer.notified_unreachable && !observer.woke(woken, now).notified_unreachable ==> (
        woken matches Woken::Observed { id, observed: Some(_) } && (observer.link matches Some(conn)
            && conn.id == id)),
{
}

/// A client whose turn ends with a connection and no open request opens one as
/// soon as it connects again, and so always listens to the live agent.
pub proof fn the_live_connection_is_observed(observer: Observer, now: u64)
    requires
        observer.link is Some,
    ensures
        observer.reconnected(None).inflight == Some(observer.link->0.id),
        observer.reconnected(None).link == observer.link,
{
}

} // verus!
