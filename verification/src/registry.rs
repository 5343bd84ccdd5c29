//! The session registry as a mathematical value, and what each step of the
//! tick loop makes of it and of the bodies that the engine holds.
//!
//! A registry is a map from connection to session; of the engine no more is
//! known than which bodies are in it. The functions here say what the
//! registry is after an event, a binding or a reconciliation, and what the
//! engine is asked to do; the executable server is held to them.

use crate::protocol::BodyHandle;
use crate::protocol::Command;
use crate::protocol::EntityState;
use crate::protocol::Player;
use crate::protocol::Point;
use crate::websocket::Receive;
use vstd::prelude::*;

verus! {

/// The registry once the body `handle` is bound to connection `id`: a new
/// session without a command. A session that `id` had before is replaced.
pub open spec fn bound(sessions: Map<u64, Player>, id: u64, handle: BodyHandle) -> Map<
    u64,
    Player,
> {
    sessions.insert(id, Player { handle, position: None })
}

/// Whether a command from connection `id` is taken up: the connection has a
/// session and the point is in range.
pub open spec fn accepted(sessions: Map<u64, Player>, id: u64, point: Point) -> bool {
    sessions.contains_key(id) && point.in_range()
}

/// What the engine is asked to do for one event.
pub open spec fn command_for(sessions: Map<u64, Player>, event: Receive) -> Command {
    match event {
        Receive::Connect(id) => Command::Spawn(id),
        Receive::Disconnect(id) => if sessions.contains_key(id) {
            Command::Remove(sessions[id].handle)
        } else {
            Command::Idle
        },
        Receive::Message(id, Some(point)) => if accepted(sessions, id, point) {
            Command::Steer(sessions[id].handle, point)
        } else {
            Command::Idle
        },
        Receive::Message(_, None) => Command::Idle,
    }
}

/// The registry after one event. A `Connect` changes nothing until the body
/// is bound; a `Disconnect` erases the session if there is one; a command
/// that is taken up becomes the session's last command.
pub open spec fn after(sessions: Map<u64, Player>, event: Receive) -> Map<u64, Player> {
    match event {
        Receive::Connect(_) => sessions,
        Receive::Disconnect(id) => sessions.remove(id),
        Receive::Message(id, Some(point)) => if accepted(sessions, id, point) {
            sessions.insert(id, Player { handle: sessions[id].handle, position: Some(point) })
        } else {
            sessions
        },
        Receive::Message(_, None) => sessions,
    }
}

/// The registry after reconciliation against the connections `live`: the
/// sessions of those connections, unchanged, and no others.
pub open spec fn reconciled(sessions: Map<u64, Player>, live: Set<u64>) -> Map<u64, Player> {
    sessions.restrict(live)
}

/// The bodies of the sessions whose connection is not among `live`.
pub open spec fn stale(sessions: Map<u64, Player>, live: Set<u64>) -> Set<BodyHandle> {
    Set::new(
        |handle: BodyHandle|
            exists|id: u64|
                sessions.contains_key(id) && !live.contains(id) && (
                #[trigger] sessions[id]).handle == handle,
    )
}

/// The bodies that the registry refers to.
pub open spec fn handles(sessions: Map<u64, Player>) -> Set<BodyHandle> {
    Set::new(
        |handle: BodyHandle|
            exists|id: u64| sessions.contains_key(id) && (#[trigger] sessions[id]).handle == handle,
    )
}

/// No body belongs to two sessions.
pub open spec fn distinct(sessions: Map<u64, Player>) -> bool {
    forall|a: u64, b: u64|
        sessions.contains_key(a) && sessions.contains_key(b) && a != b ==> (
        #[trigger] sessions[a]).handle != (#[trigger] sessions[b]).handle
}

/// The bodies to read for a snapshot when the connections are visited in the
/// order `ids`: for each one that has a session, its body.
pub open spec fn targeted(sessions: Map<u64, Player>, ids: Seq<u64>) -> Seq<BodyHandle>
    decreases ids.len(),
{
    if ids.len() == 0 {
        Seq::empty()
    } else if sessions.contains_key(ids.last()) {
        targeted(sessions, ids.drop_last()).push(sessions[ids.last()].handle)
    } else {
        targeted(sessions, ids.drop_last())
    }
}

/// The states that were read, in order, without the bodies that the engine
/// did not find.
pub open spec fn present(states: Seq<Option<EntityState>>) -> Seq<EntityState>
    decreases states.len(),
{
    if states.len() == 0 {
        Seq::empty()
    } else {
        match states.last() {
            Some(state) => present(states.drop_last()).push(state),
            None => present(states.drop_last()),
        }
    }
}

/// The number of the tick after `tick`. The count stops at the largest number
/// it can hold.
pub open spec fn next_tick(tick: u64) -> u64 {
    if tick < u64::MAX {
        (tick + 1) as u64
    } else {
        tick
    }
}

/// The registry and the bodies that the engine holds.
pub struct World {
    pub sessions: Map<u64, Player>,
    pub bodies: Set<BodyHandle>,
}

/// One step of the tick loop together with the engine.
pub enum Move {
    /// An event is handled and its command performed.
    Event(Receive),
    /// The engine has created a body, and it is bound to a connection.
    Bind(u64, BodyHandle),
    /// The registry is reconciled against the connections that have an
    /// outbound channel, and the stale bodies are removed.
    Reconcile(Set<u64>),
}

/// The engine's bodies once it has performed `command`. Creating a body
/// shows only when it is bound; steering and stepping keep the bodies.
pub open spec fn performed(bodies: Set<BodyHandle>, command: Command) -> Set<BodyHandle> {
    match command {
        Command::Remove(handle) => bodies.remove(handle),
        _ => bodies,
    }
}

/// Whether the engine can have made this step: the handle of a new body is
/// that of no body.
pub open spec fn possible(world: World, step: Move) -> bool {
    match step {
        Move::Bind(_, handle) => !world.bodies.contains(handle),
        _ => true,
    }
}

/// The world after one step.
pub open spec fn moved(world: World, step: Move) -> World {
    match step {
        Move::Event(event) => World {
            sessions: after(world.sessions, event),
            bodies: performed(world.bodies, command_for(world.sessions, event)),
        },
        Move::Bind(id, handle) => World {
            sessions: bound(world.sessions, id, handle),
            bodies: world.bodies.insert(handle),
        },
        Move::Reconcile(live) => World {
            sessions: reconciled(world.sessions, live),
            bodies: world.bodies.difference(stale(world.sessions, live)),
        },
    }
}

/// Every session's body is in the engine, and no body belongs to two
/// sessions.
pub open spec fn sound(world: World) -> bool {
    &&& distinct(world.sessions)
    &&& forall|id: u64| #[trigger]
        world.sessions.contains_key(id) ==> world.bodies.contains(world.sessions[id].handle)
}

} // verus!
