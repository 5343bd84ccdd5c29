//! What holds of the registry together with the engine, over every course of
//! events.
//!
//! The engine is taken at its word: it creates a body under a handle that no
//! body of its has, it removes the bodies that it is asked to remove, and
//! neither steering nor stepping removes one.

use crate::protocol::BodyHandle;
use crate::protocol::Command;
use crate::protocol::Player;
use crate::protocol::Point;
use crate::registry::command_for;
use crate::registry::handles;
use crate::registry::moved;
use crate::registry::possible;
use crate::registry::sound;
use crate::registry::stale;
use crate::registry::targeted;
use crate::registry::Move;
use crate::registry::World;
use crate::websocket::Receive;
use vstd::prelude::*;

verus! {

/// The world after `steps`, from a server without sessions and an engine
/// with the bodies `start`.
pub open spec fn run(start: Set<BodyHandle>, steps: Seq<Move>) -> World
    decreases steps.len(),
{
    if steps.len() == 0 {
        World { sessions: Map::empty(), bodies: start }
    } else {
        moved(run(start, steps.drop_last()), steps.last())
    }
}

/// Every step was possible where it was made.
pub open spec fn lawful(start: Set<BodyHandle>, steps: Seq<Move>) -> bool
    decreases steps.len(),
{
    steps.len() == 0 || (lawful(start, steps.drop_last()) && possible(
        run(start, steps.drop_last()),
        steps.last(),
    ))
}

/// One step keeps every session's body in the engine and keeps the bodies of
/// the sessions apart.
pub proof fn step_keeps_sessions_embodied(world: World, step: Move)
    requires
        sound(world),
        possible(world, step),
    ensures
        sound(moved(world, step)),
{
}

/// In every state that the tick loop can reach, every session's body is in
/// the engine and belongs to that session alone.
pub proof fn sessions_stay_embodied(start: Set<BodyHandle>, steps: Seq<Move>)
    requires
        lawful(start, steps),
    ensures
        sound(run(start, steps)),
    decreases steps.len(),
{
    if steps.len() > 0 {
        sessions_stay_embodied(start, steps.drop_last());
        step_keeps_sessions_embodied(run(start, steps.drop_last()), steps.last());
    }
}

/// Where every session's body is in the engine, a handle that the engine
/// hands out for a new body is held by no session: the binding is made.
pub proof fn new_body_is_unbound(world: World, id: u64, handle: BodyHandle)
    requires
        sound(world),
        possible(world, Move::Bind(id, handle)),
    ensures
        !handles(world.sessions).contains(handle),
{
    if handles(world.sessions).contains(handle) {
        let owner = choose|owner: u64|
            world.sessions.contains_key(owner) && (#[trigger] world.sessions[owner]).handle
                == handle;
        assert(world.bodies.contains(world.sessions[owner].handle));
    }
}

/// A second `Disconnect` for the same connection changes nothing: the engine
/// is asked nothing, and the registry and the engine's bodies are as after
/// the first.
pub proof fn disconnect_twice_is_once(world: World, id: u64)
    ensures
        ({
            let disconnect = Move::Event(Receive::Disconnect(id));
            let once = moved(world, disconnect);
            &&& command_for(once.sessions, Receive::Disconnect(id)) == Command::Idle
            &&& moved(once, disconnect) == once
        }),
{
    let disconnect = Move::Event(Receive::Disconnect(id));
    let once = moved(world, disconnect);
    let twice = moved(once, disconnect);
    assert(twice.sessions =~= once.sessions);
    assert(twice.bodies =~= once.bodies);
}

/// One reconciliation erases the session of every connection that has no
/// outbound channel, however many `Disconnect` events were lost, removes its
/// body, and leaves the sessions of the other connections as they were.
pub proof fn reconciliation_heals(world: World, live: Set<u64>)
    ensures
        ({
            let next = moved(world, Move::Reconcile(live));
            &&& forall|id: u64| !live.contains(id) ==> !(#[trigger] next.sessions.contains_key(id))
            &&& forall|id: u64|
                !live.contains(id) && #[trigger] world.sessions.contains_key(id)
                    ==> !next.bodies.contains(world.sessions[id].handle)
            &&& forall|id: u64|
                live.contains(id) && #[trigger] world.sessions.contains_key(id)
                    ==> next.sessions.contains_key(id) && next.sessions[id] == world.sessions[id]
        }),
{
    let next = moved(world, Move::Reconcile(live));
    assert forall|id: u64|
        !live.contains(id) && #[trigger] world.sessions.contains_key(id)
        implies !next.bodies.contains(world.sessions[id].handle) by {
        assert(stale(world.sessions, live).contains(world.sessions[id].handle));
    }
}

/// Once connection `id` is bound to a body, of two commands that it sends the
/// later one stands: the engine is asked last to steer the body by the second
/// command, and after both the session holds the second. The second command
/// is one that is taken up, a point in range; the first may be anything.
pub proof fn latest_input_wins(
    world: World,
    id: u64,
    handle: BodyHandle,
    first: Option<Point>,
    second: Point,
)
    requires
        second.in_range(),
    ensures
        ({
            let asked = moved(world, Move::Event(Receive::Connect(id)));
            let connected = moved(asked, Move::Bind(id, handle));
            let once = moved(connected, Move::Event(Receive::Message(id, first)));
            let twice = moved(once, Move::Event(Receive::Message(id, Some(second))));
            &&& command_for(world.sessions, Receive::Connect(id)) == Command::Spawn(id)
            &&& command_for(once.sessions, Receive::Message(id, Some(second)))
                == Command::Steer(handle, second)
            &&& twice.sessions.contains_key(id)
            &&& twice.sessions[id] == (Player { handle, position: Some(second) })
            &&& twice.bodies.contains(handle)
        }),
{
}

/// A snapshot has one body to read for every session whose connection was
/// visited, no more and no fewer, whatever the order of the visit.
pub proof fn every_session_is_targeted_once(sessions: Map<u64, Player>, ids: Seq<u64>)
    requires
        ids.no_duplicates(),
    ensures
        targeted(sessions, ids).len() == ids.to_set().intersect(sessions.dom()).len(),
    decreases ids.len(),
{
    broadcast use vstd::set::group_set_axioms;
    broadcast use vstd::seq_lib::seq_to_set_is_finite;

    if ids.len() == 0 {
        assert(ids.to_set().intersect(sessions.dom()) =~= Set::<u64>::empty());
    } else {
        let rest = ids.drop_last();
        let id = ids.last();
        every_session_is_targeted_once(sessions, rest);
        assert(ids =~= rest.push(id));
        rest.lemma_push_to_set_commute(id);
        assert(!rest.to_set().contains(id)) by {
            if rest.contains(id) {
                let j = choose|j: int| 0 <= j < rest.len() && rest[j] == id;
                assert(ids[j] == ids[ids.len() - 1]);
            }
        }
        let fewer = rest.to_set().intersect(sessions.dom());
        assert(fewer.finite());
        if sessions.contains_key(id) {
            assert(ids.to_set().intersect(sessions.dom()) =~= fewer.insert(id));
        } else {
            assert(ids.to_set().intersect(sessions.dom()) =~= fewer);
        }
    }
}

} // verus!
