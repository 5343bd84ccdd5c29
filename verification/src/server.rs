//! The tick loop's own state: the session registry and the tick count.
//!
//! The loop hands each event to [`Server::handle`] and performs the command
//! that comes back on the engine; the body of a `Spawn` it binds with
//! [`Server::on_connect`]. Once a tick it reconciles the registry with the
//! outbound channels and removes the bodies that went, steps the engine,
//! reads the bodies that [`Server::targets`] names and has
//! [`Server::snapshot`] assemble them.

use crate::keys::ids_of;
use crate::laws::every_session_is_targeted_once;
use crate::protocol::BodyHandle;
use crate::protocol::Command;
use crate::protocol::EntityState;
use crate::protocol::Player;
use crate::protocol::Point;
use crate::protocol::Snapshot;
use crate::registry::after;
use crate::registry::bound;
use crate::registry::command_for;
use crate::registry::distinct;
use crate::registry::handles;
use crate::registry::next_tick;
use crate::registry::present;
use crate::registry::reconciled;
use crate::registry::stale;
use crate::registry::targeted;
use crate::websocket::Receive;
use std::collections::HashMap;
use vstd::prelude::*;

verus! {

broadcast use vstd::std_specs::hash::group_hash_axioms;

/// Ticks in a second, unless the caller chooses otherwise.
pub const FPS: u64 = 60;

/// The time from the start of one tick to the start of the next, in whole
/// milliseconds, at `fps` ticks a second.
pub fn period(fps: u64) -> (millis: u64)
    requires
        fps > 0,
    ensures
        millis == 1000u64 / fps,
{
    1000 / fps
}

/// The bodies of the sessions of the connections in `seen` that are not
/// among `live`.
spec fn overdue(sessions: Map<u64, Player>, live: Set<u64>, seen: Set<u64>) -> Set<BodyHandle> {
    stale(sessions.restrict(seen), live)
}

/// Seeing one more connection adds its body to the overdue ones if the
/// connection is not live, and nothing otherwise.
proof fn lemma_overdue_grows(sessions: Map<u64, Player>, live: Set<u64>, seen: Set<u64>, id: u64)
    requires
        distinct(sessions),
        sessions.contains_key(id),
        !seen.contains(id),
    ensures
        live.contains(id) ==> overdue(sessions, live, seen.insert(id)) == overdue(
            sessions,
            live,
            seen,
        ),
        !live.contains(id) ==> !overdue(sessions, live, seen).contains(sessions[id].handle),
        !live.contains(id) ==> overdue(sessions, live, seen.insert(id)) == overdue(
            sessions,
            live,
            seen,
        ).insert(sessions[id].handle),
{
    let small = sessions.restrict(seen);
    let large = sessions.restrict(seen.insert(id));
    let fewer = overdue(sessions, live, seen);
    let more = overdue(sessions, live, seen.insert(id));
    assert forall|h: BodyHandle| fewer.contains(h) implies more.contains(h) && h
        != sessions[id].handle by {
        let k = choose|k: u64|
            small.contains_key(k) && !live.contains(k) && (#[trigger] small[k]).handle == h;
        assert(large.contains_key(k) && large[k].handle == h);
        assert(sessions[k].handle != sessions[id].handle);
    }
    assert forall|h: BodyHandle| more.contains(h) implies fewer.contains(h) || (!live.contains(id)
        && h == sessions[id].handle) by {
        let k = choose|k: u64|
            large.contains_key(k) && !live.contains(k) && (#[trigger] large[k]).handle == h;
        if k != id {
            assert(small.contains_key(k) && small[k].handle == h);
        }
    }
    if live.contains(id) {
        assert(more =~= fewer);
    } else {
        assert(large.contains_key(id) && large[id].handle == sessions[id].handle);
        assert(more =~= fewer.insert(sessions[id].handle));
    }
}

/// The session registry and the tick count. Only the tick loop holds one.
pub struct Server {
    players: HashMap<u64, Player>,
    tick: u64,
}

impl Server {
    /// The registry: which connection owns which session.
    pub closed spec fn sessions(&self) -> Map<u64, Player> {
        self.players@
    }

    /// The number that the next snapshot will carry.
    pub closed spec fn tick_number(&self) -> u64 {
        self.tick
    }

    /// No body belongs to two sessions.
    pub open spec fn wf(&self) -> bool {
        distinct(self.sessions())
    }

    /// A server without sessions, before its first tick.
    pub fn new() -> (server: Server)
        ensures
            server.wf(),
            server.sessions() == Map::<u64, Player>::empty(),
            server.tick_number() == 0,
    {
        Server { players: HashMap::new(), tick: 0 }
    }

    /// The number of sessions.
    pub fn len(&self) -> (n: usize)
        ensures
            n == self.sessions().len(),
    {
        self.players.len()
    }

    /// The session of connection `id`, if it has one.
    pub fn get(&self, id: u64) -> (session: Option<Player>)
        ensures
            session == (if self.sessions().contains_key(id) {
                Some(self.sessions()[id])
            } else {
                None
            }),
    {
        match self.players.get(&id) {
            Some(player) => Some(*player),
            None => None,
        }
    }

    /// The number of snapshots taken so far, which the next one will carry.
    pub fn ticks(&self) -> (ticks: u64)
        ensures
            ticks == self.tick_number(),
    {
        self.tick
    }

    /// Whether a session holds the body `handle`.
    pub fn owns(&self, handle: BodyHandle) -> (used: bool)
        ensures
            used == handles(self.sessions()).contains(handle),
    {
        let ids = ids_of(&self.players);
        let mut i: usize = 0;
        while i < ids.len()
            invariant
                i <= ids.len(),
                ids@.to_set() == self.players@.dom(),
                forall|j: int| 0 <= j < i ==> (#[trigger] self.players@[ids@[j]]).handle != handle,
            decreases ids.len() - i,
        {
            let id = ids[i];
            assert(ids@.to_set().contains(id));
            match self.players.get(&id) {
                Some(player) => {
                    if player.handle == handle {
                        return true;
                    }
                },
                None => {},
            }
            i = i + 1;
        }
        assert forall|id: u64| self.players@.contains_key(id) implies (
        #[trigger] self.players@[id]).handle != handle by {
            assert(ids@.to_set().contains(id));
            let j = choose|j: int| 0 <= j < ids@.len() && ids@[j] == id;
            assert(self.players@[ids@[j]].handle != handle);
        }
        false
    }

    /// Binds the body that the engine created to connection `id`: the
    /// connection has a new session without a command, in place of any it
    /// had. A handle that a session holds already is refused and nothing
    /// changes: an engine that is in order hands out none.
    pub fn on_connect(&mut self, id: u64, handle: BodyHandle) -> (fresh: bool)
        requires
            old(self).wf(),
        ensures
            final(self).wf(),
            fresh == !handles(old(self).sessions()).contains(handle),
            final(self).sessions() == (if fresh {
                bound(old(self).sessions(), id, handle)
            } else {
                old(self).sessions()
            }),
            final(self).tick_number() == old(self).tick_number(),
    {
        if self.owns(handle) {
            return false;
        }
        self.players.insert(id, Player::new(handle));
        assert(self.players@ =~= bound(old(self).players@, id, handle));
        assert forall|a: u64, b: u64|
            self.players@.contains_key(a) && self.players@.contains_key(b) && a != b implies (
        #[trigger] self.players@[a]).handle != (#[trigger] self.players@[b]).handle by {
            if a != id {
                assert(old(self).players@.contains_key(a));
            }
            if b != id {
                assert(old(self).players@.contains_key(b));
            }
        }
        true
    }

    /// Erases the session of connection `id` and asks for its body to be
    /// removed. Without a session nothing changes and nothing is asked.
    pub fn on_disconnect(&mut self, id: u64) -> (command: Command)
        requires
            old(self).wf(),
        ensures
            final(self).wf(),
            command == command_for(old(self).sessions(), Receive::Disconnect(id)),
            final(self).sessions() == after(old(self).sessions(), Receive::Disconnect(id)),
            final(self).tick_number() == old(self).tick_number(),
    {
        let removed = self.players.remove(&id);
        assert(self.players@ =~= old(self).players@.remove(id));
        match removed {
            Some(player) => Command::Remove(player.handle),
            None => Command::Idle,
        }
    }

    /// Takes up a command from connection `id`: it becomes the session's last
    /// command, and the body is to be steered by it. A frame that did not
    /// decode, a point out of range and a connection without a session change
    /// nothing and ask nothing.
    pub fn on_input(&mut self, id: u64, payload: Option<Point>) -> (command: Command)
        requires
            old(self).wf(),
        ensures
            final(self).wf(),
            command == command_for(old(self).sessions(), Receive::Message(id, payload)),
            final(self).sessions() == after(old(self).sessions(), Receive::Message(id, payload)),
            final(self).tick_number() == old(self).tick_number(),
    {
        let point = match payload {
            Some(point) => point,
            None => {
                return Command::Idle;
            },
        };
        if !point.is_in_range() {
            return Command::Idle;
        }
        let handle = match self.players.get(&id) {
            Some(player) => player.handle,
            None => {
                return Command::Idle;
            },
        };
        self.players.insert(id, Player { handle, position: Some(point) });
        assert(self.players@ =~= after(old(self).players@, Receive::Message(id, payload)));
        assert forall|a: u64, b: u64|
            self.players@.contains_key(a) && self.players@.contains_key(b) && a != b implies (
        #[trigger] self.players@[a]).handle != (#[trigger] self.players@[b]).handle by {
            assert(old(self).players@.contains_key(a));
            assert(old(self).players@.contains_key(b));
            assert(old(self).players@[a].handle == self.players@[a].handle);
            assert(old(self).players@[b].handle == self.players@[b].handle);
        }
        Command::Steer(handle, point)
    }

    /// Applies one event to the registry and says what the engine has to do
    /// for it.
    pub fn handle(&mut self, event: Receive) -> (command: Command)
        requires
            old(self).wf(),
        ensures
            final(self).wf(),
            command == command_for(old(self).sessions(), event),
            final(self).sessions() == after(old(self).sessions(), event),
            final(self).tick_number() == old(self).tick_number(),
    {
        match event {
            Receive::Connect(id) => Command::Spawn(id),
            Receive::Disconnect(id) => self.on_disconnect(id),
            Receive::Message(id, payload) => self.on_input(id, payload),
        }
    }

    /// Erases every session whose connection has no outbound channel any
    /// more, and names the bodies to remove, each once. A session whose
    /// `Disconnect` was lost goes here.
    ///
    /// `outbound` is the registry of outbound channels, or any map that has
    /// its keys.
    pub fn reconcile<V>(&mut self, outbound: &HashMap<u64, V>) -> (gone: Vec<BodyHandle>)
        requires
            old(self).wf(),
        ensures
            final(self).wf(),
            final(self).sessions() == reconciled(old(self).sessions(), outbound@.dom()),
            gone@.no_duplicates(),
            gone@.to_set() == stale(old(self).sessions(), outbound@.dom()),
            final(self).tick_number() == old(self).tick_number(),
    {
        let ghost before = self.players@;
        let ghost live = outbound@.dom();
        let ids = ids_of(&self.players);
        let mut gone: Vec<BodyHandle> = Vec::new();
        let mut i: usize = 0;
        while i < ids.len()
            invariant
                i <= ids.len(),
                distinct(before),
                live == outbound@.dom(),
                ids@.no_duplicates(),
                ids@.to_set() == before.dom(),
                self.tick == old(self).tick,
                self.players@ == before.remove_keys(ids@.take(i as int).to_set().difference(live)),
                gone@.no_duplicates(),
                gone@.to_set() == overdue(before, live, ids@.take(i as int).to_set()),
            decreases ids.len() - i,
        {
            let id = ids[i];
            let ghost seen = ids@.take(i as int).to_set();
            let ghost earlier = gone@;
            proof {
                assert(ids@.take(i + 1) =~= ids@.take(i as int).push(id));
                ids@.take(i as int).lemma_push_to_set_commute(id);
                assert(ids@.to_set().contains(id));
                lemma_overdue_grows(before, live, seen, id);
            }
            if !outbound.contains_key(&id) {
                match self.players.remove(&id) {
                    Some(player) => {
                        gone.push(player.handle);
                        proof {
                            earlier.lemma_push_to_set_commute(player.handle);
                            assert(!earlier.contains(player.handle));
                        }
                    },
                    None => {},
                }
            }
            assert(self.players@ =~= before.remove_keys(seen.insert(id).difference(live)));
            i = i + 1;
        }
        proof {
            assert(ids@.take(i as int) =~= ids@);
            assert(before.restrict(before.dom()) =~= before);
            assert(self.players@ =~= reconciled(before, live));
        }
        gone
    }

    /// The bodies to read for the snapshot. The connections that have an
    /// outbound channel are visited once each, in the order in which the map
    /// yields them; each one that has a session gives its body.
    pub fn targets<V>(&self, outbound: &HashMap<u64, V>) -> (bodies: Vec<BodyHandle>)
        ensures
            exists|ids: Seq<u64>|
                ids.no_duplicates() && ids.to_set() == outbound@.dom() && bodies@
                    == #[trigger] targeted(self.sessions(), ids),
            bodies@.len() == outbound@.dom().intersect(self.sessions().dom()).len(),
    {
        let ids = ids_of(outbound);
        let mut bodies: Vec<BodyHandle> = Vec::new();
        let mut i: usize = 0;
        while i < ids.len()
            invariant
                i <= ids.len(),
                bodies@ == targeted(self.players@, ids@.take(i as int)),
            decreases ids.len() - i,
        {
            assert(ids@.take(i + 1).drop_last() =~= ids@.take(i as int));
            match self.players.get(&ids[i]) {
                Some(player) => {
                    bodies.push(player.handle);
                },
                None => {},
            }
            i = i + 1;
        }
        proof {
            assert(ids@.take(i as int) =~= ids@);
            assert(bodies@ == targeted(self.sessions(), ids@));
            every_session_is_targeted_once(self.sessions(), ids@);
        }
        bodies
    }

    /// Assembles the snapshot of this tick from the states that were read, in
    /// their order, leaving out the bodies that the engine did not find, and
    /// counts the tick.
    pub fn snapshot(&mut self, states: &Vec<Option<EntityState>>) -> (snapshot: Snapshot)
        ensures
            snapshot.entities@ == present(states@),
            snapshot.tick == old(self).tick_number(),
            final(self).tick_number() == next_tick(old(self).tick_number()),
            final(self).sessions() == old(self).sessions(),
    {
        let mut entities: Vec<EntityState> = Vec::new();
        let mut i: usize = 0;
        while i < states.len()
            invariant
                i <= states.len(),
                entities@ == present(states@.take(i as int)),
            decreases states.len() - i,
        {
            assert(states@.take(i + 1).drop_last() =~= states@.take(i as int));
            match states[i] {
                Some(state) => {
                    entities.push(state);
                },
                None => {},
            }
            i = i + 1;
        }
        assert(states@.take(i as int) =~= states@);
        let tick = self.tick;
        if self.tick < u64::MAX {
            self.tick = self.tick + 1;
        }
        Snapshot { entities, tick }
    }
}

} // verus!
