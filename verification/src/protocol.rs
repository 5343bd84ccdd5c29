//! The plain values that pass between the tick loop, the connections and the
//! simulation engine. Numbers that belong to the engine are carried as the
//! bit patterns of IEEE 754 single-precision values.

use vstd::prelude::*;

verus! {

/// All bits of a single-precision number but its sign: its magnitude. Among
/// numbers, a larger magnitude has the larger pattern, and every infinity and
/// NaN lies above every number.
pub const MAGNITUDE_MASK: u32 = 0x7fff_ffff;

/// The magnitude of 1024, the largest that a component of a command may
/// have.
pub const SPEED_LIMIT: u32 = 0x4480_0000;

/// Names one body in the simulation engine's store: the slot it occupies and
/// the generation of that slot. The registry keeps handles, never bodies, so
/// that adding or removing one body leaves every other handle as it was.
#[derive(Clone, Copy, Debug, PartialEq, Eq, Hash, Structural)]
pub struct BodyHandle {
    pub index: u32,
    pub generation: u32,
}

/// A two-dimensional command of a client: the velocity that its body is to
/// have, each component the bit pattern of a single-precision number.
#[derive(Clone, Copy, Debug, PartialEq, Eq, Structural)]
pub struct Point {
    pub x: u32,
    pub y: u32,
}

impl Point {
    /// Both components are numbers of a magnitude up to the speed limit. No
    /// infinity and no NaN is.
    pub open spec fn in_range(self) -> bool {
        self.x & MAGNITUDE_MASK <= SPEED_LIMIT && self.y & MAGNITUDE_MASK <= SPEED_LIMIT
    }

    /// Whether the point can be handed to the engine as a velocity: both
    /// components are numbers of a magnitude up to the speed limit.
    pub fn is_in_range(&self) -> (ok: bool)
        ensures
            ok == self.in_range(),
    {
        self.x & MAGNITUDE_MASK <= SPEED_LIMIT && self.y & MAGNITUDE_MASK <= SPEED_LIMIT
    }
}

/// One session: the body that a connection owns and the last command that the
/// connection sent, if it has sent one that was accepted.
#[derive(Clone, Copy, Debug, PartialEq, Eq)]
pub struct Player {
    pub handle: BodyHandle,
    pub position: Option<Point>,
}

impl Player {
    /// A session that has received no command yet.
    pub fn new(handle: BodyHandle) -> (player: Player)
        ensures
            player == (Player { handle, position: None }),
    {
        Player { handle, position: None }
    }
}

/// Where one body is and how it is turned: position, then the cosine and sine
/// of its rotation, each the bit pattern of a single-precision number.
#[derive(Clone, Copy, Debug, PartialEq, Eq, Structural)]
pub struct EntityState {
    pub x: u32,
    pub y: u32,
    pub cos: u32,
    pub sin: u32,
}

/// What every client is sent after a tick: the bodies of the sessions that can
/// be reached, in the order in which they were read, and the number of the
/// tick.
#[derive(Debug, PartialEq, Eq)]
pub struct Snapshot {
    pub entities: Vec<EntityState>,
    pub tick: u64,
}

/// What the tick loop has to do to the simulation engine for one event.
#[derive(Clone, Copy, Debug, PartialEq, Eq)]
pub enum Command {
    /// Create a body for this connection and bind its handle with
    /// `on_connect`.
    Spawn(u64),
    /// Remove this body and everything attached to it.
    Remove(BodyHandle),
    /// Give this body the commanded velocity.
    Steer(BodyHandle, Point),
    /// Nothing: the event was a duplicate, came from a connection without a
    /// session, or carried nothing that could be taken up.
    Idle,
}

} // verus!
