//! The event queue between the connections and the tick loop, the registry of
//! outbound channels, and what a connection does to the registry and tells
//! the tick loop when it opens, hears from its client and closes.
//!
//! The channels are those of `futures_channel::mpsc`. What a channel holds at
//! any moment depends on the tasks at its other end, so nothing here claims
//! to know whether an offer will be accepted or how many events are waiting.

use crate::keys::ids_of;
use crate::protocol::Point;
use futures_channel::mpsc::Receiver;
use futures_channel::mpsc::Sender;
use std::collections::HashMap;
use std::sync::Arc;
use std::sync::Mutex;
use vstd::prelude::*;

verus! {

broadcast use vstd::std_specs::hash::group_hash_axioms;

/// The sending end of a bounded channel, `futures_channel::mpsc::Sender`.
/// Nothing is known of what is inside.
#[verifier::external_type_specification]
#[verifier::external_body]
#[verifier::reject_recursive_types(T)]
pub struct ExSender<T>(Sender<T>);

/// The receiving end of a bounded channel, `futures_channel::mpsc::Receiver`.
/// Nothing is known of what is inside.
#[verifier::external_type_specification]
#[verifier::external_body]
#[verifier::reject_recursive_types(T)]
pub struct ExReceiver<T>(Receiver<T>);

/// `std::sync::Mutex`. Nothing is known of what it guards: other tasks change
/// it whenever the lock is free.
#[verifier::external_type_specification]
#[verifier::external_body]
#[verifier::reject_recursive_types(T)]
pub struct ExMutex<T: ?Sized>(Mutex<T>);

/// What reaches the tick loop from the connections. A connection is named by
/// a number that no other live connection has.
#[derive(Clone, Copy, Debug, PartialEq, Eq)]
pub enum Receive {
    /// The connection was accepted.
    Connect(u64),
    /// The connection is gone.
    Disconnect(u64),
    /// The connection sent a frame: the point it decoded to, or `None` where
    /// it was no text or did not decode.
    Message(u64, Option<Point>),
}

/// How an offer to a bounded channel ended.
#[derive(Clone, Copy, Debug, PartialEq, Eq, Structural)]
pub enum Offer {
    /// The item is in the channel.
    Accepted,
    /// The channel had no room; the item is dropped.
    Full,
    /// The receiving end is gone; the item is dropped.
    Closed,
}

/// The outbound channels of the live connections, by connection.
pub type Outbound = HashMap<u64, Sender<String>>;

/// The outbound registry as the tasks share it.
pub type SendMap = Arc<Mutex<Outbound>>;

/// The end of the event queue that the connections hold.
pub type ReceiveSender = Sender<Receive>;

/// The end of the event queue that the tick loop holds.
pub type ReceiveReceiver = Receiver<Receive>;

/// A channel can be asked for fewer slots than this.
pub const MAX_BUFFER: usize = usize::MAX / 4;

/// The number of shared slots that the event queue of this sender was made
/// with.
pub uninterp spec fn queue_slots(sender: Sender<Receive>) -> usize;

/// The number of shared slots that the outbound channel of this sender was
/// made with.
pub uninterp spec fn frame_slots(sender: Sender<String>) -> usize;

/// Whether the two are the ends of one event queue: what is accepted from
/// the sender, or from a clone of it, is what the receiver yields.
pub uninterp spec fn queue_ends(sender: Sender<Receive>, receiver: Receiver<Receive>) -> bool;

/// Whether the two are the ends of one outbound channel.
pub uninterp spec fn frame_ends(sender: Sender<String>, receiver: Receiver<String>) -> bool;

/// The registry that a lock was made around. What the lock guards now is
/// another matter: the tasks that share it change that.
pub uninterp spec fn made_around(lock: Mutex<Outbound>) -> Map<u64, Sender<String>>;

/// `futures_channel::mpsc::channel` for events: a new bounded channel with
/// `buffer` shared slots, of which the two values are the ends. The call
/// panics unless `buffer` is below the crate's own limit, a quarter of the
/// address range.
#[verifier::external_body]
fn event_channel(buffer: usize) -> (ends: (Sender<Receive>, Receiver<Receive>))
    requires
        buffer < MAX_BUFFER,
    ensures
        queue_slots(ends.0) == buffer,
        queue_ends(ends.0, ends.1),
{
    futures_channel::mpsc::channel(buffer)
}

/// `futures_channel::mpsc::channel` for frames: a new bounded channel with
/// `buffer` shared slots, of which the two values are the ends. The call
/// panics unless `buffer` is below the crate's own limit, a quarter of the
/// address range.
#[verifier::external_body]
fn frame_channel(buffer: usize) -> (ends: (Sender<String>, Receiver<String>))
    requires
        buffer < MAX_BUFFER,
    ensures
        frame_slots(ends.0) == buffer,
        frame_ends(ends.0, ends.1),
{
    futures_channel::mpsc::channel(buffer)
}

/// `Sender::try_send`: offers `frame` without waiting and says how that
/// ended. Whether there is room depends on the other end, so nothing is
/// promised of the outcome. The sender stays the end of the channel that it
/// was, and the channel keeps the slots it was made with.
#[verifier::external_body]
pub(crate) fn offer(sender: &mut Sender<String>, frame: String) -> (outcome: Offer)
    ensures
        frame_slots(*final(sender)) == frame_slots(*old(sender)),
        forall|receiver: Receiver<String>|
            frame_ends(*final(sender), receiver) == #[trigger] frame_ends(*old(sender), receiver),
{
    match sender.try_send(frame) {
        Ok(()) => Offer::Accepted,
        Err(e) if e.is_full() => Offer::Full,
        Err(_) => Offer::Closed,
    }
}

/// `Receiver::try_next`: the next event if one is waiting, without waiting
/// for one. `None` stands both for an empty channel and for a closed one.
#[verifier::external_body]
#[allow(deprecated)]
fn take(receiver: &mut Receiver<Receive>) -> (item: Option<Receive>) {
    match receiver.try_next() {
        Ok(Some(item)) => Some(item),
        Ok(None) => None,
        Err(_) => None,
    }
}

/// `Mutex::new`: a lock around `map`.
#[verifier::external_body]
fn guarded(map: Outbound) -> (lock: Mutex<Outbound>)
    ensures
        made_around(lock) == map@,
{
    Mutex::new(map)
}

/// An outbound registry with no connection in it, ready to be shared.
pub fn send_map() -> (shared: SendMap)
    ensures
        made_around(*shared) == Map::<u64, Sender<String>>::empty(),
{
    Arc::new(guarded(HashMap::new()))
}

/// The event queue: the two ends of a new bounded channel with `buffer`
/// shared slots and one more for each sender.
pub fn receive_channel(buffer: usize) -> (ends: (ReceiveSender, ReceiveReceiver))
    requires
        buffer < MAX_BUFFER,
    ensures
        queue_slots(ends.0) == buffer,
        queue_ends(ends.0, ends.1),
{
    event_channel(buffer)
}

/// What a drain makes of one answer of the queue: an event goes to the end
/// of those gathered so far and the drain goes on; with no event the drain
/// is over and what was gathered stays as it is.
pub fn gather(events: &mut Vec<Receive>, taken: Option<Receive>) -> (more: bool)
    ensures
        more == taken is Some,
        final(events)@ == (match taken {
            Some(event) => old(events)@.push(event),
            None => old(events)@,
        }),
{
    match taken {
        Some(event) => {
            events.push(event);
            true
        },
        None => false,
    }
}

/// Takes the events that are waiting, oldest first, and stops at the first
/// moment the queue is empty or after `limit` events, whichever comes first.
/// It never waits.
pub fn drain(receiver: &mut ReceiveReceiver, limit: usize) -> (events: Vec<Receive>)
    ensures
        events@.len() <= limit,
{
    let mut events: Vec<Receive> = Vec::new();
    while events.len() < limit
        invariant
            events@.len() <= limit,
        decreases limit - events@.len(),
    {
        let taken = take(receiver);
        if !gather(&mut events, taken) {
            return events;
        }
    }
    events
}

/// The connections that have an outbound channel, copied out so that the
/// registry need not stay locked while the tick loop works with them.
pub fn connections(outbound: &Outbound) -> (live: HashMap<u64, ()>)
    ensures
        live@.dom() == outbound@.dom(),
{
    let ids = ids_of(outbound);
    let mut live: HashMap<u64, ()> = HashMap::new();
    let mut i: usize = 0;
    while i < ids.len()
        invariant
            i <= ids.len(),
            live@.dom() == ids@.take(i as int).to_set(),
        decreases ids.len() - i,
    {
        proof {
            assert(ids@.take(i + 1) =~= ids@.take(i as int).push(ids@[i as int]));
            ids@.take(i as int).lemma_push_to_set_commute(ids@[i as int]);
        }
        live.insert(ids[i], ());
        assert(live@.dom() =~= ids@.take(i + 1).to_set());
        i = i + 1;
    }
    assert(ids@.take(i as int) =~= ids@);
    live
}

/// A connection was accepted: gives it an outbound channel with `buffer`
/// shared slots and enters the sending end in the registry under `id`; every
/// other connection keeps the sender it had. The receiving end of the same
/// channel goes to the task that writes to the client, and the event is what
/// the tick loop is to be told, once the registry holds the connection.
pub fn open(outbound: &mut Outbound, id: u64, buffer: usize) -> (out: (Receiver<String>, Receive))
    requires
        buffer < MAX_BUFFER,
    ensures
        out.1 == Receive::Connect(id),
        final(outbound)@.dom() == old(outbound)@.dom().insert(id),
        frame_slots(final(outbound)@[id]) == buffer,
        frame_ends(final(outbound)@[id], out.0),
        forall|k: u64|
            k != id && old(outbound)@.contains_key(k) ==> #[trigger] final(outbound)@[k] == old(
                outbound,
            )@[k],
{
    let (tx, rx) = frame_channel(buffer);
    outbound.insert(id, tx);
    (rx, Receive::Connect(id))
}

/// A frame came in on connection `id`: what the tick loop is to be told.
pub fn forward(id: u64, payload: Option<Point>) -> (event: Receive)
    ensures
        event == Receive::Message(id, payload),
{
    Receive::Message(id, payload)
}

/// The connection is gone: takes it out of the registry, where every other
/// connection keeps the sender it had. The event is what the tick loop is to
/// be told; should the queue drop it, the tick loop finds the session by the
/// registry alone.
pub fn close(outbound: &mut Outbound, id: u64) -> (event: Receive)
    ensures
        event == Receive::Disconnect(id),
        final(outbound)@ == old(outbound)@.remove(id),
{
    outbound.remove(&id);
    assert(outbound@ =~= old(outbound)@.remove(id));
    Receive::Disconnect(id)
}

} // verus!
