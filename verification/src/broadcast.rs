//! The broadcast sink: one frame, offered once to every connection.
//!
//! Each offer is made without waiting and stands alone. A connection whose
//! channel is full loses this frame and nothing else; the next tick's frame
//! takes its place.

use crate::keys::ids_of;
use crate::websocket::frame_ends;
use crate::websocket::frame_slots;
use crate::websocket::offer;
use crate::websocket::Offer;
use crate::websocket::Outbound;
use futures_channel::mpsc::Receiver;
use vstd::prelude::*;

verus! {

broadcast use vstd::std_specs::hash::group_hash_axioms;

/// One offer of the frame: to which connection, and how it ended.
#[derive(Clone, Copy, Debug, PartialEq, Eq)]
pub struct Attempt {
    pub id: u64,
    pub outcome: Offer,
}

/// The connections that were offered the frame, in the order of the offers.
pub open spec fn recipients(report: Seq<Attempt>) -> Seq<u64> {
    report.map_values(|attempt: Attempt| attempt.id)
}

/// Offers a copy of `frame` to every connection in the registry, once each,
/// and reports each offer. No offer waits, and none depends on how another
/// ended: the connections that were offered the frame are those of the
/// registry, whatever their channels answered. The registry keeps its
/// connections, a full channel's too, each with the channel it had and the
/// slots that channel was made with.
pub fn broadcast(outbound: &mut Outbound, frame: &String) -> (report: Vec<Attempt>)
    ensures
        final(outbound)@.dom() == old(outbound)@.dom(),
        forall|k: u64| #[trigger]
            old(outbound)@.contains_key(k) ==> frame_slots(final(outbound)@[k]) == frame_slots(
                old(outbound)@[k],
            ),
        forall|k: u64, receiver: Receiver<String>|
            old(outbound)@.contains_key(k) ==> frame_ends(final(outbound)@[k], receiver)
                == #[trigger] frame_ends(old(outbound)@[k], receiver),
        recipients(report@).no_duplicates(),
        recipients(report@).to_set() == old(outbound)@.dom(),
{
    let ids = ids_of(outbound);
    let mut report: Vec<Attempt> = Vec::new();
    let mut i: usize = 0;
    while i < ids.len()
        invariant
            i <= ids.len(),
            ids@.to_set() == old(outbound)@.dom(),
            outbound@.dom() == old(outbound)@.dom(),
            forall|k: u64| #[trigger]
                old(outbound)@.contains_key(k) ==> frame_slots(outbound@[k]) == frame_slots(
                    old(outbound)@[k],
                ),
            forall|k: u64, receiver: Receiver<String>|
                old(outbound)@.contains_key(k) ==> frame_ends(outbound@[k], receiver)
                    == #[trigger] frame_ends(old(outbound)@[k], receiver),
            recipients(report@) == ids@.take(i as int),
        decreases ids.len() - i,
    {
        let id = ids[i];
        let ghost earlier = report@;
        assert(ids@.to_set().contains(id));
        match outbound.remove(&id) {
            Some(mut sender) => {
                let outcome = offer(&mut sender, frame.clone());
                outbound.insert(id, sender);
                report.push(Attempt { id, outcome });
            },
            None => {},
        }
        assert(outbound@.dom() =~= old(outbound)@.dom());
        assert(recipients(report@) =~= ids@.take(i + 1)) by {
            assert(report@ =~= earlier.push(report@.last()));
            assert(ids@.take(i + 1) =~= ids@.take(i as int).push(id));
        }
        i = i + 1;
    }
    assert(ids@.take(i as int) =~= ids@);
    report
}

} // verus!
