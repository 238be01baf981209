//! The receiving side of a node: which gossiped messages are taken.
//!
//! A message is taken only if its signature holds and its timestamp is strictly newer
//! than that of the last message taken from the same small id. A message replayed, or
//! one that arrives after a newer one, is discarded.

use crate::types::{AtomaP2pEvent, GossipMessage};
use std::collections::HashMap;
use vstd::prelude::*;

verus! {

/// Whether a message from `node_small_id` with `timestamp` is newer than all that was
/// taken from that small id, where `last` holds for each small id the timestamp of
/// the last message taken.
pub open spec fn is_fresh(last: Map<u64, u64>, node_small_id: u64, timestamp: u64) -> bool {
    last.contains_key(node_small_id) ==> timestamp > last[node_small_id]
}

/// Whether a message is taken: its signature must hold and it must be fresh.
pub open spec fn is_taken(
    last: Map<u64, u64>,
    node_small_id: u64,
    timestamp: u64,
    signature_holds: bool,
) -> bool {
    signature_holds && is_fresh(last, node_small_id, timestamp)
}

/// The small id that a gossiped message comes from.
pub open spec fn sender_of(message: GossipMessage) -> u64 {
    match message {
        GossipMessage::SignedNodeMessage(signed) =>
            signed.node_message.node_metadata.node_small_id,
    }
}

/// The timestamp that a gossiped message bears.
pub open spec fn timestamp_of(message: GossipMessage) -> u64 {
    match message {
        GossipMessage::SignedNodeMessage(signed) => signed.node_message.node_metadata.timestamp,
    }
}

/// The registration event that a gossiped message gives rise to when it is taken.
pub open spec fn registration_of(message: GossipMessage) -> AtomaP2pEvent {
    match message {
        GossipMessage::SignedNodeMessage(signed) => AtomaP2pEvent::NodeMetricsRegistrationEvent {
            public_url: signed.node_message.node_metadata.node_public_url,
            node_small_id: signed.node_message.node_metadata.node_small_id,
            timestamp: signed.node_message.node_metadata.timestamp,
            country: signed.node_message.node_metadata.country,
            node_metrics: signed.node_message.node_metrics,
        },
    }
}

/// The receiving side of a node. Remembers, for each small id, the timestamp of the
/// last message that was taken from it.
pub struct Receiver {
    last_taken: HashMap<u64, u64>,
}

impl View for Receiver {
    type V = Map<u64, u64>;

    closed spec fn view(&self) -> Map<u64, u64> {
        self.last_taken@
    }
}

impl Receiver {
    /// A receiver that has taken nothing yet.
    pub fn new() -> (receiver: Receiver)
        ensures
            receiver@ == Map::<u64, u64>::empty(),
    {
        Receiver { last_taken: HashMap::new() }
    }

    /// The timestamp of the last message taken from `node_small_id`.
    pub fn last_taken(&self, node_small_id: u64) -> (last: Option<u64>)
        ensures
            last == (if self@.contains_key(node_small_id) {
                Some(self@[node_small_id])
            } else {
                None
            }),
    {
        broadcast use vstd::std_specs::hash::group_hash_axioms;

        match self.last_taken.get(&node_small_id) {
            Some(last) => Some(*last),
            None => None,
        }
    }

    /// Offers a message from `node_small_id` with `timestamp` and says whether it is
    /// fresh. A fresh message is remembered as the last one taken; any other changes
    /// nothing.
    pub fn take_if_fresh(&mut self, node_small_id: u64, timestamp: u64) -> (taken: bool)
        ensures
            taken == is_fresh(old(self)@, node_small_id, timestamp),
            taken ==> final(self)@ == old(self)@.insert(node_small_id, timestamp),
            !taken ==> final(self)@ == old(self)@,
    {
        broadcast use vstd::std_specs::hash::group_hash_axioms;

        let fresh = match self.last_taken.get(&node_small_id) {
            Some(last) => timestamp > *last,
            None => true,
        };
        if fresh {
            self.last_taken.insert(node_small_id, timestamp);
        }
        fresh
    }

    /// Receives a gossiped message, given whether its signature holds.
    ///
    /// The message is taken only if the signature holds and the message is fresh. It is
    /// then remembered and gives rise to the registration of its sender. Any other
    /// message is discarded and changes nothing.
    pub fn receive(&mut self, message: GossipMessage, signature_holds: bool) -> (event: Option<
        AtomaP2pEvent,
    >)
        ensures
            is_taken(old(self)@, sender_of(message), timestamp_of(message), signature_holds) ==> {
                &&& event == Some(registration_of(message))
                &&& final(self)@ == old(self)@.insert(sender_of(message), timestamp_of(message))
            },
            !is_taken(old(self)@, sender_of(message), timestamp_of(message), signature_holds) ==> {
                &&& event is None
                &&& final(self)@ == old(self)@
            },
    {
        if !signature_holds {
            return None;
        }
        let GossipMessage::SignedNodeMessage(signed) = message;
        let node_small_id = signed.node_message.node_metadata.node_small_id;
        let timestamp = signed.node_message.node_metadata.timestamp;
        if self.take_if_fresh(node_small_id, timestamp) {
            Some(signed.node_message.into_registration_event())
        } else {
            None
        }
    }
}

/// A message that is taken cannot be taken again: the same timestamp from the same
/// small id is no longer fresh.
pub proof fn lemma_replay_is_discarded(last: Map<u64, u64>, node_small_id: u64, timestamp: u64)
    ensures
        !is_fresh(last.insert(node_small_id, timestamp), node_small_id, timestamp),
{
}

/// Once a message is taken, no message of the same small id with that timestamp or an
/// older one is taken, whatever its signature; messages of other small ids are judged
/// as before.
pub proof fn lemma_stale_is_discarded(
    last: Map<u64, u64>,
    node_small_id: u64,
    timestamp: u64,
    other_small_id: u64,
    later: u64,
    signature_holds: bool,
)
    ensures
        later <= timestamp ==> !is_taken(
            last.insert(node_small_id, timestamp),
            node_small_id,
            later,
            signature_holds,
        ),
        other_small_id != node_small_id ==> is_taken(
            last.insert(node_small_id, timestamp),
            other_small_id,
            later,
            signature_holds,
        ) == is_taken(last, other_small_id, later, signature_holds),
{
}

/// The timestamps taken from a small id only grow: a fresh message bears a timestamp
/// above the one remembered.
pub proof fn lemma_taken_timestamps_grow(last: Map<u64, u64>, node_small_id: u64, timestamp: u64)
    requires
        last.contains_key(node_small_id),
        is_fresh(last, node_small_id, timestamp),
    ensures
        last.insert(node_small_id, timestamp)[node_small_id] > last[node_small_id],
{
}

} // verus!
