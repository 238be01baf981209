//! The publishing side of a node: the telemetry cycle, step by step, and the node's
//! standing among its peers.
//!
//! A cycle alternates between decisions, which are made here, and work that only the
//! caller can do: encoding a message, signing a hash, encoding the signed message.
//! Each stage of a cycle says what it waits for; the caller does that work and hands
//! the result to `Cycle::advance`. A cycle that fails at any step publishes nothing,
//! and the next heartbeat starts a new one.

use crate::metrics::{NodeMetrics, NodeMetricsError};
use crate::types::{
    AtomaP2pEvent, AtomaP2pNodeError, NodeMessage, NodeP2pMetadata, SerializeWithHash,
    SerializeWithSignature, SerializedMessage, SignedNodeMessage,
};
use vstd::prelude::*;

verus! {

/// The standing of a node among its peers.
#[derive(Debug, Clone, Copy, PartialEq, Eq, Structural)]
pub enum IdentityState {
    /// The node has published nothing yet.
    Unregistered,
    /// The node has published once.
    Registered,
    /// The node has published again since it registered.
    Republished,
}

impl IdentityState {
    /// The standing after one more publication.
    pub open spec fn spec_after_publication(self) -> IdentityState {
        match self {
            IdentityState::Unregistered => IdentityState::Registered,
            IdentityState::Registered => IdentityState::Republished,
            IdentityState::Republished => IdentityState::Republished,
        }
    }

    /// The standing after one more publication.
    pub fn after_publication(self) -> (next: IdentityState)
        ensures
            next == self.spec_after_publication(),
    {
        match self {
            IdentityState::Unregistered => IdentityState::Registered,
            IdentityState::Registered => IdentityState::Republished,
            IdentityState::Republished => IdentityState::Republished,
        }
    }
}

/// A telemetry cycle, at one of its stages.
#[derive(Debug, PartialEq, Eq)]
pub enum Cycle {
    /// Waits for the canonical encoding of the message.
    AwaitingEncoding(NodeMessage),
    /// Waits for the signature over the hash of the message's canonical bytes.
    AwaitingSignature(NodeMessage, SerializedMessage),
    /// Waits for the canonical encoding of the signed message.
    AwaitingEnvelope(SignedNodeMessage),
    /// Done: the signed message and the bytes to gossip.
    Published(SignedNodeMessage, Vec<u8>),
    /// Done: nothing is published, for the reason given.
    Aborted(AtomaP2pNodeError),
}

/// How a cycle begins, for a node whose last publication, if any, bore the timestamp
/// `last`.
///
/// Without usage metrics there is nothing to publish. A message older than the last
/// one is not published either: the timestamps of a node never decrease. Otherwise
/// the message is made and waits for its encoding.
pub open spec fn begins(
    last: Option<u64>,
    metadata: NodeP2pMetadata,
    collected: Result<NodeMetrics, NodeMetricsError>,
    cycle: Cycle,
) -> bool {
    match collected {
        Err(error) => cycle == Cycle::Aborted(AtomaP2pNodeError::UsageMetricsError(error)),
        Ok(metrics) => if last is Some && metadata.timestamp < last->Some_0 {
            cycle == Cycle::Aborted(AtomaP2pNodeError::TimestampRegression)
        } else {
            cycle == Cycle::AwaitingEncoding(
                NodeMessage { node_metadata: metadata, node_metrics: metrics },
            )
        },
    }
}

/// How a cycle moves on when the work that it waits for is done, with `reply` as the
/// bytes that the work gave or the description of its failure.
///
/// Each failure ends the cycle. An encoding is hashed; a signature is joined to its
/// message; the encoding of the signed message is what is published. A cycle that is
/// done stays as it is.
pub open spec fn advances(stage: Cycle, reply: Result<Vec<u8>, String>, next: Cycle) -> bool {
    match stage {
        Cycle::AwaitingEncoding(message) => match reply {
            Ok(bytes) => next matches Cycle::AwaitingSignature(same, framed) && same == message
                && framed.message == bytes && framed.is_intact(),
            Err(reason) => next == Cycle::Aborted(
                AtomaP2pNodeError::UsageMetricsSerializeError(reason),
            ),
        },
        Cycle::AwaitingSignature(message, framed) => match reply {
            Ok(signature) => next == Cycle::AwaitingEnvelope(
                SignedNodeMessage { node_message: message, signature },
            ),
            Err(reason) => next == Cycle::Aborted(AtomaP2pNodeError::SignatureError(reason)),
        },
        Cycle::AwaitingEnvelope(signed) => match reply {
            Ok(bytes) => next == Cycle::Published(signed, bytes),
            Err(reason) => next == Cycle::Aborted(
                AtomaP2pNodeError::UsageMetricsSerializeError(reason),
            ),
        },
        Cycle::Published(_, _) => next == stage,
        Cycle::Aborted(_) => next == stage,
    }
}

impl Cycle {
    /// Whether the cycle is over.
    pub open spec fn is_done(&self) -> bool {
        self is Published || self is Aborted
    }

    /// Moves the cycle on with the result of the work that it waited for.
    pub fn advance(self, reply: Result<Vec<u8>, String>) -> (next: Cycle)
        ensures
            advances(self, reply, next),
    {
        match self {
            Cycle::AwaitingEncoding(message) => {
                match message.serialize_with_hash(reply) {
                    Ok(framed) => Cycle::AwaitingSignature(message, framed),
                    Err(error) => Cycle::Aborted(error),
                }
            },
            Cycle::AwaitingSignature(message, _framed) => {
                match reply {
                    Ok(signature) => Cycle::AwaitingEnvelope(
                        SignedNodeMessage { node_message: message, signature },
                    ),
                    Err(reason) => Cycle::Aborted(AtomaP2pNodeError::SignatureError(reason)),
                }
            },
            Cycle::AwaitingEnvelope(signed) => {
                match signed.serialize_with_signature(reply) {
                    Ok(bytes) => Cycle::Published(signed, bytes),
                    Err(error) => Cycle::Aborted(error),
                }
            },
            Cycle::Published(signed, bytes) => Cycle::Published(signed, bytes),
            Cycle::Aborted(error) => Cycle::Aborted(error),
        }
    }
}

/// What a cycle that went through hands to the gossip layer.
#[derive(Debug, PartialEq, Eq)]
pub struct Publication {
    /// The bytes to gossip: the canonical encoding of the signed message.
    pub payload: Vec<u8>,
    /// The signature that the payload carries.
    pub signature: Vec<u8>,
    /// The event by which the node registers among its peers.
    pub event: AtomaP2pEvent,
}

/// What became of a challenge to the ownership of a small id.
#[derive(Debug, PartialEq, Eq)]
pub enum ChallengeOutcome {
    /// The challenge does not name this node's small id; it is not this node's to
    /// answer.
    NotAddressed,
    /// The node gave the proof in time.
    Proven(Vec<u8>),
    /// No proof came in time. The node goes on as before.
    Unanswered,
}

/// The publishing side of a node.
#[derive(Debug, PartialEq, Eq)]
pub struct Publisher {
    state: IdentityState,
    last_timestamp: Option<u64>,
}

impl Publisher {
    /// The standing of the node.
    pub closed spec fn spec_state(&self) -> IdentityState {
        self.state
    }

    /// The timestamp of the node's last publication.
    pub closed spec fn spec_last_timestamp(&self) -> Option<u64> {
        self.last_timestamp
    }

    /// A node has published something if and only if it is no longer unregistered.
    pub open spec fn well_formed(&self) -> bool {
        self.spec_state() == IdentityState::Unregistered <==> self.spec_last_timestamp() is None
    }

    /// A node that has published nothing yet.
    pub fn new() -> (publisher: Publisher)
        ensures
            publisher.spec_state() == IdentityState::Unregistered,
            publisher.spec_last_timestamp() is None,
            publisher.well_formed(),
    {
        Publisher { state: IdentityState::Unregistered, last_timestamp: None }
    }

    /// The standing of the node.
    pub fn state(&self) -> (state: IdentityState)
        ensures
            state == self.spec_state(),
    {
        self.state
    }

    /// The timestamp of the node's last publication.
    pub fn last_timestamp(&self) -> (last: Option<u64>)
        ensures
            last == self.spec_last_timestamp(),
    {
        self.last_timestamp
    }

    /// Begins a telemetry cycle with what the node says of itself and what the
    /// collection of its usage metrics gave.
    pub fn begin(
        &self,
        metadata: NodeP2pMetadata,
        collected: Result<NodeMetrics, NodeMetricsError>,
    ) -> (cycle: Cycle)
        ensures
            begins(self.spec_last_timestamp(), metadata, collected, cycle),
    {
        match collected {
            Err(error) => Cycle::Aborted(AtomaP2pNodeError::UsageMetricsError(error)),
            Ok(metrics) => {
                if let Some(last) = self.last_timestamp {
                    if metadata.timestamp < last {
                        return Cycle::Aborted(AtomaP2pNodeError::TimestampRegression);
                    }
                }
                Cycle::AwaitingEncoding(
                    NodeMessage { node_metadata: metadata, node_metrics: metrics },
                )
            },
        }
    }

    /// Ends a telemetry cycle.
    ///
    /// A cycle that went through is published: the node's standing moves on, the
    /// message's timestamp is remembered, and the payload is handed out with the
    /// registration event. Any other cycle publishes nothing and leaves the node as it
    /// was.
    pub fn complete(&mut self, cycle: Cycle) -> (publication: Option<Publication>)
        ensures
            match cycle {
                Cycle::Published(signed, bytes) => {
                    &&& publication == Some(
                        Publication {
                            payload: bytes,
                            signature: signed.signature,
                            event: AtomaP2pEvent::NodeMetricsRegistrationEvent {
                                public_url: signed.node_message.node_metadata.node_public_url,
                                node_small_id: signed.node_message.node_metadata.node_small_id,
                                timestamp: signed.node_message.node_metadata.timestamp,
                                country: signed.node_message.node_metadata.country,
                                node_metrics: signed.node_message.node_metrics,
                            },
                        },
                    )
                    &&& final(self).spec_state() == old(self).spec_state().spec_after_publication()
                    &&& final(self).spec_last_timestamp() == Some(
                        signed.node_message.node_metadata.timestamp,
                    )
                    &&& final(self).well_formed()
                },
                _ => publication is None && *final(self) == *old(self),
            },
    {
        match cycle {
            Cycle::Published(signed, bytes) => {
                self.state = self.state.after_publication();
                self.last_timestamp = Some(signed.node_message.node_metadata.timestamp);
                let SignedNodeMessage { node_message, signature } = signed;
                Some(
                    Publication {
                        payload: bytes,
                        signature,
                        event: node_message.into_registration_event(),
                    },
                )
            },
            _ => None,
        }
    }
}

/// Answers a challenge to the ownership of a small id, for a node whose small id is
/// `node_small_id`, with the proof that the node produced, or `None` where it
/// produced none in time.
///
/// A challenge that names another small id is not this node's to answer. A missing
/// proof is reported as such: it is an outcome, not a failure of the node.
pub fn answer_challenge(
    node_small_id: u64,
    challenge: &AtomaP2pEvent,
    evidence: Option<Vec<u8>>,
) -> (outcome: ChallengeOutcome)
    ensures
        outcome == (match *challenge {
            AtomaP2pEvent::VerifyNodeSmallIdOwnership { node_small_id: named, .. } => if named
                == node_small_id {
                match evidence {
                    Some(bytes) => ChallengeOutcome::Proven(bytes),
                    None => ChallengeOutcome::Unanswered,
                }
            } else {
                ChallengeOutcome::NotAddressed
            },
            _ => ChallengeOutcome::NotAddressed,
        }),
{
    match challenge {
        AtomaP2pEvent::VerifyNodeSmallIdOwnership { node_small_id: named, .. } => {
            if *named == node_small_id {
                match evidence {
                    Some(bytes) => ChallengeOutcome::Proven(bytes),
                    None => ChallengeOutcome::Unanswered,
                }
            } else {
                ChallengeOutcome::NotAddressed
            }
        },
        _ => ChallengeOutcome::NotAddressed,
    }
}

/// A cycle for which no usage metrics could be collected is over as it begins, and
/// published nothing.
pub proof fn lemma_failed_collection_aborts(
    last: Option<u64>,
    metadata: NodeP2pMetadata,
    collected: Result<NodeMetrics, NodeMetricsError>,
    cycle: Cycle,
)
    requires
        collected is Err,
        begins(last, metadata, collected, cycle),
    ensures
        cycle is Aborted,
{
}

/// A cycle that is not aborted as it begins bears a timestamp that is not older than
/// that of the node's last publication: the timestamps that a node publishes never
/// decrease.
pub proof fn lemma_timestamps_never_decrease(
    last: Option<u64>,
    metadata: NodeP2pMetadata,
    collected: Result<NodeMetrics, NodeMetricsError>,
    cycle: Cycle,
)
    requires
        begins(last, metadata, collected, cycle),
        !(cycle is Aborted),
    ensures
        last is Some ==> metadata.timestamp >= last->Some_0,
        cycle matches Cycle::AwaitingEncoding(message) && message.node_metadata == metadata,
{
}

/// A cycle that is over does not move: what was aborted is never published.
pub proof fn lemma_done_stays_done(stage: Cycle, reply: Result<Vec<u8>, String>, next: Cycle)
    requires
        stage.is_done(),
        advances(stage, reply, next),
    ensures
        next == stage,
{
}

/// Every cycle is over once it has been moved on three times, whatever the outside
/// work gave.
pub proof fn lemma_cycle_ends_in_three_steps(
    begun: Cycle,
    first: Result<Vec<u8>, String>,
    second: Result<Vec<u8>, String>,
    third: Result<Vec<u8>, String>,
    hashed: Cycle,
    signed: Cycle,
    sealed: Cycle,
)
    requires
        advances(begun, first, hashed),
        advances(hashed, second, signed),
        advances(signed, third, sealed),
    ensures
        sealed.is_done(),
{
}

/// A cycle with usage metrics and a timestamp that is not older than the last one
/// goes through whenever the three pieces of outside work succeed: it is then
/// published, with the message that it began with, the signature that was given, and
/// the bytes that the last encoding gave.
pub proof fn lemma_cycle_goes_through(
    last: Option<u64>,
    metadata: NodeP2pMetadata,
    metrics: NodeMetrics,
    encoding: Vec<u8>,
    signature: Vec<u8>,
    envelope: Vec<u8>,
    begun: Cycle,
    hashed: Cycle,
    signed: Cycle,
    sealed: Cycle,
)
    requires
        last is Some ==> metadata.timestamp >= last->Some_0,
        begins(last, metadata, Ok(metrics), begun),
        advances(begun, Ok(encoding), hashed),
        advances(hashed, Ok(signature), signed),
        advances(signed, Ok(envelope), sealed),
    ensures
        sealed == Cycle::Published(
            SignedNodeMessage {
                node_message: NodeMessage { node_metadata: metadata, node_metrics: metrics },
                signature,
            },
            envelope,
        ),
{
}

} // verus!
