//! The messages that nodes gossip, and the events that they give rise to.
//!
//! A node message pairs what a node says of itself with its usage metrics. Its
//! canonical bytes are hashed, the hash is signed, and message and signature travel
//! together. The canonical bytes, and the signature, are made by the caller; this
//! module frames them and says what the frame holds.

use crate::metrics::NodeMetrics;
use vstd::prelude::*;

verus! {

/// The BLAKE3 hash of `input`: 32 bytes.
pub uninterp spec fn blake3_digest(input: Seq<u8>) -> Seq<u8>;

/// Hashes `input` with `blake3::hash`, the default hash function of the `blake3`
/// crate, and hands out the 32 bytes of the result. The contract names that result.
#[verifier::external_body]
fn blake3_hash(input: &[u8]) -> (digest: [u8; 32])
    ensures
        digest@ == blake3_digest(input@),
{
    *blake3::hash(input).as_bytes()
}

/// Why a node could not publish, or a message could not be taken.
#[derive(Debug, PartialEq, Eq)]
pub enum AtomaP2pNodeError {
    /// The usage metrics could not be collected.
    UsageMetricsError(crate::metrics::NodeMetricsError),
    /// A message could not be serialized. Holds the encoder's description of the
    /// failure.
    UsageMetricsSerializeError(String),
    /// A message could not be signed. Holds the signer's description of the failure.
    SignatureError(String),
    /// The message is older than the one that the node published last.
    TimestampRegression,
}

/// The content of an `AtomaP2pNodeError`.
pub enum AtomaP2pNodeErrorView {
    UsageMetricsError(crate::metrics::NodeMetricsErrorView),
    UsageMetricsSerializeError(Seq<char>),
    SignatureError(Seq<char>),
    TimestampRegression,
}

impl View for AtomaP2pNodeError {
    type V = AtomaP2pNodeErrorView;

    open spec fn view(&self) -> AtomaP2pNodeErrorView {
        match self {
            AtomaP2pNodeError::UsageMetricsError(error) => AtomaP2pNodeErrorView::UsageMetricsError(
                error@,
            ),
            AtomaP2pNodeError::UsageMetricsSerializeError(reason) =>
                AtomaP2pNodeErrorView::UsageMetricsSerializeError(reason@),
            AtomaP2pNodeError::SignatureError(reason) => AtomaP2pNodeErrorView::SignatureError(
                reason@,
            ),
            AtomaP2pNodeError::TimestampRegression => AtomaP2pNodeErrorView::TimestampRegression,
        }
    }
}

/// An event that a node hands to its peers or to its own state.
#[derive(Debug, PartialEq, Eq)]
pub enum AtomaP2pEvent {
    /// A node registers its public URL and its metrics among its peers.
    NodeMetricsRegistrationEvent {
        /// The public URL of the node.
        public_url: String,
        /// The small id of the node.
        node_small_id: u64,
        /// The timestamp of the event.
        timestamp: u64,
        /// The country of the node.
        country: String,
        /// The metrics of the node.
        node_metrics: NodeMetrics,
    },
    /// The ownership of a node's small id needs to be verified.
    VerifyNodeSmallIdOwnership {
        /// The small id of the node.
        node_small_id: u64,
        /// The address that claims to own it.
        sui_address: String,
    },
}

/// The kinds of messages that are gossiped across the network.
#[derive(Debug, PartialEq, Eq)]
pub enum GossipMessage {
    /// A signed node message.
    SignedNodeMessage(SignedNodeMessage),
}

/// A signed statement of a node on where it is.
#[derive(Debug, PartialEq, Eq)]
pub struct UsageMetrics {
    /// The small id of the node.
    pub node_small_id: u64,
    /// The public URL of the node.
    pub node_public_url: String,
    /// The country where the node is located.
    pub country: String,
    /// A cryptographic signature of the statement.
    pub signature: Vec<u8>,
    /// The timestamp of the statement.
    pub timestamp: u64,
}

/// What a node says of itself each time it publishes.
#[derive(Debug, PartialEq, Eq)]
pub struct NodeP2pMetadata {
    /// The public URL where the node can be reached.
    pub node_public_url: String,
    /// The small id of the node, assigned by the network's registry.
    pub node_small_id: u64,
    /// The country where the node is located, as an ISO 3166-1 alpha-2 code.
    pub country: String,
    /// When the metrics were collected, in seconds since the epoch.
    pub timestamp: u64,
}

/// A serialized message and the hash of its bytes.
#[derive(Debug, PartialEq, Eq)]
pub struct SerializedMessage {
    /// The serialized message.
    pub message: Vec<u8>,
    /// The BLAKE3 hash of the serialized message.
    pub hash: [u8; 32],
}

impl SerializedMessage {
    /// Whether the hash is that of the bytes.
    pub open spec fn is_intact(&self) -> bool {
        self.hash@ == blake3_digest(self.message@)
    }

    /// Frames the canonical bytes of a message with their hash.
    pub fn new(message: Vec<u8>) -> (framed: SerializedMessage)
        ensures
            framed.message == message,
            framed.is_intact(),
    {
        let hash = blake3_hash(message.as_slice());
        SerializedMessage { message, hash }
    }

    /// Hashes the bytes again and says whether the hash that the frame holds is theirs.
    pub fn verify_hash(&self) -> (intact: bool)
        ensures
            intact == self.is_intact(),
    {
        let hash = blake3_hash(self.message.as_slice());
        let mut i: usize = 0;
        while i < 32
            invariant
                i <= 32,
                hash@ == blake3_digest(self.message@),
                forall|j: int| 0 <= j < i ==> hash@[j] == self.hash@[j],
            decreases 32 - i,
        {
            if hash[i] != self.hash[i] {
                return false;
            }
            i = i + 1;
        }
        proof {
            assert(hash@ =~= self.hash@);
        }
        true
    }
}

/// Two frames of the same bytes hold the same hash: the hash of a message depends on
/// nothing but its canonical bytes.
pub proof fn lemma_hash_is_determined(first: SerializedMessage, second: SerializedMessage)
    requires
        first.is_intact(),
        second.is_intact(),
        first.message@ == second.message@,
    ensures
        first.hash@ == second.hash@,
{
}

/// What hashing makes of an encoding: the frame of the bytes, or the encoder's failure.
pub open spec fn hashed(
    encoding: Result<Vec<u8>, String>,
    outcome: Result<SerializedMessage, AtomaP2pNodeError>,
) -> bool {
    match encoding {
        Ok(bytes) => outcome matches Ok(framed) && framed.message == bytes && framed.is_intact(),
        Err(reason) => outcome matches Err(error) && error
            == AtomaP2pNodeError::UsageMetricsSerializeError(reason),
    }
}

/// What is made of the encoding of a signed message: the bytes, or the encoder's
/// failure.
pub open spec fn sealed(
    encoding: Result<Vec<u8>, String>,
    outcome: Result<Vec<u8>, AtomaP2pNodeError>,
) -> bool {
    match encoding {
        Ok(bytes) => outcome matches Ok(payload) && payload == bytes,
        Err(reason) => outcome matches Err(error) && error
            == AtomaP2pNodeError::UsageMetricsSerializeError(reason),
    }
}

/// A message that is hashed once it is serialized.
pub trait SerializeWithHash {
    /// Takes the canonical encoding of the message, or the reason why the encoder gave
    /// none, and returns the bytes together with their hash.
    ///
    /// # Errors
    ///
    /// Returns an error if the message could not be serialized.
    fn serialize_with_hash(&self, encoding: Result<Vec<u8>, String>) -> (outcome: Result<
        SerializedMessage,
        AtomaP2pNodeError,
    >)
        ensures
            hashed(encoding, outcome),
    ;
}

/// A message that carries its signature when it is serialized.
pub trait SerializeWithSignature {
    /// Takes the canonical encoding of the signed message, or the reason why the
    /// encoder gave none, and returns the bytes to send.
    ///
    /// # Errors
    ///
    /// Returns an error if the message could not be serialized.
    fn serialize_with_signature(&self, encoding: Result<Vec<u8>, String>) -> (outcome: Result<
        Vec<u8>,
        AtomaP2pNodeError,
    >)
        ensures
            sealed(encoding, outcome),
    ;
}

/// What a node publishes in a telemetry cycle: what it says of itself, and its usage
/// metrics. These are the bytes that are hashed and signed.
#[derive(Debug, PartialEq, Eq)]
pub struct NodeMessage {
    /// The node metadata.
    pub node_metadata: NodeP2pMetadata,
    /// The node metrics.
    pub node_metrics: NodeMetrics,
}

impl SerializeWithHash for NodeMessage {
    fn serialize_with_hash(&self, encoding: Result<Vec<u8>, String>) -> (outcome: Result<
        SerializedMessage,
        AtomaP2pNodeError,
    >) {
        match encoding {
            Ok(bytes) => Ok(SerializedMessage::new(bytes)),
            Err(reason) => Err(AtomaP2pNodeError::UsageMetricsSerializeError(reason)),
        }
    }
}

/// A node message with the signature over the hash of its canonical bytes. Once made,
/// neither part changes.
#[derive(Debug, PartialEq, Eq)]
pub struct SignedNodeMessage {
    /// The node message.
    pub node_message: NodeMessage,
    /// The signature of the node message.
    pub signature: Vec<u8>,
}

impl SerializeWithSignature for SignedNodeMessage {
    fn serialize_with_signature(&self, encoding: Result<Vec<u8>, String>) -> (outcome: Result<
        Vec<u8>,
        AtomaP2pNodeError,
    >) {
        match encoding {
            Ok(bytes) => Ok(bytes),
            Err(reason) => Err(AtomaP2pNodeError::UsageMetricsSerializeError(reason)),
        }
    }
}

impl NodeMessage {
    /// The event by which the node of this message is registered among its peers: it
    /// holds the message's fields, each as it is.
    pub fn into_registration_event(self) -> (event: AtomaP2pEvent)
        ensures
            event == (AtomaP2pEvent::NodeMetricsRegistrationEvent {
                public_url: self.node_metadata.node_public_url,
                node_small_id: self.node_metadata.node_small_id,
                timestamp: self.node_metadata.timestamp,
                country: self.node_metadata.country,
                node_metrics: self.node_metrics,
            }),
    {
        AtomaP2pEvent::NodeMetricsRegistrationEvent {
            public_url: self.node_metadata.node_public_url,
            node_small_id: self.node_metadata.node_small_id,
            timestamp: self.node_metadata.timestamp,
            country: self.node_metadata.country,
            node_metrics: self.node_metrics,
        }
    }
}

} // verus!
