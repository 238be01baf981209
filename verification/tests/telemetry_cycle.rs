use atoma_node::metrics::{NodeMetrics, NodeMetricsError};
use atoma_node::publisher::{
    answer_challenge, ChallengeOutcome, Cycle, IdentityState, Publication, Publisher,
};
use atoma_node::types::{
    AtomaP2pEvent, AtomaP2pNodeError, NodeMessage, NodeP2pMetadata, SerializedMessage,
    SignedNodeMessage,
};

fn metadata(timestamp: u64) -> NodeP2pMetadata {
    NodeP2pMetadata {
        node_public_url: "https://1.2.3.4:8443".to_string(),
        node_small_id: 17,
        country: "US".to_string(),
        timestamp,
    }
}

fn message(timestamp: u64) -> NodeMessage {
    NodeMessage {
        node_metadata: metadata(timestamp),
        node_metrics: NodeMetrics::default(),
    }
}

fn publish(publisher: &mut Publisher, timestamp: u64) -> Option<Publication> {
    let cycle = publisher
        .begin(metadata(timestamp), Ok(NodeMetrics::default()))
        .advance(Ok(vec![1, 2, 3]))
        .advance(Ok(vec![4, 5]))
        .advance(Ok(vec![6, 7, 8, 9]));
    publisher.complete(cycle)
}

#[test]
fn cycle_goes_through_its_stages() {
    let publisher = Publisher::new();
    let begun = publisher.begin(metadata(100), Ok(NodeMetrics::default()));
    assert_eq!(begun, Cycle::AwaitingEncoding(message(100)));
    let hashed = begun.advance(Ok(vec![1, 2, 3]));
    assert_eq!(
        hashed,
        Cycle::AwaitingSignature(message(100), SerializedMessage::new(vec![1, 2, 3]))
    );
    let signed = hashed.advance(Ok(vec![4, 5]));
    assert_eq!(
        signed,
        Cycle::AwaitingEnvelope(SignedNodeMessage {
            node_message: message(100),
            signature: vec![4, 5],
        })
    );
    let sealed = signed.advance(Ok(vec![6, 7, 8, 9]));
    assert_eq!(
        sealed,
        Cycle::Published(
            SignedNodeMessage {
                node_message: message(100),
                signature: vec![4, 5],
            },
            vec![6, 7, 8, 9]
        )
    );
}

#[test]
fn cycle_without_metrics_publishes_nothing() {
    let mut publisher = Publisher::new();
    let failure = NodeMetricsError::NvmlError("driver not loaded".to_string());
    let cycle = publisher.begin(metadata(100), Err(failure));
    assert_eq!(
        cycle,
        Cycle::Aborted(AtomaP2pNodeError::UsageMetricsError(
            NodeMetricsError::NvmlError("driver not loaded".to_string())
        ))
    );
    let cycle = cycle.advance(Ok(vec![1, 2, 3]));
    assert_eq!(
        cycle,
        Cycle::Aborted(AtomaP2pNodeError::UsageMetricsError(
            NodeMetricsError::NvmlError("driver not loaded".to_string())
        ))
    );
    assert_eq!(publisher.complete(cycle), None);
    assert_eq!(publisher, Publisher::new());
}

#[test]
fn cycle_ends_when_the_message_cannot_be_encoded() {
    let publisher = Publisher::new();
    let cycle = publisher
        .begin(metadata(100), Ok(NodeMetrics::default()))
        .advance(Err("value too large".to_string()));
    assert_eq!(
        cycle,
        Cycle::Aborted(AtomaP2pNodeError::UsageMetricsSerializeError(
            "value too large".to_string()
        ))
    );
}

#[test]
fn cycle_ends_when_the_hash_cannot_be_signed() {
    let mut publisher = Publisher::new();
    let cycle = publisher
        .begin(metadata(100), Ok(NodeMetrics::default()))
        .advance(Ok(vec![1, 2, 3]))
        .advance(Err("key not found".to_string()));
    assert_eq!(
        cycle,
        Cycle::Aborted(AtomaP2pNodeError::SignatureError(
            "key not found".to_string()
        ))
    );
    assert_eq!(publisher.complete(cycle), None);
    assert_eq!(publisher.state(), IdentityState::Unregistered);
}

#[test]
fn cycle_ends_when_the_signed_message_cannot_be_encoded() {
    let publisher = Publisher::new();
    let cycle = publisher
        .begin(metadata(100), Ok(NodeMetrics::default()))
        .advance(Ok(vec![1, 2, 3]))
        .advance(Ok(vec![4, 5]))
        .advance(Err("value too large".to_string()));
    assert_eq!(
        cycle,
        Cycle::Aborted(AtomaP2pNodeError::UsageMetricsSerializeError(
            "value too large".to_string()
        ))
    );
}

#[test]
fn unfinished_cycle_publishes_nothing() {
    let mut publisher = Publisher::new();
    let cycle = publisher
        .begin(metadata(100), Ok(NodeMetrics::default()))
        .advance(Ok(vec![1, 2, 3]));
    assert_eq!(publisher.complete(cycle), None);
    assert_eq!(publisher.state(), IdentityState::Unregistered);
    assert_eq!(publisher.last_timestamp(), None);
}

#[test]
fn finished_cycle_stays_as_it_is() {
    let publisher = Publisher::new();
    let sealed = publisher
        .begin(metadata(100), Ok(NodeMetrics::default()))
        .advance(Ok(vec![1, 2, 3]))
        .advance(Ok(vec![4, 5]))
        .advance(Ok(vec![6, 7, 8, 9]))
        .advance(Ok(vec![0]))
        .advance(Err("late".to_string()));
    assert_eq!(
        sealed,
        Cycle::Published(
            SignedNodeMessage {
                node_message: message(100),
                signature: vec![4, 5],
            },
            vec![6, 7, 8, 9]
        )
    );
}

#[test]
fn publication_holds_payload_signature_and_registration() {
    let mut publisher = Publisher::new();
    assert_eq!(
        publish(&mut publisher, 100),
        Some(Publication {
            payload: vec![6, 7, 8, 9],
            signature: vec![4, 5],
            event: AtomaP2pEvent::NodeMetricsRegistrationEvent {
                public_url: "https://1.2.3.4:8443".to_string(),
                node_small_id: 17,
                timestamp: 100,
                country: "US".to_string(),
                node_metrics: NodeMetrics::default(),
            },
        })
    );
}

#[test]
fn node_registers_and_then_republishes() {
    let mut publisher = Publisher::new();
    assert_eq!(publisher.state(), IdentityState::Unregistered);
    assert_eq!(publisher.last_timestamp(), None);
    assert!(publish(&mut publisher, 100).is_some());
    assert_eq!(publisher.state(), IdentityState::Registered);
    assert_eq!(publisher.last_timestamp(), Some(100));
    assert!(publish(&mut publisher, 160).is_some());
    assert_eq!(publisher.state(), IdentityState::Republished);
    assert_eq!(publisher.last_timestamp(), Some(160));
    assert!(publish(&mut publisher, 220).is_some());
    assert_eq!(publisher.state(), IdentityState::Republished);
    assert_eq!(publisher.last_timestamp(), Some(220));
}

#[test]
fn standing_moves_on_with_each_publication() {
    assert_eq!(
        IdentityState::Unregistered.after_publication(),
        IdentityState::Registered
    );
    assert_eq!(
        IdentityState::Registered.after_publication(),
        IdentityState::Republished
    );
    assert_eq!(
        IdentityState::Republished.after_publication(),
        IdentityState::Republished
    );
}

#[test]
fn failed_cycle_leaves_a_registered_node_registered() {
    let mut publisher = Publisher::new();
    assert!(publish(&mut publisher, 100).is_some());
    let failure = NodeMetricsError::NvmlError("driver not loaded".to_string());
    let cycle = publisher.begin(metadata(160), Err(failure));
    assert_eq!(publisher.complete(cycle), None);
    assert_eq!(publisher.state(), IdentityState::Registered);
    assert_eq!(publisher.last_timestamp(), Some(100));
}

#[test]
fn timestamps_of_a_node_never_decrease() {
    let mut publisher = Publisher::new();
    assert!(publish(&mut publisher, 100).is_some());
    let cycle = publisher.begin(metadata(99), Ok(NodeMetrics::default()));
    assert_eq!(cycle, Cycle::Aborted(AtomaP2pNodeError::TimestampRegression));
    assert_eq!(publisher.complete(cycle), None);
    assert_eq!(publisher.last_timestamp(), Some(100));
    // an equal timestamp is not a decrease
    let cycle = publisher.begin(metadata(100), Ok(NodeMetrics::default()));
    assert_eq!(cycle, Cycle::AwaitingEncoding(message(100)));
}

#[test]
fn challenge_for_this_node_is_answered_with_the_proof() {
    let challenge = AtomaP2pEvent::VerifyNodeSmallIdOwnership {
        node_small_id: 17,
        sui_address: "0x1234".to_string(),
    };
    assert_eq!(
        answer_challenge(17, &challenge, Some(vec![1, 2, 3])),
        ChallengeOutcome::Proven(vec![1, 2, 3])
    );
}

#[test]
fn challenge_without_proof_is_reported() {
    let mut publisher = Publisher::new();
    assert!(publish(&mut publisher, 100).is_some());
    let challenge = AtomaP2pEvent::VerifyNodeSmallIdOwnership {
        node_small_id: 17,
        sui_address: "0x1234".to_string(),
    };
    assert_eq!(
        answer_challenge(17, &challenge, None),
        ChallengeOutcome::Unanswered
    );
    assert_eq!(publisher.state(), IdentityState::Registered);
    assert!(publish(&mut publisher, 160).is_some());
}

#[test]
fn challenge_for_another_node_is_not_answered() {
    let challenge = AtomaP2pEvent::VerifyNodeSmallIdOwnership {
        node_small_id: 18,
        sui_address: "0x1234".to_string(),
    };
    assert_eq!(
        answer_challenge(17, &challenge, Some(vec![1, 2, 3])),
        ChallengeOutcome::NotAddressed
    );
    let registration = message(100).into_registration_event();
    assert_eq!(
        answer_challenge(17, &registration, Some(vec![1, 2, 3])),
        ChallengeOutcome::NotAddressed
    );
}
