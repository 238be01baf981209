use atoma_node::metrics::NodeMetrics;
use atoma_node::receiver::Receiver;
use atoma_node::types::{
    AtomaP2pEvent, GossipMessage, NodeMessage, NodeP2pMetadata, SignedNodeMessage,
};

fn gossip(node_small_id: u64, timestamp: u64) -> GossipMessage {
    GossipMessage::SignedNodeMessage(SignedNodeMessage {
        node_message: NodeMessage {
            node_metadata: NodeP2pMetadata {
                node_public_url: "https://1.2.3.4:8443".to_string(),
                node_small_id,
                country: "US".to_string(),
                timestamp,
            },
            node_metrics: NodeMetrics::default(),
        },
        signature: vec![1, 2, 3],
    })
}

fn registration(node_small_id: u64, timestamp: u64) -> AtomaP2pEvent {
    AtomaP2pEvent::NodeMetricsRegistrationEvent {
        public_url: "https://1.2.3.4:8443".to_string(),
        node_small_id,
        timestamp,
        country: "US".to_string(),
        node_metrics: NodeMetrics::default(),
    }
}

#[test]
fn first_message_of_a_node_is_taken() {
    let mut receiver = Receiver::new();
    assert_eq!(receiver.last_taken(17), None);
    assert_eq!(receiver.receive(gossip(17, 100), true), Some(registration(17, 100)));
    assert_eq!(receiver.last_taken(17), Some(100));
}

#[test]
fn message_with_an_equal_timestamp_is_discarded() {
    let mut receiver = Receiver::new();
    assert!(receiver.receive(gossip(17, 100), true).is_some());
    assert_eq!(receiver.receive(gossip(17, 100), true), None);
    assert_eq!(receiver.last_taken(17), Some(100));
}

#[test]
fn message_with_an_older_timestamp_is_discarded() {
    let mut receiver = Receiver::new();
    assert!(receiver.receive(gossip(17, 100), true).is_some());
    assert_eq!(receiver.receive(gossip(17, 99), true), None);
    assert_eq!(receiver.receive(gossip(17, 0), true), None);
    assert_eq!(receiver.last_taken(17), Some(100));
}

#[test]
fn message_with_a_newer_timestamp_is_taken() {
    let mut receiver = Receiver::new();
    assert!(receiver.receive(gossip(17, 100), true).is_some());
    assert_eq!(receiver.receive(gossip(17, 101), true), Some(registration(17, 101)));
    assert_eq!(receiver.last_taken(17), Some(101));
    assert_eq!(receiver.receive(gossip(17, 100), true), None);
}

#[test]
fn nodes_are_judged_apart() {
    let mut receiver = Receiver::new();
    assert!(receiver.receive(gossip(17, 100), true).is_some());
    assert_eq!(receiver.receive(gossip(18, 100), true), Some(registration(18, 100)));
    assert_eq!(receiver.receive(gossip(18, 50), true), None);
    assert_eq!(receiver.last_taken(17), Some(100));
    assert_eq!(receiver.last_taken(18), Some(100));
    assert_eq!(receiver.last_taken(19), None);
}

#[test]
fn message_whose_signature_does_not_hold_is_discarded() {
    let mut receiver = Receiver::new();
    assert_eq!(receiver.receive(gossip(17, 100), false), None);
    assert_eq!(receiver.last_taken(17), None);
    // it did not use up the timestamp
    assert_eq!(receiver.receive(gossip(17, 100), true), Some(registration(17, 100)));
    assert_eq!(receiver.receive(gossip(17, 200), false), None);
    assert_eq!(receiver.last_taken(17), Some(100));
}

#[test]
fn timestamp_zero_is_taken_once() {
    let mut receiver = Receiver::new();
    assert!(receiver.take_if_fresh(5, 0));
    assert!(!receiver.take_if_fresh(5, 0));
    assert!(receiver.take_if_fresh(5, u64::MAX));
    assert!(!receiver.take_if_fresh(5, u64::MAX));
}
