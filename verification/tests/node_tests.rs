use blockchain_node::chain::Block;
use blockchain_node::messages::{
    BlockMessage, HandshakeMessage, MessageDecodeError, ProtocolMessage, TransactionMessage,
};
use blockchain_node::node::{
    connection_stays_open, message_frame_bytes, ConnectionEvent, FrameOutcome, Node,
};

fn addr() -> String {
    "127.0.0.1:10311".to_string()
}

#[test]
fn new_node_has_genesis_chain_and_no_peers() {
    let node = Node::new("test-node".to_string());
    assert_eq!(node.id(), "test-node");
    assert_eq!(node.peer_count(), 0);
    assert_eq!(node.chain().len(), 1);
}

#[test]
fn handshake_frame_records_peer_once() {
    let mut node = Node::new("me".to_string());
    let frame = ProtocolMessage::Handshake(HandshakeMessage {
        node_id: "peer-1".to_string(),
        protocol_version: 1,
    })
    .encode();
    let out = node.handle_frame(&frame, &addr());
    assert_eq!(out, FrameOutcome::HandshakeRecorded);
    assert_eq!(node.peer_count(), 1);
    assert_eq!(node.peer_at(0).node_id.as_str(), "peer-1");
    assert_eq!(node.peer_at(0).address.as_str(), "127.0.0.1:10311");
    // The node id is a unique key: a second handshake adds nothing.
    let out = node.handle_frame(&frame, &addr());
    assert_eq!(out, FrameOutcome::HandshakeRecorded);
    assert_eq!(node.peer_count(), 1);
}

#[test]
fn block_frame_extends_chain_and_stale_resend_is_rejected() {
    let mut node = Node::new("me".to_string());
    let genesis_hash = node.chain().latest().hash().clone();
    let block = Block::new(1, "block1".to_string(), genesis_hash);
    let frame = ProtocolMessage::Block(BlockMessage { block_data: block.to_bytes() }).encode();
    let out = node.handle_frame(&frame, &addr());
    assert_eq!(out, FrameOutcome::BlockAccepted);
    assert_eq!(node.chain().len(), 2);
    // A concurrent peer losing the race would submit against a stale
    // head: the same candidate is now invalid and the chain unchanged.
    let out = node.handle_frame(&frame, &addr());
    assert_eq!(out, FrameOutcome::BlockRejected);
    assert_eq!(node.chain().len(), 2);
}

#[test]
fn block_frame_with_garbage_payload_is_undecodable() {
    let mut node = Node::new("me".to_string());
    let frame = ProtocolMessage::Block(BlockMessage { block_data: vec![250, 0, 1] }).encode();
    let out = node.handle_frame(&frame, &addr());
    assert_eq!(out, FrameOutcome::BlockUndecodable);
    assert_eq!(node.chain().len(), 1);
}

#[test]
fn transaction_frame_is_handed_back() {
    let mut node = Node::new("me".to_string());
    let frame = ProtocolMessage::Transaction(TransactionMessage {
        transaction_data: vec![1, 2, 3],
    })
    .encode();
    let out = node.handle_frame(&frame, &addr());
    assert_eq!(out, FrameOutcome::TransactionReceived(vec![1, 2, 3]));
    assert_eq!(node.chain().len(), 1);
    assert_eq!(node.peer_count(), 0);
}

#[test]
fn bad_frames_are_discarded_and_connection_state_unchanged() {
    let mut node = Node::new("me".to_string());
    assert_eq!(
        node.handle_frame(&[], &addr()),
        FrameOutcome::Rejected(MessageDecodeError::EmptyFrame)
    );
    assert_eq!(
        node.handle_frame(&[255, 1, 2], &addr()),
        FrameOutcome::Rejected(MessageDecodeError::UnknownMessageType(255))
    );
    assert_eq!(
        node.handle_frame(&[0], &addr()),
        FrameOutcome::Rejected(MessageDecodeError::MalformedPayload)
    );
    assert_eq!(node.chain().len(), 1);
    assert_eq!(node.peer_count(), 0);
}

#[test]
fn distinct_peers_each_get_one_entry() {
    let mut node = Node::new("me".to_string());
    for (id, version) in [("alpha", 1u8), ("beta", 2), ("alpha", 3)] {
        let frame = ProtocolMessage::Handshake(HandshakeMessage {
            node_id: id.to_string(),
            protocol_version: version,
        })
        .encode();
        assert_eq!(node.handle_frame(&frame, &addr()), FrameOutcome::HandshakeRecorded);
    }
    assert_eq!(node.peer_count(), 2);
    assert_eq!(node.peer_at(0).node_id.as_str(), "alpha");
    assert_eq!(node.peer_at(1).node_id.as_str(), "beta");
}

#[test]
fn connection_lifecycle_decisions() {
    assert!(connection_stays_open(&ConnectionEvent::Frame(vec![])));
    assert!(connection_stays_open(&ConnectionEvent::Frame(vec![0, 1])));
    assert!(!connection_stays_open(&ConnectionEvent::Closed));
    assert!(!connection_stays_open(&ConnectionEvent::IoError));
}

#[test]
fn outbound_bytes_are_one_frame_of_the_encoded_message() {
    let message = ProtocolMessage::Handshake(HandshakeMessage {
        node_id: "peer-1".to_string(),
        protocol_version: 1,
    });
    let encoded = message.encode();
    let framed = message_frame_bytes(&message).unwrap();
    assert_eq!(framed.len(), 4 + encoded.len());
    let n = encoded.len() as u32;
    assert_eq!(&framed[0..4], &n.to_be_bytes());
    assert_eq!(&framed[4..], encoded.as_slice());
}
