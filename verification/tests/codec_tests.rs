use blockchain_node::messages::{
    BlockMessage, HandshakeMessage, MessageDecodeError, ProtocolMessage, ProtocolMessageType,
    TransactionMessage,
};

#[test]
fn handshake_round_trip() {
    let message = ProtocolMessage::Handshake(HandshakeMessage {
        node_id: "peer-1".to_string(),
        protocol_version: 1,
    });
    let bytes = message.encode();
    let decoded = ProtocolMessage::decode(&bytes).expect("encoded handshake must decode");
    match decoded {
        ProtocolMessage::Handshake(h) => {
            assert_eq!(h.node_id.as_str(), "peer-1");
            assert_eq!(h.protocol_version, 1);
        },
        other => panic!("wrong variant: {:?}", other),
    }
}

#[test]
fn block_message_round_trip() {
    let message = ProtocolMessage::Block(BlockMessage { block_data: vec![9, 8, 7, 0, 255] });
    let bytes = message.encode();
    let decoded = ProtocolMessage::decode(&bytes).unwrap();
    assert_eq!(decoded, message);
}

#[test]
fn transaction_message_round_trip() {
    let message = ProtocolMessage::Transaction(TransactionMessage { transaction_data: vec![] });
    let bytes = message.encode();
    let decoded = ProtocolMessage::decode(&bytes).unwrap();
    assert_eq!(decoded, message);
}

#[test]
fn handshake_round_trip_empty_id_and_max_version() {
    let message = ProtocolMessage::Handshake(HandshakeMessage {
        node_id: String::new(),
        protocol_version: 255,
    });
    let bytes = message.encode();
    let decoded = ProtocolMessage::decode(&bytes).unwrap();
    assert_eq!(decoded, message);
}

#[test]
fn encode_writes_tag_then_payload() {
    let message = ProtocolMessage::Handshake(HandshakeMessage {
        node_id: "peer-1".to_string(),
        protocol_version: 1,
    });
    let bytes = message.encode();
    // tag 0, then length-prefixed "peer-1", then the version byte
    assert_eq!(bytes, vec![0u8, 6, b'p', b'e', b'e', b'r', b'-', b'1', 1]);
}

#[test]
fn encode_payload_matches_bincode() {
    let message = ProtocolMessage::Handshake(HandshakeMessage {
        node_id: "peer-1".to_string(),
        protocol_version: 7,
    });
    let bytes = message.encode();
    let expected_payload = bincode::serde::encode_to_vec(
        ("peer-1".to_string(), 7u8),
        bincode::config::standard(),
    )
    .unwrap();
    assert_eq!(bytes[0], 0);
    assert_eq!(&bytes[1..], expected_payload.as_slice());
}

#[test]
fn tag_values_cover_all_variants() {
    let handshake = ProtocolMessage::Handshake(HandshakeMessage {
        node_id: "n".to_string(),
        protocol_version: 0,
    });
    let block = ProtocolMessage::Block(BlockMessage { block_data: vec![1] });
    let transaction = ProtocolMessage::Transaction(TransactionMessage { transaction_data: vec![2] });
    assert_eq!(handshake.get_type(), ProtocolMessageType::Handshake);
    assert_eq!(block.get_type(), ProtocolMessageType::Block);
    assert_eq!(transaction.get_type(), ProtocolMessageType::Transaction);
    assert_eq!(handshake.encode()[0], 0);
    assert_eq!(block.encode()[0], 1);
    assert_eq!(transaction.encode()[0], 2);
}

#[test]
fn decode_empty_frame() {
    assert_eq!(ProtocolMessage::decode(&[]), Err(MessageDecodeError::EmptyFrame));
}

#[test]
fn decode_unknown_tag() {
    assert_eq!(
        ProtocolMessage::decode(&[255]),
        Err(MessageDecodeError::UnknownMessageType(255))
    );
    assert_eq!(ProtocolMessage::decode(&[3]), Err(MessageDecodeError::UnknownMessageType(3)));
    assert_eq!(
        ProtocolMessage::decode(&[42, 1, 2, 3]),
        Err(MessageDecodeError::UnknownMessageType(42))
    );
}

#[test]
fn decode_malformed_payload() {
    // A handshake tag with no payload at all: the node id cannot be read.
    assert_eq!(ProtocolMessage::decode(&[0]), Err(MessageDecodeError::MalformedPayload));
    // A node id length that promises more bytes than follow.
    assert_eq!(ProtocolMessage::decode(&[0, 9, b'x']), Err(MessageDecodeError::MalformedPayload));
    // A handshake whose version byte is missing.
    assert_eq!(
        ProtocolMessage::decode(&[0, 1, b'x']),
        Err(MessageDecodeError::MalformedPayload)
    );
    // A block whose byte-vector length overruns the buffer.
    assert_eq!(ProtocolMessage::decode(&[1, 200]), Err(MessageDecodeError::MalformedPayload));
}

#[test]
fn decode_never_panics_on_arbitrary_bytes() {
    let inputs: Vec<Vec<u8>> = vec![
        vec![],
        vec![255],
        vec![0],
        vec![1],
        vec![2],
        vec![0, 251],
        vec![0, 251, 255, 255],
        vec![1, 253, 255, 255, 255, 255, 255, 255, 255, 255],
        vec![2, 0],
        vec![0, 0],
        vec![0, 0, 5],
        vec![9, 9, 9, 9, 9, 9, 9, 9],
    ];
    for input in inputs {
        // Either result is acceptable; the call must simply return.
        let _ = ProtocolMessage::decode(&input);
    }
}

#[test]
fn decode_ignores_trailing_bytes_after_payload() {
    // One-byte node id, version, then trailing garbage: the decoder
    // reads what it needs and does not demand exact consumption.
    let decoded = ProtocolMessage::decode(&[0, 1, b'a', 9, 77, 77]).unwrap();
    match decoded {
        ProtocolMessage::Handshake(h) => {
            assert_eq!(h.node_id.as_str(), "a");
            assert_eq!(h.protocol_version, 9);
        },
        other => panic!("wrong variant: {:?}", other),
    }
}
