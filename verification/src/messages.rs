//! The tagged binary message codec: one leading tag byte selects the
//! variant, the rest of the buffer is that variant's payload.
//!
//! `encode` and `decode` are two pure functions over the message sum
//! type; decoding rejects an empty buffer, an unknown tag, and a payload
//! the variant's decoder cannot read, and never panics on any input.

use crate::encoding::{
    bytes_enc, decode_byte_vec, decode_string, encode_byte_vec, encode_string, str_enc,
};
use crate::lemma_tail_shift;
use vstd::prelude::*;

verus! {

/// The three message kinds carried on the wire.
#[derive(Debug, Clone, Copy, PartialEq, Eq, Structural)]
pub enum ProtocolMessageType {
    Handshake,
    Block,
    Transaction,
}

/// The leading wire byte for each message kind.
pub open spec fn tag_of(t: ProtocolMessageType) -> u8 {
    match t {
        ProtocolMessageType::Handshake => 0,
        ProtocolMessageType::Block => 1,
        ProtocolMessageType::Transaction => 2,
    }
}

/// The message kind a leading wire byte selects, if any; total over all
/// byte values, rejecting every unassigned one.
pub open spec fn type_of_tag(tag: u8) -> Option<ProtocolMessageType> {
    if tag == 0 {
        Some(ProtocolMessageType::Handshake)
    } else if tag == 1 {
        Some(ProtocolMessageType::Block)
    } else if tag == 2 {
        Some(ProtocolMessageType::Transaction)
    } else {
        None
    }
}

/// The wire byte of each message kind, as an executable function.
pub fn message_type_tag(t: ProtocolMessageType) -> (tag: u8)
    ensures
        tag == tag_of(t),
{
    match t {
        ProtocolMessageType::Handshake => 0,
        ProtocolMessageType::Block => 1,
        ProtocolMessageType::Transaction => 2,
    }
}

/// The exhaustive byte-to-kind mapping, as an executable function.
pub fn message_type_from_tag(tag: u8) -> (t: Option<ProtocolMessageType>)
    ensures
        t == type_of_tag(tag),
{
    if tag == 0 {
        Some(ProtocolMessageType::Handshake)
    } else if tag == 1 {
        Some(ProtocolMessageType::Block)
    } else if tag == 2 {
        Some(ProtocolMessageType::Transaction)
    } else {
        None
    }
}

pub ghost struct HandshakeMessageView {
    pub node_id: Seq<char>,
    pub protocol_version: u8,
}

/// The identity a peer announces when it connects.
#[derive(Debug, Clone, PartialEq, Eq)]
pub struct HandshakeMessage {
    pub node_id: String,
    pub protocol_version: u8,
}

impl View for HandshakeMessage {
    type V = HandshakeMessageView;

    open spec fn view(&self) -> HandshakeMessageView {
        HandshakeMessageView { node_id: self.node_id@, protocol_version: self.protocol_version }
    }
}

pub ghost struct BlockMessageView {
    pub block_data: Seq<u8>,
}

/// A serialized block offered to the ledger.
#[derive(Debug, Clone, PartialEq, Eq)]
pub struct BlockMessage {
    pub block_data: Vec<u8>,
}

impl View for BlockMessage {
    type V = BlockMessageView;

    open spec fn view(&self) -> BlockMessageView {
        BlockMessageView { block_data: self.block_data@ }
    }
}

pub ghost struct TransactionMessageView {
    pub transaction_data: Seq<u8>,
}

/// An opaque transaction, handed off to a pending-transaction sink.
#[derive(Debug, Clone, PartialEq, Eq)]
pub struct TransactionMessage {
    pub transaction_data: Vec<u8>,
}

impl View for TransactionMessage {
    type V = TransactionMessageView;

    open spec fn view(&self) -> TransactionMessageView {
        TransactionMessageView { transaction_data: self.transaction_data@ }
    }
}

pub ghost enum ProtocolMessageView {
    Handshake(HandshakeMessageView),
    Block(BlockMessageView),
    Transaction(TransactionMessageView),
}

/// A tagged union over the three message kinds.
#[derive(Debug, Clone, PartialEq, Eq)]
pub enum ProtocolMessage {
    Handshake(HandshakeMessage),
    Block(BlockMessage),
    Transaction(TransactionMessage),
}

impl View for ProtocolMessage {
    type V = ProtocolMessageView;

    open spec fn view(&self) -> ProtocolMessageView {
        match self {
            ProtocolMessage::Handshake(m) => ProtocolMessageView::Handshake(m@),
            ProtocolMessage::Block(m) => ProtocolMessageView::Block(m@),
            ProtocolMessage::Transaction(m) => ProtocolMessageView::Transaction(m@),
        }
    }
}

/// The kind of a message value.
pub open spec fn type_of_message(m: ProtocolMessageView) -> ProtocolMessageType {
    match m {
        ProtocolMessageView::Handshake(_) => ProtocolMessageType::Handshake,
        ProtocolMessageView::Block(_) => ProtocolMessageType::Block,
        ProtocolMessageView::Transaction(_) => ProtocolMessageType::Transaction,
    }
}

/// The payload bytes of a handshake: the encoded node id, then the
/// single protocol-version byte.
pub open spec fn handshake_payload_wire(h: HandshakeMessageView) -> Seq<u8> {
    str_enc(h.node_id) + seq![h.protocol_version]
}

/// The payload bytes of a message: the bincode encodings of the
/// variant's fields, concatenated in declaration order.
pub open spec fn payload_wire_of(m: ProtocolMessageView) -> Seq<u8> {
    match m {
        ProtocolMessageView::Handshake(h) => handshake_payload_wire(h),
        ProtocolMessageView::Block(b) => bytes_enc(b.block_data),
        ProtocolMessageView::Transaction(t) => bytes_enc(t.transaction_data),
    }
}

/// The full wire form of a message: its kind's tag byte, then its
/// payload bytes.
pub open spec fn message_wire_of(m: ProtocolMessageView) -> Seq<u8> {
    seq![tag_of(type_of_message(m))] + payload_wire_of(m)
}

/// Why a buffer failed to decode as a message.
#[derive(Debug, Clone, Copy, PartialEq, Eq, Structural)]
pub enum MessageDecodeError {
    /// The buffer was empty: there is no tag byte to read.
    EmptyFrame,
    /// The leading byte maps to no message kind.
    UnknownMessageType(u8),
    /// The tag was known but the payload could not be read as that
    /// variant's fields.
    MalformedPayload,
}

impl ProtocolMessage {
    /// The kind of this message.
    pub fn get_type(&self) -> (t: ProtocolMessageType)
        ensures
            t == type_of_message(self@),
    {
        match self {
            ProtocolMessage::Handshake(_) => ProtocolMessageType::Handshake,
            ProtocolMessage::Block(_) => ProtocolMessageType::Block,
            ProtocolMessage::Transaction(_) => ProtocolMessageType::Transaction,
        }
    }

    /// Writes the tag byte, then the variant's payload bytes.
    /// Deterministic; no padding.
    pub fn encode(&self) -> (r: Vec<u8>)
        ensures
            r@ == message_wire_of(self@),
    {
        let mut out: Vec<u8> = Vec::new();
        out.push(message_type_tag(self.get_type()));
        match self {
            ProtocolMessage::Handshake(h) => {
                let mut p = encode_string(&h.node_id);
                out.append(&mut p);
                out.push(h.protocol_version);
            },
            ProtocolMessage::Block(b) => {
                let mut p = encode_byte_vec(&b.block_data);
                out.append(&mut p);
            },
            ProtocolMessage::Transaction(t) => {
                let mut p = encode_byte_vec(&t.transaction_data);
                out.append(&mut p);
            },
        }
        proof {
            assert(out@ =~= message_wire_of(self@));
        }
        out
    }

    /// Reads a message back from the wire.  Fails with `EmptyFrame` on an
    /// empty buffer, `UnknownMessageType` on an unassigned tag byte, and
    /// `MalformedPayload` when the payload cannot be read as the tagged
    /// variant's fields; the inverse of `encode` on every encoded
    /// message.  Never panics, whatever the input bytes.
    pub fn decode(bytes: &[u8]) -> (r: Result<ProtocolMessage, MessageDecodeError>)
        ensures
            bytes@.len() == 0 ==> r == Err::<ProtocolMessage, MessageDecodeError>(
                MessageDecodeError::EmptyFrame,
            ),
            bytes@.len() > 0 && type_of_tag(bytes@[0]) is None ==> r == Err::<
                ProtocolMessage,
                MessageDecodeError,
            >(MessageDecodeError::UnknownMessageType(bytes@[0])),
            bytes@.len() > 0 ==> (type_of_tag(bytes@[0]) matches Some(t) ==> ((r matches Ok(m)
                && type_of_message(m@) == t) || r == Err::<ProtocolMessage, MessageDecodeError>(
                MessageDecodeError::MalformedPayload,
            ))),
            forall|mv: ProtocolMessageView|
                bytes@ == #[trigger] message_wire_of(mv) ==> (r matches Ok(m) && m@ == mv),
    {
        if bytes.len() == 0 {
            return Err(MessageDecodeError::EmptyFrame);
        }
        let tag = bytes[0];
        let payload = bytes.split_at(1).1;
        proof {
            assert forall|mv: ProtocolMessageView|
                bytes@ == message_wire_of(mv) implies bytes@[0] == tag_of(type_of_message(mv))
                && payload@ == payload_wire_of(mv) by {
                lemma_tail_shift(
                    bytes@,
                    seq![tag_of(type_of_message(mv))],
                    payload_wire_of(mv),
                );
            };
        }
        match message_type_from_tag(tag) {
            None => Err(MessageDecodeError::UnknownMessageType(tag)),
            Some(ProtocolMessageType::Handshake) => {
                match Self::decode_handshake_payload(payload) {
                    Some(h) => {
                        let m = ProtocolMessage::Handshake(h);
                        proof {
                            assert forall|mv: ProtocolMessageView|
                                bytes@ == message_wire_of(mv) implies m@ == mv by {
                                assert(mv is Handshake);
                                assert(payload@ == handshake_payload_wire(mv->Handshake_0));
                            };
                        }
                        Ok(m)
                    },
                    None => {
                        proof {
                            assert forall|mv: ProtocolMessageView|
                                bytes@ == message_wire_of(mv) implies false by {
                                assert(mv is Handshake);
                                assert(payload@ == handshake_payload_wire(mv->Handshake_0));
                            };
                        }
                        Err(MessageDecodeError::MalformedPayload)
                    },
                }
            },
            Some(ProtocolMessageType::Block) => {
                match Self::decode_block_payload(payload) {
                    Some(b) => {
                        let m = ProtocolMessage::Block(b);
                        proof {
                            assert forall|mv: ProtocolMessageView|
                                bytes@ == message_wire_of(mv) implies m@ == mv by {
                                assert(mv is Block);
                                assert(payload@ == bytes_enc(mv->Block_0.block_data));
                            };
                        }
                        Ok(m)
                    },
                    None => {
                        proof {
                            assert forall|mv: ProtocolMessageView|
                                bytes@ == message_wire_of(mv) implies false by {
                                assert(mv is Block);
                                assert(payload@ == bytes_enc(mv->Block_0.block_data));
                            };
                        }
                        Err(MessageDecodeError::MalformedPayload)
                    },
                }
            },
            Some(ProtocolMessageType::Transaction) => {
                match Self::decode_transaction_payload(payload) {
                    Some(t) => {
                        let m = ProtocolMessage::Transaction(t);
                        proof {
                            assert forall|mv: ProtocolMessageView|
                                bytes@ == message_wire_of(mv) implies m@ == mv by {
                                assert(mv is Transaction);
                                assert(payload@ == bytes_enc(mv->Transaction_0.transaction_data));
                            };
                        }
                        Ok(m)
                    },
                    None => {
                        proof {
                            assert forall|mv: ProtocolMessageView|
                                bytes@ == message_wire_of(mv) implies false by {
                                assert(mv is Transaction);
                                assert(payload@ == bytes_enc(mv->Transaction_0.transaction_data));
                            };
                        }
                        Err(MessageDecodeError::MalformedPayload)
                    },
                }
            },
        }
    }

    fn decode_handshake_payload(payload: &[u8]) -> (r: Option<HandshakeMessage>)
        ensures
            forall|hv: HandshakeMessageView|
                payload@ == #[trigger] handshake_payload_wire(hv) ==> (r matches Some(h) && h@
                    == hv),
    {
        let (node_id, n) = match decode_string(payload) {
            Ok(p) => p,
            Err(_) => {
                proof {
                    assert forall|hv: HandshakeMessageView|
                        payload@ == handshake_payload_wire(hv) implies false by {
                        lemma_tail_shift(payload@, str_enc(hv.node_id), seq![hv.protocol_version]);
                    };
                }
                return None;
            },
        };
        if n < payload.len() {
            let protocol_version = payload[n];
            let h = HandshakeMessage { node_id, protocol_version };
            proof {
                assert forall|hv: HandshakeMessageView|
                    payload@ == handshake_payload_wire(hv) implies h@ == hv by {
                    lemma_tail_shift(payload@, str_enc(hv.node_id), seq![hv.protocol_version]);
                };
            }
            Some(h)
        } else {
            proof {
                assert forall|hv: HandshakeMessageView|
                    payload@ == handshake_payload_wire(hv) implies false by {
                    lemma_tail_shift(payload@, str_enc(hv.node_id), seq![hv.protocol_version]);
                };
            }
            None
        }
    }

    fn decode_block_payload(payload: &[u8]) -> (r: Option<BlockMessage>)
        ensures
            forall|bv: BlockMessageView|
                payload@ == #[trigger] bytes_enc(bv.block_data) ==> (r matches Some(m) && m@
                    == bv),
    {
        match decode_byte_vec(payload) {
            Ok(p) => {
                let m = BlockMessage { block_data: p.0 };
                proof {
                    assert forall|bv: BlockMessageView|
                        payload@ == bytes_enc(bv.block_data) implies m@ == bv by {
                        assert(bytes_enc(bv.block_data).is_prefix_of(payload@));
                    };
                }
                Some(m)
            },
            Err(_) => {
                proof {
                    assert forall|bv: BlockMessageView|
                        payload@ == bytes_enc(bv.block_data) implies false by {
                        assert(bytes_enc(bv.block_data).is_prefix_of(payload@));
                    };
                }
                None
            },
        }
    }

    fn decode_transaction_payload(payload: &[u8]) -> (r: Option<TransactionMessage>)
        ensures
            forall|tv: TransactionMessageView|
                payload@ == #[trigger] bytes_enc(tv.transaction_data) ==> (r matches Some(m) && m@
                    == tv),
    {
        match decode_byte_vec(payload) {
            Ok(p) => {
                let m = TransactionMessage { transaction_data: p.0 };
                proof {
                    assert forall|tv: TransactionMessageView|
                        payload@ == bytes_enc(tv.transaction_data) implies m@ == tv by {
                        assert(bytes_enc(tv.transaction_data).is_prefix_of(payload@));
                    };
                }
                Some(m)
            },
            Err(_) => {
                proof {
                    assert forall|tv: TransactionMessageView|
                        payload@ == bytes_enc(tv.transaction_data) implies false by {
                        assert(bytes_enc(tv.transaction_data).is_prefix_of(payload@));
                    };
                }
                None
            },
        }
    }
}

} // verus!
