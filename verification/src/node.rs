//! A node's state and the per-connection dispatch logic.
//!
//! Each inbound connection hands complete frames to `handle_frame`: a
//! frame that fails to decode is discarded and the connection stays
//! open; a handshake records the peer's identity; a block message is
//! offered to the ledger and rejected without side effects when invalid;
//! a transaction is handed back to the caller for its sink.  Only a
//! closed stream or an I/O error ends a connection.

use crate::chain::{block_wire_of, zero_hash_str, BlockView, Block, Blockchain};
use crate::digest::DIGEST_HEX_LEN;
use crate::framing::{encode_frame, frame_wire_of};
use crate::messages::{
    message_wire_of, type_of_tag, BlockMessageView, HandshakeMessageView, MessageDecodeError,
    ProtocolMessage, ProtocolMessageView, TransactionMessageView,
};
use vstd::prelude::*;

verus! {

pub ghost struct PeerView {
    pub node_id: Seq<char>,
    pub address: Seq<char>,
}

/// One entry of the peer table: a peer's announced identity and the
/// address it connected from.
#[derive(Debug, Clone, PartialEq, Eq)]
pub struct PeerEntry {
    pub node_id: String,
    pub address: String,
}

impl View for PeerEntry {
    type V = PeerView;

    open spec fn view(&self) -> PeerView {
        PeerView { node_id: self.node_id@, address: self.address@ }
    }
}

/// Whether the table already holds an entry for this identity.
pub open spec fn has_peer(peers: Seq<PeerView>, id: Seq<char>) -> bool {
    exists|i: int| 0 <= i < peers.len() && (#[trigger] peers[i]).node_id == id
}

/// Node ids are the table's unique key.
pub open spec fn peer_ids_unique(peers: Seq<PeerView>) -> bool {
    forall|i: int, j: int|
        0 <= i < j < peers.len() ==> (#[trigger] peers[i]).node_id != (#[trigger] peers[j]).node_id
}

/// What one frame did to the node; the connection stays open whatever
/// the value.
#[derive(Debug, PartialEq, Eq)]
pub enum FrameOutcome {
    /// The frame failed to decode and was discarded.
    Rejected(MessageDecodeError),
    /// A handshake; the peer's identity is recorded.
    HandshakeRecorded,
    /// A block message whose block was appended to the chain.
    BlockAccepted,
    /// A block message whose block the chain refused; nothing changed.
    BlockRejected,
    /// A block message whose payload was not a serialized block.
    BlockUndecodable,
    /// A transaction, handed back for the pending-transaction sink.
    TransactionReceived(Vec<u8>),
}

/// What the transport reported for a connection.
#[derive(Debug)]
pub enum ConnectionEvent {
    /// One complete frame arrived.
    Frame(Vec<u8>),
    /// The peer closed the stream.
    Closed,
    /// The stream failed; the peer must reconnect.
    IoError,
}

/// A connection keeps running exactly as long as frames arrive; a close
/// or an I/O error ends its loop.
pub fn connection_stays_open(event: &ConnectionEvent) -> (keep: bool)
    ensures
        keep == (event is Frame),
{
    match event {
        ConnectionEvent::Frame(_) => true,
        ConnectionEvent::Closed => false,
        ConnectionEvent::IoError => false,
    }
}

/// A node in the network: its identity, its peer table, and its ledger.
#[derive(Debug)]
pub struct Node {
    id: String,
    peers: Vec<PeerEntry>,
    blockchain: Blockchain,
}

impl Node {
    /// The node's identity.
    pub closed spec fn id_spec(&self) -> Seq<char> {
        self.id@
    }

    /// The peer table's contents, in insertion order.
    pub closed spec fn peers_spec(&self) -> Seq<PeerView> {
        self.peers@.map_values(|p: PeerEntry| p@)
    }

    /// The ledger's contents.
    pub closed spec fn chain_spec(&self) -> Seq<BlockView> {
        self.blockchain@
    }

    /// The node invariant: a well-formed chain and a uniquely keyed peer
    /// table.
    pub closed spec fn wf(&self) -> bool {
        &&& self.blockchain.wf()
        &&& peer_ids_unique(self.peers_spec())
    }

    /// A fresh node: no peers, a chain holding only the genesis block.
    pub fn new(id: String) -> (n: Node)
        ensures
            n.wf(),
            n.id_spec() == id@,
            n.peers_spec() == Seq::<PeerView>::empty(),
            n.chain_spec().len() == 1,
            n.chain_spec()[0].index == 0,
            n.chain_spec()[0].previous_hash == zero_hash_str(DIGEST_HEX_LEN as int),
    {
        let n = Node { id, peers: Vec::new(), blockchain: Blockchain::new() };
        proof {
            assert(n.peers_spec() =~= Seq::<PeerView>::empty());
        }
        n
    }

    /// Read-only accessor for the node id.
    pub fn id(&self) -> (s: &str)
        ensures
            s@ == self.id_spec(),
    {
        self.id.as_str()
    }

    /// The node's ledger.
    pub fn chain(&self) -> (c: &Blockchain)
        ensures
            c@ == self.chain_spec(),
            self.wf() ==> c.wf(),
    {
        &self.blockchain
    }

    /// How many peers the table holds.
    pub fn peer_count(&self) -> (n: usize)
        ensures
            n == self.peers_spec().len(),
    {
        self.peers.len()
    }

    /// The peer entry at a given position.
    pub fn peer_at(&self, i: usize) -> (p: &PeerEntry)
        requires
            i < self.peers_spec().len(),
        ensures
            p@ == self.peers_spec()[i as int],
    {
        &self.peers[i]
    }

    fn find_peer(&self, node_id: &String) -> (found: bool)
        ensures
            found == has_peer(self.peers_spec(), node_id@),
    {
        let mut i: usize = 0;
        while i < self.peers.len()
            invariant
                i <= self.peers@.len(),
                forall|j: int|
                    0 <= j < i ==> (#[trigger] self.peers_spec()[j]).node_id != node_id@,
            decreases self.peers@.len() - i,
        {
            if self.peers[i].node_id == *node_id {
                proof {
                    assert((self.peers_spec()[i as int]).node_id == node_id@);
                }
                return true;
            }
            i += 1;
        }
        false
    }

    /// Records a peer's identity: inserts an entry under its node id, a
    /// unique key, leaving the table unchanged when the id is already
    /// present.
    pub fn record_peer(&mut self, node_id: String, address: String)
        requires
            old(self).wf(),
        ensures
            final(self).wf(),
            final(self).id_spec() == old(self).id_spec(),
            final(self).chain_spec() == old(self).chain_spec(),
            has_peer(old(self).peers_spec(), node_id@) ==> final(self).peers_spec() == old(
                self,
            ).peers_spec(),
            !has_peer(old(self).peers_spec(), node_id@) ==> final(self).peers_spec() == old(
                self,
            ).peers_spec().push((PeerView { node_id: node_id@, address: address@ })),
            has_peer(final(self).peers_spec(), node_id@),
    {
        if self.find_peer(&node_id) {
            return;
        }
        let ghost prev = self.peers_spec();
        let ghost pv = PeerView { node_id: node_id@, address: address@ };
        self.peers.push(PeerEntry { node_id, address });
        proof {
            assert(self.peers_spec() =~= prev.push(pv));
            assert((self.peers_spec()[prev.len() as int]).node_id == pv.node_id);
            assert forall|i: int, j: int| 0 <= i < j < self.peers_spec().len() implies (
            #[trigger] self.peers_spec()[i]).node_id != (#[trigger] self.peers_spec()[j]).node_id by {
                if j == prev.len() as int {
                    assert(!has_peer(prev, pv.node_id));
                    assert((prev[i]).node_id != pv.node_id);
                }
            };
        }
    }

    /// Applies one decoded message to the node: a handshake records the
    /// peer, a block message is offered to the ledger, a transaction is
    /// handed back for the sink.
    pub fn dispatch(&mut self, message: ProtocolMessage, peer_address: &String) -> (out:
        FrameOutcome)
        requires
            old(self).wf(),
        ensures
            final(self).wf(),
            final(self).id_spec() == old(self).id_spec(),
            message@ matches ProtocolMessageView::Handshake(hv) ==> out
                == FrameOutcome::HandshakeRecorded && final(self).chain_spec() == old(
                self,
            ).chain_spec() && has_peer(final(self).peers_spec(), hv.node_id) && (has_peer(
                old(self).peers_spec(),
                hv.node_id,
            ) ==> final(self).peers_spec() == old(self).peers_spec()) && (!has_peer(
                old(self).peers_spec(),
                hv.node_id,
            ) ==> final(self).peers_spec() == old(self).peers_spec().push(
                (PeerView { node_id: hv.node_id, address: peer_address@ }),
            )),
            message@ matches ProtocolMessageView::Block(bm) ==> final(self).peers_spec() == old(
                self,
            ).peers_spec() && (out == FrameOutcome::BlockAccepted || out
                == FrameOutcome::BlockRejected || out == FrameOutcome::BlockUndecodable) && ((out
                == FrameOutcome::BlockRejected || out == FrameOutcome::BlockUndecodable) ==> final(self).chain_spec() == old(self).chain_spec()) && (forall|bv: BlockView|
                bm.block_data == #[trigger] block_wire_of(bv) ==> ((bv.previous_hash == old(
                    self,
                ).chain_spec().last().hash ==> out == FrameOutcome::BlockAccepted && final(self).chain_spec() == old(self).chain_spec().push(bv)) && (bv.previous_hash != old(
                    self,
                ).chain_spec().last().hash ==> out == FrameOutcome::BlockRejected))),
            message@ matches ProtocolMessageView::Transaction(tv) ==> final(self).chain_spec()
                == old(self).chain_spec() && final(self).peers_spec() == old(self).peers_spec() && (
            out matches FrameOutcome::TransactionReceived(d) && d@ == tv.transaction_data),
    {
        match message {
            ProtocolMessage::Handshake(h) => {
                self.record_peer(h.node_id, peer_address.clone());
                FrameOutcome::HandshakeRecorded
            },
            ProtocolMessage::Block(b) => {
                match Block::from_bytes(b.block_data.as_slice()) {
                    None => FrameOutcome::BlockUndecodable,
                    Some(blk) => {
                        match self.blockchain.add_block(blk) {
                            Ok(_) => FrameOutcome::BlockAccepted,
                            Err(_) => FrameOutcome::BlockRejected,
                        }
                    },
                }
            },
            ProtocolMessage::Transaction(t) => {
                FrameOutcome::TransactionReceived(t.transaction_data)
            },
        }
    }

    /// Applies one received frame to the node.  Whatever the outcome,
    /// the connection stays open: a frame that fails to decode is only
    /// discarded.
    pub fn handle_frame(&mut self, frame: &[u8], peer_address: &String) -> (out: FrameOutcome)
        requires
            old(self).wf(),
        ensures
            final(self).wf(),
            final(self).id_spec() == old(self).id_spec(),
            out matches FrameOutcome::Rejected(e) ==> final(self).chain_spec() == old(
                self,
            ).chain_spec() && final(self).peers_spec() == old(self).peers_spec(),
            frame@.len() == 0 ==> out == FrameOutcome::Rejected(MessageDecodeError::EmptyFrame),
            frame@.len() > 0 && type_of_tag(frame@[0]) is None ==> out == FrameOutcome::Rejected(
                MessageDecodeError::UnknownMessageType(frame@[0]),
            ),
            forall|hv: HandshakeMessageView|
                frame@ == #[trigger] message_wire_of(ProtocolMessageView::Handshake(hv)) ==> out
                    == FrameOutcome::HandshakeRecorded && final(self).chain_spec() == old(
                    self,
                ).chain_spec() && has_peer(final(self).peers_spec(), hv.node_id),
            forall|bv: BlockView|
                frame@ == #[trigger] message_wire_of(
                    ProtocolMessageView::Block((BlockMessageView { block_data: block_wire_of(bv) })),
                ) ==> ((bv.previous_hash == old(self).chain_spec().last().hash ==> out
                    == FrameOutcome::BlockAccepted && final(self).chain_spec() == old(
                    self,
                ).chain_spec().push(bv)) && (bv.previous_hash != old(self).chain_spec().last().hash
                    ==> out == FrameOutcome::BlockRejected && final(self).chain_spec() == old(
                    self,
                ).chain_spec())),
            forall|tv: TransactionMessageView|
                frame@ == #[trigger] message_wire_of(ProtocolMessageView::Transaction(tv)) ==> (
                out matches FrameOutcome::TransactionReceived(d) && d@ == tv.transaction_data)
                    && final(self).chain_spec() == old(self).chain_spec() && final(self).peers_spec() == old(self).peers_spec(),
    {
        match ProtocolMessage::decode(frame) {
            Err(e) => FrameOutcome::Rejected(e),
            Ok(msg) => self.dispatch(msg, peer_address),
        }
    }
}

/// The bytes an outbound client writes for one message: the encoded
/// message wrapped in a single frame.  Refused only when the encoding
/// would overflow the frame length field.
pub fn message_frame_bytes(message: &ProtocolMessage) -> (r: Option<Vec<u8>>)
    ensures
        r matches Some(f) ==> f@ == frame_wire_of(message_wire_of(message@))
            && message_wire_of(message@).len() <= u32::MAX,
        r is None ==> message_wire_of(message@).len() > u32::MAX,
{
    let encoded = message.encode();
    encode_frame(encoded.as_slice())
}

} // verus!
