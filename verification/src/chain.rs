//! The hash-linked, append-only ledger: blocks and the chain store.
//!
//! A chain always holds at least the genesis block; a candidate block is
//! admitted exactly when its `previous_hash` equals the hash of the
//! current head, and a rejected candidate leaves the chain unchanged.

use crate::decimal::{dec_of_i64, dec_of_u64, i64_to_dec, u64_to_dec};
use crate::digest::{sha256_hex, sha256_hex_of, DIGEST_HEX_LEN};
use crate::encoding::{
    decode_i64, decode_string, decode_u64, encode_i64, encode_string, encode_u64, i64_enc, str_enc,
    u64_enc,
};
use crate::lemma_tail_shift;
use vstd::prelude::*;
use vstd::string::StringExecFns;

verus! {

/// The wire form of a block: the bincode encodings of its five fields,
/// concatenated in declaration order.
pub open spec fn block_wire_of(b: BlockView) -> Seq<u8> {
    u64_enc(b.index) + str_enc(b.data) + str_enc(b.previous_hash) + str_enc(b.hash) + i64_enc(
        b.timestamp,
    )
}

spec fn block_tail1(b: BlockView) -> Seq<u8> {
    str_enc(b.data) + str_enc(b.previous_hash) + str_enc(b.hash) + i64_enc(b.timestamp)
}

spec fn block_tail2(b: BlockView) -> Seq<u8> {
    str_enc(b.previous_hash) + str_enc(b.hash) + i64_enc(b.timestamp)
}

spec fn block_tail3(b: BlockView) -> Seq<u8> {
    str_enc(b.hash) + i64_enc(b.timestamp)
}

/// The mathematical content of a block: the five fields, with strings as
/// character sequences.
pub ghost struct BlockView {
    pub index: u64,
    pub data: Seq<char>,
    pub previous_hash: Seq<char>,
    pub hash: Seq<char>,
    pub timestamp: i64,
}

/// One block of the ledger.  `hash` is the digest of the other four
/// fields' canonical string forms; `previous_hash` links the block to its
/// predecessor.
#[derive(Debug)]
pub struct Block {
    index: u64,
    data: String,
    previous_hash: String,
    hash: String,
    timestamp: i64,
}

impl View for Block {
    type V = BlockView;

    closed spec fn view(&self) -> BlockView {
        BlockView {
            index: self.index,
            data: self.data@,
            previous_hash: self.previous_hash@,
            hash: self.hash@,
            timestamp: self.timestamp,
        }
    }
}

/// The concatenation of the canonical string forms of a block's index,
/// data, previous hash and timestamp: the preimage its hash is the digest
/// of.
pub open spec fn hash_preimage(
    index: u64,
    data: Seq<char>,
    previous_hash: Seq<char>,
    timestamp: i64,
) -> Seq<char> {
    dec_of_u64(index as int) + data + previous_hash + dec_of_i64(timestamp as int)
}

/// A string of `len` zero characters: the `previous_hash` of the genesis
/// block.
pub open spec fn zero_hash_str(len: int) -> Seq<char> {
    Seq::new(len as nat, |i: int| '0')
}

/// Every non-genesis block is linked to its predecessor by hash.
pub open spec fn chain_linked(blocks: Seq<BlockView>) -> bool {
    forall|i: int|
        1 <= i < blocks.len() ==> (#[trigger] blocks[i]).previous_hash == blocks[i - 1].hash
}

/// Relies on `chrono::Utc::now` for the current epoch seconds; the result
/// depends on the clock, so nothing is assumed of it.
#[verifier::external_body]
fn current_timestamp() -> i64 {
    chrono::Utc::now().timestamp()
}

fn zeros_string(len: usize) -> (s: String)
    ensures
        s@ == zero_hash_str(len as int),
{
    let mut s = String::new();
    let mut i: usize = 0;
    while i < len
        invariant
            i <= len,
            s@ == zero_hash_str(i as int),
        decreases len - i,
    {
        s.append("0");
        i = i + 1;
        proof {
            reveal_strlit("0");
            assert(s@ =~= zero_hash_str(i as int));
        }
    }
    s
}

impl Block {
    /// Builds a block at the current clock time, deriving its hash from
    /// the other fields.
    pub fn new(index: u64, data: String, previous_hash: String) -> (b: Block)
        ensures
            b@.index == index,
            b@.data == data@,
            b@.previous_hash == previous_hash@,
            b@.hash == sha256_hex_of(hash_preimage(index, data@, previous_hash@, b@.timestamp)),
            b@.hash.len() == DIGEST_HEX_LEN,
    {
        let timestamp = current_timestamp();
        let hash = Block::calculate_hash(index, data.as_str(), previous_hash.as_str(), timestamp);
        Block { index, data, previous_hash, hash, timestamp }
    }

    /// The digest of the concatenation of the four fields' canonical
    /// string forms; a pure function of its arguments.
    pub fn calculate_hash(index: u64, data: &str, previous_hash: &str, timestamp: i64) -> (h:
        String)
        ensures
            h@ == sha256_hex_of(hash_preimage(index, data@, previous_hash@, timestamp)),
            h@.len() == DIGEST_HEX_LEN,
    {
        let mut raw = u64_to_dec(index);
        raw.append(data);
        raw.append(previous_hash);
        let ts = i64_to_dec(timestamp);
        raw.append(ts.as_str());
        sha256_hex(raw.as_str())
    }

    pub fn index(&self) -> (i: u64)
        ensures
            i == self@.index,
    {
        self.index
    }

    pub fn data(&self) -> (d: &String)
        ensures
            d@ == self@.data,
    {
        &self.data
    }

    pub fn previous_hash(&self) -> (p: &String)
        ensures
            p@ == self@.previous_hash,
    {
        &self.previous_hash
    }

    pub fn hash(&self) -> (h: &String)
        ensures
            h@ == self@.hash,
    {
        &self.hash
    }

    pub fn timestamp(&self) -> (t: i64)
        ensures
            t == self@.timestamp,
    {
        self.timestamp
    }

    /// Serializes the block for the wire: the five field encodings in
    /// declaration order.
    pub fn to_bytes(&self) -> (r: Vec<u8>)
        ensures
            r@ == block_wire_of(self@),
    {
        let mut out = encode_u64(self.index);
        let mut p1 = encode_string(&self.data);
        out.append(&mut p1);
        let mut p2 = encode_string(&self.previous_hash);
        out.append(&mut p2);
        let mut p3 = encode_string(&self.hash);
        out.append(&mut p3);
        let mut p4 = encode_i64(self.timestamp);
        out.append(&mut p4);
        out
    }

    /// Reads a block back from its wire form; the inverse of `to_bytes`,
    /// and tolerant of trailing bytes, as the decoder it relies on is.
    pub fn from_bytes(bytes: &[u8]) -> (r: Option<Block>)
        ensures
            forall|bv: BlockView|
                bytes@ == #[trigger] block_wire_of(bv) ==> (r matches Some(b) && b@ == bv),
    {
        let (index, n0) = match decode_u64(bytes) {
            Ok(p) => p,
            Err(_) => {
                proof {
                    assert forall|bv: BlockView| bytes@ == block_wire_of(bv) implies false by {
                        assert(bytes@ =~= u64_enc(bv.index) + block_tail1(bv));
                        lemma_tail_shift(bytes@, u64_enc(bv.index), block_tail1(bv));
                    };
                }
                return None;
            },
        };
        let rem1 = bytes.split_at(n0).1;
        let (data, n1) = match decode_string(rem1) {
            Ok(p) => p,
            Err(_) => {
                proof {
                    assert forall|bv: BlockView| bytes@ == block_wire_of(bv) implies false by {
                        assert(bytes@ =~= u64_enc(bv.index) + block_tail1(bv));
                        lemma_tail_shift(bytes@, u64_enc(bv.index), block_tail1(bv));
                        assert(rem1@ == block_tail1(bv));
                        assert(rem1@ =~= str_enc(bv.data) + block_tail2(bv));
                        lemma_tail_shift(rem1@, str_enc(bv.data), block_tail2(bv));
                    };
                }
                return None;
            },
        };
        let rem2 = rem1.split_at(n1).1;
        let (previous_hash, n2) = match decode_string(rem2) {
            Ok(p) => p,
            Err(_) => {
                proof {
                    assert forall|bv: BlockView| bytes@ == block_wire_of(bv) implies false by {
                        assert(bytes@ =~= u64_enc(bv.index) + block_tail1(bv));
                        lemma_tail_shift(bytes@, u64_enc(bv.index), block_tail1(bv));
                        assert(rem1@ == block_tail1(bv));
                        assert(rem1@ =~= str_enc(bv.data) + block_tail2(bv));
                        lemma_tail_shift(rem1@, str_enc(bv.data), block_tail2(bv));
                        assert(rem2@ == block_tail2(bv));
                        assert(rem2@ =~= str_enc(bv.previous_hash) + block_tail3(bv));
                        lemma_tail_shift(rem2@, str_enc(bv.previous_hash), block_tail3(bv));
                    };
                }
                return None;
            },
        };
        let rem3 = rem2.split_at(n2).1;
        let (hash, n3) = match decode_string(rem3) {
            Ok(p) => p,
            Err(_) => {
                proof {
                    assert forall|bv: BlockView| bytes@ == block_wire_of(bv) implies false by {
                        assert(bytes@ =~= u64_enc(bv.index) + block_tail1(bv));
                        lemma_tail_shift(bytes@, u64_enc(bv.index), block_tail1(bv));
                        assert(rem1@ == block_tail1(bv));
                        assert(rem1@ =~= str_enc(bv.data) + block_tail2(bv));
                        lemma_tail_shift(rem1@, str_enc(bv.data), block_tail2(bv));
                        assert(rem2@ == block_tail2(bv));
                        assert(rem2@ =~= str_enc(bv.previous_hash) + block_tail3(bv));
                        lemma_tail_shift(rem2@, str_enc(bv.previous_hash), block_tail3(bv));
                        assert(rem3@ == block_tail3(bv));
                        assert(rem3@ =~= str_enc(bv.hash) + i64_enc(bv.timestamp));
                        lemma_tail_shift(rem3@, str_enc(bv.hash), i64_enc(bv.timestamp));
                    };
                }
                return None;
            },
        };
        let rem4 = rem3.split_at(n3).1;
        let (timestamp, _n4) = match decode_i64(rem4) {
            Ok(p) => p,
            Err(_) => {
                proof {
                    assert forall|bv: BlockView| bytes@ == block_wire_of(bv) implies false by {
                        assert(bytes@ =~= u64_enc(bv.index) + block_tail1(bv));
                        lemma_tail_shift(bytes@, u64_enc(bv.index), block_tail1(bv));
                        assert(rem1@ == block_tail1(bv));
                        assert(rem1@ =~= str_enc(bv.data) + block_tail2(bv));
                        lemma_tail_shift(rem1@, str_enc(bv.data), block_tail2(bv));
                        assert(rem2@ == block_tail2(bv));
                        assert(rem2@ =~= str_enc(bv.previous_hash) + block_tail3(bv));
                        lemma_tail_shift(rem2@, str_enc(bv.previous_hash), block_tail3(bv));
                        assert(rem3@ == block_tail3(bv));
                        assert(rem3@ =~= str_enc(bv.hash) + i64_enc(bv.timestamp));
                        lemma_tail_shift(rem3@, str_enc(bv.hash), i64_enc(bv.timestamp));
                        assert(rem4@ == i64_enc(bv.timestamp));
                        assert(i64_enc(bv.timestamp).is_prefix_of(rem4@));
                    };
                }
                return None;
            },
        };
        let b = Block { index, data, previous_hash, hash, timestamp };
        proof {
            assert forall|bv: BlockView| bytes@ == block_wire_of(bv) implies b@ == bv by {
                assert(bytes@ =~= u64_enc(bv.index) + block_tail1(bv));
                lemma_tail_shift(bytes@, u64_enc(bv.index), block_tail1(bv));
                assert(rem1@ == block_tail1(bv));
                assert(rem1@ =~= str_enc(bv.data) + block_tail2(bv));
                lemma_tail_shift(rem1@, str_enc(bv.data), block_tail2(bv));
                assert(rem2@ == block_tail2(bv));
                assert(rem2@ =~= str_enc(bv.previous_hash) + block_tail3(bv));
                lemma_tail_shift(rem2@, str_enc(bv.previous_hash), block_tail3(bv));
                assert(rem3@ == block_tail3(bv));
                assert(rem3@ =~= str_enc(bv.hash) + i64_enc(bv.timestamp));
                lemma_tail_shift(rem3@, str_enc(bv.hash), i64_enc(bv.timestamp));
                assert(rem4@ == i64_enc(bv.timestamp));
                assert(i64_enc(bv.timestamp).is_prefix_of(rem4@));
            };
        }
        Some(b)
    }
}

/// The ordered block sequence with its single mutable head.
#[derive(Debug)]
pub struct Blockchain {
    blocks: Vec<Block>,
    digest_hex_len: usize,
}

impl View for Blockchain {
    type V = Seq<BlockView>;

    closed spec fn view(&self) -> Seq<BlockView> {
        self.blocks@.map_values(|b: Block| b@)
    }
}

impl Blockchain {
    /// The chain invariant: never empty, genesis-shaped at position zero,
    /// and hash-linked throughout.
    pub closed spec fn wf(&self) -> bool {
        &&& self@.len() >= 1
        &&& self.digest_hex_len == DIGEST_HEX_LEN
        &&& chain_linked(self@)
        &&& self@[0].index == 0
        &&& self@[0].previous_hash == zero_hash_str(DIGEST_HEX_LEN as int)
    }

    /// A fresh chain holding exactly the genesis block, whose
    /// `previous_hash` is all zero characters and whose index is zero.
    pub fn new() -> (c: Blockchain)
        ensures
            c.wf(),
            c@.len() == 1,
            c@[0].index == 0,
            c@[0].previous_hash == zero_hash_str(DIGEST_HEX_LEN as int),
            c@[0].data == "genesis"@,
            c@[0].hash == sha256_hex_of(
                hash_preimage(0, "genesis"@, zero_hash_str(DIGEST_HEX_LEN as int), c@[0].timestamp),
            ),
            c@[0].hash.len() == DIGEST_HEX_LEN,
    {
        let digest_hex_len = DIGEST_HEX_LEN;
        let genesis = Block::new(0, String::from_str("genesis"), zeros_string(digest_hex_len));
        let mut blocks: Vec<Block> = Vec::new();
        blocks.push(genesis);
        let c = Blockchain { blocks, digest_hex_len };
        proof {
            assert(c@ =~= seq![genesis@]);
        }
        c
    }

    /// Appends the candidate if and only if its `previous_hash` equals
    /// the hash of the current head; otherwise fails and leaves the chain
    /// unchanged.
    pub fn add_block(&mut self, block: Block) -> (r: Result<(), &'static str>)
        requires
            old(self).wf(),
        ensures
            final(self).wf(),
            block@.previous_hash == old(self)@.last().hash ==> r is Ok && final(self)@ == old(
                self,
            )@.push(block@) && final(self)@.last() == block@,
            block@.previous_hash != old(self)@.last().hash ==> final(self)@ == old(self)@ && (
            r matches Err(m) && m@ == "Invalid block"@),
    {
        if self.verify_new_block(&block) {
            let ghost prev = self@;
            let ghost bv = block@;
            self.blocks.push(block);
            proof {
                assert(self@ =~= prev.push(bv));
            }
            Ok(())
        } else {
            Err("Invalid block")
        }
    }

    /// A candidate is valid exactly when its `previous_hash` equals the
    /// hash of the current head.
    pub fn verify_new_block(&self, block: &Block) -> (ok: bool)
        requires
            self.wf(),
        ensures
            ok == (block@.previous_hash == self@.last().hash),
    {
        let last_block = self.blocks.last().unwrap();
        let same = block.previous_hash == last_block.hash;
        same
    }

    /// The number of blocks in the chain.
    pub fn len(&self) -> (n: usize)
        ensures
            n == self@.len(),
    {
        self.blocks.len()
    }

    /// The current head: the block every candidate is validated against.
    pub fn latest(&self) -> (b: &Block)
        requires
            self.wf(),
        ensures
            b@ == self@.last(),
    {
        self.blocks.last().unwrap()
    }

    /// The block at a given position.
    pub fn block_at(&self, i: usize) -> (b: &Block)
        requires
            i < self@.len(),
        ensures
            b@ == self@[i as int],
    {
        &self.blocks[i]
    }

    /// The fixed hex length of every digest in this chain.
    pub fn digest_hex_len(&self) -> (n: usize)
        ensures
            n == self.digest_hex_len_spec(),
    {
        self.digest_hex_len
    }

    pub closed spec fn digest_hex_len_spec(&self) -> usize {
        self.digest_hex_len
    }
}

/// What well-formedness guarantees of every chain a caller can hold: it
/// is never empty, its first block is genesis-shaped, and every later
/// block's `previous_hash` equals its predecessor's `hash`.
pub proof fn lemma_wf_chain_properties(c: &Blockchain)
    requires
        c.wf(),
    ensures
        c@.len() >= 1,
        chain_linked(c@),
        c@[0].index == 0,
        c@[0].previous_hash == zero_hash_str(DIGEST_HEX_LEN as int),
{
}

} // verus!
