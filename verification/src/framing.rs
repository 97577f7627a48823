//! The length-delimited framing layer: each frame on the wire is its
//! payload's byte length as four big-endian bytes, then the payload.
//!
//! `FrameAssembler` turns an arbitrarily segmented byte stream back into
//! discrete frames: bytes are fed in as they arrive, and a frame is
//! handed out exactly when the buffer holds a complete one, with its
//! boundary exact regardless of how the transport split the stream.

use vstd::prelude::*;

verus! {

/// The 4-byte big-endian form of a frame length.
pub open spec fn be32_bytes(n: u32) -> Seq<u8> {
    seq![
        (n >> 24) as u8,
        ((n >> 16) & 0xff) as u8,
        ((n >> 8) & 0xff) as u8,
        (n & 0xff) as u8,
    ]
}

/// The length value read back from four big-endian bytes.
pub open spec fn be32_val(b0: u8, b1: u8, b2: u8, b3: u8) -> u32 {
    ((b0 as u32) << 24) | ((b1 as u32) << 16) | ((b2 as u32) << 8) | (b3 as u32)
}

/// Writing a length and reading it back yields the same value.
pub proof fn lemma_be32_round_trip(n: u32)
    ensures
        be32_val(
            (n >> 24) as u8,
            ((n >> 16) & 0xff) as u8,
            ((n >> 8) & 0xff) as u8,
            (n & 0xff) as u8,
        ) == n,
{
    assert((((n >> 24) as u8 as u32) << 24) | ((((n >> 16) & 0xff) as u8 as u32) << 16) | ((((n
        >> 8) & 0xff) as u8 as u32) << 8) | ((n & 0xff) as u8 as u32) == n) by (bit_vector);
}

/// The wire form of one frame: the payload length, then the payload.
pub open spec fn frame_wire_of(payload: Seq<u8>) -> Seq<u8>
    recommends
        payload.len() <= u32::MAX,
{
    be32_bytes(payload.len() as u32) + payload
}

/// Reads one frame off the front of a buffer: `Some((payload, rest))`
/// when the buffer holds a full length prefix and that many payload
/// bytes, `None` when more bytes are still needed.
pub open spec fn frame_parse(buf: Seq<u8>) -> Option<(Seq<u8>, Seq<u8>)> {
    if buf.len() < 4 {
        None
    } else {
        let n = be32_val(buf[0], buf[1], buf[2], buf[3]) as int;
        if buf.len() - 4 < n {
            None
        } else {
            Some((buf.subrange(4, 4 + n), buf.subrange(4 + n, buf.len() as int)))
        }
    }
}

/// Frame integrity: what goes in as one frame comes out as exactly that
/// frame, with any following bytes untouched, however the stream was
/// segmented on the way.
pub proof fn lemma_frame_round_trip(payload: Seq<u8>, rest: Seq<u8>)
    requires
        payload.len() <= u32::MAX,
    ensures
        frame_parse(frame_wire_of(payload) + rest) matches Some(q) && q.0 == payload && q.1
            == rest,
{
    let whole = frame_wire_of(payload) + rest;
    lemma_be32_round_trip(payload.len() as u32);
    assert(whole.len() == 4 + payload.len() + rest.len());
    assert(be32_val(whole[0], whole[1], whole[2], whole[3]) == payload.len());
    assert(whole.subrange(4, 4 + payload.len() as int) =~= payload);
    assert(whole.subrange(4 + payload.len() as int, whole.len() as int) =~= rest);
}

/// Reads four big-endian bytes as a length.
pub fn be_bytes_to_u32(b0: u8, b1: u8, b2: u8, b3: u8) -> (n: u32)
    ensures
        n == be32_val(b0, b1, b2, b3),
{
    ((b0 as u32) << 24) | ((b1 as u32) << 16) | ((b2 as u32) << 8) | (b3 as u32)
}

/// Builds the wire form of one frame: the 4-byte big-endian payload
/// length, then the payload.  A payload too long for the length field is
/// refused.
pub fn encode_frame(payload: &[u8]) -> (r: Option<Vec<u8>>)
    ensures
        payload@.len() <= u32::MAX ==> (r matches Some(f) && f@ == frame_wire_of(payload@)),
        payload@.len() > u32::MAX ==> r is None,
{
    if payload.len() > u32::MAX as usize {
        return None;
    }
    let n = payload.len() as u32;
    proof {
        assert(n >> 24 < 256) by (bit_vector);
        assert((n >> 16) & 0xff < 256) by (bit_vector);
        assert((n >> 8) & 0xff < 256) by (bit_vector);
        assert(n & 0xff < 256) by (bit_vector);
    }
    let mut out: Vec<u8> = Vec::new();
    out.push((n >> 24) as u8);
    out.push(((n >> 16) & 0xff) as u8);
    out.push(((n >> 8) & 0xff) as u8);
    out.push((n & 0xff) as u8);
    out.extend_from_slice(payload);
    proof {
        assert(out@ =~= frame_wire_of(payload@));
    }
    Some(out)
}

/// Reassembles length-delimited frames from a segmented byte stream.
pub struct FrameAssembler {
    buf: Vec<u8>,
}

impl View for FrameAssembler {
    type V = Seq<u8>;

    closed spec fn view(&self) -> Seq<u8> {
        self.buf@
    }
}

impl FrameAssembler {
    /// An assembler with an empty buffer.
    pub fn new() -> (a: FrameAssembler)
        ensures
            a@ == Seq::<u8>::empty(),
    {
        FrameAssembler { buf: Vec::new() }
    }

    /// Appends freshly received bytes, however the transport segmented
    /// them.
    pub fn feed(&mut self, chunk: &[u8])
        ensures
            final(self)@ == old(self)@ + chunk@,
    {
        self.buf.extend_from_slice(chunk);
    }

    /// Hands out the next complete frame's payload, consuming it from
    /// the buffer, or reports that more bytes are needed.
    pub fn next_frame(&mut self) -> (r: Option<Vec<u8>>)
        ensures
            match r {
                Some(p) => frame_parse(old(self)@) matches Some(q) && q.0 == p@ && q.1
                    == final(self)@,
                None => frame_parse(old(self)@) is None && final(self)@ == old(self)@,
            },
    {
        if self.buf.len() < 4 {
            return None;
        }
        let n32 = be_bytes_to_u32(self.buf[0], self.buf[1], self.buf[2], self.buf[3]);
        let n = n32 as usize;
        if self.buf.len() - 4 < n {
            return None;
        }
        let rest = self.buf.split_off(4 + n);
        let payload = self.buf.split_off(4);
        self.buf = rest;
        proof {
            assert(payload@ =~= old(self)@.subrange(4, 4 + n as int));
            assert(self@ =~= old(self)@.subrange(4 + n as int, old(self)@.len() as int));
        }
        Some(payload)
    }
}

} // verus!
