//! A minimal peer node for a toy blockchain network: a hash-linked,
//! append-only ledger, a tagged binary message codec, and a
//! length-delimited framing layer for the peer-to-peer transport.

pub mod chain;
pub mod decimal;
pub mod digest;
pub mod encoding;
pub mod framing;
pub mod messages;
pub mod node;

use vstd::prelude::*;

verus! {

/// Splitting a concatenation at the head's length yields the head as a
/// prefix and the tail as the remainder.  The wire decoders use this to
/// walk a buffer field by field.
pub proof fn lemma_tail_shift(whole: Seq<u8>, head: Seq<u8>, tail: Seq<u8>)
    requires
        whole == head + tail,
    ensures
        head.is_prefix_of(whole),
        whole.subrange(head.len() as int, whole.len() as int) == tail,
{
    assert(head =~= whole.subrange(0, head.len() as int));
    assert(whole.subrange(head.len() as int, whole.len() as int) =~= tail);
}

} // verus!
