//! Trusted binding to the SHA-256 digest used to link blocks.
//!
//! The digest itself is named by an uninterpreted spec function: nothing
//! in this crate claims to compute it, only that it is a function of the
//! input characters alone and that its rendered form is 64 lowercase hex
//! characters (two per digest byte).

use sha2::Digest;
use vstd::prelude::*;

verus! {

/// The number of hex characters in a rendered SHA-256 digest: the digest
/// is 32 bytes, and each byte renders as two hex digits.
pub const DIGEST_HEX_LEN: usize = 64;

/// The lowercase-hex rendering of the SHA-256 digest of the UTF-8 form of
/// a character sequence.
pub uninterp spec fn sha256_hex_of(s: Seq<char>) -> Seq<char>;

/// Relies on `sha2::Sha256` (the `digest` method of `sha2::Digest`) and
/// on the `LowerHex` rendering of its 32-byte output: the result is a
/// function of the input alone, always 64 characters long.
#[verifier::external_body]
pub fn sha256_hex(s: &str) -> (r: String)
    ensures
        r@ == sha256_hex_of(s@),
        r@.len() == DIGEST_HEX_LEN,
{
    format!("{:x}", sha2::Sha256::digest(s.as_bytes()))
}

} // verus!
