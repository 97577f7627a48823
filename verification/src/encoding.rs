//! Trusted bindings to bincode's standard binary encoding of the four
//! primitive shapes the wire protocol is built from: strings, byte
//! vectors, unsigned and signed 64-bit integers.
//!
//! The encoded forms are named by uninterpreted spec functions; the only
//! facts assumed of them are determinism (the same value yields the same
//! bytes) and that decoding a buffer that starts with the encoding of a
//! value returns exactly that value and consumes exactly its encoding.
//! Both hold of bincode's standard configuration: encoding is a pure
//! function of the value, and the format is prefix-unambiguous (the
//! leading byte of a length or integer fixes how many bytes follow).

use vstd::prelude::*;

verus! {

/// The bytes that bincode's standard configuration produces for a
/// `String`: the varint byte length of its UTF-8 form, then the UTF-8
/// bytes themselves.
pub uninterp spec fn str_enc(s: Seq<char>) -> Seq<u8>;

/// The bytes that bincode's standard configuration produces for a
/// `Vec<u8>`: the varint length, then the bytes themselves.
pub uninterp spec fn bytes_enc(b: Seq<u8>) -> Seq<u8>;

/// The varint bytes that bincode's standard configuration produces for a
/// `u64`.
pub uninterp spec fn u64_enc(n: u64) -> Seq<u8>;

/// The varint bytes that bincode's standard configuration produces for an
/// `i64` (zigzag-mapped before the varint).
pub uninterp spec fn i64_enc(n: i64) -> Seq<u8>;

/// bincode's decode-side error, carried through unchanged; the codec maps
/// it to this crate's own error type.
#[verifier::external_type_specification]
#[verifier::external_body]
pub struct ExDecodeError(bincode::error::DecodeError);

/// Relies on `bincode::serde::encode_to_vec` (standard configuration) at
/// `&String`: the result is a function of the string contents alone, and
/// encoding a `String` into a `Vec` writer cannot fail.
#[verifier::external_body]
pub fn encode_string(s: &String) -> (r: Vec<u8>)
    ensures
        r@ == str_enc(s@),
{
    bincode::serde::encode_to_vec(s, bincode::config::standard()).unwrap()
}

/// Relies on `bincode::serde::decode_from_slice` (standard configuration)
/// at `String`: it consumes a prefix of the buffer and reports how many
/// bytes it read, and decoding is the inverse of encoding on any buffer
/// that starts with an encoded string.
#[verifier::external_body]
pub fn decode_string(bytes: &[u8]) -> (r: Result<(String, usize), bincode::error::DecodeError>)
    ensures
        match r {
            Ok(p) => p.1 <= bytes@.len() && forall|s: Seq<char>|
                #[trigger] str_enc(s).is_prefix_of(bytes@) ==> p.0@ == s && p.1 == str_enc(
                    s,
                ).len(),
            Err(_) => forall|s: Seq<char>| !(#[trigger] str_enc(s).is_prefix_of(bytes@)),
        },
{
    bincode::serde::decode_from_slice(bytes, bincode::config::standard())
}

/// Relies on `bincode::serde::encode_to_vec` (standard configuration) at
/// `&Vec<u8>`: the result is a function of the bytes alone, and encoding
/// into a `Vec` writer cannot fail.
#[verifier::external_body]
pub fn encode_byte_vec(b: &Vec<u8>) -> (r: Vec<u8>)
    ensures
        r@ == bytes_enc(b@),
{
    bincode::serde::encode_to_vec(b, bincode::config::standard()).unwrap()
}

/// Relies on `bincode::serde::decode_from_slice` (standard configuration)
/// at `Vec<u8>`: prefix consumption and inverse-of-encoding, as for
/// strings.
#[verifier::external_body]
pub fn decode_byte_vec(bytes: &[u8]) -> (r: Result<(Vec<u8>, usize), bincode::error::DecodeError>)
    ensures
        match r {
            Ok(p) => p.1 <= bytes@.len() && forall|b: Seq<u8>|
                #[trigger] bytes_enc(b).is_prefix_of(bytes@) ==> p.0@ == b && p.1 == bytes_enc(
                    b,
                ).len(),
            Err(_) => forall|b: Seq<u8>| !(#[trigger] bytes_enc(b).is_prefix_of(bytes@)),
        },
{
    bincode::serde::decode_from_slice(bytes, bincode::config::standard())
}

/// Relies on `bincode::serde::encode_to_vec` (standard configuration) at
/// `u64`: the varint form of the value; cannot fail.
#[verifier::external_body]
pub fn encode_u64(n: u64) -> (r: Vec<u8>)
    ensures
        r@ == u64_enc(n),
{
    bincode::serde::encode_to_vec(n, bincode::config::standard()).unwrap()
}

/// Relies on `bincode::serde::decode_from_slice` (standard configuration)
/// at `u64`: prefix consumption and inverse-of-encoding.
#[verifier::external_body]
pub fn decode_u64(bytes: &[u8]) -> (r: Result<(u64, usize), bincode::error::DecodeError>)
    ensures
        match r {
            Ok(p) => p.1 <= bytes@.len() && forall|n: u64|
                #[trigger] u64_enc(n).is_prefix_of(bytes@) ==> p.0 == n && p.1 == u64_enc(
                    n,
                ).len(),
            Err(_) => forall|n: u64| !(#[trigger] u64_enc(n).is_prefix_of(bytes@)),
        },
{
    bincode::serde::decode_from_slice(bytes, bincode::config::standard())
}

/// Relies on `bincode::serde::encode_to_vec` (standard configuration) at
/// `i64`: the zigzag varint form of the value; cannot fail.
#[verifier::external_body]
pub fn encode_i64(n: i64) -> (r: Vec<u8>)
    ensures
        r@ == i64_enc(n),
{
    bincode::serde::encode_to_vec(n, bincode::config::standard()).unwrap()
}

/// Relies on `bincode::serde::decode_from_slice` (standard configuration)
/// at `i64`: prefix consumption and inverse-of-encoding.
#[verifier::external_body]
pub fn decode_i64(bytes: &[u8]) -> (r: Result<(i64, usize), bincode::error::DecodeError>)
    ensures
        match r {
            Ok(p) => p.1 <= bytes@.len() && forall|n: i64|
                #[trigger] i64_enc(n).is_prefix_of(bytes@) ==> p.0 == n && p.1 == i64_enc(
                    n,
                ).len(),
            Err(_) => forall|n: i64| !(#[trigger] i64_enc(n).is_prefix_of(bytes@)),
        },
{
    bincode::serde::decode_from_slice(bytes, bincode::config::standard())
}

} // verus!
