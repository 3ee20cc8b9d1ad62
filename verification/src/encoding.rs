//! What the crate takes on trust from `bincode`.
//!
//! `bincode` writes and reads the general encoding of a text, and its errors
//! tell why an attempt to decode failed. The functions here make those calls.
//! Their contracts are not proved: they say what the source of `bincode` shows.

use crate::reader::DecodeFailure;
use vstd::bytes::{spec_u64_from_le_bytes, spec_u64_to_le_bytes};
use vstd::prelude::*;
use vstd::utf8::{encode_utf8, valid_utf8};

verus! {

/// The error type of `bincode`. Nothing here looks inside a value of it.
#[verifier::external_type_specification]
#[verifier::external_body]
pub struct ExErrorKind(bincode::ErrorKind);

/// The general encoding of a text: the number of its UTF-8 bytes as eight
/// bytes, lowest first, then those bytes.
pub open spec fn length_prefixed(text: Seq<char>) -> Seq<u8> {
    spec_u64_to_le_bytes(encode_utf8(text).len() as u64) + encode_utf8(text)
}

/// The length that the first eight bytes announce.
pub open spec fn announced_len(bytes: Seq<u8>) -> int
    recommends
        bytes.len() >= 8,
{
    spec_u64_from_le_bytes(bytes.subrange(0, 8)) as int
}

/// The bytes that follow the length, as many as it announces.
pub open spec fn announced_bytes(bytes: Seq<u8>) -> Seq<u8>
    recommends
        bytes.len() >= 8 + announced_len(bytes),
{
    bytes.subrange(8, 8 + announced_len(bytes))
}

/// The bytes begin with the general encoding of some text: a length, that many
/// bytes after it, and these are UTF-8. More bytes may follow.
pub open spec fn begins_with_text(bytes: Seq<u8>) -> bool {
    &&& bytes.len() >= 8
    &&& 8 + announced_len(bytes) <= bytes.len()
    &&& valid_utf8(announced_bytes(bytes))
}

/// `bincode::serialize`, called on a `String`.
///
/// Trusted, from the source of `bincode`: with the options of that function
/// (fixed-width integers, little endian, no size limit) a string is written as
/// its length in bytes, a `u64`, followed by its bytes. Writing into a vector
/// does not fail and no limit is set, so the call returns `Ok`.
#[verifier::external_body]
pub(crate) fn encode_text(text: &String) -> (r: Result<Vec<u8>, Box<bincode::ErrorKind>>)
    ensures
        r is Ok,
        r matches Ok(bytes) ==> bytes@ == length_prefixed(text@),
{
    bincode::serialize(text)
}

/// `bincode::deserialize`, called for a `String`.
///
/// Trusted, from the source of `bincode`: the call reads a `u64` length from
/// the first eight bytes, lowest first, takes that many of the bytes after it,
/// and makes a string of them if they are UTF-8. It fails when there are fewer
/// than eight bytes, fewer bytes than announced, or bytes that are not UTF-8.
/// It accepts bytes that are left over.
#[verifier::external_body]
pub(crate) fn decode_text(bytes: &[u8]) -> (r: Result<String, Box<bincode::ErrorKind>>)
    ensures
        r is Ok <==> begins_with_text(bytes@),
        r matches Ok(text) ==> encode_utf8(text@) == announced_bytes(bytes@),
{
    bincode::deserialize(bytes)
}

/// The kind of an error of `bincode`, as a value of this crate: the name of
/// what [`failure_of`] returns. It depends on the error alone.
pub uninterp spec fn failure_kind(error: bincode::ErrorKind) -> DecodeFailure;

/// Tells the variants of `bincode::ErrorKind` apart.
///
/// Trusted: each variant is given by the variant of the same name, with the
/// byte or the tag or the text that it carries. Of an error of the stream one
/// thing is kept: whether its kind is `std::io::ErrorKind::WouldBlock`. The
/// text that such an error displays comes from the platform and is no part of
/// the result.
#[verifier::external_body]
pub(crate) fn failure_of(error: &bincode::ErrorKind) -> (r: DecodeFailure)
    ensures
        r == failure_kind(*error),
{
    match error {
        bincode::ErrorKind::Io(e) => DecodeFailure::Io(e.kind() == std::io::ErrorKind::WouldBlock),
        bincode::ErrorKind::InvalidUtf8Encoding(_) => DecodeFailure::InvalidUtf8Encoding,
        bincode::ErrorKind::InvalidBoolEncoding(byte) => DecodeFailure::InvalidBoolEncoding(*byte),
        bincode::ErrorKind::InvalidCharEncoding => DecodeFailure::InvalidCharEncoding,
        bincode::ErrorKind::InvalidTagEncoding(tag) => DecodeFailure::InvalidTagEncoding(*tag),
        bincode::ErrorKind::DeserializeAnyNotSupported => DecodeFailure::DeserializeAnyNotSupported,
        bincode::ErrorKind::SizeLimit => DecodeFailure::SizeLimit,
        bincode::ErrorKind::SequenceMustHaveLength => DecodeFailure::SequenceMustHaveLength,
        bincode::ErrorKind::Custom(text) => DecodeFailure::Custom(text.clone()),
    }
}

} // verus!
