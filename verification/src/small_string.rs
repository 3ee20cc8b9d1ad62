//! A codec that packs a short text into a block of 32 bytes.
//!
//! A record of fixed size cannot hold a text of any length. This codec takes
//! the general encoding of a text, which is its length in eight bytes followed
//! by its UTF-8 bytes, and keeps the lowest length byte and the text: one
//! length byte, up to 31 bytes of text, then zeros.
//!
//! | byte 0 | bytes 1 to n | bytes n + 1 to 31 |
//! |--------|--------------|-------------------|
//! | n      | the text     | zero              |

use crate::encoding::{
    announced_bytes, announced_len, decode_text, encode_text, length_prefixed,
};
use vstd::bytes::{
    lemma_auto_spec_u64_to_from_le_bytes, spec_u64_from_le_bytes, spec_u64_to_le_bytes,
    spec_u64_to_le_bytes_open, spec_u64_to_le_bytes_to_open,
};
use vstd::prelude::*;
use vstd::utf8::{decode_utf8, encode_utf8, group_utf8_lib, valid_utf8};

verus! {

/// The number of bytes in a block.
pub const SMALL_STRING_BYTES: usize = 32;

/// The largest number of text bytes that a block holds.
pub const SMALL_STRING_MAX_LEN: usize = 31;

/// The number of bytes that the general encoding spends on the length.
const LENGTH_BYTES: usize = 8;

/// Why a block does not hold a text.
#[derive(Debug, Clone, Copy, PartialEq, Eq, Structural)]
pub enum SmallStringError {
    /// The length byte announces more bytes than follow it.
    Truncated,
    /// The announced bytes are not UTF-8.
    InvalidUtf8,
}

/// The block of a text: its length, its UTF-8 bytes, and zeros up to 32 bytes.
/// A text of more than 31 bytes has no block.
pub open spec fn small_string_block(text: Seq<char>) -> Option<Seq<u8>> {
    let payload = encode_utf8(text);
    if payload.len() <= SMALL_STRING_MAX_LEN {
        Some(
            seq![payload.len() as u8] + payload + Seq::new(
                (SMALL_STRING_MAX_LEN - payload.len()) as nat,
                |i: int| 0u8,
            ),
        )
    } else {
        None
    }
}

/// The text of a block. The first byte announces how many of the following
/// bytes are text. What follows those is ignored.
pub open spec fn small_string_text(block: Seq<u8>) -> Result<Seq<char>, SmallStringError>
    recommends
        block.len() >= 1,
{
    let len = block[0] as int;
    if len > block.len() - 1 {
        Err(SmallStringError::Truncated)
    } else if !valid_utf8(block.subrange(1, 1 + len)) {
        Err(SmallStringError::InvalidUtf8)
    } else {
        Ok(decode_utf8(block.subrange(1, 1 + len)))
    }
}

/// The first byte of a little-endian `u64` below 256 is the number itself, and
/// the other seven are zero.
proof fn lemma_le_bytes_of_small(x: u64)
    requires
        x < 256,
    ensures
        spec_u64_to_le_bytes(x) =~= seq![x as u8, 0u8, 0u8, 0u8, 0u8, 0u8, 0u8, 0u8],
        spec_u64_from_le_bytes(seq![x as u8, 0u8, 0u8, 0u8, 0u8, 0u8, 0u8, 0u8]) == x,
{
    lemma_auto_spec_u64_to_from_le_bytes();
    spec_u64_to_le_bytes_to_open(x);
    let open = spec_u64_to_le_bytes_open(x);
    assert(x & 0xff == x && (x >> 8) & 0xff == 0 && (x >> 16) & 0xff == 0 && (x >> 24) & 0xff == 0
        && (x >> 32) & 0xff == 0 && (x >> 40) & 0xff == 0 && (x >> 48) & 0xff == 0 && (x >> 56)
        & 0xff == 0) by (bit_vector)
        requires
            x < 256,
    ;
    assert(open =~= seq![x as u8, 0u8, 0u8, 0u8, 0u8, 0u8, 0u8, 0u8]);
}

/// Packs a text into a block of 32 bytes.
///
/// A text of at most 31 bytes gives its block. A longer text is refused: no
/// part of it is dropped in silence.
pub fn serialize_small_string(s: &String) -> (r: Result<[u8; SMALL_STRING_BYTES], ()>)
    ensures
        r is Ok <==> encode_utf8(s@).len() <= SMALL_STRING_MAX_LEN,
        r matches Ok(block) ==> Some(block@) == small_string_block(s@),
{
    let ghost payload = encode_utf8(s@);
    match encode_text(s) {
        Ok(encoded) => {
            proof {
                lemma_auto_spec_u64_to_from_le_bytes();
            }
            assert(encoded@.len() == LENGTH_BYTES + payload.len());
            if encoded.len() < LENGTH_BYTES + SMALL_STRING_BYTES {
                proof {
                    lemma_le_bytes_of_small(payload.len() as u64);
                }
                let mut block = [0u8;SMALL_STRING_BYTES];
                block[0] = encoded[0];
                let mut i: usize = LENGTH_BYTES;
                while i < encoded.len()
                    invariant
                        LENGTH_BYTES <= i <= encoded.len() < LENGTH_BYTES + SMALL_STRING_BYTES,
                        encoded@ == length_prefixed(s@),
                        payload == encode_utf8(s@),
                        encoded@.len() == LENGTH_BYTES + payload.len(),
                        block@.len() == SMALL_STRING_BYTES,
                        block@[0] == payload.len() as u8,
                        forall|j: int| 1 <= j < i - 7 ==> block@[j] == payload[j - 1],
                        forall|j: int| i - 7 <= j < SMALL_STRING_BYTES ==> block@[j] == 0u8,
                    decreases encoded.len() - i,
                {
                    block[i - 7] = encoded[i];
                    i += 1;
                }
                assert(Some(block@) == small_string_block(s@)) by {
                    assert(block@ =~= small_string_block(s@)->Some_0);
                }
                Ok(block)
            } else {
                Err(())
            }
        },
        Err(_) => Err(()),
    }
}

/// Reads the text of a block, or of the leading part of one.
///
/// The first byte tells how many of the bytes after it are the text; the rest
/// is padding and is not looked at.
pub fn deserialize_small_string(v: &[u8]) -> (r: Result<String, SmallStringError>)
    requires
        v@.len() >= 1,
    ensures
        match small_string_text(v@) {
            Ok(text) => r matches Ok(s) && s@ == text,
            Err(e) => r == Err::<String, SmallStringError>(e),
        },
{
    let mut bytes: Vec<u8> = Vec::new();
    bytes.push(v[0]);
    let mut k: usize = 0;
    while k < 7
        invariant
            k <= 7,
            bytes@.len() == 1 + k,
            bytes@[0] == v@[0],
            forall|j: int| 1 <= j < 1 + k ==> bytes@[j] == 0u8,
        decreases 7 - k,
    {
        bytes.push(0);
        k += 1;
    }
    let mut i: usize = 1;
    while i < v.len()
        invariant
            1 <= i <= v@.len(),
            bytes@.len() == 7 + i,
            bytes@[0] == v@[0],
            forall|j: int| 1 <= j < 8 ==> bytes@[j] == 0u8,
            forall|j: int| 8 <= j < 7 + i ==> bytes@[j] == v@[j - 7],
        decreases v@.len() - i,
    {
        bytes.push(v[i]);
        i += 1;
    }
    let ghost len = v@[0] as int;
    proof {
        lemma_le_bytes_of_small(v@[0] as u64);
        assert(bytes@.subrange(0, 8) =~= seq![v@[0], 0u8, 0u8, 0u8, 0u8, 0u8, 0u8, 0u8]);
        assert(announced_len(bytes@) == len);
        if len <= v@.len() - 1 {
            assert(announced_bytes(bytes@) =~= v@.subrange(1, 1 + len));
        }
    }
    match decode_text(bytes.as_slice()) {
        Ok(text) => {
            proof {
                broadcast use group_utf8_lib;

                assert(decode_utf8(encode_utf8(text@)) == text@);
            }
            Ok(text)
        },
        Err(_) => {
            if (v[0] as usize) > v.len() - 1 {
                Err(SmallStringError::Truncated)
            } else {
                Err(SmallStringError::InvalidUtf8)
            }
        },
    }
}

/// A text of at most 31 bytes comes back from its block, and the block has 32
/// bytes.
pub proof fn lemma_small_string_round_trip(text: Seq<char>)
    requires
        encode_utf8(text).len() <= SMALL_STRING_MAX_LEN,
    ensures
        small_string_block(text) matches Some(block) && block.len() == SMALL_STRING_BYTES
            && small_string_text(block) == Ok::<Seq<char>, SmallStringError>(text),
{
    broadcast use group_utf8_lib;

    let payload = encode_utf8(text);
    let block = small_string_block(text)->Some_0;
    assert(block[0] as int == payload.len());
    assert(block.subrange(1, 1 + payload.len() as int) =~= payload);
    assert(valid_utf8(payload));
    assert(decode_utf8(payload) == text);
}

/// A text of more than 31 bytes has no block.
pub proof fn lemma_long_text_has_no_block(text: Seq<char>)
    requires
        encode_utf8(text).len() > SMALL_STRING_MAX_LEN,
    ensures
        small_string_block(text) is None,
{
}

} // verus!
