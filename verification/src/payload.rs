//! The data that the Ed25519 program is given, as far as this crate reads it.
//!
//! The data starts with a count byte and a padding byte. A block of
//! little-endian 16-bit fields follows for each signature; of the first
//! block, three fields matter here: where the public key starts (bytes 6
//! and 7), where the message starts (bytes 10 and 11) and how long the
//! message is (bytes 12 and 13). All three count bytes from the start of the
//! same data. The count byte is not looked at.

use vstd::prelude::*;

verus! {

/// Length of an Ed25519 public key.
pub const PUBKEY_LEN: usize = 32;

/// Position of the field that holds the start of the public key.
pub const PUBLIC_KEY_OFFSET_AT: usize = 6;

/// Position of the field that holds the start of the message.
pub const MESSAGE_DATA_OFFSET_AT: usize = 10;

/// Position of the field that holds the length of the message.
pub const MESSAGE_DATA_SIZE_AT: usize = 12;

/// Number of leading bytes that the three fields span.
pub const HEADER_LEN: usize = 14;

/// The little-endian 16-bit number in `bytes[at]` and `bytes[at + 1]`.
pub open spec fn le_u16(bytes: Seq<u8>, at: int) -> int
    recommends
        0 <= at,
        at + 2 <= bytes.len(),
{
    bytes[at] as int + 256 * (bytes[at + 1] as int)
}

/// Where the header says the public key starts.
pub open spec fn public_key_start(payload: Seq<u8>) -> int
    recommends
        payload.len() >= HEADER_LEN,
{
    le_u16(payload, PUBLIC_KEY_OFFSET_AT as int)
}

/// Where the header says the message starts.
pub open spec fn message_data_start(payload: Seq<u8>) -> int
    recommends
        payload.len() >= HEADER_LEN,
{
    le_u16(payload, MESSAGE_DATA_OFFSET_AT as int)
}

/// How long the header says the message is.
pub open spec fn message_size(payload: Seq<u8>) -> int
    recommends
        payload.len() >= HEADER_LEN,
{
    le_u16(payload, MESSAGE_DATA_SIZE_AT as int)
}

/// The payload holds its header, and the key and the message that the
/// header points at lie inside it.
pub open spec fn well_formed(payload: Seq<u8>) -> bool {
    &&& payload.len() >= HEADER_LEN
    &&& public_key_start(payload) + PUBKEY_LEN <= payload.len()
    &&& message_data_start(payload) + message_size(payload) <= payload.len()
}

/// The 32 bytes of the public key inside a well-formed payload.
pub open spec fn embedded_key(payload: Seq<u8>) -> Seq<u8>
    recommends
        well_formed(payload),
{
    payload.subrange(public_key_start(payload), public_key_start(payload) + PUBKEY_LEN)
}

/// The bytes of the message inside a well-formed payload.
pub open spec fn embedded_message(payload: Seq<u8>) -> Seq<u8>
    recommends
        well_formed(payload),
{
    payload.subrange(
        message_data_start(payload),
        message_data_start(payload) + message_size(payload),
    )
}

/// The three header fields of a well-formed payload.
#[derive(Clone, Copy, Debug, PartialEq, Eq)]
pub struct SignatureOffsets {
    pub public_key_start: usize,
    pub message_data_start: usize,
    pub message_size: usize,
}

/// Reads the little-endian 16-bit number at `at`, or nothing where the two
/// bytes are not there.
pub fn read_u16_le(bytes: &[u8], at: usize) -> (value: Option<u16>)
    ensures
        value.is_some() <==> at + 2 <= bytes@.len(),
        value matches Some(v) ==> v == le_u16(bytes@, at as int),
{
    if bytes.len() < 2 || at > bytes.len() - 2 {
        return None;
    }
    let low: u16 = bytes[at] as u16;
    let high: u16 = bytes[at + 1] as u16;
    Some(low + 256 * high)
}

/// Decodes the header, and tests that the key and the message it points at
/// lie inside the payload. Returns the fields exactly when they do.
pub fn decode_offsets(payload: &[u8]) -> (offsets: Option<SignatureOffsets>)
    ensures
        offsets.is_some() <==> well_formed(payload@),
        offsets matches Some(o) ==> {
            &&& o.public_key_start == public_key_start(payload@)
            &&& o.message_data_start == message_data_start(payload@)
            &&& o.message_size == message_size(payload@)
        },
{
    let public_key_start: usize = match read_u16_le(payload, PUBLIC_KEY_OFFSET_AT) {
        Some(v) => v as usize,
        None => return None,
    };
    let message_data_start: usize = match read_u16_le(payload, MESSAGE_DATA_OFFSET_AT) {
        Some(v) => v as usize,
        None => return None,
    };
    let message_size: usize = match read_u16_le(payload, MESSAGE_DATA_SIZE_AT) {
        Some(v) => v as usize,
        None => return None,
    };
    if public_key_start + PUBKEY_LEN > payload.len() {
        return None;
    }
    if message_data_start + message_size > payload.len() {
        return None;
    }
    Some(SignatureOffsets { public_key_start, message_data_start, message_size })
}

/// Whether the `len` bytes of `bytes` from `start` on are there and are
/// exactly `expected`. A region of another length than `expected` is not
/// equal to it.
pub fn region_equals(bytes: &[u8], start: usize, len: usize, expected: &[u8]) -> (equal: bool)
    ensures
        equal <==> {
            &&& start + len <= bytes@.len()
            &&& bytes@.subrange(start as int, start + len) == expected@
        },
{
    if start > bytes.len() || len > bytes.len() - start {
        return false;
    }
    if expected.len() != len {
        return false;
    }
    let mut i: usize = 0;
    while i < len
        invariant
            i <= len,
            start + len <= bytes.len(),
            expected.len() == len,
            forall|j: int| 0 <= j < i ==> bytes@[start + j] == expected@[j],
        decreases len - i,
    {
        if bytes[start + i] != expected[i] {
            assert(bytes@.subrange(start as int, start + len)[i as int] != expected@[i as int]);
            return false;
        }
        i += 1;
    }
    assert(bytes@.subrange(start as int, start + len) =~= expected@);
    true
}

} // verus!
