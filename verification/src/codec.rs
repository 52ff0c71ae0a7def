//! The payload codec: one produced value travels as exactly 8 bytes,
//! little-endian, and comes back out unchanged.

use vstd::prelude::*;
use vstd::bytes::{spec_u64_from_le_bytes, spec_u64_to_le_bytes, u64_from_le_bytes, u64_to_le_bytes};
use crate::errors::PluginError;

verus! {

/// Number of bytes of one encoded value on the wire.
pub const PAYLOAD_LEN: usize = 8;

/// Encodes a value as its 8-byte little-endian payload.
pub fn encode_value(value: u64) -> (payload: Vec<u8>)
    ensures
        payload@ == spec_u64_to_le_bytes(value),
        payload@.len() == 8,
{
    u64_to_le_bytes(value)
}

/// Decodes the payload of an event record: the payload must be present and
/// exactly 8 bytes long, and is then read as a little-endian value; anything
/// else is rejected whole as [`PluginError::MalformedPayload`].
pub fn decode_value(payload: Option<&[u8]>) -> (r: Result<u64, PluginError>)
    ensures
        match payload {
            Some(p) => {
                if p@.len() == 8 {
                    r == Ok::<u64, PluginError>(spec_u64_from_le_bytes(p@))
                } else {
                    r == Err::<u64, PluginError>(PluginError::MalformedPayload)
                }
            },
            None => r == Err::<u64, PluginError>(PluginError::MalformedPayload),
        },
{
    match payload {
        Some(p) => {
            if p.len() == PAYLOAD_LEN {
                Ok(u64_from_le_bytes(p))
            } else {
                Err(PluginError::MalformedPayload)
            }
        },
        None => Err(PluginError::MalformedPayload),
    }
}

/// Encoding a value and decoding the 8 bytes again returns the value, for
/// every value; and decoding any 8-byte payload and encoding the result
/// gives the payload back.
pub proof fn lemma_encode_decode_round_trip(value: u64, payload: Seq<u8>)
    requires
        payload.len() == 8,
    ensures
        spec_u64_from_le_bytes(spec_u64_to_le_bytes(value)) == value,
        spec_u64_to_le_bytes(spec_u64_from_le_bytes(payload)) == payload,
{
    vstd::bytes::lemma_auto_spec_u64_to_from_le_bytes();
}

/// Text shown for an event that carries no payload at all.
pub open spec fn spec_no_payload_text() -> Seq<u8> {
    seq![60u8, 110u8, 111u8, 32u8, 112u8, 97u8, 121u8, 108u8, 111u8, 97u8, 100u8, 62u8]
}

/// Whether a NUL byte occurs in the sequence.
pub open spec fn has_nul(s: Seq<u8>) -> bool {
    exists|i: int| 0 <= i < s.len() && s[i] == 0u8
}

/// Renders a payload as NUL-free text for inspection tools: an absent
/// payload renders as the fixed marker `<no payload>`, a present one as its
/// own bytes; a payload holding a NUL byte cannot be rendered and yields
/// `None`.
pub fn render_payload(payload: Option<&[u8]>) -> (r: Option<Vec<u8>>)
    ensures
        match payload {
            Some(p) => {
                if has_nul(p@) {
                    r is None
                } else {
                    r matches Some(t) && t@ == p@
                }
            },
            None => r matches Some(t) && t@ == spec_no_payload_text(),
        },
{
    match payload {
        Some(p) => {
            let mut text: Vec<u8> = Vec::new();
            let mut i: usize = 0;
            while i < p.len()
                invariant
                    payload == Some(p),
                    0 <= i <= p@.len(),
                    text@ == p@.subrange(0, i as int),
                    !has_nul(p@.subrange(0, i as int)),
                decreases p@.len() - i,
            {
                let b = p[i];
                if b == 0u8 {
                    assert(has_nul(p@)) by {
                        assert(p@[i as int] == 0u8);
                    }
                    return None;
                }
                text.push(b);
                i = i + 1;
                assert(text@ =~= p@.subrange(0, i as int));
            }
            assert(text@ =~= p@);
            Some(text)
        },
        None => {
            let mut text: Vec<u8> = Vec::new();
            text.push(60u8);
            text.push(110u8);
            text.push(111u8);
            text.push(32u8);
            text.push(112u8);
            text.push(97u8);
            text.push(121u8);
            text.push(108u8);
            text.push(111u8);
            text.push(97u8);
            text.push(100u8);
            text.push(62u8);
            assert(text@ =~= spec_no_payload_text());
            Some(text)
        },
    }
}

} // verus!
