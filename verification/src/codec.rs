//! The signed-body codec and the laws that tie it to the envelope.
//!
//! Packing puts `hex(signature) || hex(recovery_id) || body` in front of the
//! wire: 130 ASCII hex characters of signature material immediately followed
//! by the raw body bytes. The functions below state, and Verus proves, that
//! building an envelope from such a payload and then decoding, parsing or
//! signature-checking it lands exactly back on the packed pieces.

use vstd::prelude::*;

use crate::base64fmt::b64_of;
use crate::crypto::secp_sig_valid;
use crate::crypto::secp_verify_ok;
use crate::crypto::sha256_of;
use crate::crypto::VerifyingKey;
use crate::errors::MessageError;
use crate::hexfmt::hex_decoded;
use crate::hexfmt::hex_encode_bytes;
use crate::hexfmt::hex_lower;
use crate::hexfmt::is_hex_digit;
use crate::hexfmt::lemma_hex_lower_digits;
use crate::hexfmt::lemma_hex_round_trip;
use crate::message::spec_signature_check;
use crate::message::WakuMessage;
use crate::message::SIGNATURE_SIZE;

verus! {

/// The packed form of a signed body: the lowercase hex of the 64-byte
/// signature, then the lowercase hex of the recovery id byte, then the raw
/// body bytes.
pub open spec fn spec_packed(signature: Seq<u8>, recovery_id: u8, body: Seq<u8>) -> Seq<u8> {
    hex_lower(signature) + hex_lower(seq![recovery_id]) + body
}

/// Packs a signature, its recovery id and a body into the signed-body wire
/// form, ready to be handed to `WakuMessage::new` as the payload.
pub fn pack_signed(signature: &[u8], recovery_id: u8, body: &[u8]) -> (r: Vec<u8>)
    requires
        signature@.len() == 64,
    ensures
        r@ == spec_packed(signature@, recovery_id, body@),
        r@.len() == SIGNATURE_SIZE + body@.len(),
{
    let mut out = hex_encode_bytes(signature);
    let mut recovery: Vec<u8> = Vec::new();
    recovery.push(recovery_id);
    let mut recovery_hex = hex_encode_bytes(recovery.as_slice());
    out.append(&mut recovery_hex);
    out.extend_from_slice(body);
    proof {
        assert(recovery@ =~= seq![recovery_id]);
        assert(out@ =~= spec_packed(signature@, recovery_id, body@));
    }
    out
}

/// Round trip: decoding the payload of an envelope that was just built
/// returns exactly the bytes it was built from.
pub fn payload_round_trip(bytes: &[u8], topic: &str) -> (out: Vec<u8>)
    ensures
        out@ == bytes@,
{
    let message = WakuMessage::new(bytes, topic);
    match message.decode_payload() {
        Ok(v) => v,
        Err(_) => {
            proof {
                assert(false);
            }
            Vec::new()
        },
    }
}

/// Parsing an envelope built from plain (unsigned) bytes returns exactly
/// those bytes: the body of an unsigned payload is the whole payload.
pub fn unsigned_parse_round_trip(bytes: &[u8], topic: &str) -> (out: Vec<u8>)
    ensures
        out@ == bytes@,
{
    let message = WakuMessage::new(bytes, topic);
    match message.parse_payload(false) {
        Ok(v) => v,
        Err(_) => {
            proof {
                assert(false);
            }
            Vec::new()
        },
    }
}

/// Parsing a signed-and-packed envelope returns exactly the packed body,
/// whatever signature and recovery id stand in front of it. `is_signed`
/// takes the envelope by shared reference and changes nothing, so the
/// result is the same whether or not the signature was checked first.
pub fn signed_parse_round_trip(signature: &[u8], recovery_id: u8, body: &[u8], topic: &str) -> (out:
    Vec<u8>)
    requires
        signature@.len() == 64,
    ensures
        out@ == body@,
{
    let packed = pack_signed(signature, recovery_id, body);
    let message = WakuMessage::new(packed.as_slice(), topic);
    proof {
        assert(spec_packed(signature@, recovery_id, body@).subrange(
            SIGNATURE_SIZE as int,
            spec_packed(signature@, recovery_id, body@).len() as int,
        ) =~= body@);
    }
    match message.parse_payload(true) {
        Ok(v) => v,
        Err(_) => {
            proof {
                assert(false);
            }
            Vec::new()
        },
    }
}

/// Checking the signature of a signed-and-packed envelope checks exactly
/// the packed signature against the SHA-256 digest of the packed body,
/// under the given key: the byte offsets of producer and verifier agree.
/// With a structurally invalid signature the check reports a parse error.
pub fn packed_signature_check(
    signature: &[u8],
    recovery_id: u8,
    body: &[u8],
    topic: &str,
    public_key: &VerifyingKey,
) -> (r: Result<bool, MessageError>)
    requires
        signature@.len() == 64,
    ensures
        secp_sig_valid(signature@) ==> r == Result::<bool, MessageError>::Ok(
            secp_verify_ok(signature@, sha256_of(body@), public_key.bytes()),
        ),
        !secp_sig_valid(signature@) ==> r == Result::<bool, MessageError>::Err(
            MessageError::SignatureParse,
        ),
{
    let packed = pack_signed(signature, recovery_id, body);
    let message = WakuMessage::new(packed.as_slice(), topic);
    let verdict = message.is_signed(public_key);
    proof {
        let p = spec_packed(signature@, recovery_id, body@);
        lemma_hex_lower_digits(signature@);
        lemma_hex_round_trip(signature@);
        assert(p.subrange(0, 128) =~= hex_lower(signature@));
        assert(p.subrange(SIGNATURE_SIZE as int, p.len() as int) =~= body@);
        assert forall|i: int| 0 <= i < 128 implies is_hex_digit(#[trigger] p[i]) by {
            assert(p[i] == hex_lower(signature@)[i]);
        }
        assert(hex_decoded(p.subrange(0, 128)) == signature@);
        assert(verdict == spec_signature_check(p, public_key.bytes()));
    }
    verdict
}

} // verus!
