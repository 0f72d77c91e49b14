//! Typed errors for envelope decoding and signature checking.
//!
//! Input reaches this crate from an untrusted network, so every malformed
//! input surfaces as a recoverable error value rather than a panic.

use vstd::prelude::*;

verus! {

/// Why decoding or verifying a message payload failed.
#[derive(Clone, Copy, Debug, PartialEq, Eq, Structural)]
pub enum MessageError {
    /// The stored payload string is not valid base64.
    Base64Decode,
    /// The signature prefix is not valid hexadecimal.
    HexDecode,
    /// The signature bytes do not form a structurally valid curve signature.
    SignatureParse,
    /// The decoded payload is shorter than the requested interpretation
    /// needs (a signed payload must hold at least the signature prefix).
    MalformedPayload,
}

impl MessageError {
    /// A short human-readable description of the error.
    pub fn as_str(&self) -> (r: &'static str)
        ensures
            *self is Base64Decode ==> r@ == "payload is not valid base64"@,
            *self is HexDecode ==> r@ == "signature prefix is not valid hex"@,
            *self is SignatureParse ==> r@ == "signature bytes are not a valid signature"@,
            *self is MalformedPayload ==> r@ == "payload is too short for a signed message"@,
    {
        match self {
            MessageError::Base64Decode => "payload is not valid base64",
            MessageError::HexDecode => "signature prefix is not valid hex",
            MessageError::SignatureParse => "signature bytes are not a valid signature",
            MessageError::MalformedPayload => "payload is too short for a signed message",
        }
    }
}

} // verus!
