//! Base64 encoding and decoding of the envelope payload.
//!
//! The payload field of an envelope holds the standard-alphabet, padded
//! base64 encoding of the application bytes. The encoding itself is done by
//! the `base64` crate; its result is given the name `b64_of`, and the decode
//! contract states that decoding succeeds exactly on encoder outputs, which
//! that engine's canonical-padding configuration guarantees.

use vstd::prelude::*;

verus! {

/// The standard-alphabet, padded base64 encoding of a byte sequence.
pub uninterp spec fn b64_of(b: Seq<u8>) -> Seq<char>;

/// A character the standard padded base64 alphabet can produce.
pub open spec fn is_b64_symbol(c: char) -> bool {
    (65 <= c as u32 <= 90)  // 'A'..'Z'
    || (97 <= c as u32 <= 122)  // 'a'..'z'
    || (48 <= c as u32 <= 57)  // '0'..'9'
    || c as u32 == 43  // '+'
    || c as u32 == 47  // '/'
    || c as u32 == 61  // '='
}

/// Relies on the `base64` crate's `BASE64_STANDARD` engine encode: the
/// result is a function of the input bytes alone.
#[verifier::external_body]
pub fn b64_encode(b: &[u8]) -> (r: String)
    ensures
        r@ == b64_of(b@),
{
    base64::Engine::encode(&base64::prelude::BASE64_STANDARD, b)
}

/// Declared so the wrapper below can return the `base64` crate's error type.
#[verifier::external_type_specification]
#[verifier::external_body]
pub struct ExDecodeError(base64::DecodeError);

/// Relies on the `base64` crate's `BASE64_STANDARD` engine decode: that
/// engine requires canonical padding and rejects set trailing bits, so it
/// accepts exactly the encoder's outputs and inverts the encoding on them,
/// and it rejects any input holding a character outside the standard padded
/// alphabet.
#[verifier::external_body]
pub fn b64_decode(s: &str) -> (r: Result<Vec<u8>, base64::DecodeError>)
    ensures
        r matches Ok(v) ==> s@ == b64_of(v@),
        forall|b: Seq<u8>| s@ == b64_of(b) ==> r is Ok && r->Ok_0@ == b,
        (exists|i: int| 0 <= i < s@.len() && !is_b64_symbol(s@[i])) ==> r is Err,
{
    base64::Engine::decode(&base64::prelude::BASE64_STANDARD, s)
}

} // verus!
