//! Secp256k1 signature verification and the SHA-256 body digest.
//!
//! The curve arithmetic and the hash live in outside crates; their results
//! are deterministic functions of their byte-level inputs, so each one is
//! given a name here and every wrapper's contract speaks over those names.
//! The two key-material types carry, besides the opaque parsed value, the
//! bytes they were parsed from, which is what the contracts of the
//! verifying operations refer to.

use vstd::prelude::*;

use sha2::Digest;

verus! {

/// Declared so wrappers can return the `libsecp256k1` error type.
#[verifier::external_type_specification]
#[verifier::external_body]
pub struct ExSecpError(libsecp256k1::Error);

/// Declared so a parsed signature can be held in a field.
#[verifier::external_type_specification]
#[verifier::external_body]
pub struct ExSecpSignature(libsecp256k1::Signature);

/// Declared so a parsed public key can be held in a field.
#[verifier::external_type_specification]
#[verifier::external_body]
pub struct ExSecpPublicKey(libsecp256k1::PublicKey);

/// The 32-byte SHA-256 digest of a byte sequence.
pub uninterp spec fn sha256_of(b: Seq<u8>) -> Seq<u8>;

/// Whether a byte sequence is a structurally valid standard secp256k1
/// signature: exactly 64 bytes, with r and s both below the curve order.
pub uninterp spec fn secp_sig_valid(b: Seq<u8>) -> bool;

/// Whether a byte sequence is a valid encoding of a secp256k1 public key.
pub uninterp spec fn secp_pubkey_valid(b: Seq<u8>) -> bool;

/// Whether the signature with bytes `sig` verifies the 32-byte digest
/// `digest` under the public key encoded by `key`.
pub uninterp spec fn secp_verify_ok(sig: Seq<u8>, digest: Seq<u8>, key: Seq<u8>) -> bool;

/// Relies on `sha2::Sha256`: the digest is 32 bytes and a function of the
/// input bytes alone.
#[verifier::external_body]
pub fn sha256(b: &[u8]) -> (r: [u8; 32])
    ensures
        r@ == sha256_of(b@),
{
    sha2::Sha256::digest(b).into()
}

/// A standard (non-recoverable) secp256k1 signature, parsed from its 64-byte
/// form and keeping the bytes it was parsed from.
pub struct ParsedSignature {
    inner: libsecp256k1::Signature,
    repr: Vec<u8>,
}

impl ParsedSignature {
    /// The 64 bytes this signature was parsed from.
    pub closed spec fn bytes(&self) -> Seq<u8> {
        self.repr@
    }

    /// Relies on `libsecp256k1::Signature::parse_standard_slice`: it succeeds
    /// exactly on 64-byte inputs whose r and s do not overflow the curve
    /// order, and the parsed value is a function of the bytes alone.
    #[verifier::external_body]
    pub fn parse(b: &[u8]) -> (r: Result<ParsedSignature, libsecp256k1::Error>)
        ensures
            r is Ok <==> secp_sig_valid(b@),
            r matches Ok(s) ==> s.bytes() == b@,
    {
        match libsecp256k1::Signature::parse_standard_slice(b) {
            Ok(inner) => Ok(ParsedSignature { inner, repr: b.to_vec() }),
            Err(e) => Err(e),
        }
    }
}

/// A secp256k1 public key a signature can be checked against, keeping the
/// bytes it was parsed from.
pub struct VerifyingKey {
    inner: libsecp256k1::PublicKey,
    repr: Vec<u8>,
}

impl VerifyingKey {
    /// The bytes this key was parsed from (a 33-byte compressed or 65-byte
    /// uncompressed point encoding).
    pub closed spec fn bytes(&self) -> Seq<u8> {
        self.repr@
    }

    /// Relies on `libsecp256k1::PublicKey::parse_slice`: it succeeds exactly
    /// on valid point encodings, and the parsed key is a function of the
    /// bytes alone.
    #[verifier::external_body]
    pub fn from_bytes(b: &[u8]) -> (r: Result<VerifyingKey, libsecp256k1::Error>)
        ensures
            r is Ok <==> secp_pubkey_valid(b@),
            r matches Ok(k) ==> k.bytes() == b@,
    {
        match libsecp256k1::PublicKey::parse_slice(b, None) {
            Ok(inner) => Ok(VerifyingKey { inner, repr: b.to_vec() }),
            Err(e) => Err(e),
        }
    }
}

/// Relies on `libsecp256k1::verify` (with `Message::parse` wrapping the
/// digest bytes it is given): the outcome is a function of the signature,
/// the digest and the key alone.
#[verifier::external_body]
pub fn secp_verify(digest: &[u8; 32], signature: &ParsedSignature, key: &VerifyingKey) -> (r:
    bool)
    ensures
        r == secp_verify_ok(signature.bytes(), digest@, key.bytes()),
{
    let message = libsecp256k1::Message::parse(digest);
    libsecp256k1::verify(&message, &signature.inner, &key.inner)
}

} // verus!
