//! The Waku-style message envelope.
//!
//! An envelope carries a base64-encoded payload, a structured content topic
//! `/{app-name}/{version}/{topic}/{encoding}`, a version tag, a creation
//! timestamp in nanoseconds, and an ephemerality flag. A payload may follow
//! the signed-body convention: 128 hex characters of signature and 2 hex
//! characters of recovery id in front of the raw body bytes.

use vstd::prelude::*;
use vstd::slice::slice_subrange;
use vstd::slice::slice_to_vec;
use vstd::string::StringExecFns;
use vstd::utf8::decode_utf8;
use vstd::utf8::valid_utf8;

use crate::base64fmt::b64_decode;
use crate::base64fmt::b64_encode;
use crate::base64fmt::b64_of;
use crate::base64fmt::is_b64_symbol;
use crate::crypto::secp_sig_valid;
use crate::crypto::secp_verify;
use crate::crypto::secp_verify_ok;
use crate::crypto::sha256;
use crate::crypto::sha256_of;
use crate::crypto::ParsedSignature;
use crate::crypto::VerifyingKey;
use crate::errors::MessageError;
use crate::hexfmt::hex_decode_bytes;
use crate::hexfmt::hex_decoded;
use crate::hexfmt::is_hex_digit;

verus! {

/// The envelope version: payload encryption happens above this layer, so
/// envelopes are always built with version 0.
pub const WAKU_ENC_VERSION: u8 = 0;

/// Envelopes are short-lived by design, so they are built ephemeral: the
/// transport should not durably store them.
pub const WAKU_EPHEMERAL: bool = true;

/// A 65-byte recoverable signature takes 130 hex characters: 128 for the
/// 64-byte signature itself and 2 for the recovery id. A signed payload
/// starts with exactly this many bytes of hex text.
pub const SIGNATURE_SIZE: usize = 130;

/// The content topic built for a topic name:
/// `/dria/0/{topic}/proto`, with the fixed app name, envelope version and
/// encoding around the caller's topic name.
pub open spec fn spec_content_topic(topic: Seq<char>) -> Seq<char> {
    "/dria/0/"@ + topic + "/proto"@
}

/// How many times a character occurs in a sequence.
pub open spec fn count_char(s: Seq<char>, c: char) -> nat
    decreases s.len(),
{
    if s.len() == 0 {
        0
    } else {
        count_char(s.drop_last(), c) + (if s.last() == c {
            1nat
        } else {
            0nat
        })
    }
}

proof fn lemma_count_char_concat(a: Seq<char>, b: Seq<char>, c: char)
    ensures
        count_char(a + b, c) == count_char(a, c) + count_char(b, c),
    decreases b.len(),
{
    if b.len() == 0 {
        assert(a + b =~= a);
    } else {
        assert((a + b).drop_last() =~= a + b.drop_last());
        lemma_count_char_concat(a, b.drop_last(), c);
    }
}

/// The content-topic grammar invariant: for a topic name holding no `/`,
/// the built content topic holds exactly four `/` characters, one for each
/// of its four segment boundaries.
pub proof fn lemma_content_topic_grammar(topic: Seq<char>)
    requires
        count_char(topic, '/') == 0,
    ensures
        count_char(spec_content_topic(topic), '/') == 4,
{
    reveal_strlit("/dria/0/");
    reveal_strlit("/proto");
    lemma_count_char_concat("/dria/0/"@ + topic, "/proto"@, '/');
    lemma_count_char_concat("/dria/0/"@, topic, '/');
    assert(count_char("/dria/0/"@, '/') == 3) by {
        reveal_with_fuel(count_char, 9);
    }
    assert(count_char("/proto"@, '/') == 1) by {
        reveal_with_fuel(count_char, 7);
    }
}

/// The byte range of a decoded payload that holds the body: the whole
/// payload when unsigned, everything after the 130-byte signature prefix
/// when signed; a signed payload shorter than the prefix is malformed.
pub open spec fn spec_body_range(p: Seq<u8>, signed: bool) -> Result<Seq<u8>, MessageError> {
    if !signed {
        Ok(p)
    } else if p.len() < SIGNATURE_SIZE {
        Err(MessageError::MalformedPayload)
    } else {
        Ok(p.subrange(SIGNATURE_SIZE as int, p.len() as int))
    }
}

/// What checking the signature of a decoded payload returns: the payload
/// must be long enough, its first 128 bytes must be hex digits denoting a
/// structurally valid signature, and then the verdict is that signature
/// checked against the SHA-256 digest of the body bytes after the prefix.
pub open spec fn spec_signature_check(p: Seq<u8>, key: Seq<u8>) -> Result<bool, MessageError> {
    if p.len() < SIGNATURE_SIZE {
        Err(MessageError::MalformedPayload)
    } else if !(forall|i: int| 0 <= i < 128 ==> is_hex_digit(#[trigger] p[i])) {
        Err(MessageError::HexDecode)
    } else if !secp_sig_valid(hex_decoded(p.subrange(0, 128))) {
        Err(MessageError::SignatureParse)
    } else {
        Ok(
            secp_verify_ok(
                hex_decoded(p.subrange(0, 128)),
                sha256_of(p.subrange(SIGNATURE_SIZE as int, p.len() as int)),
                key,
            ),
        )
    }
}

/// The ASCII digit for a decimal digit value.
pub open spec fn decimal_digit(d: int) -> char
    recommends
        0 <= d <= 9,
{
    if d == 0 {
        '0'
    } else if d == 1 {
        '1'
    } else if d == 2 {
        '2'
    } else if d == 3 {
        '3'
    } else if d == 4 {
        '4'
    } else if d == 5 {
        '5'
    } else if d == 6 {
        '6'
    } else if d == 7 {
        '7'
    } else if d == 8 {
        '8'
    } else {
        '9'
    }
}

/// The plain decimal rendering of a non-negative integer: most significant
/// digit first, no leading zeros (a single `0` for zero).
pub open spec fn decimal_rep(n: int) -> Seq<char>
    recommends
        n >= 0,
    decreases n,
{
    if n < 10 {
        seq![decimal_digit(n)]
    } else {
        decimal_rep(n / 10).push(decimal_digit(n % 10))
    }
}

/// A pub/sub message envelope.
///
/// `payload` holds the base64 encoding of the application bytes;
/// `content_topic` names the logical channel in the four-segment grammar;
/// `version` tags the payload encryption scheme (always 0 here);
/// `timestamp` is the creation time in nanoseconds since the Unix epoch;
/// `ephemeral` asks the transport not to store the message durably.
#[derive(Clone, Debug)]
pub struct WakuMessage {
    pub payload: String,
    pub content_topic: String,
    pub version: u8,
    pub timestamp: u128,
    pub ephemeral: bool,
}

/// Relies on `std::time::SystemTime`: nanoseconds since the Unix epoch, or
/// 0 if the clock reads earlier than the epoch. Nothing is promised of the
/// value, since it depends on the wall clock.
#[verifier::external_body]
fn now_nanos() -> u128 {
    match std::time::SystemTime::now().duration_since(std::time::UNIX_EPOCH) {
        Ok(elapsed) => elapsed.as_nanos(),
        Err(_) => 0,
    }
}

/// Relies on `u128`'s `Display` implementation: plain decimal digits, most
/// significant first, no leading zeros.
#[verifier::external_body]
fn u128_to_string(x: u128) -> (r: String)
    ensures
        r@ == decimal_rep(x as int),
{
    x.to_string()
}

/// Relies on `String::from_utf8`: it succeeds exactly on valid UTF-8 input
/// and yields the characters those bytes encode.
#[verifier::external_body]
fn utf8_string(v: Vec<u8>) -> (r: Option<String>)
    ensures
        r is Some <==> valid_utf8(v@),
        r matches Some(s) ==> s@ == decode_utf8(v@),
{
    String::from_utf8(v).ok()
}

/// The payload part of an envelope's human-readable rendering: the decoded
/// payload when it is valid base64 and valid UTF-8 text, otherwise the raw
/// base64 string as stored.
pub open spec fn spec_payload_text(m: WakuMessage) -> Seq<char> {
    if exists|p: Seq<u8>| m.payload@ == b64_of(p) {
        let p = choose|p: Seq<u8>| m.payload@ == b64_of(p);
        if valid_utf8(p) {
            decode_utf8(p)
        } else {
            m.payload@
        }
    } else {
        m.payload@
    }
}

/// An envelope's human-readable rendering: the content topic and timestamp
/// on the first line, the payload text below.
pub open spec fn spec_display(m: WakuMessage) -> Seq<char> {
    "WakuMessage "@ + m.content_topic@ + " at "@ + decimal_rep(m.timestamp as int) + seq!['\n']
        + spec_payload_text(m)
}

impl WakuMessage {
    /// Builds an ephemeral version-0 envelope: the bytes are base64-encoded
    /// into the payload, the topic name is wrapped into the full content
    /// topic, and the timestamp is taken from the wall clock.
    pub fn new(payload: &[u8], topic: &str) -> (message: WakuMessage)
        ensures
            message.payload@ == b64_of(payload@),
            message.content_topic@ == spec_content_topic(topic@),
            message.version == WAKU_ENC_VERSION,
            message.ephemeral == WAKU_EPHEMERAL,
    {
        WakuMessage {
            payload: b64_encode(payload),
            content_topic: Self::create_content_topic(topic),
            version: WAKU_ENC_VERSION,
            timestamp: now_nanos(),
            ephemeral: WAKU_EPHEMERAL,
        }
    }

    /// Decodes the base64 payload back into bytes.
    ///
    /// Returns the exact bytes the payload encodes, and in particular the
    /// bytes a fresh envelope was built from; a payload that is not valid
    /// base64 (for one, any payload holding a character outside the
    /// standard padded alphabet) is reported as a decode error, never a
    /// panic.
    pub fn decode_payload(&self) -> (r: Result<Vec<u8>, MessageError>)
        ensures
            forall|b: Seq<u8>| self.payload@ == b64_of(b) ==> r is Ok && r->Ok_0@ == b,
            r matches Ok(v) ==> self.payload@ == b64_of(v@),
            r matches Err(e) ==> e == MessageError::Base64Decode,
            (exists|i: int|
                0 <= i < self.payload@.len() && !is_b64_symbol(self.payload@[i])) ==> r is Err,
    {
        match b64_decode(self.payload.as_str()) {
            Ok(v) => Ok(v),
            Err(_) => Err(MessageError::Base64Decode),
        }
    }

    /// Decodes the payload and selects the body bytes: the whole payload
    /// when `signed` is false, everything after the 130-byte signature
    /// prefix when `signed` is true. A signed payload shorter than the
    /// prefix is a malformed-payload error, not a panic; deserializing the
    /// returned bytes into a structured value is the caller's step.
    pub fn parse_payload(&self, signed: bool) -> (r: Result<Vec<u8>, MessageError>)
        ensures
            forall|p: Seq<u8>|
                self.payload@ == b64_of(p) ==> match spec_body_range(p, signed) {
                    Ok(body) => r is Ok && r->Ok_0@ == body,
                    Err(e) => r == Result::<Vec<u8>, MessageError>::Err(e),
                },
            (forall|p: Seq<u8>| self.payload@ != b64_of(p)) ==> r == Result::<
                Vec<u8>,
                MessageError,
            >::Err(MessageError::Base64Decode),
    {
        let payload = match self.decode_payload() {
            Ok(p) => p,
            Err(e) => {
                return Err(e);
            },
        };
        if !signed {
            return Ok(payload);
        }
        if payload.len() < SIGNATURE_SIZE {
            return Err(MessageError::MalformedPayload);
        }
        let body = slice_subrange(payload.as_slice(), SIGNATURE_SIZE, payload.len());
        Ok(slice_to_vec(body))
    }

    /// Checks the signature prefix of the payload against a public key.
    ///
    /// Bytes `[0, 128)` of the decoded payload are read as the hex-encoded
    /// 64-byte signature and bytes `[130, ..)` as the body; the two recovery
    /// id characters in between take no part. The verdict is the signature
    /// checked against the SHA-256 digest of the body. A verdict of `false`
    /// is a normal outcome, not an error; malformed input (bad base64, bad
    /// hex, too short, structurally invalid signature) is a typed error.
    pub fn is_signed(&self, public_key: &VerifyingKey) -> (r: Result<bool, MessageError>)
        ensures
            forall|p: Seq<u8>|
                self.payload@ == b64_of(p) ==> r == spec_signature_check(p, public_key.bytes()),
            (forall|p: Seq<u8>| self.payload@ != b64_of(p)) ==> r == Result::<
                bool,
                MessageError,
            >::Err(MessageError::Base64Decode),
    {
        let payload = match self.decode_payload() {
            Ok(p) => p,
            Err(e) => {
                return Err(e);
            },
        };
        if payload.len() < SIGNATURE_SIZE {
            return Err(MessageError::MalformedPayload);
        }
        let signature_hex = slice_subrange(payload.as_slice(), 0, SIGNATURE_SIZE - 2);
        let signature_bytes = match hex_decode_bytes(signature_hex) {
            Ok(v) => v,
            Err(_) => {
                proof {
                    assert(!(forall|i: int|
                        0 <= i < 128 ==> is_hex_digit(#[trigger] payload@[i]))) by {
                        if forall|i: int| 0 <= i < 128 ==> is_hex_digit(#[trigger] payload@[i]) {
                            assert forall|i: int|
                                0 <= i < signature_hex@.len() implies is_hex_digit(
                                #[trigger] signature_hex@[i],
                            ) by {
                                assert(signature_hex@[i] == payload@[i]);
                            }
                        }
                    }
                }
                return Err(MessageError::HexDecode);
            },
        };
        proof {
            assert forall|i: int| 0 <= i < 128 implies is_hex_digit(#[trigger] payload@[i]) by {
                assert(is_hex_digit(signature_hex@[i]));
                assert(signature_hex@[i] == payload@[i]);
            }
        }
        let signature = match ParsedSignature::parse(signature_bytes.as_slice()) {
            Ok(s) => s,
            Err(_) => {
                return Err(MessageError::SignatureParse);
            },
        };
        let body = slice_subrange(payload.as_slice(), SIGNATURE_SIZE, payload.len());
        let digest = sha256(body);
        Ok(secp_verify(&digest, &signature, public_key))
    }

    /// Renders the envelope as a human-readable summary: content topic and
    /// timestamp, then the payload decoded to text when it is valid UTF-8,
    /// with the raw base64 string as the fallback. Never fails.
    pub fn display_string(&self) -> (r: String)
        ensures
            r@ == spec_display(*self),
    {
        let payload_text = match self.decode_payload() {
            Ok(bytes) => {
                proof {
                    let p = choose|p: Seq<u8>| self.payload@ == b64_of(p);
                    assert(self.payload@ == b64_of(bytes@));
                    assert(p == bytes@);
                }
                match utf8_string(bytes) {
                    Some(text) => text,
                    None => self.payload.clone(),
                }
            },
            Err(_) => self.payload.clone(),
        };
        let mut out = String::from_str("WakuMessage ");
        out.append(self.content_topic.as_str());
        out.append(" at ");
        let timestamp_text = u128_to_string(self.timestamp);
        out.append(timestamp_text.as_str());
        out.append("\n");
        out.append(payload_text.as_str());
        proof {
            reveal_strlit("\n");
            assert("\n"@ =~= seq!['\n']);
            assert(out@ =~= spec_display(*self));
        }
        out
    }

    /// Builds the content topic string for a topic name:
    /// `/dria/0/{topic}/proto`. Pure formatting, no failure.
    pub fn create_content_topic(topic: &str) -> (r: String)
        ensures
            r@ == spec_content_topic(topic@),
    {
        let mut out = String::from_str("/dria/0/");
        out.append(topic);
        out.append("/proto");
        proof {
            assert(out@ =~= spec_content_topic(topic@));
        }
        out
    }
}

} // verus!
