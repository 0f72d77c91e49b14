//! Hexadecimal encoding and decoding of byte sequences.
//!
//! The signed-body wire convention stores the 64-byte signature and the
//! 1-byte recovery id as ASCII hex characters in front of the body. The spec
//! functions here pin down that encoding exactly; the executable calls go to
//! the `hex` crate through trusted wrappers whose contracts restate what its
//! source does.

use vstd::prelude::*;
use vstd::arithmetic::div_mod::lemma_fundamental_div_mod;

verus! {

/// A byte is an ASCII hexadecimal digit (both cases accepted).
pub open spec fn is_hex_digit(b: u8) -> bool {
    (48 <= b <= 57) || (97 <= b <= 102) || (65 <= b <= 70)
}

/// Numeric value of an ASCII hexadecimal digit.
pub open spec fn hex_digit_value(b: u8) -> u8 {
    if 48 <= b <= 57 {
        (b - 48) as u8
    } else if 97 <= b <= 102 {
        (b - 87) as u8
    } else {
        (b - 55) as u8
    }
}

/// Lowercase ASCII hex digit for a value below 16.
pub open spec fn hex_digit_lower(v: u8) -> u8 {
    if v < 10 {
        (v + 48) as u8
    } else {
        (v + 87) as u8
    }
}

/// The lowercase hex encoding of a byte sequence, as ASCII bytes: two
/// digits per input byte, high nibble first.
pub open spec fn hex_lower(b: Seq<u8>) -> Seq<u8> {
    Seq::new(
        2 * b.len(),
        |i: int|
            if i % 2 == 0 {
                hex_digit_lower((b[i / 2] / 16) as u8)
            } else {
                hex_digit_lower((b[i / 2] % 16) as u8)
            },
    )
}

/// The bytes denoted by a sequence of ASCII hex digits, one byte per
/// digit pair. Meaningful when the length is even and every byte is a
/// hex digit.
pub open spec fn hex_decoded(s: Seq<u8>) -> Seq<u8> {
    Seq::new(
        s.len() / 2,
        |i: int| (hex_digit_value(s[2 * i]) * 16 + hex_digit_value(s[2 * i + 1])) as u8,
    )
}

/// Every byte of a lowercase hex encoding is a hex digit.
pub proof fn lemma_hex_lower_digits(b: Seq<u8>)
    ensures
        forall|i: int| 0 <= i < hex_lower(b).len() ==> is_hex_digit(#[trigger] hex_lower(b)[i]),
{
}

/// Decoding inverts encoding: the hex digits written for a byte sequence
/// denote that same sequence.
pub proof fn lemma_hex_round_trip(b: Seq<u8>)
    ensures
        hex_lower(b).len() == 2 * b.len(),
        hex_decoded(hex_lower(b)) =~= b,
{
    assert forall|i: int| 0 <= i < b.len() implies hex_decoded(hex_lower(b))[i] == b[i] by {
        lemma_fundamental_div_mod(b[i] as int, 16);
        assert((2 * i) / 2 == i);
        assert((2 * i + 1) / 2 == i);
        assert((2 * i) % 2 == 0);
        assert((2 * i + 1) % 2 == 1);
    }
}

/// Declared so the wrapper below can return the `hex` crate's error type.
#[verifier::external_type_specification]
#[verifier::external_body]
pub struct ExFromHexError(hex::FromHexError);

/// Relies on `hex::encode`: it writes exactly two lowercase hex digits per
/// input byte, high nibble first.
#[verifier::external_body]
pub fn hex_encode_bytes(b: &[u8]) -> (r: Vec<u8>)
    ensures
        r@ == hex_lower(b@),
{
    hex::encode(b).into_bytes()
}

/// Relies on `hex::decode`: it succeeds exactly on even-length inputs whose
/// bytes are all ASCII hex digits (either case), and then yields one byte
/// per digit pair, high nibble first.
#[verifier::external_body]
pub fn hex_decode_bytes(b: &[u8]) -> (r: Result<Vec<u8>, hex::FromHexError>)
    ensures
        r is Ok <==> (b@.len() % 2 == 0 && forall|i: int|
            0 <= i < b@.len() ==> is_hex_digit(#[trigger] b@[i])),
        r matches Ok(v) ==> v@ == hex_decoded(b@),
{
    hex::decode(b)
}

} // verus!
