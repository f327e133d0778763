//! Hex encoding and decoding, as the signature layer uses them.
//!
//! The executable work is done by the `hex` crate behind trusted wrappers;
//! the spec functions here state exactly what those calls return, and the
//! lemmas prove the round trip that the signature format depends on.

use vstd::prelude::*;

verus! {

/// Lowercase hex digit for a nibble.
pub open spec fn hex_digit_lower(n: u8) -> char {
    if n < 10 {
        ((48 + n) as u8) as char
    } else {
        ((87 + n) as u8) as char
    }
}

/// Lowercase hex encoding: two digits per byte, most significant nibble first.
pub open spec fn hex_encoding(b: Seq<u8>) -> Seq<char> {
    Seq::new(
        b.len() * 2,
        |i: int|
            if i % 2 == 0 {
                hex_digit_lower((b[i / 2] / 16) as u8)
            } else {
                hex_digit_lower((b[i / 2] % 16) as u8)
            },
    )
}

/// A hex digit in either case.
pub open spec fn is_hex_digit_char(c: char) -> bool {
    (48 <= c as u32 <= 57) || (97 <= c as u32 <= 102) || (65 <= c as u32 <= 70)
}

/// The value of a hex digit, in either case.
pub open spec fn hex_char_val(c: char) -> u8 {
    if 48 <= c as u32 <= 57 {
        (c as u32 - 48) as u8
    } else if 97 <= c as u32 <= 102 {
        (c as u32 - 87) as u8
    } else {
        (c as u32 - 55) as u8
    }
}

/// A string decodes as hex exactly when its length is even and every char is
/// a hex digit.
pub open spec fn hex_decodable(s: Seq<char>) -> bool {
    s.len() % 2 == 0 && forall|i: int| 0 <= i < s.len() ==> is_hex_digit_char(#[trigger] s[i])
}

/// The bytes a hex string decodes to: each pair of digits becomes one byte.
pub open spec fn hex_decoded(s: Seq<char>) -> Seq<u8> {
    Seq::new(
        s.len() / 2,
        |i: int| (16 * hex_char_val(s[2 * i]) + hex_char_val(s[2 * i + 1])) as u8,
    )
}

/// Relies on `hex::encode`: two lowercase hex digits per byte, most
/// significant nibble first.
#[verifier::external_body]
pub(crate) fn hex_encode(bytes: &Vec<u8>) -> (r: String)
    ensures
        r@ == hex_encoding(bytes@),
{
    hex::encode(bytes)
}

/// Relies on `hex::decode`: it succeeds exactly on even-length strings of hex
/// digits (either case), and pairs the digits up into bytes.
#[verifier::external_body]
pub(crate) fn hex_decode(s: &str) -> (r: Option<Vec<u8>>)
    ensures
        r is Some <==> hex_decodable(s@),
        r is Some ==> r->0@ == hex_decoded(s@),
{
    match hex::decode(s) {
        Ok(v) => Some(v),
        Err(_) => None,
    }
}

/// Encoding a byte string always yields a decodable hex string, and decoding
/// it gives the bytes back.
pub proof fn lemma_hex_encoding_round_trip(b: Seq<u8>)
    ensures
        hex_encoding(b).len() == 2 * b.len(),
        hex_decodable(hex_encoding(b)),
        hex_decoded(hex_encoding(b)) =~= b,
{
    let s = hex_encoding(b);
    assert forall|i: int| 0 <= i < s.len() implies is_hex_digit_char(#[trigger] s[i]) by {
        assert(0 <= i / 2 < b.len());
        assert(b[i / 2] / 16 < 16);
        assert(b[i / 2] % 16 < 16);
    }
    assert forall|i: int| 0 <= i < b.len() implies hex_decoded(s)[i] == b[i] by {
        assert(s[2 * i] == hex_digit_lower((b[i] / 16) as u8));
        assert(s[2 * i + 1] == hex_digit_lower((b[i] % 16) as u8));
        assert(hex_char_val(hex_digit_lower((b[i] / 16) as u8)) == b[i] / 16);
        assert(hex_char_val(hex_digit_lower((b[i] % 16) as u8)) == b[i] % 16);
        assert(16 * (b[i] / 16) + b[i] % 16 == b[i]);
    }
}

} // verus!
