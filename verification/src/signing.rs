//! The challenge signer: Ethereum-personal-message signing of a challenge
//! string with a secp256k1 key.
//!
//! The payload is the literal bytes `"\x19Ethereum Signed Message:\n"`, the
//! decimal byte length of the message, then the message itself; it is hashed
//! with Keccak-256 (not SHA3-256), signed recoverably, and serialized as
//! 64 compact signature bytes plus one recovery byte offset by 27, hex
//! encoded in lowercase with no `0x` prefix.

use sha3::Digest;
use vstd::prelude::*;
use vstd::string::*;

use crate::hexcodec::{hex_decodable, hex_decode, hex_decoded, hex_encode, hex_encoding};
use crate::text::dec_bytes;

verus! {

/// Why signing failed.
#[derive(Clone, Copy, PartialEq, Eq, Structural, Debug)]
pub enum SigningError {
    /// The private key was not an even-length hex string, or not a valid
    /// 32-byte secp256k1 secret key.
    InvalidKey,
    /// Digest construction failed; does not occur for well-formed input.
    HashError,
}

/// The literal bytes of `"\x19Ethereum Signed Message:\n"`.
pub open spec fn eth_prefix_bytes() -> Seq<u8> {
    seq![
        0x19u8,
        69,
        116,
        104,
        101,
        114,
        101,
        117,
        109,
        32,
        83,
        105,
        103,
        110,
        101,
        100,
        32,
        77,
        101,
        115,
        115,
        97,
        103,
        101,
        58,
        10,
    ]
}

/// The prefixed payload that is hashed: prefix, decimal length of the
/// original message in bytes, then the message bytes.
pub open spec fn eth_prefixed_message(msg: Seq<u8>) -> Seq<u8> {
    eth_prefix_bytes() + dec_bytes(msg.len()) + msg
}

/// The Keccak-256 digest, named: it is a function of the input bytes alone.
pub uninterp spec fn keccak256_of(data: Seq<u8>) -> Seq<u8>;

/// Whether a byte string is a valid secp256k1 secret key, named: 32 bytes,
/// nonzero and below the curve order.
pub uninterp spec fn is_valid_secret_key(key: Seq<u8>) -> bool;

/// The recoverable ECDSA signature over a digest, named: 64 compact bytes
/// followed by the raw recovery id. Deterministic per RFC 6979.
pub uninterp spec fn ecdsa_sign_bytes(digest: Seq<u8>, key: Seq<u8>) -> Seq<u8>;

/// Relies on sha3's `Keccak256` (the pre-standard Keccak padding, not
/// SHA3-256): the 32-byte digest depends on the input bytes alone.
#[verifier::external_body]
pub(crate) fn keccak256(data: &Vec<u8>) -> (r: Vec<u8>)
    ensures
        r@ == keccak256_of(data@),
        r@.len() == 32,
{
    sha3::Keccak256::digest(data).to_vec()
}

/// Relies on secp256k1's `SecretKey::from_byte_array`: it accepts exactly
/// the 32-byte values in the curve's secret-key range.
#[verifier::external_body]
pub(crate) fn secret_key_is_valid(key: &Vec<u8>) -> (r: bool)
    ensures
        r == is_valid_secret_key(key@),
        r ==> key@.len() == 32,
{
    match <[u8; 32]>::try_from(key.as_slice()) {
        Ok(arr) => secp256k1::SecretKey::from_byte_array(arr).is_ok(),
        Err(_) => false,
    }
}

/// Relies on secp256k1's `RecoverableSignature::sign_ecdsa_recoverable` with
/// its RFC 6979 nonce: the signature depends on the digest and the key alone.
/// Returns the 64 compact bytes followed by the raw recovery id (0 to 3).
#[verifier::external_body]
pub(crate) fn ecdsa_sign_recoverable(digest: &Vec<u8>, key: &Vec<u8>) -> (r: Vec<u8>)
    requires
        digest@.len() == 32,
        is_valid_secret_key(key@),
    ensures
        r@ == ecdsa_sign_bytes(digest@, key@),
        r@.len() == 65,
        r@[64] < 4,
{
    let digest_arr = <[u8; 32]>::try_from(digest.as_slice()).unwrap();
    let key_arr = <[u8; 32]>::try_from(key.as_slice()).unwrap();
    let sk = secp256k1::SecretKey::from_byte_array(key_arr).unwrap();
    let msg = secp256k1::Message::from_digest(digest_arr);
    let sig = secp256k1::ecdsa::RecoverableSignature::sign_ecdsa_recoverable(msg, &sk);
    let (recovery_id, bytes) = sig.serialize_compact();
    let mut out = bytes.to_vec();
    out.push(recovery_id.to_u8());
    out
}

/// The private key text with one leading `0x` removed, if present.
pub open spec fn strip_0x(s: Seq<char>) -> Seq<char> {
    if s.len() >= 2 && s[0] == '0' && s[1] == 'x' {
        s.subrange(2, s.len() as int)
    } else {
        s
    }
}

/// Whether the private key text parses to a valid secret key.
pub open spec fn key_accepted(private_key: Seq<char>) -> bool {
    &&& hex_decodable(strip_0x(private_key))
    &&& is_valid_secret_key(hex_decoded(strip_0x(private_key)))
}

/// The 65 signature bytes for a message: r and s, then the recovery id
/// offset by 27.
pub open spec fn signature_bytes(msg: Seq<u8>, key: Seq<u8>) -> Seq<u8> {
    let raw = ecdsa_sign_bytes(keccak256_of(eth_prefixed_message(msg)), key);
    raw.take(64).push((raw[64] + 27) as u8)
}

/// The lowercase hex encoding of the 65 signature bytes.
pub open spec fn signature_hex(msg: Seq<u8>, key: Seq<u8>) -> Seq<char> {
    hex_encoding(signature_bytes(msg, key))
}

/// Strips one leading `0x` from the key text, if present.
pub fn strip_hex_prefix<'a>(s: &'a str) -> (r: &'a str)
    ensures
        r@ == strip_0x(s@),
{
    let n = s.unicode_len();
    if n >= 2 && s.get_char(0) == '0' && s.get_char(1) == 'x' {
        s.substring_char(2, n)
    } else {
        s
    }
}

/// The literal prefix bytes as a vector.
fn eth_prefix_vec() -> (r: Vec<u8>)
    ensures
        r@ == eth_prefix_bytes(),
{
    let r: Vec<u8> = vec![
        0x19u8,
        69,
        116,
        104,
        101,
        114,
        101,
        117,
        109,
        32,
        83,
        105,
        103,
        110,
        101,
        100,
        32,
        77,
        101,
        115,
        115,
        97,
        103,
        101,
        58,
        10,
    ];
    proof {
        assert(r@ =~= eth_prefix_bytes());
    }
    r
}

/// Signs `message` with `private_key` (hex, optional `0x` prefix).
///
/// Succeeds exactly when the key text, after prefix stripping, is an
/// even-length hex string decoding to a valid secp256k1 secret key; the
/// result is then the lowercase hex of the 65 signature bytes. Every failure
/// is `InvalidKey`; no I/O is performed.
pub fn sign_message(message: &str, private_key: &str) -> (r: Result<String, SigningError>)
    ensures
        r is Ok <==> key_accepted(private_key@),
        r is Ok ==> r->Ok_0@ == signature_hex(
            message.spec_bytes(),
            hex_decoded(strip_0x(private_key@)),
        ),
        r matches Ok(sig) ==> {
            &&& sig@.len() == 130
            &&& hex_decodable(sig@)
            &&& hex_encoding(hex_decoded(sig@)) == sig@
        },
        r is Err ==> r->Err_0 == SigningError::InvalidKey,
{
    let stripped = strip_hex_prefix(private_key);
    let key_bytes = match hex_decode(stripped) {
        Some(b) => b,
        None => {
            return Err(SigningError::InvalidKey);
        },
    };
    if !secret_key_is_valid(&key_bytes) {
        return Err(SigningError::InvalidKey);
    }
    let msg_bytes = message.as_bytes_vec();
    let ghost msg_view = msg_bytes@;
    let mut payload = eth_prefix_vec();
    let mut digits = crate::text::usize_dec_bytes(msg_bytes.len());
    payload.append(&mut digits);
    let mut msg_tail = msg_bytes;
    payload.append(&mut msg_tail);
    proof {
        assert(payload@ =~= eth_prefixed_message(msg_view));
    }
    let digest = keccak256(&payload);
    let raw = ecdsa_sign_recoverable(&digest, &key_bytes);
    let recovery: u8 = raw[64] + 27;
    let mut sig = raw;
    sig.truncate(64);
    sig.push(recovery);
    proof {
        assert(sig@ =~= signature_bytes(msg_view, key_bytes@));
        lemma_signature_hex_round_trip(sig@);
    }
    Ok(hex_encode(&sig))
}

/// Law: the hex text of any 65-byte signature is 130 lowercase hex chars,
/// and decoding then re-encoding it yields the identical text.
pub proof fn lemma_signature_hex_round_trip(sig: Seq<u8>)
    requires
        sig.len() == 65,
    ensures
        hex_encoding(sig).len() == 130,
        hex_decodable(hex_encoding(sig)),
        hex_decoded(hex_encoding(sig)) =~= sig,
        hex_encoding(hex_decoded(hex_encoding(sig))) == hex_encoding(sig),
{
    crate::hexcodec::lemma_hex_encoding_round_trip(sig);
    assert(hex_decoded(hex_encoding(sig)) =~= sig);
}

} // verus!
