//! Tests for the challenge signer: signature format, determinism, key
//! validation, and public-key recovery against the same prefixed digest.

use dimo_sdk::rest::auth::AuthClient;
use dimo_sdk::signing::{sign_message, SigningError};
use sha3::Digest;

const TEST_KEY: &str = "4646464646464646464646464646464646464646464646464646464646464646";

#[test]
fn sign_produces_130_lowercase_hex_chars() {
    let sig = sign_message("Hello, world!", TEST_KEY).unwrap();
    assert_eq!(sig.len(), 130);
    assert!(sig.chars().all(|c| c.is_ascii_hexdigit()));
    assert!(!sig.chars().any(|c| c.is_ascii_uppercase()));
    assert!(!sig.starts_with("0x"));
}

#[test]
fn sign_hex_decode_reencode_round_trip() {
    let sig = sign_message("challenge text", TEST_KEY).unwrap();
    let bytes = hex::decode(&sig).unwrap();
    assert_eq!(bytes.len(), 65);
    let reencoded = hex::encode(&bytes);
    assert_eq!(reencoded, sig);
    assert_eq!(reencoded.len(), 130);
}

#[test]
fn sign_is_deterministic_for_same_inputs() {
    let a = sign_message("same message", TEST_KEY).unwrap();
    let b = sign_message("same message", TEST_KEY).unwrap();
    assert_eq!(a, b);
}

#[test]
fn sign_accepts_0x_prefixed_key_identically() {
    let plain = sign_message("msg", TEST_KEY).unwrap();
    let prefixed_key = format!("0x{}", TEST_KEY);
    let prefixed = sign_message("msg", &prefixed_key).unwrap();
    assert_eq!(plain, prefixed);
}

#[test]
fn sign_recovers_to_the_keys_public_key() {
    let message = "unit test challenge";
    let sig_hex = sign_message(message, TEST_KEY).unwrap();
    let sig = hex::decode(&sig_hex).unwrap();

    let prefixed = format!("\x19Ethereum Signed Message:\n{}", message.len());
    let payload = [prefixed.as_bytes(), message.as_bytes()].concat();
    let digest: [u8; 32] = sha3::Keccak256::digest(&payload).into();

    let recovery_id =
        secp256k1::ecdsa::RecoveryId::try_from((sig[64] - 27) as i32).unwrap();
    let recoverable =
        secp256k1::ecdsa::RecoverableSignature::from_compact(&sig[..64], recovery_id).unwrap();
    let recovered = recoverable
        .recover_ecdsa(secp256k1::Message::from_digest(digest))
        .unwrap();

    let key_bytes: [u8; 32] = hex::decode(TEST_KEY).unwrap().try_into().unwrap();
    let sk = secp256k1::SecretKey::from_byte_array(key_bytes).unwrap();
    let expected = secp256k1::PublicKey::from_secret_key(&sk);
    assert_eq!(recovered, expected);
}

#[test]
fn sign_rejects_wrong_length_key() {
    let err = sign_message("msg", "abcd").unwrap_err();
    assert_eq!(err, SigningError::InvalidKey);
}

#[test]
fn sign_rejects_non_hex_key() {
    let err = sign_message("msg", "zz46464646464646464646464646464646464646464646464646464646464646")
        .unwrap_err();
    assert_eq!(err, SigningError::InvalidKey);
}

#[test]
fn sign_rejects_odd_length_key() {
    let err = sign_message("msg", "464").unwrap_err();
    assert_eq!(err, SigningError::InvalidKey);
}

#[test]
fn sign_rejects_empty_key() {
    let err = sign_message("msg", "").unwrap_err();
    assert_eq!(err, SigningError::InvalidKey);
}

#[test]
fn sign_rejects_zero_key() {
    let zero = "0000000000000000000000000000000000000000000000000000000000000000";
    let err = sign_message("msg", zero).unwrap_err();
    assert_eq!(err, SigningError::InvalidKey);
}

#[test]
fn sign_rejects_key_at_curve_order() {
    // The secp256k1 group order is not a valid secret key.
    let order = "fffffffffffffffffffffffffffffffebaaedce6af48a03bbfd25e8cd0364141";
    let err = sign_message("msg", order).unwrap_err();
    assert_eq!(err, SigningError::InvalidKey);
}

#[test]
fn sign_challenge_delegates_to_the_signer() {
    let client = AuthClient::new("https://auth.dimo.zone".to_owned());
    let from_client = client.sign_challenge("challenge", TEST_KEY).unwrap();
    let direct = sign_message("challenge", TEST_KEY).unwrap();
    assert_eq!(from_client, direct);
}

#[test]
fn two_messages_give_different_signatures() {
    let a = sign_message("message one", TEST_KEY).unwrap();
    let b = sign_message("message two", TEST_KEY).unwrap();
    assert_ne!(a, b);
}
