use k256::ecdsa::signature::Signer;
use k256::ecdsa::{Signature, SigningKey};
use wallet_auth::codec::hash_bytes_sha256;
use wallet_auth::message::to_arbitrary_message_bytes;
use wallet_auth::signature::{SignatureService, VerificationError};

#[allow(deprecated)]
fn b64(bytes: &[u8]) -> String {
    base64::encode(bytes)
}

fn wallet_key() -> SigningKey {
    SigningKey::from_slice(&[7u8; 32]).unwrap()
}

fn public_key(key: &SigningKey) -> String {
    b64(&key.verifying_key().to_sec1_bytes())
}

fn wallet_signature(key: &SigningKey, signer: &str, payload: &[u8]) -> Vec<u8> {
    let message = to_arbitrary_message_bytes(signer, &b64(payload));
    let signature: Signature = key.sign(message.as_bytes());
    signature.to_vec()
}

#[test]
fn the_canonical_message_is_the_amino_document() {
    let message = to_arbitrary_message_bytes("alice", "ZGF0YQ==");
    assert_eq!(
        message,
        "{\"account_number\":\"0\",\"chain_id\":\"\",\"fee\":{\"amount\":[],\"gas\":\"0\"},\"memo\":\"\",\"msgs\":[{\"type\":\"sign/MsgSignData\",\"value\":{\"data\":\"ZGF0YQ==\",\"signer\":\"alice\"}}],\"sequence\":\"0\"}"
    );
    assert_eq!(SignatureService::generate_amino_message("alice", "ZGF0YQ=="), message);
    assert_eq!(to_arbitrary_message_bytes("alice", "ZGF0YQ=="), message);
}

#[test]
fn the_message_to_sign_wraps_the_base64_of_the_payload() {
    let message = SignatureService::message_to_sign("alice", b"data");
    assert_eq!(message, to_arbitrary_message_bytes("alice", "ZGF0YQ==").into_bytes());
}

#[test]
fn a_signature_over_the_canonical_message_verifies() {
    let key = wallet_key();
    let payload = b"the bytes to sign".to_vec();
    let signature = wallet_signature(&key, "alice", &payload);
    let bundle = SignatureService::verify_signature("alice", &public_key(&key), &b64(&signature), &payload).unwrap();
    assert_eq!(bundle.signature, signature);
    assert_eq!(bundle.verifying_key, key.verifying_key().to_sec1_bytes().to_vec());
    assert_eq!(bundle.signature.len(), 64);
}

#[test]
fn an_uncompressed_key_is_accepted_and_kept_in_sec1_form() {
    let key = wallet_key();
    let payload = b"payload".to_vec();
    let signature = wallet_signature(&key, "alice", &payload);
    let uncompressed = key.verifying_key().to_encoded_point(false);
    let bundle =
        SignatureService::verify_signature("alice", &b64(uncompressed.as_bytes()), &b64(&signature), &payload).unwrap();
    assert_eq!(bundle.verifying_key, key.verifying_key().to_sec1_bytes().to_vec());
}

#[test]
fn every_flipped_byte_of_the_signature_makes_it_fail() {
    let key = wallet_key();
    let payload = b"the bytes to sign".to_vec();
    let signature = wallet_signature(&key, "alice", &payload);
    for index in 0..signature.len() {
        let mut flipped = signature.clone();
        flipped[index] ^= 0x01;
        let result = SignatureService::verify_signature("alice", &public_key(&key), &b64(&flipped), &payload);
        assert!(result.is_err());
    }
}

#[test]
fn every_flipped_byte_of_the_payload_makes_it_fail() {
    let key = wallet_key();
    let payload = b"the bytes to sign".to_vec();
    let signature = wallet_signature(&key, "alice", &payload);
    for index in 0..payload.len() {
        let mut flipped = payload.clone();
        flipped[index] ^= 0x01;
        let error = SignatureService::verify_signature("alice", &public_key(&key), &b64(&signature), &flipped)
            .unwrap_err();
        assert_eq!(error, VerificationError::SignatureInvalid);
    }
}

#[test]
fn another_signer_or_another_key_makes_it_fail() {
    let key = wallet_key();
    let payload = b"payload".to_vec();
    let signature = wallet_signature(&key, "alice", &payload);
    let error =
        SignatureService::verify_signature("bob", &public_key(&key), &b64(&signature), &payload).unwrap_err();
    assert_eq!(error, VerificationError::SignatureInvalid);
    let other = SigningKey::from_slice(&[9u8; 32]).unwrap();
    let error =
        SignatureService::verify_signature("alice", &public_key(&other), &b64(&signature), &payload).unwrap_err();
    assert_eq!(error, VerificationError::SignatureInvalid);
}

#[test]
fn a_signature_that_does_not_decode_is_malformed() {
    let key = wallet_key();
    let payload = b"payload".to_vec();
    let pk = public_key(&key);
    let error = SignatureService::verify_signature("alice", &pk, "not base64!", &payload).unwrap_err();
    assert_eq!(error, VerificationError::MalformedSignature);
    let error = SignatureService::verify_signature("alice", &pk, &b64(&[1u8; 63]), &payload).unwrap_err();
    assert_eq!(error, VerificationError::MalformedSignature);
    let error = SignatureService::verify_signature("alice", &pk, &b64(&[0u8; 64]), &payload).unwrap_err();
    assert_eq!(error, VerificationError::MalformedSignature);
    let error = SignatureService::verify_signature("alice", &pk, &b64(&[0xffu8; 64]), &payload).unwrap_err();
    assert_eq!(error, VerificationError::MalformedSignature);
}

#[test]
fn a_key_that_does_not_decode_is_malformed() {
    let key = wallet_key();
    let payload = b"payload".to_vec();
    let signature = b64(&wallet_signature(&key, "alice", &payload));
    let error = SignatureService::verify_signature("alice", "not base64!", &signature, &payload).unwrap_err();
    assert_eq!(error, VerificationError::MalformedKey);
    let error = SignatureService::verify_signature("alice", &b64(&[2u8; 10]), &signature, &payload).unwrap_err();
    assert_eq!(error, VerificationError::MalformedKey);
    let error = SignatureService::verify_signature("alice", "", &signature, &payload).unwrap_err();
    assert_eq!(error, VerificationError::MalformedKey);
}

#[test]
fn a_malformed_signature_is_reported_before_a_malformed_key() {
    let error = SignatureService::verify_signature("alice", "not base64!", "not base64!", b"x").unwrap_err();
    assert_eq!(error, VerificationError::MalformedSignature);
}

#[test]
fn decoding_gives_the_bytes_of_signature_and_key() {
    let key = wallet_key();
    let signature = wallet_signature(&key, "alice", b"x");
    assert_eq!(SignatureService::decode_signature(&b64(&signature)), Some(signature));
    assert_eq!(SignatureService::decode_signature("???"), None);
    assert_eq!(
        SignatureService::decode_public_key(&public_key(&key)),
        Some(key.verifying_key().to_sec1_bytes().to_vec())
    );
    assert_eq!(SignatureService::decode_public_key("???"), None);
}

#[test]
fn the_verdict_follows_what_decoded() {
    assert_eq!(
        SignatureService::verdict(None, Some(vec![1]), true).unwrap_err(),
        VerificationError::MalformedSignature
    );
    assert_eq!(SignatureService::verdict(Some(vec![1]), None, true).unwrap_err(), VerificationError::MalformedKey);
    assert_eq!(
        SignatureService::verdict(Some(vec![1]), Some(vec![2]), false).unwrap_err(),
        VerificationError::SignatureInvalid
    );
    let bundle = SignatureService::verdict(Some(vec![1]), Some(vec![2]), true).unwrap();
    assert_eq!(bundle.signature, vec![1]);
    assert_eq!(bundle.verifying_key, vec![2]);
}

#[test]
fn the_fingerprint_is_the_hex_of_the_sha256_digest() {
    assert_eq!(
        hash_bytes_sha256(b"abc".to_vec()),
        "ba7816bf8f01cfea414140de5dae2223b00361a396177a9cb410ff61f20015ad"
    );
    assert_eq!(
        hash_bytes_sha256(Vec::new()),
        "e3b0c44298fc1c149afbf4c8996fb92427ae41e4649b934ca495991b7852b855"
    );
    assert_eq!(hash_bytes_sha256(vec![0u8; 100]).len(), 64);
}
