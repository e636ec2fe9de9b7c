//! Verification of a wallet signature over the canonical message.

use vstd::prelude::*;
use vstd::string::*;
use vstd::utf8::encode_utf8;
use crate::codec::{base64_decode, base64_decoding, base64_encode, base64_encoding, hex_encode, hex_encoding};
use crate::message::{arbitrary_message, to_arbitrary_message_bytes};

verus! {

/// A verifying key and a signature made with its secret half, both as
/// the bytes that the curve library accepted: the key in SEC1 form, the
/// signature as the two scalars `r` and `s`.
#[derive(Debug)]
pub struct SignatureBundle {
    pub verifying_key: Vec<u8>,
    pub signature: Vec<u8>,
}

/// What a bundle holds, as two byte strings.
pub struct SignatureBundleView {
    pub verifying_key: Seq<u8>,
    pub signature: Seq<u8>,
}

impl View for SignatureBundle {
    type V = SignatureBundleView;

    open spec fn view(&self) -> SignatureBundleView {
        SignatureBundleView { verifying_key: self.verifying_key@, signature: self.signature@ }
    }
}

impl Clone for SignatureBundle {
    fn clone(&self) -> (copy: Self)
        ensures
            copy@ == self@,
    {
        SignatureBundle { verifying_key: self.verifying_key.clone(), signature: self.signature.clone() }
    }
}

impl SignatureBundle {
    pub fn new(verifying_key: Vec<u8>, signature: Vec<u8>) -> (bundle: Self)
        ensures
            bundle.verifying_key == verifying_key,
            bundle.signature == signature,
    {
        SignatureBundle { verifying_key, signature }
    }
}

/// Why a wallet signature was turned down. The first two are faults of the
/// request's encoding; the last means that key, message and signature do
/// not belong together.
#[derive(Debug, Clone, Copy, PartialEq, Eq, Structural)]
pub enum VerificationError {
    MalformedKey,
    MalformedSignature,
    SignatureInvalid,
}

/// The SEC1 bytes of the secp256k1 key that `tendermint` reads from raw key
/// bytes, or `None` where it reads none.
pub uninterp spec fn secp256k1_key_of(raw: Seq<u8>) -> Option<Seq<u8>>;

/// The bytes of the signature that the `ecdsa` crate parses from
/// hexadecimal text, or `None` where it rejects the text.
pub uninterp spec fn ecdsa_signature_of(hex: Seq<char>) -> Option<Seq<u8>>;

/// Whether `k256` accepts `signature` as one made over the SHA-256 digest
/// of `message` by the holder of `key`.
pub uninterp spec fn ecdsa_sha256_accepts(key: Seq<u8>, message: Seq<u8>, signature: Seq<u8>) -> bool;

/// Calls `tendermint::PublicKey::from_raw_secp256k1` and hands back the key
/// it read in SEC1 form. The contract names the outcome.
#[verifier::external_body]
pub(crate) fn secp256k1_key(raw: &[u8]) -> (key: Option<Vec<u8>>)
    ensures
        key.is_some() == secp256k1_key_of(raw@).is_some(),
        key.is_some() ==> key.unwrap()@ == secp256k1_key_of(raw@).unwrap(),
{
    tendermint::PublicKey::from_raw_secp256k1(raw)
        .and_then(|key| key.secp256k1())
        .map(|key| key.to_sec1_bytes().to_vec())
}

/// Calls the `FromStr` parser of `ecdsa::Signature` on hexadecimal text and
/// hands back the bytes of the signature it read. The contract names the
/// outcome.
#[verifier::external_body]
pub(crate) fn ecdsa_signature(hex: &str) -> (signature: Option<Vec<u8>>)
    ensures
        signature.is_some() == ecdsa_signature_of(hex@).is_some(),
        signature.is_some() ==> signature.unwrap()@ == ecdsa_signature_of(hex@).unwrap(),
{
    hex.parse::<k256::ecdsa::Signature>().ok().map(|signature| signature.to_vec())
}

/// Calls `verify_digest` of `k256::ecdsa::VerifyingKey` with the SHA-256
/// state fed `message`. Key or signature bytes that the curve library does
/// not read are not accepted. The contract names the verdict.
#[verifier::external_body]
pub(crate) fn ecdsa_sha256_verify(key: &[u8], message: &[u8], signature: &[u8]) -> (accepted: bool)
    ensures
        accepted == ecdsa_sha256_accepts(key@, message@, signature@),
{
    let digest = <k256::sha2::Sha256 as k256::sha2::Digest>::new_with_prefix(message);
    match (k256::ecdsa::VerifyingKey::from_sec1_bytes(key), k256::ecdsa::Signature::from_slice(signature)) {
        (Ok(key), Ok(signature)) => ecdsa::signature::DigestVerifier::verify_digest(&key, digest, &signature).is_ok(),
        _ => false,
    }
}

/// The signature that `k256` makes with a secret key over the SHA-256
/// digest of a message, with the nonce that RFC 6979 derives from both;
/// `None` where the bytes are no secret key or no signature is made.
pub uninterp spec fn ecdsa_sha256_signature(secret: Seq<u8>, message: Seq<u8>) -> Option<Seq<u8>>;

/// The SEC1 bytes of the verifying key that belongs to a secret key, or
/// `None` where the bytes are no secret key.
pub uninterp spec fn secp256k1_verifying_key_of(secret: Seq<u8>) -> Option<Seq<u8>>;

/// Reads the secret key with `k256::ecdsa::SigningKey::from_slice` and
/// signs the message with `try_sign`. The contract names the signature.
#[verifier::external_body]
pub(crate) fn ecdsa_sha256_sign(secret: &[u8], message: &[u8]) -> (signature: Option<Vec<u8>>)
    ensures
        signature.is_some() == ecdsa_sha256_signature(secret@, message@).is_some(),
        signature.is_some() ==> signature.unwrap()@ == ecdsa_sha256_signature(secret@, message@).unwrap(),
{
    let key = k256::ecdsa::SigningKey::from_slice(secret).ok()?;
    let signature: k256::ecdsa::Signature = ecdsa::signature::Signer::try_sign(&key, message).ok()?;
    Some(signature.to_vec())
}

/// Reads the secret key with `k256::ecdsa::SigningKey::from_slice` and
/// hands back its verifying key in SEC1 form. The contract names the key.
#[verifier::external_body]
pub(crate) fn secp256k1_verifying_key(secret: &[u8]) -> (key: Option<Vec<u8>>)
    ensures
        key.is_some() == secp256k1_verifying_key_of(secret@).is_some(),
        key.is_some() ==> key.unwrap()@ == secp256k1_verifying_key_of(secret@).unwrap(),
{
    k256::ecdsa::SigningKey::from_slice(secret).ok().map(|key| key.verifying_key().to_sec1_bytes().to_vec())
}

/// The signature that a request's base64 text stands for.
pub open spec fn signature_of_text(signature: Seq<char>) -> Option<Seq<u8>> {
    match base64_decoding(signature) {
        Some(raw) => ecdsa_signature_of(hex_encoding(raw)),
        None => None,
    }
}

/// The verifying key that a request's base64 text stands for.
pub open spec fn key_of_text(public_key: Seq<char>) -> Option<Seq<u8>> {
    match base64_decoding(public_key) {
        Some(raw) => secp256k1_key_of(raw),
        None => None,
    }
}

/// The bytes that the wallet signs for a payload: the canonical message
/// over the payload's base64 text, in UTF-8.
pub open spec fn signed_message(signer: Seq<char>, payload: Seq<u8>) -> Seq<u8> {
    encode_utf8(arbitrary_message(signer, base64_encoding(payload)))
}

/// The verdict on decoded material. A signature that does not decode is
/// reported before a key that does not; the curve's verdict counts only
/// when both decoded.
pub open spec fn verdict_of(
    signature: Option<Seq<u8>>,
    key: Option<Seq<u8>>,
    accepted: bool,
) -> Result<SignatureBundleView, VerificationError> {
    match (signature, key) {
        (None, _) => Err(VerificationError::MalformedSignature),
        (Some(_), None) => Err(VerificationError::MalformedKey),
        (Some(signature), Some(key)) => if accepted {
            Ok(SignatureBundleView { verifying_key: key, signature })
        } else {
            Err(VerificationError::SignatureInvalid)
        },
    }
}

/// The result of verifying a request: the verdict on what its texts
/// decode to, with the curve asked about the canonical message.
pub open spec fn verification_of(
    signer: Seq<char>,
    public_key: Seq<char>,
    signature: Seq<char>,
    payload: Seq<u8>,
) -> Result<SignatureBundleView, VerificationError> {
    let decoded_signature = signature_of_text(signature);
    let decoded_key = key_of_text(public_key);
    verdict_of(
        decoded_signature,
        decoded_key,
        decoded_signature.is_some() && decoded_key.is_some() && ecdsa_sha256_accepts(
            decoded_key.unwrap(),
            signed_message(signer, payload),
            decoded_signature.unwrap(),
        ),
    )
}

/// Whether an executable result is the one a specification gives.
pub open spec fn verification_matches(
    result: Result<SignatureBundle, VerificationError>,
    expected: Result<SignatureBundleView, VerificationError>,
) -> bool {
    match result {
        Ok(bundle) => expected == Ok::<SignatureBundleView, VerificationError>(bundle@),
        Err(error) => expected == Err::<SignatureBundleView, VerificationError>(error),
    }
}

/// Verifies wallet signatures over canonical messages.
pub struct SignatureService;

impl SignatureService {
    /// Decodes a signature from the base64 text of a request.
    pub fn decode_signature(signature: &str) -> (decoded: Option<Vec<u8>>)
        ensures
            decoded.is_some() == signature_of_text(signature@).is_some(),
            decoded.is_some() ==> decoded.unwrap()@ == signature_of_text(signature@).unwrap(),
    {
        match base64_decode(signature) {
            Some(raw) => {
                let hex = hex_encode(raw.as_slice());
                ecdsa_signature(hex.as_str())
            },
            None => None,
        }
    }

    /// Decodes a secp256k1 verifying key from the base64 text of a request.
    pub fn decode_public_key(public_key: &str) -> (decoded: Option<Vec<u8>>)
        ensures
            decoded.is_some() == key_of_text(public_key@).is_some(),
            decoded.is_some() ==> decoded.unwrap()@ == key_of_text(public_key@).unwrap(),
    {
        match base64_decode(public_key) {
            Some(raw) => secp256k1_key(raw.as_slice()),
            None => None,
        }
    }

    /// The canonical message for a signer and base64 data.
    pub fn generate_amino_message(signer: &str, data: &str) -> (message: String)
        ensures
            message@ == arbitrary_message(signer@, data@),
    {
        to_arbitrary_message_bytes(signer, data)
    }

    /// The bytes that `signer` signs for `payload`.
    pub fn message_to_sign(signer: &str, payload: &[u8]) -> (message: Vec<u8>)
        ensures
            message@ == signed_message(signer@, payload@),
    {
        let data = base64_encode(payload);
        let text = Self::generate_amino_message(signer, data.as_str());
        text.as_str().as_bytes_vec()
    }

    /// Turns decoded material and the curve's verdict into the result of a
    /// verification.
    pub fn verdict(signature: Option<Vec<u8>>, key: Option<Vec<u8>>, accepted: bool) -> (result: Result<
        SignatureBundle,
        VerificationError,
    >)
        ensures
            verification_matches(
                result,
                verdict_of(
                    match signature { Some(s) => Some(s@), None => None },
                    match key { Some(k) => Some(k@), None => None },
                    accepted,
                ),
            ),
    {
        match signature {
            None => Err(VerificationError::MalformedSignature),
            Some(signature) => match key {
                None => Err(VerificationError::MalformedKey),
                Some(verifying_key) => if accepted {
                    Ok(SignatureBundle { verifying_key, signature })
                } else {
                    Err(VerificationError::SignatureInvalid)
                },
            },
        }
    }

    /// Verifies that `signature` was made by the holder of `public_key` over
    /// the canonical message for `signer` and `payload`, and returns the
    /// decoded key and signature. Both texts are base64.
    pub fn verify_signature(signer: &str, public_key: &str, signature: &str, payload: &[u8]) -> (result: Result<
        SignatureBundle,
        VerificationError,
    >)
        ensures
            verification_matches(result, verification_of(signer@, public_key@, signature@, payload@)),
    {
        let decoded_signature = Self::decode_signature(signature);
        let decoded_key = Self::decode_public_key(public_key);
        let accepted = match (&decoded_signature, &decoded_key) {
            (Some(signature_bytes), Some(key_bytes)) => {
                let message = Self::message_to_sign(signer, payload);
                ecdsa_sha256_verify(key_bytes.as_slice(), message.as_slice(), signature_bytes.as_slice())
            },
            _ => false,
        };
        Self::verdict(decoded_signature, decoded_key, accepted)
    }
}

} // verus!
