//! Byte and text encodings used throughout the library: hexadecimal,
//! base64 and the SHA-256 content hash.

use vstd::prelude::*;

verus! {

/// The lowercase hexadecimal digit for a value in `0..16`.
pub open spec fn hex_digit(nibble: int) -> char {
    seq!['0', '1', '2', '3', '4', '5', '6', '7', '8', '9', 'a', 'b', 'c', 'd', 'e', 'f'][nibble]
}

/// The lowercase hexadecimal text of a byte string: two digits per byte,
/// the high half first.
pub open spec fn hex_encoding(bytes: Seq<u8>) -> Seq<char> {
    Seq::new(
        2 * bytes.len(),
        |i: int|
            if i % 2 == 0 {
                hex_digit(bytes[i / 2] as int / 16)
            } else {
                hex_digit(bytes[i / 2] as int % 16)
            },
    )
}

/// The SHA-256 digest of a byte string, as computed by the `sha2` crate.
pub uninterp spec fn sha256_digest(data: Seq<u8>) -> Seq<u8>;

/// The standard-alphabet, padded base64 text of a byte string, as produced
/// by the `base64` crate.
pub uninterp spec fn base64_encoding(bytes: Seq<u8>) -> Seq<char>;

/// The bytes that the `base64` crate decodes from a text with its standard
/// engine, or `None` where it rejects the text.
pub uninterp spec fn base64_decoding(text: Seq<char>) -> Option<Seq<u8>>;

/// Calls `hex::encode`, which writes each byte as two lowercase hexadecimal
/// digits. The contract states exactly that text.
#[verifier::external_body]
pub(crate) fn hex_encode(bytes: &[u8]) -> (text: String)
    ensures
        text@ == hex_encoding(bytes@),
{
    hex::encode(bytes)
}

/// Calls `Sha256::digest` of the `sha2` crate that `k256` re-exports. The
/// contract names the digest and states its length of 32 bytes.
#[verifier::external_body]
pub(crate) fn sha256(data: &[u8]) -> (digest: Vec<u8>)
    ensures
        digest@ == sha256_digest(data@),
        digest@.len() == 32,
{
    <k256::sha2::Sha256 as k256::sha2::Digest>::digest(data).to_vec()
}

/// Calls `base64::encode`. The contract names the text it returns.
#[verifier::external_body]
pub(crate) fn base64_encode(bytes: &[u8]) -> (text: String)
    ensures
        text@ == base64_encoding(bytes@),
{
    #[allow(deprecated)]
    base64::encode(bytes)
}

/// Calls `base64::decode` and drops the detail of its error. The contract
/// names the outcome.
#[verifier::external_body]
pub(crate) fn base64_decode(text: &str) -> (bytes: Option<Vec<u8>>)
    ensures
        bytes.is_some() == base64_decoding(text@).is_some(),
        bytes.is_some() ==> bytes.unwrap()@ == base64_decoding(text@).unwrap(),
{
    #[allow(deprecated)]
    base64::decode(text).ok()
}

/// The lowercase hexadecimal SHA-256 fingerprint of `data`: the key under
/// which a proof is deduplicated.
pub fn hash_bytes_sha256(data: Vec<u8>) -> (fingerprint: String)
    ensures
        fingerprint@ == hex_encoding(sha256_digest(data@)),
        fingerprint@.len() == 64,
{
    let digest = sha256(data.as_slice());
    hex_encode(digest.as_slice())
}

} // verus!
