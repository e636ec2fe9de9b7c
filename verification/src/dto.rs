//! The bodies of requests and responses, as plain values.

use vstd::prelude::*;
use crate::identity::{IdentityRecord, ReclaimProof};

verus! {

/// A wallet's answer to a challenge: key and signature in base64, the
/// signer, and the bytes that were handed out to be signed.
#[derive(Debug)]
pub struct AuthWalletRequestDto {
    pub public_key: String,
    pub signature: String,
    pub signer: String,
    pub data: Vec<u8>,
}

/// The request for a challenge.
#[derive(Debug)]
pub struct PrepareAuthRequestDto {
    pub public_key: String,
    pub signer: String,
}

/// The request for the bytes to sign for a proof.
#[derive(Debug)]
pub struct PrepareToApplyProofRequestDto {
    pub proof: ReclaimProof,
    pub provider_id: String,
    pub signer: String,
}

/// A signed proof to apply.
#[derive(Debug)]
pub struct ApplyProofRequestDto {
    pub public_key: String,
    pub signature: String,
    pub signer: String,
    pub data: Vec<u8>,
    pub proof: ReclaimProof,
    pub provider_id: String,
}

pub struct AuthWalletResponseDto {
    pub success: bool,
    pub message: Option<String>,
    pub access_token: String,
    pub refresh_token: String,
}

pub struct PrepareAuthDataResponseDto {
    pub data: Vec<u8>,
    pub signer: String,
}

pub struct PrepareToApplyProofResponseDto {
    pub data: Vec<u8>,
    pub signer: String,
}

pub struct ApplyProofResponseDto {
    pub success: bool,
}

pub struct ProofApplyResponse {
    pub success: bool,
}

pub struct AppliedProofStatsResponseDto {
    pub stats: Vec<(String, i64)>,
}

pub struct UserDataResponseDto {
    pub id: String,
    pub identity_records: Vec<IdentityRecord>,
}

impl UserDataResponseDto {
    pub fn new(id: String, identity_records: Vec<IdentityRecord>) -> (response: Self)
        ensures
            response.id == id,
            response.identity_records == identity_records,
    {
        UserDataResponseDto { id, identity_records }
    }
}

/// A sign-in request of a wallet that signed a message of its own.
pub struct SignInWalletPayload {
    pub public_key: String,
    pub signature: String,
    pub signer: String,
    pub message: String,
}

#[derive(Debug)]
pub struct RefreshTokenRequest {
    pub refresh_token: String,
}

pub struct SignInWalletResponse {
    pub access_token: String,
    pub refresh_token: String,
}

#[derive(Debug)]
pub struct AuthResult {
    pub access_token: String,
    pub refresh_token: String,
}

} // verus!
