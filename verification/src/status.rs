//! How outcomes are reported to a client: the status of the response and
//! the message for each error. Faults of the request are reported in the 400 range and are
//! never retried; a token or signature that does not stand is reported as
//! unauthorized; a proof that is applied already is a conflict of its own;
//! failures of the ledger, the store or the service's own key are reported
//! as failures of the server.

use vstd::prelude::*;
use vstd::string::*;
use crate::account::UserError;
use crate::api::{ApplyProofError, AuthWalletError};
use crate::identity::{ProofError, ProofServiceError};
use crate::ledger::TransactionError;
use crate::repository::RepoError;
use crate::session::AuthError;
use crate::signature::VerificationError;
use crate::token::TokenError;

verus! {

pub const OK: u16 = 200;

pub const BAD_REQUEST: u16 = 400;

pub const UNAUTHORIZED: u16 = 401;

pub const NOT_FOUND: u16 = 404;

pub const CONFLICT: u16 = 409;

pub const INTERNAL_SERVER_ERROR: u16 = 500;

pub const SERVICE_UNAVAILABLE: u16 = 503;

/// The status for a wallet signature that was turned down.
pub open spec fn verification_status(error: VerificationError) -> u16 {
    match error {
        VerificationError::MalformedKey => BAD_REQUEST,
        VerificationError::MalformedSignature => BAD_REQUEST,
        VerificationError::SignatureInvalid => UNAUTHORIZED,
    }
}

/// The status for a token that was not issued or not accepted.
pub open spec fn token_status(error: TokenError) -> u16 {
    match error {
        TokenError::GenerationFailed => INTERNAL_SERVER_ERROR,
        _ => UNAUTHORIZED,
    }
}

/// The status for a request that was not authenticated or not prepared.
pub open spec fn auth_status(error: AuthError) -> u16 {
    match error {
        AuthError::MissingToken => UNAUTHORIZED,
        AuthError::MissingRefreshToken => UNAUTHORIZED,
        AuthError::InvalidHeaderFormat => UNAUTHORIZED,
        AuthError::Token(error) => token_status(error),
        AuthError::Base64Error => BAD_REQUEST,
        AuthError::PublicKeyError => BAD_REQUEST,
        AuthError::KeyStoreError => INTERNAL_SERVER_ERROR,
    }
}

/// The status for an account that was not read, created or changed.
pub open spec fn user_status(error: UserError) -> u16 {
    match error {
        UserError::AccountNotFound(_) => NOT_FOUND,
        UserError::KeyStoreError => INTERNAL_SERVER_ERROR,
        UserError::SignatureError(error) => verification_status(error),
        UserError::TransactionError(_) => INTERNAL_SERVER_ERROR,
    }
}

/// The status for a row that the store did not take.
pub open spec fn repo_status(error: RepoError) -> u16 {
    match error {
        RepoError::Conflict => CONFLICT,
        RepoError::DuplicateUser => CONFLICT,
        RepoError::UnknownUser => NOT_FOUND,
    }
}

/// The status for a proof that gave no record: a proof that does not hold,
/// a context that cannot be read or that lacks the provider's field are
/// faults of the request.
pub open spec fn proof_service_status(error: ProofServiceError) -> u16 {
    match error {
        ProofServiceError::ReclaimProofNotVerifiedError(_) => BAD_REQUEST,
        ProofServiceError::ContextDeserializationError(_) => BAD_REQUEST,
        ProofServiceError::EmailNotFound => BAD_REQUEST,
        ProofServiceError::ScreennameNotFound => BAD_REQUEST,
        ProofServiceError::UsernameNotFound => BAD_REQUEST,
    }
}

/// The status for a wallet that was not signed in. A wallet whose key is
/// not the key of the signer's account is not authorized.
pub open spec fn auth_wallet_status(error: AuthWalletError) -> u16 {
    match error {
        AuthWalletError::Signature(error) => verification_status(error),
        AuthWalletError::KeyMismatch => UNAUTHORIZED,
        AuthWalletError::User(error) => user_status(error),
        AuthWalletError::Token(error) => token_status(error),
    }
}

/// The status for a proof that was not applied.
pub open spec fn apply_proof_status(error: ApplyProofError) -> u16 {
    match error {
        ApplyProofError::Conflict => CONFLICT,
        ApplyProofError::Signature(error) => verification_status(error),
        ApplyProofError::User(error) => user_status(error),
        ApplyProofError::Store(error) => repo_status(error),
    }
}

impl VerificationError {
    pub fn status_code(&self) -> (status: u16)
        ensures
            status == verification_status(*self),
    {
        match self {
            VerificationError::SignatureInvalid => UNAUTHORIZED,
            _ => BAD_REQUEST,
        }
    }
}

impl TokenError {
    pub fn status_code(&self) -> (status: u16)
        ensures
            status == token_status(*self),
    {
        match self {
            TokenError::GenerationFailed => INTERNAL_SERVER_ERROR,
            _ => UNAUTHORIZED,
        }
    }
}

impl AuthError {
    pub fn status_code(&self) -> (status: u16)
        ensures
            status == auth_status(*self),
    {
        match self {
            AuthError::MissingToken => UNAUTHORIZED,
            AuthError::MissingRefreshToken => UNAUTHORIZED,
            AuthError::InvalidHeaderFormat => UNAUTHORIZED,
            AuthError::Token(error) => error.status_code(),
            AuthError::Base64Error => BAD_REQUEST,
            AuthError::PublicKeyError => BAD_REQUEST,
            AuthError::KeyStoreError => INTERNAL_SERVER_ERROR,
        }
    }
}

impl UserError {
    pub fn status_code(&self) -> (status: u16)
        ensures
            status == user_status(*self),
    {
        match self {
            UserError::AccountNotFound(_) => NOT_FOUND,
            UserError::KeyStoreError => INTERNAL_SERVER_ERROR,
            UserError::SignatureError(error) => error.status_code(),
            UserError::TransactionError(_) => INTERNAL_SERVER_ERROR,
        }
    }
}

impl RepoError {
    pub fn status_code(&self) -> (status: u16)
        ensures
            status == repo_status(*self),
    {
        match self {
            RepoError::UnknownUser => NOT_FOUND,
            _ => CONFLICT,
        }
    }
}

impl ProofError {
    /// A proof that gave no data to sign is a fault of the request.
    pub fn status_code(&self) -> (status: u16)
        ensures
            status == BAD_REQUEST,
    {
        BAD_REQUEST
    }
}

impl ProofServiceError {
    pub fn status_code(&self) -> (status: u16)
        ensures
            status == proof_service_status(*self),
    {
        BAD_REQUEST
    }
}

impl AuthWalletError {
    pub fn status_code(&self) -> (status: u16)
        ensures
            status == auth_wallet_status(*self),
    {
        match self {
            AuthWalletError::Signature(error) => error.status_code(),
            AuthWalletError::KeyMismatch => UNAUTHORIZED,
            AuthWalletError::User(error) => error.status_code(),
            AuthWalletError::Token(error) => error.status_code(),
        }
    }
}

impl ApplyProofError {
    pub fn status_code(&self) -> (status: u16)
        ensures
            status == apply_proof_status(*self),
    {
        match self {
            ApplyProofError::Conflict => CONFLICT,
            ApplyProofError::Signature(error) => error.status_code(),
            ApplyProofError::User(error) => error.status_code(),
            ApplyProofError::Store(error) => error.status_code(),
        }
    }
}

/// What is said of a wallet signature that was turned down.
pub open spec fn verification_message(error: VerificationError) -> Seq<char> {
    match error {
        VerificationError::MalformedKey => "Invalid public key"@,
        VerificationError::MalformedSignature => "Invalid signature: the signature does not decode"@,
        VerificationError::SignatureInvalid => "Invalid signature: the signature does not verify"@,
    }
}

/// What is said of a token that was not issued or not accepted.
pub open spec fn token_message(error: TokenError) -> Seq<char> {
    match error {
        TokenError::Expired => "Token validation error: the token has expired"@,
        TokenError::WrongType => "Token validation error: Invalid token type"@,
        TokenError::Malformed => "Token validation error: Invalid token format"@,
        TokenError::SignatureInvalid => "Token validation error: Invalid token signature"@,
        TokenError::InactivityTimeout => "Session expired due to inactivity"@,
        TokenError::Reused => "Token validation error: the refresh token was used before"@,
        TokenError::GenerationFailed => "Failed to generate token"@,
    }
}

/// What is said of a request that was not authenticated or not prepared.
pub open spec fn auth_message(error: AuthError) -> Seq<char> {
    match error {
        AuthError::MissingToken => "No token provided"@,
        AuthError::MissingRefreshToken => "No refresh token provided"@,
        AuthError::InvalidHeaderFormat => "Invalid authorization header format"@,
        AuthError::Token(error) => token_message(error),
        AuthError::Base64Error => "Base64 decode error"@,
        AuthError::PublicKeyError => "Invalid public key"@,
        AuthError::KeyStoreError => "Key store error"@,
    }
}

/// What is said of a transaction that the ledger did not take.
pub open spec fn transaction_message(error: TransactionError) -> Seq<char> {
    match error {
        TransactionError::AccountMismatch => "the transaction is about another account than its operation"@,
        TransactionError::AccountExists => "the account exists already"@,
        TransactionError::UnknownAccount => "the account does not exist"@,
        TransactionError::UnknownService => "the service is not registered"@,
        TransactionError::ServiceExists => "the service is registered already"@,
        TransactionError::NonceMismatch => "the nonce is not the one the account expects"@,
        TransactionError::ChallengeMismatch => "the service challenge does not verify"@,
        TransactionError::SignatureMismatch => "the signature of the transaction does not verify"@,
        TransactionError::DataSignatureMismatch => "the signature over the data does not verify"@,
    }
}

/// What is said of an account that was not read, created or changed.
pub open spec fn user_message(error: UserError) -> Seq<char> {
    match error {
        UserError::AccountNotFound(id) => "Account not found "@ + id@,
        UserError::KeyStoreError => "Key store error"@,
        UserError::SignatureError(error) => "Signature error: "@ + verification_message(error),
        UserError::TransactionError(error) => "Transaction error: "@ + transaction_message(error),
    }
}

/// What is said of a row that the store did not take.
pub open spec fn repo_message(error: RepoError) -> Seq<char> {
    match error {
        RepoError::Conflict => "The proof is applied already"@,
        RepoError::DuplicateUser => "The user is stored already"@,
        RepoError::UnknownUser => "The user is not stored"@,
    }
}

impl VerificationError {
    pub fn message(&self) -> (message: String)
        ensures
            message@ == verification_message(*self),
    {
        match self {
            VerificationError::MalformedKey => String::from_str("Invalid public key"),
            VerificationError::MalformedSignature => String::from_str(
                "Invalid signature: the signature does not decode",
            ),
            VerificationError::SignatureInvalid => String::from_str(
                "Invalid signature: the signature does not verify",
            ),
        }
    }
}

impl TokenError {
    pub fn message(&self) -> (message: String)
        ensures
            message@ == token_message(*self),
    {
        match self {
            TokenError::Expired => String::from_str("Token validation error: the token has expired"),
            TokenError::WrongType => String::from_str("Token validation error: Invalid token type"),
            TokenError::Malformed => String::from_str("Token validation error: Invalid token format"),
            TokenError::SignatureInvalid => String::from_str("Token validation error: Invalid token signature"),
            TokenError::InactivityTimeout => String::from_str("Session expired due to inactivity"),
            TokenError::Reused => String::from_str("Token validation error: the refresh token was used before"),
            TokenError::GenerationFailed => String::from_str("Failed to generate token"),
        }
    }
}

impl AuthError {
    pub fn message(&self) -> (message: String)
        ensures
            message@ == auth_message(*self),
    {
        match self {
            AuthError::MissingToken => String::from_str("No token provided"),
            AuthError::MissingRefreshToken => String::from_str("No refresh token provided"),
            AuthError::InvalidHeaderFormat => String::from_str("Invalid authorization header format"),
            AuthError::Token(error) => error.message(),
            AuthError::Base64Error => String::from_str("Base64 decode error"),
            AuthError::PublicKeyError => String::from_str("Invalid public key"),
            AuthError::KeyStoreError => String::from_str("Key store error"),
        }
    }
}

impl TransactionError {
    pub fn message(&self) -> (message: String)
        ensures
            message@ == transaction_message(*self),
    {
        match self {
            TransactionError::AccountMismatch => String::from_str(
                "the transaction is about another account than its operation",
            ),
            TransactionError::AccountExists => String::from_str("the account exists already"),
            TransactionError::UnknownAccount => String::from_str("the account does not exist"),
            TransactionError::UnknownService => String::from_str("the service is not registered"),
            TransactionError::ServiceExists => String::from_str("the service is registered already"),
            TransactionError::NonceMismatch => String::from_str("the nonce is not the one the account expects"),
            TransactionError::ChallengeMismatch => String::from_str("the service challenge does not verify"),
            TransactionError::SignatureMismatch => String::from_str(
                "the signature of the transaction does not verify",
            ),
            TransactionError::DataSignatureMismatch => String::from_str("the signature over the data does not verify"),
        }
    }
}

impl UserError {
    pub fn message(&self) -> (message: String)
        ensures
            message@ == user_message(*self),
    {
        match self {
            UserError::AccountNotFound(id) => String::from_str("Account not found ").concat(id.as_str()),
            UserError::KeyStoreError => String::from_str("Key store error"),
            UserError::SignatureError(error) => String::from_str("Signature error: ").concat(
                error.message().as_str(),
            ),
            UserError::TransactionError(error) => String::from_str("Transaction error: ").concat(
                error.message().as_str(),
            ),
        }
    }
}

impl RepoError {
    pub fn message(&self) -> (message: String)
        ensures
            message@ == repo_message(*self),
    {
        match self {
            RepoError::Conflict => String::from_str("The proof is applied already"),
            RepoError::DuplicateUser => String::from_str("The user is stored already"),
            RepoError::UnknownUser => String::from_str("The user is not stored"),
        }
    }
}

impl ProofError {
    /// What is said of a proof that gave no data to sign: what kind of
    /// failure it was, and the detail that came with it.
    pub fn message(&self) -> (message: String)
        ensures
            message@ == match *self {
                ProofError::ProofNotVerifiedError(detail) => "Proof verification failed: "@ + detail@,
                ProofError::SerializationError(detail) => "Serialization error: "@ + detail@,
            },
    {
        match self {
            ProofError::ProofNotVerifiedError(detail) => String::from_str("Proof verification failed: ").concat(
                detail.as_str(),
            ),
            ProofError::SerializationError(detail) => String::from_str("Serialization error: ").concat(
                detail.as_str(),
            ),
        }
    }
}

/// What is said of a proof that gave no record.
pub open spec fn proof_service_message(error: ProofServiceError) -> Seq<char> {
    match error {
        ProofServiceError::ReclaimProofNotVerifiedError(detail) => "Reclaim proof could not be verified: "@
            + detail@,
        ProofServiceError::ContextDeserializationError(detail) => "Failed to deserialize context data: "@
            + detail@,
        ProofServiceError::EmailNotFound => "email not found in context"@,
        ProofServiceError::ScreennameNotFound => "screen_name not found in context"@,
        ProofServiceError::UsernameNotFound => "username not found in context"@,
    }
}

impl ProofServiceError {
    pub fn message(&self) -> (message: String)
        ensures
            message@ == proof_service_message(*self),
    {
        match self {
            ProofServiceError::ReclaimProofNotVerifiedError(detail) => String::from_str(
                "Reclaim proof could not be verified: ",
            ).concat(detail.as_str()),
            ProofServiceError::ContextDeserializationError(detail) => String::from_str(
                "Failed to deserialize context data: ",
            ).concat(detail.as_str()),
            ProofServiceError::EmailNotFound => String::from_str("email not found in context"),
            ProofServiceError::ScreennameNotFound => String::from_str("screen_name not found in context"),
            ProofServiceError::UsernameNotFound => String::from_str("username not found in context"),
        }
    }
}

impl AuthWalletError {
    /// What is said of a wallet that was not signed in: what is said of
    /// the step that failed.
    pub fn message(&self) -> (message: String)
        ensures
            message@ == match *self {
                AuthWalletError::Signature(error) => verification_message(error),
                AuthWalletError::KeyMismatch => "The public key is not the key of the account"@,
                AuthWalletError::User(error) => user_message(error),
                AuthWalletError::Token(error) => token_message(error),
            },
    {
        match self {
            AuthWalletError::Signature(error) => error.message(),
            AuthWalletError::KeyMismatch => String::from_str("The public key is not the key of the account"),
            AuthWalletError::User(error) => error.message(),
            AuthWalletError::Token(error) => error.message(),
        }
    }
}

impl ApplyProofError {
    /// What is said of a proof that was not applied: what is said of the
    /// step that failed.
    pub fn message(&self) -> (message: String)
        ensures
            message@ == match *self {
                ApplyProofError::Conflict => repo_message(RepoError::Conflict),
                ApplyProofError::Signature(error) => verification_message(error),
                ApplyProofError::User(error) => user_message(error),
                ApplyProofError::Store(error) => repo_message(error),
            },
    {
        match self {
            ApplyProofError::Conflict => RepoError::Conflict.message(),
            ApplyProofError::Signature(error) => error.message(),
            ApplyProofError::User(error) => error.message(),
            ApplyProofError::Store(error) => error.message(),
        }
    }
}

/// The body that tells a client why its tokens were not renewed. A fault
/// in presenting the token is told with a flag and a message; a token that
/// was turned down is told as an error, and a session that timed out bears
/// a code by which clients know to sign in again.
#[derive(Debug)]
pub struct RefreshRefusal {
    pub success: Option<bool>,
    pub message: Option<String>,
    pub error: Option<String>,
    pub code: Option<String>,
}

pub struct RefreshRefusalView {
    pub success: Option<bool>,
    pub message: Option<Seq<char>>,
    pub error: Option<Seq<char>>,
    pub code: Option<Seq<char>>,
}

/// What a text holds, where there is one.
pub open spec fn text_view(text: Option<String>) -> Option<Seq<char>> {
    match text {
        Some(text) => Some(text@),
        None => None,
    }
}

impl View for RefreshRefusal {
    type V = RefreshRefusalView;

    open spec fn view(&self) -> RefreshRefusalView {
        RefreshRefusalView {
            success: self.success,
            message: text_view(self.message),
            error: text_view(self.error),
            code: text_view(self.code),
        }
    }
}

/// What is said of a refresh token that was turned down.
pub open spec fn refresh_error_text(error: TokenError) -> Seq<char> {
    match error {
        TokenError::InactivityTimeout => "Session expired due to inactivity"@,
        TokenError::WrongType => "Invalid token type"@,
        TokenError::GenerationFailed => "Failed to generate token"@,
        _ => "Invalid refresh token"@,
    }
}

/// The body for tokens that were not renewed.
pub open spec fn refresh_refusal_of(error: AuthError) -> RefreshRefusalView {
    match error {
        AuthError::Token(error) => RefreshRefusalView {
            success: None,
            message: None,
            error: Some(refresh_error_text(error)),
            code: if error == TokenError::InactivityTimeout {
                Some("INACTIVITY_TIMEOUT"@)
            } else {
                None
            },
        },
        _ => RefreshRefusalView { success: Some(false), message: Some(auth_message(error)), error: None, code: None },
    }
}

impl AuthError {
    /// The body that tells a client why its tokens were not renewed.
    pub fn refresh_refusal(&self) -> (body: RefreshRefusal)
        ensures
            body@ == refresh_refusal_of(*self),
    {
        match self {
            AuthError::Token(error) => {
                let text = match error {
                    TokenError::InactivityTimeout => String::from_str("Session expired due to inactivity"),
                    TokenError::WrongType => String::from_str("Invalid token type"),
                    TokenError::GenerationFailed => String::from_str("Failed to generate token"),
                    _ => String::from_str("Invalid refresh token"),
                };
                let code = match error {
                    TokenError::InactivityTimeout => Some(String::from_str("INACTIVITY_TIMEOUT")),
                    _ => None,
                };
                RefreshRefusal { success: None, message: None, error: Some(text), code }
            },
            _ => RefreshRefusal { success: Some(false), message: Some(self.message()), error: None, code: None },
        }
    }
}

/// The status of the health report: the service is healthy where the
/// store can be reached.
pub fn health_status(database_reachable: bool) -> (status: u16)
    ensures
        status == if database_reachable {
            OK
        } else {
            SERVICE_UNAVAILABLE
        },
{
    if database_reachable {
        OK
    } else {
        SERVICE_UNAVAILABLE
    }
}

} // verus!
