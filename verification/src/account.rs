//! Accounts of users: the challenge that a wallet signs, the registration
//! that the signature completes, and the data that is added afterwards.
//! Every change of an account bears two signatures, one of the service and
//! one of the user.
//!
//! An account is unregistered until the ledger takes its registration, and
//! registered from then on. A challenge that was issued leaves no trace:
//! asking again gives the same bytes, and only the signed registration
//! changes the ledger. Registering an account that is registered returns
//! it as it is.
//!
//! Each change comes in two forms. `UserService::registration_step` and
//! `UserService::addition_step` decide from what a ledger answered and give
//! the transaction to submit; `UserService::create_user_account` and
//! `UserService::add_data_to_user_account` do the same on the ledger that
//! this library holds in memory.

use vstd::prelude::*;
use vstd::string::*;
use crate::codec::{base64_decode, base64_decoding};
use crate::identity::IdentityRecord;
use crate::json::{json_text_at, json_text_at_pointer};
use crate::ledger::{account_ids, accounts_view, Ledger, LedgerAccount, SignedDataView, TransactionError};
use crate::session::AuthError;
use crate::text::{lemma_first_index_bounds, lemma_first_index_is};
use crate::signature::{
    ecdsa_sha256_accepts, ecdsa_sha256_sign, ecdsa_sha256_signature, ecdsa_sha256_verify, key_of_text,
    secp256k1_key, secp256k1_key_of, secp256k1_verifying_key, secp256k1_verifying_key_of, signature_of_text,
    signed_message, SignatureBundle, SignatureBundleView, SignatureService, VerificationError,
};
use crate::transaction::{
    challenge_message, challenge_message_for, signing_payload_of, Operation, OperationView, Transaction,
    TransactionView, UnsignedTransaction,
};

verus! {

/// The bytes that a user must sign, seen from the request that asked for
/// them.
pub struct PreparedAuthData {
    pub data: Vec<u8>,
}

/// A user as downstream handlers see one: the identifier and the identity
/// records of the account.
#[derive(Debug)]
pub struct User {
    pub id: String,
    pub identity_records: Vec<IdentityRecord>,
}

impl User {
    pub fn new(id: String, identity_records: Vec<IdentityRecord>) -> (user: Self)
        ensures
            user.id == id,
            user.identity_records == identity_records,
    {
        User { id, identity_records }
    }
}

/// Why an account was not read, created or changed.
#[derive(Debug)]
pub enum UserError {
    /// There is no account of this identifier.
    AccountNotFound(String),
    /// The service's signing key made no signature.
    KeyStoreError,
    /// The user's signature does not stand.
    SignatureError(VerificationError),
    /// The ledger did not take the transaction.
    TransactionError(TransactionError),
}

/// What a user signed, decoded: the signature with its key, the bytes that
/// were signed, and the user's identifier.
#[derive(Debug)]
pub struct UserRecord {
    pub signature_bundle: SignatureBundle,
    pub user_data: Vec<u8>,
    pub user_id: String,
}

impl UserRecord {
    pub fn new(signature_bundle: SignatureBundle, user_data: Vec<u8>, user_id: String) -> (record: Self)
        ensures
            record.signature_bundle == signature_bundle,
            record.user_data == user_data,
            record.user_id == user_id,
    {
        UserRecord { signature_bundle, user_data, user_id }
    }
}

/// The bundle that a wallet's texts decode to. A signature that does not
/// decode is reported before a key that does not.
pub open spec fn wallet_bundle(signature: Seq<char>, public_key: Seq<char>) -> Result<
    SignatureBundleView,
    VerificationError,
> {
    match (signature_of_text(signature), key_of_text(public_key)) {
        (None, _) => Err(VerificationError::MalformedSignature),
        (Some(_), None) => Err(VerificationError::MalformedKey),
        (Some(signature), Some(key)) => Ok(SignatureBundleView { verifying_key: key, signature }),
    }
}

/// What a wallet sends: key and signature in base64, the signer, and the
/// data that the canonical message was made of.
#[derive(Debug)]
pub struct UserAminoSignedRecord {
    pub public_key: String,
    pub signature: String,
    pub signer: String,
    pub data: Vec<u8>,
}

impl UserAminoSignedRecord {
    pub fn new(public_key: String, signature: String, signer: String, data: Vec<u8>) -> (record: Self)
        ensures
            record.public_key == public_key,
            record.signature == signature,
            record.signer == signer,
            record.data == data,
    {
        UserAminoSignedRecord { public_key, signature, signer, data }
    }

    /// The bundle that the texts of this record decode to.
    pub open spec fn bundle(&self) -> Result<SignatureBundleView, VerificationError> {
        wallet_bundle(self.signature@, self.public_key@)
    }

    /// Decodes key and signature.
    pub fn to_signature_bundle(&self) -> (result: Result<SignatureBundle, VerificationError>)
        ensures
            match result {
                Ok(bundle) => self.bundle() == Ok::<SignatureBundleView, VerificationError>(bundle@),
                Err(error) => self.bundle() == Err::<SignatureBundleView, VerificationError>(error),
            },
    {
        let signature = match SignatureService::decode_signature(self.signature.as_str()) {
            Some(signature) => signature,
            None => { return Err(VerificationError::MalformedSignature); },
        };
        let verifying_key = match SignatureService::decode_public_key(self.public_key.as_str()) {
            Some(key) => key,
            None => { return Err(VerificationError::MalformedKey); },
        };
        Ok(SignatureBundle::new(verifying_key, signature))
    }

    /// Decodes this record: the bundle, the canonical message that the
    /// wallet signed for the data, and the signer as the user.
    pub fn to_user_record(&self) -> (result: Result<UserRecord, VerificationError>)
        ensures
            match result {
                Ok(record) => {
                    &&& self.bundle() == Ok::<SignatureBundleView, VerificationError>(record.signature_bundle@)
                    &&& record.user_data@ == signed_message(self.signer@, self.data@)
                    &&& record.user_id@ == self.signer@
                },
                Err(error) => self.bundle() == Err::<SignatureBundleView, VerificationError>(error),
            },
    {
        let bundle = match self.to_signature_bundle() {
            Ok(bundle) => bundle,
            Err(error) => { return Err(error); },
        };
        let user_data = SignatureService::message_to_sign(self.signer.as_str(), self.data.as_slice());
        Ok(UserRecord::new(bundle, user_data, self.signer.clone()))
    }
}

/// The service that authorises changes of accounts: its identifier on the
/// ledger and its secret signing key.
pub struct ServiceIdentity {
    pub service_id: String,
    pub signing_key: Vec<u8>,
}

/// The service's signature over the challenge message for an account, or
/// `None` where its key makes none.
pub open spec fn service_challenge(service: &ServiceIdentity, id: Seq<char>, key: Seq<u8>) -> Option<Seq<u8>> {
    ecdsa_sha256_signature(service.signing_key@, challenge_message(id, service.service_id@, key))
}

/// The operation that creates the account `id` with the user's key `key`
/// for a service, with the service's signature as its challenge.
pub open spec fn registration_operation(service: &ServiceIdentity, id: Seq<char>, key: Seq<u8>) -> Option<
    OperationView,
> {
    match service_challenge(service, id, key) {
        Some(challenge) => Some(
            OperationView::CreateAccount { id, service_id: service.service_id@, challenge, key },
        ),
        None => None,
    }
}

/// The bytes that the user signs to register: those of the transaction
/// that creates the account, which bears the nonce zero.
pub open spec fn registration_payload(service: &ServiceIdentity, id: Seq<char>, key: Seq<u8>) -> Option<Seq<u8>> {
    match registration_operation(service, id, key) {
        Some(operation) => Some(signing_payload_of(id, operation, 0)),
        None => None,
    }
}

/// The bundle with which a service signs the bytes of a transaction: its
/// verifying key and its signature, where its key gives both.
pub open spec fn service_signature(service: &ServiceIdentity, payload: Seq<u8>) -> Option<SignatureBundleView> {
    match (secp256k1_verifying_key_of(service.signing_key@), ecdsa_sha256_signature(service.signing_key@, payload)) {
        (Some(key), Some(signature)) => Some(SignatureBundleView { verifying_key: key, signature }),
        _ => None,
    }
}

impl Clone for ServiceIdentity {
    fn clone(&self) -> (copy: Self)
        ensures
            copy.service_id@ == self.service_id@,
            copy.signing_key@ == self.signing_key@,
    {
        ServiceIdentity { service_id: self.service_id.clone(), signing_key: self.signing_key.clone() }
    }
}

impl ServiceIdentity {
    pub fn new(service_id: String, signing_key: Vec<u8>) -> (service: Self)
        ensures
            service.service_id == service_id,
            service.signing_key == signing_key,
    {
        ServiceIdentity { service_id, signing_key }
    }

    /// The verifying key under which the ledger knows this service.
    pub fn verifying_key(&self) -> (key: Option<Vec<u8>>)
        ensures
            key.is_some() == secp256k1_verifying_key_of(self.signing_key@).is_some(),
            key.is_some() ==> key.unwrap()@ == secp256k1_verifying_key_of(self.signing_key@).unwrap(),
    {
        secp256k1_verifying_key(self.signing_key.as_slice())
    }

    /// Builds the unsigned transaction that creates the account `id` with
    /// the user's key: the service signs the challenge message, and the
    /// transaction waits for the user's signature. The same account and key
    /// give the same transaction every time.
    pub fn registration(&self, id: &str, key: &[u8]) -> (transaction: Option<UnsignedTransaction>)
        ensures
            transaction.is_some() == registration_operation(self, id@, key@).is_some(),
            transaction.is_some() ==> {
                &&& transaction.unwrap().id@ == id@
                &&& transaction.unwrap().nonce == 0
                &&& transaction.unwrap().operation@ == registration_operation(self, id@, key@).unwrap()
            },
    {
        let message = challenge_message_for(id, self.service_id.as_str(), key);
        let challenge = match ecdsa_sha256_sign(self.signing_key.as_slice(), message.as_slice()) {
            Some(challenge) => challenge,
            None => { return None; },
        };
        let mut user_key: Vec<u8> = Vec::new();
        crate::transaction::append_bytes(&mut user_key, key);
        let operation = Operation::CreateAccount {
            id: String::from_str(id),
            service_id: self.service_id.clone(),
            challenge,
            key: user_key,
        };
        assert(user_key@ =~= key@);
        Some(UnsignedTransaction::new(String::from_str(id), operation, 0))
    }

    /// Signs the bytes of a transaction as the service.
    pub fn sign(&self, payload: &[u8]) -> (bundle: Option<SignatureBundle>)
        ensures
            bundle.is_some() == service_signature(self, payload@).is_some(),
            bundle.is_some() ==> bundle.unwrap()@ == service_signature(self, payload@).unwrap(),
    {
        let verifying_key = match secp256k1_verifying_key(self.signing_key.as_slice()) {
            Some(key) => key,
            None => { return None; },
        };
        let signature = match ecdsa_sha256_sign(self.signing_key.as_slice(), payload) {
            Some(signature) => signature,
            None => { return None; },
        };
        Some(SignatureBundle::new(verifying_key, signature))
    }
}

/// Makes a service known to the ledger under its verifying key, unless it
/// is known already: then nothing is done. A service whose secret is no
/// signing key cannot be made known.
pub fn register_service(ledger: &mut Ledger, service: &ServiceIdentity) -> (result: Result<(), UserError>)
    ensures
        final(ledger)@.accounts == old(ledger)@.accounts,
        old(ledger).has_service(service.service_id@) ==> result is Ok && final(ledger)@.services == old(
            ledger,
        )@.services,
        !old(ledger).has_service(service.service_id@) ==> match secp256k1_verifying_key_of(service.signing_key@) {
            None => result is Err && result->Err_0 is KeyStoreError && final(ledger)@.services == old(
                ledger,
            )@.services,
            Some(key) => {
                &&& result is Ok
                &&& final(ledger).has_service(service.service_id@)
                &&& final(ledger).service_key(service.service_id@) == key
                &&& final(ledger)@.services.len() == old(ledger)@.services.len() + 1
            },
        },
{
    if ledger.find_service(service.service_id.as_str()) < ledger.services().len() {
        return Ok(());
    }
    let key = match service.verifying_key() {
        Some(key) => key,
        None => { return Err(UserError::KeyStoreError); },
    };
    match ledger.register_service(service.service_id.clone(), key) {
        Ok(()) => Ok(()),
        Err(error) => Err(UserError::TransactionError(error)),
    }
}

/// The bytes that a wallet must sign to register `signer` with the key
/// that `public_key` holds in base64, or why there are none.
pub open spec fn prepared_auth_data(service: &ServiceIdentity, signer: Seq<char>, public_key: Seq<char>) -> Result<
    Seq<u8>,
    AuthError,
> {
    match base64_decoding(public_key) {
        None => Err(AuthError::Base64Error),
        Some(raw) => match secp256k1_key_of(raw) {
            None => Err(AuthError::PublicKeyError),
            Some(key) => match registration_payload(service, signer, key) {
                None => Err(AuthError::KeyStoreError),
                Some(payload) => Ok(payload),
            },
        },
    }
}

/// Prepares what a wallet signs.
pub struct AuthService {
    pub service: ServiceIdentity,
}

impl AuthService {
    pub fn new(service: ServiceIdentity) -> (auth: Self)
        ensures
            auth.service == service,
    {
        AuthService { service }
    }

    /// Issues the challenge for a registration: the bytes that the wallet
    /// of `signer` signs next. Nothing is submitted, and asking again gives
    /// the same bytes.
    pub fn prepare_auth_data(&self, signer: String, public_key: String) -> (result: Result<
        PreparedAuthData,
        AuthError,
    >)
        ensures
            match result {
                Ok(prepared) => prepared_auth_data(&self.service, signer@, public_key@) == Ok::<Seq<u8>, AuthError>(
                    prepared.data@,
                ),
                Err(error) => prepared_auth_data(&self.service, signer@, public_key@) == Err::<Seq<u8>, AuthError>(
                    error,
                ),
            },
    {
        let raw = match base64_decode(public_key.as_str()) {
            Some(raw) => raw,
            None => { return Err(AuthError::Base64Error); },
        };
        let key = match secp256k1_key(raw.as_slice()) {
            Some(key) => key,
            None => { return Err(AuthError::PublicKeyError); },
        };
        let transaction = match self.service.registration(signer.as_str(), key.as_slice()) {
            Some(transaction) => transaction,
            None => { return Err(AuthError::KeyStoreError); },
        };
        Ok(PreparedAuthData { data: transaction.signing_payload() })
    }
}

/// The data inside a signed canonical message: the base64 text at
/// `msgs[0].value.data` of the JSON document, decoded. The first message
/// must name its signer too, as a canonical message does.
pub open spec fn arbitrary_message_data(message: Seq<u8>) -> Option<Seq<u8>> {
    match (
        json_text_at_pointer(message, "/msgs/0/value/data"@),
        json_text_at_pointer(message, "/msgs/0/value/signer"@),
    ) {
        (Ok(Some(text)), Ok(Some(_))) => base64_decoding(text),
        _ => None,
    }
}

/// The data of every entry that holds a canonical message, in the order
/// of the entries. Entries that hold something else are passed over.
pub open spec fn identity_payloads(entries: Seq<SignedDataView>) -> Seq<Seq<u8>>
    decreases entries.len(),
{
    if entries.len() == 0 {
        Seq::empty()
    } else {
        let before = identity_payloads(entries.drop_last());
        match arbitrary_message_data(entries.last().data) {
            Some(data) => before.push(data),
            None => before,
        }
    }
}

/// What each of the byte strings holds.
pub open spec fn payloads_view(payloads: Seq<Vec<u8>>) -> Seq<Seq<u8>> {
    payloads.map_values(|payload: Vec<u8>| payload@)
}

/// Takes the data out of a signed canonical message.
pub fn from_arbitrary_message_bytes_to_data_structure(data_bytes: &[u8]) -> (data: Option<Vec<u8>>)
    ensures
        data.is_some() == arbitrary_message_data(data_bytes@).is_some(),
        data.is_some() ==> data.unwrap()@ == arbitrary_message_data(data_bytes@).unwrap(),
{
    let text = match json_text_at(data_bytes, "/msgs/0/value/data") {
        Ok(Some(text)) => text,
        _ => { return None; },
    };
    match json_text_at(data_bytes, "/msgs/0/value/signer") {
        Ok(Some(_)) => base64_decode(text.as_str()),
        _ => None,
    }
}

/// The transaction that registers a user with the key and signature
/// of `bundle`, where the service's key signs the challenge.
pub open spec fn registration_transaction(
    service: &ServiceIdentity,
    user_id: Seq<char>,
    bundle: SignatureBundleView,
) -> Option<TransactionView> {
    match registration_operation(service, user_id, bundle.verifying_key) {
        Some(operation) => Some(TransactionView { id: user_id, operation, nonce: 0, signature: bundle }),
        None => None,
    }
}

/// Whether `after` and `result` are what registering a user on the
/// ledger `before` gives. An account that is there is returned as it
/// is, and nothing is submitted. Else the user's signature over the
/// signed bytes must verify, the service's key must sign the
/// challenge, and the ledger must take the transaction; where one of
/// these fails, the ledger stays as it was.
pub open spec fn is_registration(
    service: &ServiceIdentity,
    user_id: Seq<char>,
    before: &Ledger,
    bundle: SignatureBundleView,
    user_data: Seq<u8>,
    after: &Ledger,
    result: Result<LedgerAccount, UserError>,
) -> bool {
    if before.has_account(user_id) {
        &&& result is Ok
        &&& result->Ok_0@ == before.account(user_id)
        &&& after@.accounts == before@.accounts
        &&& after@.services == before@.services
    } else if !ecdsa_sha256_accepts(bundle.verifying_key, user_data, bundle.signature) {
        &&& result is Err
        &&& result->Err_0 == UserError::SignatureError(VerificationError::SignatureInvalid)
        &&& after@.accounts == before@.accounts
        &&& after@.services == before@.services
    } else {
        match registration_transaction(service, user_id, bundle) {
            None => {
                &&& result is Err
                &&& result->Err_0 is KeyStoreError
                &&& after@.accounts == before@.accounts
                &&& after@.services == before@.services
            },
            Some(transaction) => {
                &&& after@.services == before@.services
                &&& match before.rejection(transaction) {
                    Some(error) => {
                        &&& result is Err
                        &&& result->Err_0 == UserError::TransactionError(error)
                        &&& after@.accounts == before@.accounts
                    },
                    None => {
                        &&& result is Ok
                        &&& result->Ok_0@ == before.applied(transaction)
                        &&& accounts_view(after@.accounts) == accounts_view(before@.accounts).push(
                            result->Ok_0@,
                        )
                    },
                }
            },
        }
    }
}

/// The transaction that adds data to the account of a user, signed by the
/// service, where the service's key signs. It bears the nonce that the
/// account expects.
pub open spec fn addition_transaction_for(
    service: &ServiceIdentity,
    user_id: Seq<char>,
    nonce: u64,
    bundle: SignatureBundleView,
    user_data: Seq<u8>,
) -> Option<TransactionView> {
    let operation = OperationView::AddData { data: user_data, data_signature: bundle };
    match service_signature(service, signing_payload_of(user_id, operation, nonce)) {
        Some(signature) => Some(TransactionView { id: user_id, operation, nonce, signature }),
        None => None,
    }
}

/// The transaction that adds data to the account of a user on the ledger
/// `before`.
pub open spec fn addition_transaction(
    service: &ServiceIdentity,
    before: &Ledger,
    user_id: Seq<char>,
    bundle: SignatureBundleView,
    user_data: Seq<u8>,
) -> Option<TransactionView> {
    addition_transaction_for(service, user_id, before.account(user_id).nonce, bundle, user_data)
}

/// Whether `after` and `result` are what adding `record`'s data on the
/// ledger `before` gives. The account of the record's user must be
/// there, the user's signature over the data must verify, the
/// service's key must sign, and the ledger must take the transaction;
/// where one of these fails, the ledger stays as it was. Where all
/// hold, the account has the data as its last entry.
pub open spec fn is_addition(
    service: &ServiceIdentity,
    reported: Seq<char>,
    before: &Ledger,
    user_id: Seq<char>,
    bundle: SignatureBundleView,
    user_data: Seq<u8>,
    after: &Ledger,
    result: Result<LedgerAccount, UserError>,
) -> bool {
    &&& after@.services == before@.services
    &&& if !before.has_account(user_id) {
        &&& result matches Err(UserError::AccountNotFound(id))
        &&& id@ == reported
        &&& after@.accounts == before@.accounts
    } else if !ecdsa_sha256_accepts(bundle.verifying_key, user_data, bundle.signature) {
        &&& result is Err
        &&& result->Err_0 == UserError::SignatureError(VerificationError::SignatureInvalid)
        &&& after@.accounts == before@.accounts
    } else {
        match addition_transaction(service, before, user_id, bundle, user_data) {
            None => {
                &&& result is Err
                &&& result->Err_0 is KeyStoreError
                &&& after@.accounts == before@.accounts
            },
            Some(transaction) => match before.rejection(transaction) {
                Some(error) => {
                    &&& result is Err
                    &&& result->Err_0 == UserError::TransactionError(error)
                    &&& after@.accounts == before@.accounts
                },
                None => {
                    &&& result is Ok
                    &&& result->Ok_0@ == before.applied(transaction)
                    &&& accounts_view(after@.accounts) == before.accounts_after(transaction)
                },
            },
        }
    }
}

/// What registering a user comes to, once the ledger has said whether the
/// account is there.
pub enum RegistrationStep {
    /// The account is there: it is returned as it is, and nothing is
    /// submitted.
    Registered(LedgerAccount),
    /// The registration is turned down, and nothing is submitted.
    Rejected(UserError),
    /// The transaction that the ledger is handed next.
    Submit(Transaction),
}

/// What adding data comes to, once the ledger has said whether the account
/// is there.
pub enum AdditionStep {
    /// The addition is turned down, and nothing is submitted.
    Rejected(UserError),
    /// The transaction that the ledger is handed next.
    Submit(Transaction),
}

/// Whether `step` is what registering a user comes to, where the ledger
/// answered `existing` to the question for the account. An account that is
/// there is returned. Else the user's signature over the signed bytes must
/// verify and the service's key must sign the challenge: then the
/// transaction that creates the account is submitted.
pub open spec fn is_registration_step(
    service: &ServiceIdentity,
    user_id: Seq<char>,
    existing: Option<LedgerAccount>,
    bundle: SignatureBundleView,
    user_data: Seq<u8>,
    step: RegistrationStep,
) -> bool {
    match existing {
        Some(account) => step matches RegistrationStep::Registered(found) && found == account,
        None => if !ecdsa_sha256_accepts(bundle.verifying_key, user_data, bundle.signature) {
            step matches RegistrationStep::Rejected(error) && error == UserError::SignatureError(
                VerificationError::SignatureInvalid,
            )
        } else {
            match registration_transaction(service, user_id, bundle) {
                None => step matches RegistrationStep::Rejected(error) && error is KeyStoreError,
                Some(transaction) => step matches RegistrationStep::Submit(submitted) && submitted@ == transaction,
            }
        },
    }
}

/// Whether `step` is what adding data to the account of `user_id` comes
/// to, where the ledger answered `existing` to the question for the
/// account. The account must be there, the user's signature over the data
/// must verify and the service's key must sign: then the transaction that
/// adds the data is submitted, with the nonce that the account expects.
pub open spec fn is_addition_step(
    service: &ServiceIdentity,
    reported: Seq<char>,
    existing: Option<LedgerAccount>,
    user_id: Seq<char>,
    bundle: SignatureBundleView,
    user_data: Seq<u8>,
    step: AdditionStep,
) -> bool {
    match existing {
        None => step matches AdditionStep::Rejected(UserError::AccountNotFound(id)) && id@ == reported,
        Some(account) => if !ecdsa_sha256_accepts(bundle.verifying_key, user_data, bundle.signature) {
            step matches AdditionStep::Rejected(error) && error == UserError::SignatureError(
                VerificationError::SignatureInvalid,
            )
        } else {
            match addition_transaction_for(service, user_id, account.nonce, bundle, user_data) {
                None => step matches AdditionStep::Rejected(error) && error is KeyStoreError,
                Some(transaction) => step matches AdditionStep::Submit(submitted) && submitted@ == transaction,
            }
        },
    }
}

/// What the user is told of the ledger's answer to a transaction: the
/// account as the ledger returned it, or the ledger's refusal.
pub fn submission_outcome(answer: Result<LedgerAccount, TransactionError>) -> (result: Result<
    LedgerAccount,
    UserError,
>)
    ensures
        match answer {
            Ok(account) => result matches Ok(returned) && returned == account,
            Err(error) => result matches Err(UserError::TransactionError(reported)) && reported == error,
        },
{
    match answer {
        Ok(account) => Ok(account),
        Err(error) => Err(UserError::TransactionError(error)),
    }
}

/// The works on the account of one user.
pub struct UserService {
    pub service: ServiceIdentity,
    pub user_id: String,
}

impl UserService {
    pub fn new(service: ServiceIdentity, user_id: String) -> (users: Self)
        ensures
            users.service == service,
            users.user_id == user_id,
    {
        UserService { service, user_id }
    }

    /// Decides what registering this user comes to, from the ledger's
    /// answer to the question for the account: the account that is there,
    /// a refusal, or the transaction to submit, which bears the user's
    /// signature.
    pub fn registration_step(&self, existing: Option<LedgerAccount>, user_record: UserRecord) -> (step:
        RegistrationStep)
        ensures
            is_registration_step(
                &self.service,
                self.user_id@,
                existing,
                user_record.signature_bundle@,
                user_record.user_data@,
                step,
            ),
    {
        match existing {
            Some(account) => { return RegistrationStep::Registered(account); },
            None => {},
        }
        let bundle = user_record.signature_bundle;
        if !ecdsa_sha256_verify(
            bundle.verifying_key.as_slice(),
            user_record.user_data.as_slice(),
            bundle.signature.as_slice(),
        ) {
            return RegistrationStep::Rejected(UserError::SignatureError(VerificationError::SignatureInvalid));
        }
        let unsigned = match self.service.registration(self.user_id.as_str(), bundle.verifying_key.as_slice()) {
            Some(unsigned) => unsigned,
            None => { return RegistrationStep::Rejected(UserError::KeyStoreError); },
        };
        RegistrationStep::Submit(unsigned.externally_signed(bundle))
    }

    /// Decides what adding the record's data to the account of its user
    /// comes to, from the ledger's answer to the question for the account:
    /// a refusal, or the transaction to submit, which the service signed
    /// and which bears the user's signature over the data.
    pub fn addition_step(&self, existing: Option<LedgerAccount>, user_record: UserRecord) -> (step: AdditionStep)
        ensures
            is_addition_step(
                &self.service,
                self.user_id@,
                existing,
                user_record.user_id@,
                user_record.signature_bundle@,
                user_record.user_data@,
                step,
            ),
    {
        let account = match existing {
            Some(account) => account,
            None => { return AdditionStep::Rejected(UserError::AccountNotFound(self.user_id.clone())); },
        };
        let UserRecord { signature_bundle, user_data, user_id } = user_record;
        if !ecdsa_sha256_verify(
            signature_bundle.verifying_key.as_slice(),
            user_data.as_slice(),
            signature_bundle.signature.as_slice(),
        ) {
            return AdditionStep::Rejected(UserError::SignatureError(VerificationError::SignatureInvalid));
        }
        let operation = Operation::AddData { data: user_data, data_signature: signature_bundle };
        let unsigned = UnsignedTransaction::new(user_id, operation, account.nonce);
        let payload = unsigned.signing_payload();
        let signature = match self.service.sign(payload.as_slice()) {
            Some(signature) => signature,
            None => { return AdditionStep::Rejected(UserError::KeyStoreError); },
        };
        AdditionStep::Submit(unsigned.externally_signed(signature))
    }

    /// Registers this user: attaches the user's signature to the
    /// transaction that creates the account and submits it. Where the
    /// account is there already it is returned, and nothing is submitted.
    pub fn create_user_account(&self, ledger: &mut Ledger, user_record: UserRecord) -> (result: Result<
        LedgerAccount,
        UserError,
    >)
        ensures
            is_registration(
                &self.service,
                self.user_id@,
                old(ledger),
                user_record.signature_bundle@,
                user_record.user_data@,
                final(ledger),
                result,
            ),
    {
        let existing = ledger.get_account(self.user_id.as_str());
        match self.registration_step(existing, user_record) {
            RegistrationStep::Registered(account) => Ok(account),
            RegistrationStep::Rejected(error) => Err(error),
            RegistrationStep::Submit(transaction) => submission_outcome(ledger.submit(transaction)),
        }
    }

    /// Adds signed data to the account of the record's user: the service
    /// signs the transaction, the user's signature over the data goes with
    /// it.
    pub fn add_data_to_user_account(&self, ledger: &mut Ledger, user_record: UserRecord) -> (result: Result<
        LedgerAccount,
        UserError,
    >)
        ensures
            is_addition(
                &self.service,
                self.user_id@,
                old(ledger),
                user_record.user_id@,
                user_record.signature_bundle@,
                user_record.user_data@,
                final(ledger),
                result,
            ),
    {
        let existing = ledger.get_account(user_record.user_id.as_str());
        match self.addition_step(existing, user_record) {
            AdditionStep::Rejected(error) => Err(error),
            AdditionStep::Submit(transaction) => submission_outcome(ledger.submit(transaction)),
        }
    }

    /// Reads the data of the identity records that this user's account
    /// holds, in the order in which they were added. Entries that hold no
    /// canonical message are passed over.
    pub fn get_user(&self, ledger: &Ledger) -> (result: Result<Vec<Vec<u8>>, UserError>)
        ensures
            match result {
                Ok(payloads) => ledger.has_account(self.user_id@) && payloads_view(payloads@) == identity_payloads(
                    ledger.account(self.user_id@).signed_data,
                ),
                Err(error) => {
                    &&& !ledger.has_account(self.user_id@)
                    &&& error matches UserError::AccountNotFound(id)
                    &&& id@ == self.user_id@
                },
            },
    {
        let account = match ledger.get_account(self.user_id.as_str()) {
            Some(account) => account,
            None => { return Err(UserError::AccountNotFound(self.user_id.clone())); },
        };
        let mut payloads: Vec<Vec<u8>> = Vec::new();
        let mut index: usize = 0;
        let ghost entries = account@.signed_data;
        assert(entries.take(0) =~= Seq::<SignedDataView>::empty());
        while index < account.signed_data.len()
            invariant
                index <= account.signed_data@.len(),
                entries == account@.signed_data,
                payloads_view(payloads@) == identity_payloads(entries.take(index as int)),
            decreases account.signed_data@.len() - index,
        {
            let ghost before = payloads@;
            assert(entries.take(index + 1).drop_last() =~= entries.take(index as int));
            assert(entries.take(index + 1).last() == account.signed_data@[index as int]@);
            match from_arbitrary_message_bytes_to_data_structure(account.signed_data[index].data.as_slice()) {
                Some(data) => {
                    payloads.push(data);
                    assert(payloads_view(payloads@) =~= payloads_view(before).push(data@));
                },
                None => {},
            }
            index += 1;
        }
        assert(entries.take(index as int) =~= entries);
        Ok(payloads)
    }
}

/// An account that is among the accounts of a ledger is found under its
/// identifier where no account before it bears the same.
pub proof fn lemma_account_found_at(ledger: &Ledger, id: Seq<char>, place: int)
    requires
        0 <= place < ledger@.accounts.len(),
        ledger@.accounts[place].id@ == id,
        forall|i: int| 0 <= i < place ==> ledger@.accounts[i].id@ != id,
    ensures
        ledger.has_account(id),
        ledger.account_index(id) == place,
        ledger.account(id) == accounts_view(ledger@.accounts)[place],
{
    lemma_first_index_is(account_ids(ledger@.accounts), id, place);
}

/// Registering is idempotent: after a registration that succeeded, a
/// second registration of the same user returns the same account, whatever
/// record it comes with, and leaves the ledger as it is. The first
/// registration has added at most one account.
pub proof fn lemma_second_registration_returns_the_account(
    users: &UserService,
    start: &Ledger,
    first_bundle: SignatureBundleView,
    first_data: Seq<u8>,
    between: &Ledger,
    first: Result<LedgerAccount, UserError>,
    second_bundle: SignatureBundleView,
    second_data: Seq<u8>,
    end: &Ledger,
    second: Result<LedgerAccount, UserError>,
)
    requires
        start.wf(),
        is_registration(&users.service, users.user_id@, start, first_bundle, first_data, between, first),
        first is Ok,
        is_registration(&users.service, users.user_id@, between, second_bundle, second_data, end, second),
    ensures
        second is Ok,
        second->Ok_0@ == first->Ok_0@,
        end@.accounts == between@.accounts,
        end@.services == between@.services,
        start.has_account(users.user_id@) ==> between@.accounts == start@.accounts,
        !start.has_account(users.user_id@) ==> between@.accounts.len() == start@.accounts.len() + 1,
{
    let id = users.user_id@;
    if !start.has_account(id) {
        let transaction = registration_transaction(&users.service, id, first_bundle)->Some_0;
        let created = first->Ok_0@;
        assert(created.id == id);
        let views = accounts_view(between@.accounts);
        assert(views == accounts_view(start@.accounts).push(created));
        let place = start@.accounts.len() as int;
        assert(between@.accounts.len() == views.len());
        lemma_first_index_bounds(account_ids(start@.accounts), id);
        assert forall|i: int| 0 <= i < place implies between@.accounts[i].id@ != id by {
            assert(views[i] == accounts_view(start@.accounts)[i]);
            assert(account_ids(start@.accounts)[i] == start@.accounts[i].id@);
        }
        assert(views[place] == created);
        lemma_account_found_at(between, id, place);
    }
}

/// Data that was added is the last entry of the account: the sequence of
/// signed data has grown by exactly that entry, and nothing else of the
/// account has changed but the nonce it expects.
pub proof fn lemma_added_data_is_last_entry(
    users: &UserService,
    before: &Ledger,
    user_id: Seq<char>,
    bundle: SignatureBundleView,
    user_data: Seq<u8>,
    after: &Ledger,
    result: Result<LedgerAccount, UserError>,
)
    requires
        before.wf(),
        is_addition(&users.service, users.user_id@, before, user_id, bundle, user_data, after, result),
        result is Ok,
    ensures
        before.has_account(user_id),
        result->Ok_0@.signed_data == before.account(user_id).signed_data.push(
            SignedDataView { data: user_data, signature_bundle: bundle },
        ),
        result->Ok_0@.signed_data.len() == before.account(user_id).signed_data.len() + 1,
        result->Ok_0@.id == user_id,
        result->Ok_0@.verifying_key == before.account(user_id).verifying_key,
        after@.accounts.len() == before@.accounts.len(),
{
    let id = user_id;
    lemma_first_index_bounds(account_ids(before@.accounts), id);
    assert(account_ids(before@.accounts)[before.account_index(id)] == before@.accounts[before.account_index(id)].id@);
    let transaction = addition_transaction(&users.service, before, user_id, bundle, user_data)->Some_0;
    assert(accounts_view(after@.accounts).len() == accounts_view(before@.accounts).len());
}

} // verus!
