use k256::ecdsa::signature::Signer;
use k256::ecdsa::{Signature, SigningKey};
use wallet_auth::account::{
    from_arbitrary_message_bytes_to_data_structure, register_service, submission_outcome, AdditionStep, AuthService,
    RegistrationStep, ServiceIdentity, User, UserAminoSignedRecord, UserError, UserRecord, UserService,
};
use wallet_auth::api::{
    apply_proof, auth_wallet, prepare_auth_data, refresh_token, sign_in_wallet, ApplyProofError, AuthWalletError,
};
use wallet_auth::dto::{
    ApplyProofRequestDto, AuthWalletRequestDto, PrepareAuthRequestDto, RefreshTokenRequest, SignInWalletPayload,
    UserDataResponseDto,
};
use wallet_auth::identity::{ClaimData, ReclaimProof};
use wallet_auth::ledger::{bytes_equal, Ledger, TransactionError};
use wallet_auth::message::to_arbitrary_message_bytes;
use wallet_auth::repository::{RepoError, UserEntity, UserRepo};
use wallet_auth::session::AuthError;
use wallet_auth::signature::{SignatureBundle, VerificationError};
use wallet_auth::token::{JwtService, RefreshRegistry, TokenConfig, TokenError, TokenType};
use wallet_auth::transaction::{challenge_message_for, Operation, UnsignedTransaction};

const SERVICE_ID: &str = "weave_service";

#[allow(deprecated)]
fn b64(bytes: &[u8]) -> String {
    base64::encode(bytes)
}

fn service() -> ServiceIdentity {
    ServiceIdentity::new(SERVICE_ID.to_string(), vec![1u8; 32])
}

fn ledger_with_service() -> Ledger {
    let mut ledger = Ledger::new();
    let key = service().verifying_key().unwrap();
    assert_eq!(ledger.register_service(SERVICE_ID.to_string(), key), Ok(()));
    ledger
}

fn wallet_key(seed: u8) -> SigningKey {
    SigningKey::from_slice(&[seed; 32]).unwrap()
}

fn public_key(key: &SigningKey) -> String {
    b64(&key.verifying_key().to_sec1_bytes())
}

fn wallet_sign(key: &SigningKey, signer: &str, data: &[u8]) -> String {
    let message = to_arbitrary_message_bytes(signer, &b64(data));
    let signature: Signature = key.sign(message.as_bytes());
    b64(&signature.to_vec())
}

fn signed_record(key: &SigningKey, signer: &str, data: &[u8]) -> UserRecord {
    UserAminoSignedRecord::new(public_key(key), wallet_sign(key, signer, data), signer.to_string(), data.to_vec())
        .to_user_record()
        .unwrap()
}

fn challenge_for(signer: &str, key: &SigningKey) -> Vec<u8> {
    AuthService::new(service()).prepare_auth_data(signer.to_string(), public_key(key)).unwrap().data
}

fn register(ledger: &mut Ledger, signer: &str, key: &SigningKey) {
    let challenge = challenge_for(signer, key);
    let users = UserService::new(service(), signer.to_string());
    users.create_user_account(ledger, signed_record(key, signer, &challenge)).unwrap();
}

#[test]
fn the_challenge_is_the_same_every_time() {
    let key = wallet_key(7);
    let first = challenge_for("alice", &key);
    let second = challenge_for("alice", &key);
    assert!(!first.is_empty());
    assert_eq!(first, second);
    assert_ne!(first, challenge_for("bob", &key));
    assert_ne!(first, challenge_for("alice", &wallet_key(8)));
}

#[test]
fn the_challenge_is_the_payload_of_the_registration() {
    let key = wallet_key(7);
    let sec1 = key.verifying_key().to_sec1_bytes().to_vec();
    let unsigned = service().registration("alice", &sec1).unwrap();
    assert_eq!(unsigned.id, "alice");
    assert_eq!(unsigned.nonce, 0);
    match &unsigned.operation {
        Operation::CreateAccount { id, service_id, challenge, key } => {
            assert_eq!(id, "alice");
            assert_eq!(service_id, SERVICE_ID);
            assert_eq!(key, &sec1);
            assert_eq!(challenge.len(), 64);
        },
        other => panic!("not a creation: {:?}", other),
    }
    assert_eq!(unsigned.signing_payload(), challenge_for("alice", &key));
}

#[test]
fn a_challenge_needs_a_key_that_decodes() {
    let auth = AuthService::new(service());
    let error = auth.prepare_auth_data("alice".to_string(), "not base64!".to_string()).err().unwrap();
    assert_eq!(error, AuthError::Base64Error);
    let error = auth.prepare_auth_data("alice".to_string(), b64(&[1, 2, 3])).err().unwrap();
    assert_eq!(error, AuthError::PublicKeyError);
    let broken = AuthService::new(ServiceIdentity::new(SERVICE_ID.to_string(), vec![0u8; 32]));
    let error = broken.prepare_auth_data("alice".to_string(), public_key(&wallet_key(7))).err().unwrap();
    assert_eq!(error, AuthError::KeyStoreError);
}

#[test]
fn fields_are_encoded_with_their_length() {
    let message = challenge_message_for("ab", "c", &[9, 8]);
    assert_eq!(
        message,
        vec![2, 0, 0, 0, 0, 0, 0, 0, b'a', b'b', 1, 0, 0, 0, 0, 0, 0, 0, b'c', 2, 0, 0, 0, 0, 0, 0, 0, 9, 8]
    );
    let bundle = SignatureBundle::new(vec![5], vec![6, 7]);
    let unsigned = UnsignedTransaction::new(
        "a".to_string(),
        Operation::AddData { data: vec![1, 2, 3], data_signature: bundle },
        258,
    );
    assert_eq!(
        unsigned.signing_payload(),
        vec![
            1, 0, 0, 0, 0, 0, 0, 0, b'a', 2, 1, 0, 0, 0, 0, 0, 0, 1, 3, 0, 0, 0, 0, 0, 0, 0, 1, 2, 3, 1, 0, 0, 0, 0,
            0, 0, 0, 5, 2, 0, 0, 0, 0, 0, 0, 0, 6, 7
        ]
    );
}

#[test]
fn registration_and_added_data_end_to_end() {
    let mut ledger = ledger_with_service();
    let key = wallet_key(7);
    let challenge = challenge_for("alice", &key);
    let users = UserService::new(service(), "alice".to_string());
    let account = users.create_user_account(&mut ledger, signed_record(&key, "alice", &challenge)).unwrap();
    assert_eq!(account.id, "alice");
    assert_eq!(account.service_id, SERVICE_ID);
    assert_eq!(account.verifying_key, key.verifying_key().to_sec1_bytes().to_vec());
    assert_eq!(account.signed_data.len(), 0);
    assert_eq!(account.nonce, 1);

    let payload = b"{\"proof_identifier\":\"0xabc\",\"public_data\":null,\"username\":\"al\",\"created_at\":5,\"provider\":\"github\"}";
    let record = signed_record(&key, "alice", payload);
    let signed_bytes = record.user_data.clone();
    let updated = users.add_data_to_user_account(&mut ledger, record).unwrap();
    assert_eq!(updated.id, "alice");
    assert_eq!(updated.signed_data.len(), account.signed_data.len() + 1);
    assert_eq!(updated.signed_data[0].data, signed_bytes);
    assert_eq!(updated.nonce, 2);
    assert_eq!(ledger.get_account("alice").unwrap().signed_data.len(), 1);
    assert_eq!(ledger.accounts().len(), 1);

    let payloads = users.get_user(&ledger).unwrap();
    assert_eq!(payloads, vec![payload.to_vec()]);
}

#[test]
fn registering_twice_returns_the_same_account() {
    let mut ledger = ledger_with_service();
    let key = wallet_key(7);
    let challenge = challenge_for("alice", &key);
    let users = UserService::new(service(), "alice".to_string());
    let first = users.create_user_account(&mut ledger, signed_record(&key, "alice", &challenge)).unwrap();
    let second = users.create_user_account(&mut ledger, signed_record(&key, "alice", &challenge)).unwrap();
    assert_eq!(first.id, second.id);
    assert_eq!(first.verifying_key, second.verifying_key);
    assert_eq!(first.nonce, second.nonce);
    assert_eq!(first.signed_data.len(), second.signed_data.len());
    assert_eq!(ledger.accounts().len(), 1);
    let stranger = signed_record(&wallet_key(9), "alice", b"anything");
    let third = users.create_user_account(&mut ledger, stranger).unwrap();
    assert_eq!(third.verifying_key, first.verifying_key);
    assert_eq!(ledger.accounts().len(), 1);
}

#[test]
fn a_registration_needs_the_signature_over_the_challenge() {
    let mut ledger = ledger_with_service();
    let key = wallet_key(7);
    let users = UserService::new(service(), "alice".to_string());
    let record = signed_record(&key, "alice", b"not the challenge");
    let error = users.create_user_account(&mut ledger, record).unwrap_err();
    assert!(matches!(error, UserError::TransactionError(TransactionError::SignatureMismatch)));
    let challenge = challenge_for("alice", &key);
    let mut record = signed_record(&key, "alice", &challenge);
    record.user_data[0] ^= 1;
    let error = users.create_user_account(&mut ledger, record).unwrap_err();
    assert!(matches!(error, UserError::SignatureError(VerificationError::SignatureInvalid)));
    assert!(ledger.accounts().is_empty());
}

#[test]
fn a_registration_needs_a_registered_service_and_its_key() {
    let key = wallet_key(7);
    let challenge = challenge_for("alice", &key);
    let users = UserService::new(service(), "alice".to_string());
    let mut empty = Ledger::new();
    let error = users.create_user_account(&mut empty, signed_record(&key, "alice", &challenge)).unwrap_err();
    assert!(matches!(error, UserError::TransactionError(TransactionError::UnknownService)));

    let mut ledger = Ledger::new();
    let other_key = ServiceIdentity::new(SERVICE_ID.to_string(), vec![2u8; 32]).verifying_key().unwrap();
    ledger.register_service(SERVICE_ID.to_string(), other_key).unwrap();
    let error = users.create_user_account(&mut ledger, signed_record(&key, "alice", &challenge)).unwrap_err();
    assert!(matches!(error, UserError::TransactionError(TransactionError::ChallengeMismatch)));

    let keyless = UserService::new(ServiceIdentity::new(SERVICE_ID.to_string(), Vec::new()), "alice".to_string());
    let mut ledger = ledger_with_service();
    let error = keyless.create_user_account(&mut ledger, signed_record(&key, "alice", &challenge)).unwrap_err();
    assert!(matches!(error, UserError::KeyStoreError));
}

#[test]
fn data_is_added_only_to_an_account_that_is_there() {
    let mut ledger = ledger_with_service();
    let key = wallet_key(7);
    let users = UserService::new(service(), "alice".to_string());
    let error = users.add_data_to_user_account(&mut ledger, signed_record(&key, "alice", b"data")).unwrap_err();
    assert!(matches!(error, UserError::AccountNotFound(id) if id == "alice"));
    let error = users.get_user(&ledger).unwrap_err();
    assert!(matches!(error, UserError::AccountNotFound(id) if id == "alice"));
}

#[test]
fn data_is_added_only_with_the_signature_of_the_account() {
    let mut ledger = ledger_with_service();
    let key = wallet_key(7);
    register(&mut ledger, "alice", &key);
    let users = UserService::new(service(), "alice".to_string());
    let mut record = signed_record(&key, "alice", b"data");
    record.user_data.push(b' ');
    let error = users.add_data_to_user_account(&mut ledger, record).unwrap_err();
    assert!(matches!(error, UserError::SignatureError(VerificationError::SignatureInvalid)));
    let stranger = signed_record(&wallet_key(9), "alice", b"data");
    let error = users.add_data_to_user_account(&mut ledger, stranger).unwrap_err();
    assert!(matches!(error, UserError::TransactionError(TransactionError::DataSignatureMismatch)));
    let impostor = UserService::new(ServiceIdentity::new(SERVICE_ID.to_string(), vec![2u8; 32]), "alice".to_string());
    let error = impostor.add_data_to_user_account(&mut ledger, signed_record(&key, "alice", b"data")).unwrap_err();
    assert!(matches!(error, UserError::TransactionError(TransactionError::SignatureMismatch)));
    assert_eq!(ledger.get_account("alice").unwrap().signed_data.len(), 0);
}

#[test]
fn entries_are_kept_in_the_order_of_adding() {
    let mut ledger = ledger_with_service();
    let key = wallet_key(7);
    register(&mut ledger, "alice", &key);
    register(&mut ledger, "bob", &wallet_key(8));
    let users = UserService::new(service(), "alice".to_string());
    users.add_data_to_user_account(&mut ledger, signed_record(&key, "alice", b"one")).unwrap();
    users.add_data_to_user_account(&mut ledger, signed_record(&key, "alice", b"two")).unwrap();
    assert_eq!(users.get_user(&ledger).unwrap(), vec![b"one".to_vec(), b"two".to_vec()]);
    let bob = UserService::new(service(), "bob".to_string());
    assert_eq!(bob.get_user(&ledger).unwrap(), Vec::<Vec<u8>>::new());
    assert_eq!(ledger.find_account("alice"), 0);
    assert_eq!(ledger.find_account("bob"), 1);
    assert_eq!(ledger.find_account("carol"), 2);
    assert_eq!(ledger.get_account("alice").unwrap().nonce, 3);
}

#[test]
fn the_ledger_takes_no_transaction_twice() {
    let mut ledger = ledger_with_service();
    let key = wallet_key(7);
    let sec1 = key.verifying_key().to_sec1_bytes().to_vec();
    let challenge = challenge_for("alice", &key);
    let bundle = signed_record(&key, "alice", &challenge).signature_bundle;
    let transaction = service().registration("alice", &sec1).unwrap().externally_signed(bundle.clone());
    assert!(ledger.submit(transaction).is_ok());
    let transaction = service().registration("alice", &sec1).unwrap().externally_signed(bundle.clone());
    assert_eq!(ledger.submit(transaction).unwrap_err(), TransactionError::AccountExists);
    let mut unsigned = service().registration("carol", &sec1).unwrap();
    unsigned.nonce = 1;
    assert_eq!(ledger.submit(unsigned.externally_signed(bundle.clone())).unwrap_err(), TransactionError::NonceMismatch);
    let mut unsigned = service().registration("carol", &sec1).unwrap();
    unsigned.id = "dave".to_string();
    assert_eq!(ledger.submit(unsigned.externally_signed(bundle.clone())).unwrap_err(), TransactionError::AccountMismatch);
    let data = UnsignedTransaction::new(
        "nobody".to_string(),
        Operation::AddData { data: vec![1], data_signature: bundle.clone() },
        0,
    );
    assert_eq!(ledger.submit(data.externally_signed(bundle.clone())).unwrap_err(), TransactionError::UnknownAccount);
    let stale = UnsignedTransaction::new(
        "alice".to_string(),
        Operation::AddData { data: vec![1], data_signature: bundle.clone() },
        0,
    );
    assert_eq!(ledger.submit(stale.externally_signed(bundle)).unwrap_err(), TransactionError::NonceMismatch);
    assert_eq!(ledger.register_service(SERVICE_ID.to_string(), vec![1]), Err(TransactionError::ServiceExists));
    assert_eq!(ledger.find_service(SERVICE_ID), 0);
    assert_eq!(ledger.accounts().len(), 1);
}

#[test]
fn a_wallet_record_decodes_to_a_user_record() {
    let key = wallet_key(7);
    let wallet = UserAminoSignedRecord::new(
        public_key(&key),
        wallet_sign(&key, "alice", b"data"),
        "alice".to_string(),
        b"data".to_vec(),
    );
    let bundle = wallet.to_signature_bundle().unwrap();
    assert_eq!(bundle.verifying_key, key.verifying_key().to_sec1_bytes().to_vec());
    let record = wallet.to_user_record().unwrap();
    assert_eq!(record.user_id, "alice");
    assert_eq!(record.user_data, to_arbitrary_message_bytes("alice", "ZGF0YQ==").into_bytes());
    assert_eq!(record.signature_bundle.signature, bundle.signature);
    let broken = UserAminoSignedRecord::new("?".to_string(), "?".to_string(), "alice".to_string(), Vec::new());
    assert_eq!(broken.to_user_record().unwrap_err(), VerificationError::MalformedSignature);
    let broken = UserAminoSignedRecord::new(
        "?".to_string(),
        wallet_sign(&key, "alice", b"data"),
        "alice".to_string(),
        Vec::new(),
    );
    assert_eq!(broken.to_signature_bundle().unwrap_err(), VerificationError::MalformedKey);
}

#[test]
fn the_data_is_read_back_out_of_a_canonical_message() {
    let message = to_arbitrary_message_bytes("alice", &b64(b"{\"a\":1}"));
    assert_eq!(from_arbitrary_message_bytes_to_data_structure(message.as_bytes()), Some(b"{\"a\":1}".to_vec()));
    assert_eq!(from_arbitrary_message_bytes_to_data_structure(b"{\"msgs\":[]}"), None);
    let unsigned = format!("{{\"msgs\":[{{\"value\":{{\"data\":\"{}\"}}}}]}}", b64(b"{}"));
    assert_eq!(from_arbitrary_message_bytes_to_data_structure(unsigned.as_bytes()), None);
    let numbered = format!("{{\"msgs\":[{{\"value\":{{\"data\":\"{}\",\"signer\":7}}}}]}}", b64(b"{}"));
    assert_eq!(from_arbitrary_message_bytes_to_data_structure(numbered.as_bytes()), None);
    let bare = format!("{{\"msgs\":[{{\"value\":{{\"data\":\"{}\",\"signer\":\"a\"}}}}]}}", b64(b"{}"));
    assert_eq!(from_arbitrary_message_bytes_to_data_structure(bare.as_bytes()), Some(b"{}".to_vec()));
    assert_eq!(from_arbitrary_message_bytes_to_data_structure(b"no json"), None);
    let not_base64 = to_arbitrary_message_bytes("alice", "***");
    assert_eq!(from_arbitrary_message_bytes_to_data_structure(not_base64.as_bytes()), None);
}

#[test]
fn the_service_signs_with_its_key() {
    let service = service();
    let bundle = service.sign(b"payload").unwrap();
    assert_eq!(bundle.verifying_key, service.verifying_key().unwrap());
    assert_eq!(bundle.signature.len(), 64);
    assert_ne!(bundle.signature, service.sign(b"payload2").unwrap().signature);
    assert_eq!(bundle.signature, service.sign(b"payload").unwrap().signature);
    assert!(ServiceIdentity::new("s".to_string(), vec![1, 2]).sign(b"payload").is_none());
    assert!(ServiceIdentity::new("s".to_string(), vec![1, 2]).verifying_key().is_none());
    assert!(bytes_equal(&[1, 2], &[1, 2]));
    assert!(!bytes_equal(&[1, 2], &[1, 3]));
    assert!(!bytes_equal(&[1, 2], &[1]));
}

fn tokens() -> JwtService {
    JwtService::new(TokenConfig::new("flow secret".to_string()))
}

fn sign_in_body(key: &SigningKey, signer: &str) -> AuthWalletRequestDto {
    let auth = AuthService::new(service());
    let prepared = prepare_auth_data(
        &auth,
        PrepareAuthRequestDto { public_key: public_key(key), signer: signer.to_string() },
    )
    .ok()
    .unwrap();
    assert_eq!(prepared.signer, signer);
    AuthWalletRequestDto {
        public_key: public_key(key),
        signature: wallet_sign(key, signer, &prepared.data),
        signer: signer.to_string(),
        data: prepared.data,
    }
}

#[test]
fn a_wallet_signs_in_and_gets_tokens() {
    let mut ledger = ledger_with_service();
    let mut repo = UserRepo::new();
    let tokens = tokens();
    let key = wallet_key(7);
    let response =
        auth_wallet(&service(), &tokens, &mut ledger, &mut repo, sign_in_body(&key, "alice"), 1_000).ok().unwrap();
    assert!(response.success);
    assert_eq!(response.message, Some("Successfully logged in".to_string()));
    let claims = tokens.verify_token_at(&response.access_token, TokenType::Access, 1_000).unwrap();
    assert_eq!(claims.sub, "alice");
    let claims = tokens.verify_token_at(&response.refresh_token, TokenType::Refresh, 1_000).unwrap();
    assert_eq!(claims.sub, "alice");
    assert_eq!(ledger.accounts().len(), 1);
    assert_eq!(repo.get_user("alice").unwrap().public_key, public_key(&key));
    assert_eq!(repo.get_user("alice").unwrap().created_at, 1_000);

    let again =
        auth_wallet(&service(), &tokens, &mut ledger, &mut repo, sign_in_body(&key, "alice"), 2_000).ok().unwrap();
    assert!(again.success);
    assert_eq!(ledger.accounts().len(), 1);
    assert_eq!(repo.users().len(), 1);
    assert_eq!(repo.get_user("alice").unwrap().created_at, 1_000);
}

#[test]
fn a_sign_in_reports_what_failed() {
    let mut ledger = ledger_with_service();
    let mut repo = UserRepo::new();
    let tokens = tokens();
    let key = wallet_key(7);
    let mut body = sign_in_body(&key, "alice");
    body.signature = "not base64!".to_string();
    let error = auth_wallet(&service(), &tokens, &mut ledger, &mut repo, body, 1_000).err().unwrap();
    assert!(matches!(error, AuthWalletError::Signature(VerificationError::MalformedSignature)));
    assert_eq!(error.status_code(), 400);
    let mut body = sign_in_body(&key, "alice");
    body.data.push(0);
    let error = auth_wallet(&service(), &tokens, &mut ledger, &mut repo, body, 1_000).err().unwrap();
    assert!(matches!(error, AuthWalletError::Signature(VerificationError::SignatureInvalid)));
    assert_eq!(error.status_code(), 401);
    assert_eq!(error.message(), "Invalid signature: the signature does not verify");
    let mut body = sign_in_body(&key, "alice");
    body.data = b"other bytes".to_vec();
    body.signature = wallet_sign(&key, "alice", b"other bytes");
    let error = auth_wallet(&service(), &tokens, &mut ledger, &mut repo, body, 1_000).err().unwrap();
    assert!(matches!(error, AuthWalletError::User(UserError::TransactionError(TransactionError::SignatureMismatch))));
    assert_eq!(error.status_code(), 500);
    assert!(ledger.accounts().is_empty());
    assert!(repo.users().is_empty());
    let error =
        auth_wallet(&service(), &tokens, &mut ledger, &mut repo, sign_in_body(&key, "alice"), i64::MAX).err().unwrap();
    assert!(matches!(error, AuthWalletError::Token(TokenError::GenerationFailed)));
    assert_eq!(ledger.accounts().len(), 1);
}

fn proof_body(key: &SigningKey, signer: &str, data: &[u8]) -> ApplyProofRequestDto {
    ApplyProofRequestDto {
        public_key: public_key(key),
        signature: wallet_sign(key, signer, data),
        signer: signer.to_string(),
        data: data.to_vec(),
        proof: ReclaimProof {
            identifier: "0xproof".to_string(),
            claim_data: ClaimData { parameters: String::new(), context: "{}".to_string() },
            public_data: None,
        },
        provider_id: "github".to_string(),
    }
}

#[test]
fn a_proof_is_applied_once() {
    let mut ledger = ledger_with_service();
    let mut repo = UserRepo::new();
    let tokens = tokens();
    let alice = wallet_key(7);
    let bob = wallet_key(8);
    auth_wallet(&service(), &tokens, &mut ledger, &mut repo, sign_in_body(&alice, "alice"), 1).ok().unwrap();
    auth_wallet(&service(), &tokens, &mut ledger, &mut repo, sign_in_body(&bob, "bob"), 1).ok().unwrap();

    let raw = b"raw proof bytes".to_vec();
    let first = apply_proof(&service(), &mut ledger, &mut repo, proof_body(&alice, "alice", b"record"), raw.clone(), 5);
    assert!(first.ok().unwrap().success);
    assert_eq!(ledger.get_account("alice").unwrap().signed_data.len(), 1);
    assert_eq!(repo.proofs().len(), 1);
    assert_eq!(repo.proofs()[0].user_id, "alice");
    assert_eq!(repo.proofs()[0].provider_id, "github");
    assert_eq!(repo.proofs()[0].created_at, 5);

    let second = apply_proof(&service(), &mut ledger, &mut repo, proof_body(&alice, "alice", b"record"), raw.clone(), 6);
    let error = second.err().unwrap();
    assert!(matches!(error, ApplyProofError::Conflict));
    assert_eq!(error.status_code(), 409);
    let third = apply_proof(&service(), &mut ledger, &mut repo, proof_body(&bob, "bob", b"record"), raw, 7);
    assert!(matches!(third.err().unwrap(), ApplyProofError::Conflict));
    assert_eq!(ledger.get_account("alice").unwrap().signed_data.len(), 1);
    assert_eq!(ledger.get_account("bob").unwrap().signed_data.len(), 0);
    assert_eq!(repo.proofs().len(), 1);

    let other = apply_proof(&service(), &mut ledger, &mut repo, proof_body(&bob, "bob", b"record"), b"other".to_vec(), 8);
    assert!(other.ok().unwrap().success);
    assert_eq!(repo.proofs().len(), 2);
}

#[test]
fn a_proof_that_is_not_applied_is_reported() {
    let mut ledger = ledger_with_service();
    let mut repo = UserRepo::new();
    let key = wallet_key(7);
    let mut body = proof_body(&key, "alice", b"r");
    body.public_key = "?".to_string();
    let error = apply_proof(&service(), &mut ledger, &mut repo, body, b"raw".to_vec(), 5).err().unwrap();
    assert!(matches!(error, ApplyProofError::Signature(VerificationError::MalformedKey)));
    let mut known = UserRepo::new();
    let user = UserEntity { id: "alice".to_string(), public_key: public_key(&key), created_at: 1 };
    assert!(known.insert_user(user).is_ok());
    let result = apply_proof(&service(), &mut ledger, &mut known, proof_body(&key, "alice", b"r"), b"raw".to_vec(), 5);
    let error = result.err().unwrap();
    assert!(matches!(&error, ApplyProofError::User(UserError::AccountNotFound(id)) if id == "alice"));
    assert_eq!(error.status_code(), 404);
    assert!(known.proofs().is_empty());
    register(&mut ledger, "alice", &key);
    let mut body = proof_body(&key, "alice", b"r");
    body.data = b"other".to_vec();
    let error = apply_proof(&service(), &mut ledger, &mut known, body, b"raw".to_vec(), 5).err().unwrap();
    assert!(matches!(error, ApplyProofError::User(UserError::SignatureError(VerificationError::SignatureInvalid))));
    assert!(known.proofs().is_empty());
    let error = apply_proof(&service(), &mut ledger, &mut repo, proof_body(&key, "alice", b"r"), b"raw".to_vec(), 5)
        .err()
        .unwrap();
    assert!(matches!(error, ApplyProofError::Store(RepoError::UnknownUser)));
    assert_eq!(error.status_code(), 404);
    assert!(repo.proofs().is_empty());
    assert!(ledger.get_account("alice").unwrap().signed_data.is_empty());
    assert_eq!(ledger.get_account("alice").unwrap().nonce, 1);
}

#[test]
fn a_signer_that_the_store_does_not_know_is_turned_down_before_the_account() {
    let mut ledger = ledger_with_service();
    let mut repo = UserRepo::new();
    let key = wallet_key(7);
    let result = apply_proof(&service(), &mut ledger, &mut repo, proof_body(&key, "alice", b"r"), b"raw".to_vec(), 5);
    assert!(matches!(result.err().unwrap(), ApplyProofError::Store(RepoError::UnknownUser)));
    let tokens = tokens();
    auth_wallet(&service(), &tokens, &mut ledger, &mut repo, sign_in_body(&key, "alice"), 1).ok().unwrap();
    let result = apply_proof(&service(), &mut ledger, &mut repo, proof_body(&key, "alice", b"r"), b"raw".to_vec(), 5);
    assert!(result.ok().unwrap().success);
    assert_eq!(repo.proofs().len(), 1);
    assert_eq!(ledger.get_account("alice").unwrap().signed_data.len(), 1);
}

#[test]
fn a_registered_signer_signs_in_with_the_key_of_the_account_only() {
    let mut ledger = ledger_with_service();
    let mut repo = UserRepo::new();
    let tokens = tokens();
    let key = wallet_key(7);
    auth_wallet(&service(), &tokens, &mut ledger, &mut repo, sign_in_body(&key, "alice"), 1).ok().unwrap();

    let mut forged = sign_in_body(&key, "alice");
    forged.signature = wallet_sign(&key, "alice", b"other bytes");
    let error = auth_wallet(&service(), &tokens, &mut ledger, &mut repo, forged, 2).err().unwrap();
    assert!(matches!(error, AuthWalletError::Signature(VerificationError::SignatureInvalid)));
    assert_eq!(error.status_code(), 401);

    let stranger = wallet_key(9);
    let body = AuthWalletRequestDto {
        public_key: public_key(&stranger),
        signature: wallet_sign(&stranger, "alice", b"anything"),
        signer: "alice".to_string(),
        data: b"anything".to_vec(),
    };
    let error = auth_wallet(&service(), &tokens, &mut ledger, &mut repo, body, 3).err().unwrap();
    assert!(matches!(error, AuthWalletError::KeyMismatch));
    assert_eq!(error.status_code(), 401);
    assert_eq!(error.message(), "The public key is not the key of the account");
    assert_eq!(ledger.accounts().len(), 1);
    assert_eq!(repo.users().len(), 1);

    let body = AuthWalletRequestDto {
        public_key: public_key(&key),
        signature: wallet_sign(&key, "alice", b"anything"),
        signer: "alice".to_string(),
        data: b"anything".to_vec(),
    };
    assert!(auth_wallet(&service(), &tokens, &mut ledger, &mut repo, body, 4).is_ok());
}

#[test]
fn the_steps_give_the_transaction_to_submit() {
    let mut ledger = ledger_with_service();
    let key = wallet_key(7);
    let users = UserService::new(service(), "alice".to_string());
    let challenge = challenge_for("alice", &key);

    let step = users.registration_step(None, signed_record(&key, "alice", b"not the challenge"));
    let transaction = match step {
        RegistrationStep::Submit(transaction) => transaction,
        _ => panic!("nothing to submit"),
    };
    let answer = submission_outcome(ledger.submit(transaction));
    assert!(matches!(answer, Err(UserError::TransactionError(TransactionError::SignatureMismatch))));

    let mut broken = signed_record(&key, "alice", &challenge);
    broken.user_data.push(0);
    assert!(matches!(
        users.registration_step(None, broken),
        RegistrationStep::Rejected(UserError::SignatureError(VerificationError::SignatureInvalid))
    ));

    let transaction = match users.registration_step(None, signed_record(&key, "alice", &challenge)) {
        RegistrationStep::Submit(transaction) => transaction,
        _ => panic!("nothing to submit"),
    };
    let account = submission_outcome(ledger.submit(transaction)).unwrap();
    assert_eq!(account.id, "alice");
    assert_eq!(account.nonce, 1);

    let existing = ledger.get_account("alice");
    match users.registration_step(existing, signed_record(&key, "alice", &challenge)) {
        RegistrationStep::Registered(found) => assert_eq!(found.id, "alice"),
        _ => panic!("the account is there"),
    }

    assert!(matches!(
        users.addition_step(None, signed_record(&key, "alice", b"data")),
        AdditionStep::Rejected(UserError::AccountNotFound(id)) if id == "alice"
    ));
    let existing = ledger.get_account("alice");
    let transaction = match users.addition_step(existing, signed_record(&key, "alice", b"data")) {
        AdditionStep::Submit(transaction) => transaction,
        _ => panic!("nothing to submit"),
    };
    let account = submission_outcome(ledger.submit(transaction)).unwrap();
    assert_eq!(account.signed_data.len(), 1);
    assert_eq!(account.nonce, 2);
}

#[test]
fn users_and_responses_are_plain_values() {
    let user = User::new("alice".to_string(), Vec::new());
    assert_eq!(user.id, "alice");
    assert!(user.identity_records.is_empty());
    let response = UserDataResponseDto::new("alice".to_string(), Vec::new());
    assert_eq!(response.id, "alice");
    let record = UserRecord::new(SignatureBundle::new(vec![1], vec![2]), vec![3], "alice".to_string());
    assert_eq!(record.user_data, vec![3]);
    assert_eq!(record.signature_bundle.verifying_key, vec![1]);
}

#[test]
fn a_wallet_that_signed_a_text_signs_in() {
    let mut ledger = ledger_with_service();
    let mut repo = UserRepo::new();
    let tokens = tokens();
    let key = wallet_key(7);
    let sec1 = key.verifying_key().to_sec1_bytes().to_vec();
    let text = "a challenge that is no text of the service";
    let body = SignInWalletPayload {
        public_key: public_key(&key),
        signature: wallet_sign(&key, "alice", text.as_bytes()),
        signer: "alice".to_string(),
        message: text.to_string(),
    };
    let error = sign_in_wallet(&service(), &tokens, &mut ledger, &mut repo, body, 10).err().unwrap();
    assert!(matches!(error, AuthWalletError::User(UserError::TransactionError(TransactionError::SignatureMismatch))));

    register(&mut ledger, "alice", &key);
    let body = SignInWalletPayload {
        public_key: public_key(&key),
        signature: wallet_sign(&key, "alice", b"another text"),
        signer: "alice".to_string(),
        message: text.to_string(),
    };
    let error = sign_in_wallet(&service(), &tokens, &mut ledger, &mut repo, body, 10).err().unwrap();
    assert!(matches!(error, AuthWalletError::Signature(VerificationError::SignatureInvalid)));
    assert!(repo.users().is_empty());
    let body = SignInWalletPayload {
        public_key: public_key(&key),
        signature: wallet_sign(&key, "alice", text.as_bytes()),
        signer: "alice".to_string(),
        message: text.to_string(),
    };
    let result = sign_in_wallet(&service(), &tokens, &mut ledger, &mut repo, body, 10).ok().unwrap();
    let claims = tokens.verify_token_at(&result.access_token, TokenType::Access, 10).unwrap();
    assert_eq!(claims.sub, "alice");
    assert_eq!(ledger.get_account("alice").unwrap().verifying_key, sec1);
    assert_eq!(repo.users().len(), 1);

    let mut registry = RefreshRegistry::new();
    let spent = result.refresh_token.clone();
    let renewed =
        refresh_token(&tokens, &mut registry, RefreshTokenRequest { refresh_token: result.refresh_token }, 20)
            .ok()
            .unwrap();
    let claims = tokens.verify_token_at(&renewed.refresh_token, TokenType::Refresh, 20).unwrap();
    assert_eq!(claims.sub, "alice");
    assert_eq!(claims.iat, 10);
    let error = refresh_token(&tokens, &mut registry, RefreshTokenRequest { refresh_token: result.access_token }, 20)
        .err()
        .unwrap();
    assert_eq!(error, TokenError::WrongType);
    let error = refresh_token(&tokens, &mut registry, RefreshTokenRequest { refresh_token: spent }, 21).err().unwrap();
    assert_eq!(error, TokenError::Reused);
}

#[test]
fn the_ledger_shows_what_it_holds() {
    let mut ledger = ledger_with_service();
    assert_eq!(ledger.services().len(), 1);
    assert_eq!(ledger.services()[0].id, SERVICE_ID);
    assert_eq!(ledger.services()[0].verifying_key, service().verifying_key().unwrap());
    assert!(ledger.accounts().is_empty());
    register(&mut ledger, "alice", &wallet_key(7));
    assert_eq!(ledger.accounts()[0].id, "alice");
}

#[test]
fn a_service_is_made_known_once() {
    let mut ledger = Ledger::new();
    assert!(register_service(&mut ledger, &service()).is_ok());
    assert_eq!(ledger.services().len(), 1);
    assert_eq!(ledger.services()[0].verifying_key, service().verifying_key().unwrap());
    assert!(register_service(&mut ledger, &service()).is_ok());
    assert_eq!(ledger.services().len(), 1);
    let keyless = ServiceIdentity::new("other".to_string(), vec![0u8; 32]);
    assert!(matches!(register_service(&mut ledger, &keyless), Err(UserError::KeyStoreError)));
    assert_eq!(ledger.services().len(), 1);
}
