//! What the service does for each request, from the body of the request to
//! the body of the response, on the ledger and the store it is handed.

use vstd::prelude::*;
use vstd::string::*;
use vstd::utf8::encode_utf8;
use crate::account::{
    addition_transaction, is_addition, is_registration, prepared_auth_data, wallet_bundle, AuthService, ServiceIdentity,
    UserAminoSignedRecord, UserError, UserService,
};
use crate::dto::{
    AppliedProofStatsResponseDto, ApplyProofRequestDto, ApplyProofResponseDto, AuthResult, AuthWalletRequestDto,
    AuthWalletResponseDto, PrepareAuthDataResponseDto, PrepareAuthRequestDto, RefreshTokenRequest,
    SignInWalletPayload, SignInWalletResponse,
};
use crate::ledger::{bytes_equal, Ledger, LedgerAccount};
use crate::repository::{
    fingerprint, is_tally, proof_providers, proofs_view, users_view, ProofEntity, ProofEntityView, RepoError,
    UserEntity, UserEntityView, UserRepo,
};
use crate::session::AuthError;
use crate::signature::{ecdsa_sha256_accepts, ecdsa_sha256_verify, signed_message, VerificationError};
use crate::token::{
    claims_view, is_issuance, is_rotation, verifies_only_as, JwtService, RefreshRegistry, TokenConfig, TokenError,
    TokenPair, TokenType,
};

verus! {

/// Answers the request for a challenge: the bytes that the wallet signs
/// next, with the signer they are for.
pub fn prepare_auth_data(auth: &AuthService, body: PrepareAuthRequestDto) -> (result: Result<
    PrepareAuthDataResponseDto,
    AuthError,
>)
    ensures
        match result {
            Ok(response) => {
                &&& prepared_auth_data(&auth.service, body.signer@, body.public_key@) == Ok::<Seq<u8>, AuthError>(
                    response.data@,
                )
                &&& response.signer@ == body.signer@
            },
            Err(error) => prepared_auth_data(&auth.service, body.signer@, body.public_key@) == Err::<
                Seq<u8>,
                AuthError,
            >(error),
        },
{
    let signer = body.signer.clone();
    match auth.prepare_auth_data(body.signer, body.public_key) {
        Ok(prepared) => Ok(PrepareAuthDataResponseDto { data: prepared.data, signer }),
        Err(error) => Err(error),
    }
}

/// Why a wallet was not signed in.
#[derive(Debug)]
pub enum AuthWalletError {
    /// Key or signature of the request do not decode, or the signature is
    /// not the key's over the canonical message for the data.
    Signature(VerificationError),
    /// The signer's account is registered with another key.
    KeyMismatch,
    /// The account was not registered.
    User(UserError),
    /// The account is registered, but no tokens were issued.
    Token(TokenError),
}

/// Whether `response` is the one that hands out a pair of tokens.
pub open spec fn is_signed_in(response: AuthWalletResponseDto, pair: TokenPair) -> bool {
    &&& response.success
    &&& response.message matches Some(message) && message@ == "Successfully logged in"@
    &&& response.access_token@ == pair.access_token@
    &&& response.refresh_token@ == pair.refresh_token@
}

/// Whether `after` and `result` are what signing a wallet in on the ledger
/// `before` gives at time `now`. Key and signature must decode, and the
/// signature must be the key's over the canonical message for the data. A
/// signer that is registered must have signed with the key of the account;
/// a signer that is not is registered now. Then a pair of tokens is issued
/// to the signer. Whoever fails one of the tests changes nothing. A
/// registration stands though no tokens follow it.
pub open spec fn is_sign_in(
    service: &ServiceIdentity,
    config: &TokenConfig,
    signer: Seq<char>,
    public_key: Seq<char>,
    signature: Seq<char>,
    data: Seq<u8>,
    now: i64,
    before: &Ledger,
    store: &UserRepo,
    after: &Ledger,
    stored: &UserRepo,
    result: Result<AuthWalletResponseDto, AuthWalletError>,
) -> bool {
    &&& stored@.proofs == store@.proofs
    &&& after@.services == before@.services
    &&& match sign_in_refusal(signer, public_key, signature, data, before) {
        Some(error) => {
            &&& result is Err
            &&& result->Err_0 == error
            &&& after@.accounts == before@.accounts
            &&& stored@.users == store@.users
        },
        None => exists|registration: Result<LedgerAccount, UserError>, issued: Result<TokenPair, TokenError>|
            #[trigger] sign_in_follows(registration, issued, result) && is_kept(
                registration is Ok,
                signer,
                public_key,
                now,
                store,
                stored,
            ) && is_registration(
                service,
                signer,
                before,
                wallet_bundle(signature, public_key)->Ok_0,
                signed_message(signer, data),
                after,
                registration,
            ) && is_issuance(config, signer, now, now, issued),
    }
}

/// Why a wallet is not signed in before ledger or store are touched, or
/// `None` where it passes: key or signature that do not decode, a signature
/// that is not the key's over the canonical message for the data, or an
/// account of the signer that is registered with another key.
pub open spec fn sign_in_refusal(
    signer: Seq<char>,
    public_key: Seq<char>,
    signature: Seq<char>,
    data: Seq<u8>,
    before: &Ledger,
) -> Option<AuthWalletError> {
    match wallet_bundle(signature, public_key) {
        Err(error) => Some(AuthWalletError::Signature(error)),
        Ok(bundle) => if !ecdsa_sha256_accepts(bundle.verifying_key, signed_message(signer, data), bundle.signature) {
            Some(AuthWalletError::Signature(VerificationError::SignatureInvalid))
        } else if before.has_account(signer) && before.account(signer).verifying_key != bundle.verifying_key {
            Some(AuthWalletError::KeyMismatch)
        } else {
            None
        },
    }
}

/// Whether the store `stored` is what follows of a registration: a user
/// that is registered is kept in the store, with the key as it was sent and
/// the time of this first sign-in, unless the store has the user already.
pub open spec fn is_kept(
    registered: bool,
    signer: Seq<char>,
    public_key: Seq<char>,
    now: i64,
    store: &UserRepo,
    stored: &UserRepo,
) -> bool {
    if registered && !store.has_user(signer) {
        users_view(stored@.users) == users_view(store@.users).push(
            UserEntityView { id: signer, public_key, created_at: now },
        )
    } else {
        stored@.users == store@.users
    }
}

/// Whether `result` is what follows of a registration and of the issuing
/// of tokens: the error of the registration, else the error of the
/// issuing, else the response with the tokens.
pub open spec fn sign_in_follows(
    registration: Result<LedgerAccount, UserError>,
    issued: Result<TokenPair, TokenError>,
    result: Result<AuthWalletResponseDto, AuthWalletError>,
) -> bool {
    match (registration, issued) {
        (Err(error), _) => result matches Err(AuthWalletError::User(reported)) && reported == error,
        (Ok(_), Err(error)) => result matches Err(AuthWalletError::Token(reported)) && reported == error,
        (Ok(_), Ok(pair)) => result is Ok && is_signed_in(result->Ok_0, pair),
    }
}

/// Signs a wallet in: verifies the wallet's signature, registers the signer
/// on the ledger unless that is done already, keeps the user in the store,
/// and issues a pair of tokens.
pub fn auth_wallet(
    service: &ServiceIdentity,
    tokens: &JwtService,
    ledger: &mut Ledger,
    repo: &mut UserRepo,
    body: AuthWalletRequestDto,
    now: i64,
) -> (result: Result<AuthWalletResponseDto, AuthWalletError>)
    ensures
        is_sign_in(
            service,
            &tokens.config,
            body.signer@,
            body.public_key@,
            body.signature@,
            body.data@,
            now,
            old(ledger),
            old(repo),
            final(ledger),
            final(repo),
            result,
        ),
        result is Ok ==> final(repo).has_user(body.signer@),
        result matches Ok(response) ==> verifies_only_as(
            &tokens.config,
            response.access_token@,
            claims_view(body.signer@, (now + tokens.config.access_token_duration) as i64, now, TokenType::Access),
        ),
        result matches Ok(response) ==> verifies_only_as(
            &tokens.config,
            response.refresh_token@,
            claims_view(body.signer@, (now + tokens.config.refresh_token_duration) as i64, now, TokenType::Refresh),
        ),
{
    let AuthWalletRequestDto { public_key, signature, signer, data } = body;
    let stored_key = public_key.clone();
    let wallet = UserAminoSignedRecord::new(public_key, signature, signer, data);
    let record = match wallet.to_user_record() {
        Ok(record) => record,
        Err(error) => { return Err(AuthWalletError::Signature(error)); },
    };
    let ghost bundle = record.signature_bundle@;
    if !ecdsa_sha256_verify(
        record.signature_bundle.verifying_key.as_slice(),
        record.user_data.as_slice(),
        record.signature_bundle.signature.as_slice(),
    ) {
        return Err(AuthWalletError::Signature(VerificationError::SignatureInvalid));
    }
    match ledger.get_account(wallet.signer.as_str()) {
        Some(account) => {
            if !bytes_equal(account.verifying_key.as_slice(), record.signature_bundle.verifying_key.as_slice()) {
                return Err(AuthWalletError::KeyMismatch);
            }
        },
        None => {},
    }
    let users = UserService::new(service.clone(), wallet.signer.clone());
    let registration = users.create_user_account(ledger, record);
    let issued = tokens.create_token_pair_at(wallet.signer.as_str(), now);
    proof {
        assert(is_registration(
            service,
            wallet.signer@,
            old(ledger),
            bundle,
            signed_message(wallet.signer@, wallet.data@),
            ledger,
            registration,
        ));
        assert(is_issuance(&tokens.config, wallet.signer@, now, now, issued));
    }
    let result = match registration {
        Err(error) => Err(AuthWalletError::User(error)),
        Ok(_) => {
            let user = UserEntity { id: wallet.signer.clone(), public_key: stored_key, created_at: now };
            let ghost before = repo@.users;
            let _ = repo.insert_user(user);
            proof {
                if !old(repo).has_user(wallet.signer@) {
                    assert(users_view(repo@.users) =~= users_view(before).push(user@));
                }
            }
            match issued {
                Err(error) => Err(AuthWalletError::Token(error)),
                Ok(pair) => Ok(
                    AuthWalletResponseDto {
                        success: true,
                        message: Some(String::from_str("Successfully logged in")),
                        access_token: pair.access_token,
                        refresh_token: pair.refresh_token,
                    },
                ),
            }
        },
    };
    assert(sign_in_follows(registration, issued, result));
    assert(is_kept(registration is Ok, wallet.signer@, wallet.public_key@, now, old(repo), repo));
    result
}

/// Signs in a wallet that signed a message as text: the message is the
/// data that the canonical message was made of. What is done and what is
/// answered is what `auth_wallet` does and answers, with the tokens alone
/// in the answer.
pub fn sign_in_wallet(
    service: &ServiceIdentity,
    tokens: &JwtService,
    ledger: &mut Ledger,
    repo: &mut UserRepo,
    body: SignInWalletPayload,
    now: i64,
) -> (result: Result<AuthResult, AuthWalletError>)
    ensures
        exists|answer: Result<AuthWalletResponseDto, AuthWalletError>| #[trigger]
            is_sign_in(
                service,
                &tokens.config,
                body.signer@,
                body.public_key@,
                body.signature@,
                encode_utf8(body.message@),
                now,
                old(ledger),
                old(repo),
                final(ledger),
                final(repo),
                answer,
            ) && match answer {
                Ok(response) => result matches Ok(tokens) && tokens.access_token == response.access_token
                    && tokens.refresh_token == response.refresh_token,
                Err(error) => result is Err && result->Err_0 == error,
            },
{
    let SignInWalletPayload { public_key, signature, signer, message } = body;
    let data = message.as_str().as_bytes_vec();
    let answer = auth_wallet(
        service,
        tokens,
        ledger,
        repo,
        AuthWalletRequestDto { public_key, signature, signer, data },
        now,
    );
    match answer {
        Ok(response) => Ok(AuthResult { access_token: response.access_token, refresh_token: response.refresh_token }),
        Err(error) => Err(error),
    }
}

/// Renews the tokens of a request that carries its refresh token in its
/// body.
pub fn refresh_token(
    tokens: &JwtService,
    registry: &mut RefreshRegistry,
    payload: RefreshTokenRequest,
    now: i64,
) -> (result: Result<SignInWalletResponse, TokenError>)
    ensures
        exists|pair: Result<TokenPair, TokenError>| #[trigger]
            is_rotation(&tokens.config, old(registry)@, payload.refresh_token@, now, final(registry)@, pair)
                && match pair {
                Ok(pair) => result matches Ok(response) && response.access_token == pair.access_token
                    && response.refresh_token == pair.refresh_token,
                Err(error) => result is Err && result->Err_0 == error,
            },
{
    let pair = tokens.refresh_at(registry, payload.refresh_token.as_str(), now);
    assert(is_rotation(&tokens.config, old(registry)@, payload.refresh_token@, now, registry@, pair));
    match pair {
        Ok(pair) => Ok(SignInWalletResponse { access_token: pair.access_token, refresh_token: pair.refresh_token }),
        Err(error) => Err(error),
    }
}

/// Why a proof was not applied.
#[derive(Debug)]
pub enum ApplyProofError {
    /// A proof of the same raw bytes is applied already.
    Conflict,
    /// Key or signature of the request do not decode.
    Signature(VerificationError),
    /// The data was not added to the account.
    User(UserError),
    /// The store does not take the proof: it does not know the signer.
    /// Nothing was added to the account.
    Store(RepoError),
}

/// Whether the ledger `after`, the store `stored` and `result` are what
/// applying a proof gives. A proof whose raw bytes are stored already is a
/// conflict, whoever applies it, and changes nothing. Else key and
/// signature must decode and the store must know the signer, or nothing
/// changes either. Then the signed record is added to the signer's
/// account, and where the ledger took it the proof is stored under its
/// fingerprint.
pub open spec fn is_application(
    service: &ServiceIdentity,
    signer: Seq<char>,
    public_key: Seq<char>,
    signature: Seq<char>,
    data: Seq<u8>,
    provider_id: Seq<char>,
    raw_proof: Seq<u8>,
    now: i64,
    before: &Ledger,
    store: &UserRepo,
    after: &Ledger,
    stored: &UserRepo,
    result: Result<ApplyProofResponseDto, ApplyProofError>,
) -> bool {
    &&& stored@.users == store@.users
    &&& after@.services == before@.services
    &&& match application_refusal(signer, public_key, signature, raw_proof, store) {
        Some(error) => {
            &&& result is Err
            &&& result->Err_0 == error
            &&& after@.accounts == before@.accounts
            &&& stored@.proofs == store@.proofs
        },
        None => exists|addition: Result<LedgerAccount, UserError>|
            #[trigger] application_follows(addition, signer, provider_id, raw_proof, now, store, stored, result)
                && is_addition(
                service,
                signer,
                before,
                signer,
                wallet_bundle(signature, public_key)->Ok_0,
                signed_message(signer, data),
                after,
                addition,
            ),
    }
}

/// Why a proof is not applied before the ledger is touched, or `None`
/// where it passes: raw bytes that are stored already, key or signature
/// that do not decode, or a signer that the store does not know.
pub open spec fn application_refusal(
    signer: Seq<char>,
    public_key: Seq<char>,
    signature: Seq<char>,
    raw_proof: Seq<u8>,
    store: &UserRepo,
) -> Option<ApplyProofError> {
    if store.has_proof(fingerprint(raw_proof)) {
        Some(ApplyProofError::Conflict)
    } else {
        match wallet_bundle(signature, public_key) {
            Err(error) => Some(ApplyProofError::Signature(error)),
            Ok(_) => if !store.has_user(signer) {
                Some(ApplyProofError::Store(RepoError::UnknownUser))
            } else {
                None
            },
        }
    }
}

/// Whether the store `stored` and `result` are what follows of adding the
/// data to the account: the error of the addition, with the store as it
/// was; else the proof stored under its fingerprint, for the signer and
/// the provider.
pub open spec fn application_follows(
    addition: Result<LedgerAccount, UserError>,
    signer: Seq<char>,
    provider_id: Seq<char>,
    raw_proof: Seq<u8>,
    now: i64,
    store: &UserRepo,
    stored: &UserRepo,
    result: Result<ApplyProofResponseDto, ApplyProofError>,
) -> bool {
    match addition {
        Err(error) => {
            &&& result matches Err(ApplyProofError::User(reported))
            &&& reported == error
            &&& stored@.proofs == store@.proofs
        },
        Ok(_) => {
            &&& result matches Ok(response)
            &&& response.success
            &&& proofs_view(stored@.proofs) == proofs_view(store@.proofs).push(
                ProofEntityView {
                    provider_id,
                    user_id: signer,
                    raw_data: Some(raw_proof),
                    raw_data_hash: fingerprint(raw_proof),
                    created_at: now,
                },
            )
            &&& stored.has_proof(fingerprint(raw_proof))
        },
    }
}

/// Applies a signed proof: the signed record goes to the signer's account
/// on the ledger, the proof's raw bytes go to the store under their
/// fingerprint. A proof that is stored already is not applied again.
pub fn apply_proof(
    service: &ServiceIdentity,
    ledger: &mut Ledger,
    repo: &mut UserRepo,
    payload: ApplyProofRequestDto,
    raw_proof: Vec<u8>,
    now: i64,
) -> (result: Result<ApplyProofResponseDto, ApplyProofError>)
    ensures
        is_application(
            service,
            payload.signer@,
            payload.public_key@,
            payload.signature@,
            payload.data@,
            payload.provider_id@,
            raw_proof@,
            now,
            old(ledger),
            old(repo),
            final(ledger),
            final(repo),
            result,
        ),
{
    let ApplyProofRequestDto { public_key, signature, signer, data, proof, provider_id } = payload;
    let entity = ProofEntity::new(provider_id, signer.clone(), raw_proof, now);
    if repo.proof_exists_by_hash(entity.raw_data_hash.as_str()) {
        return Err(ApplyProofError::Conflict);
    }
    let wallet = UserAminoSignedRecord::new(public_key, signature, signer, data);
    let record = match wallet.to_user_record() {
        Ok(record) => record,
        Err(error) => { return Err(ApplyProofError::Signature(error)); },
    };
    let ghost bundle = record.signature_bundle@;
    if repo.find_user(wallet.signer.as_str()) >= repo.users().len() {
        return Err(ApplyProofError::Store(RepoError::UnknownUser));
    }
    let users = UserService::new(service.clone(), wallet.signer.clone());
    let addition = users.add_data_to_user_account(ledger, record);
    proof {
        assert(is_addition(
            service,
            wallet.signer@,
            old(ledger),
            wallet.signer@,
            bundle,
            signed_message(wallet.signer@, wallet.data@),
            ledger,
            addition,
        ));
    }
    let result = match addition {
        Err(error) => Err(ApplyProofError::User(error)),
        Ok(_) => {
            let ghost before = repo@.proofs;
            let stored = repo.insert_proof(entity);
            proof {
                if stored is Ok {
                    assert(proofs_view(repo@.proofs) =~= proofs_view(before).push(entity@));
                }
            }
            match stored {
                Ok(_) => Ok(ApplyProofResponseDto { success: true }),
                Err(error) => Err(ApplyProofError::Store(error)),
            }
        },
    };
    assert(application_follows(
        addition,
        wallet.signer@,
        entity.provider_id@,
        entity.raw_data->Some_0@,
        now,
        old(repo),
        repo,
        result,
    ));
    result
}

/// A proof that is new is applied: where the store holds no proof of these
/// raw bytes and knows the signer, key and signature decode, and the ledger
/// takes the transaction that adds the signed record to the signer's
/// account, applying the proof succeeds, and the store then holds the
/// proof under its fingerprint, for the signer and the provider, as its
/// last row.
pub proof fn lemma_new_proof_is_applied(
    service: &ServiceIdentity,
    signer: Seq<char>,
    public_key: Seq<char>,
    signature: Seq<char>,
    data: Seq<u8>,
    provider_id: Seq<char>,
    raw_proof: Seq<u8>,
    now: i64,
    ledgers: (&Ledger, &Ledger),
    stores: (&UserRepo, &UserRepo),
    result: Result<ApplyProofResponseDto, ApplyProofError>,
)
    requires
        is_application(
            service,
            signer,
            public_key,
            signature,
            data,
            provider_id,
            raw_proof,
            now,
            ledgers.0,
            stores.0,
            ledgers.1,
            stores.1,
            result,
        ),
        !stores.0.has_proof(fingerprint(raw_proof)),
        stores.0.has_user(signer),
        wallet_bundle(signature, public_key) is Ok,
        ledgers.0.has_account(signer),
        ecdsa_sha256_accepts(
            wallet_bundle(signature, public_key)->Ok_0.verifying_key,
            signed_message(signer, data),
            wallet_bundle(signature, public_key)->Ok_0.signature,
        ),
        addition_transaction(
            service,
            ledgers.0,
            signer,
            wallet_bundle(signature, public_key)->Ok_0,
            signed_message(signer, data),
        ) matches Some(transaction) && ledgers.0.rejection(transaction) is None,
    ensures
        result matches Ok(response) && response.success,
        stores.1.has_proof(fingerprint(raw_proof)),
        proofs_view(stores.1@.proofs) == proofs_view(stores.0@.proofs).push(
            ProofEntityView {
                provider_id,
                user_id: signer,
                raw_data: Some(raw_proof),
                raw_data_hash: fingerprint(raw_proof),
                created_at: now,
            },
        ),
{
}

/// A proof is applied at most once. Where applying a proof succeeded,
/// applying a proof of the same raw bytes afterwards is a conflict, for the
/// same signer and for any other, and changes neither ledger nor store.
pub proof fn lemma_second_application_conflicts(
    service: &ServiceIdentity,
    raw_proof: Seq<u8>,
    first_signer: Seq<char>,
    first_key: Seq<char>,
    first_signature: Seq<char>,
    first_data: Seq<u8>,
    first_provider: Seq<char>,
    first_time: i64,
    second_signer: Seq<char>,
    second_key: Seq<char>,
    second_signature: Seq<char>,
    second_data: Seq<u8>,
    second_provider: Seq<char>,
    second_time: i64,
    ledgers: (&Ledger, &Ledger, &Ledger),
    stores: (&UserRepo, &UserRepo, &UserRepo),
    first: Result<ApplyProofResponseDto, ApplyProofError>,
    second: Result<ApplyProofResponseDto, ApplyProofError>,
)
    requires
        is_application(
            service,
            first_signer,
            first_key,
            first_signature,
            first_data,
            first_provider,
            raw_proof,
            first_time,
            ledgers.0,
            stores.0,
            ledgers.1,
            stores.1,
            first,
        ),
        first is Ok,
        is_application(
            service,
            second_signer,
            second_key,
            second_signature,
            second_data,
            second_provider,
            raw_proof,
            second_time,
            ledgers.1,
            stores.1,
            ledgers.2,
            stores.2,
            second,
        ),
    ensures
        !stores.0.has_proof(fingerprint(raw_proof)),
        second is Err,
        second->Err_0 is Conflict,
        ledgers.2@.accounts == ledgers.1@.accounts,
        stores.2@.proofs == stores.1@.proofs,
{
}

/// A number of proofs as a response shows it: as it is, or as the largest
/// number that fits.
pub open spec fn shown_count(count: usize) -> i64 {
    if count > i64::MAX {
        i64::MAX
    } else {
        count as i64
    }
}

/// Whether `stats` shows a tally, entry by entry.
pub open spec fn shows_tally(stats: Seq<(String, i64)>, tally: Seq<(String, usize)>) -> bool {
    &&& stats.len() == tally.len()
    &&& forall|i: int|
        0 <= i < stats.len() ==> (#[trigger] stats[i]).0@ == tally[i].0@ && stats[i].1 == shown_count(tally[i].1)
}

/// The numbers of proofs by provider, as a response: one entry for each
/// provider that has proofs, with their number.
pub fn get_applied_proof_stats(repo: &UserRepo) -> (response: AppliedProofStatsResponseDto)
    ensures
        exists|tally: Seq<(String, usize)>| #[trigger]
            is_tally(tally, proof_providers(repo@.proofs)) && shows_tally(response.stats@, tally),
{
    let counted = repo.get_proof_stats_by_provider_id();
    let mut stats: Vec<(String, i64)> = Vec::new();
    let mut index: usize = 0;
    while index < counted.len()
        invariant
            index <= counted@.len(),
            stats@.len() == index,
            forall|i: int|
                0 <= i < index ==> (#[trigger] stats@[i]).0@ == counted@[i].0@ && stats@[i].1 == shown_count(
                    counted@[i].1,
                ),
        decreases counted@.len() - index,
    {
        let count = counted[index].1 as u64;
        let shown: i64 = if count > 9223372036854775807u64 {
            9223372036854775807i64
        } else {
            count as i64
        };
        stats.push((counted[index].0.clone(), shown));
        index += 1;
    }
    assert(is_tally(counted@, proof_providers(repo@.proofs)) && shows_tally(stats@, counted@));
    AppliedProofStatsResponseDto { stats }
}

} // verus!
