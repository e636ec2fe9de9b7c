//! Identity records: provider-tagged facts derived from externally
//! verified proofs.

use vstd::prelude::*;
use vstd::string::*;
use vstd::utf8::encode_utf8;
use crate::json::{json_error_message, json_text_at, json_text_at_pointer};
use crate::text::{lowercase_of, str_equal, to_lowercase, trim_both, trim_matches};

verus! {

/// The public data that a proof may carry: pairs of a name and a value.
pub type PublicData = Option<Vec<(String, String)>>;

/// The claim inside a proof, as far as this library reads it.
#[derive(Debug)]
pub struct ClaimData {
    /// The parameters of the request that the proof attests.
    pub parameters: String,
    /// A JSON document that holds, under `extractedParameters`, what the
    /// provider reported of the account.
    pub context: String,
}

/// A proof of an external verifier that some account is held, as far as
/// this library reads it.
#[derive(Debug)]
pub struct ReclaimProof {
    pub identifier: String,
    pub claim_data: ClaimData,
    pub public_data: PublicData,
}

/// The kind of account that a proof is about.
#[derive(Debug)]
pub enum IdentityProvider {
    X,
    Google,
    Github,
    Linkedin,
    /// A provider without a record form of its own, kept by its name.
    Other(String),
}

/// The name of a provider: a fixed one for each known provider, its own
/// for any other.
pub open spec fn provider_name(provider: &IdentityProvider) -> Seq<char> {
    match provider {
        IdentityProvider::X => "x"@,
        IdentityProvider::Google => "google"@,
        IdentityProvider::Github => "github"@,
        IdentityProvider::Linkedin => "linkedin"@,
        IdentityProvider::Other(name) => name@,
    }
}

/// Whether a name is the one of a known provider.
pub open spec fn is_known_provider_name(name: Seq<char>) -> bool {
    name == "x"@ || name == "google"@ || name == "github"@ || name == "linkedin"@
}

impl IdentityProvider {
    /// Reads a provider from its name. A name that is none of the known
    /// ones gives `Other` with that name: no name is turned down.
    pub fn from_name(name: String) -> (provider: Self)
        ensures
            provider_name(&provider) == name@,
            provider is Other <==> !is_known_provider_name(name@),
    {
        if str_equal(name.as_str(), "x") {
            IdentityProvider::X
        } else if str_equal(name.as_str(), "google") {
            IdentityProvider::Google
        } else if str_equal(name.as_str(), "github") {
            IdentityProvider::Github
        } else if str_equal(name.as_str(), "linkedin") {
            IdentityProvider::Linkedin
        } else {
            IdentityProvider::Other(name)
        }
    }

    /// The name of this provider.
    pub fn to_string(&self) -> (name: String)
        ensures
            name@ == provider_name(self),
    {
        match self {
            IdentityProvider::X => String::from_str("x"),
            IdentityProvider::Google => String::from_str("google"),
            IdentityProvider::Github => String::from_str("github"),
            IdentityProvider::Linkedin => String::from_str("linkedin"),
            IdentityProvider::Other(name) => name.clone(),
        }
    }
}

/// An account on X, known by its screen name.
#[derive(Debug)]
pub struct XProviderIdentityRecord {
    pub proof_identifier: String,
    pub public_data: PublicData,
    pub nickname: String,
    pub created_at: i64,
    pub provider: String,
}

/// A Google account, known by its email address.
#[derive(Debug)]
pub struct GoogleProviderIdentityRecord {
    pub proof_identifier: String,
    pub public_data: PublicData,
    pub email: String,
    pub created_at: i64,
    pub provider: String,
}

/// A GitHub account, known by its user name.
#[derive(Debug)]
pub struct GithubProviderIdentityRecord {
    pub proof_identifier: String,
    pub public_data: PublicData,
    pub username: String,
    pub created_at: i64,
    pub provider: String,
}

/// A LinkedIn account, known by its user name.
#[derive(Debug)]
pub struct LinkedinProviderIdentityRecord {
    pub proof_identifier: String,
    pub public_data: PublicData,
    pub username: String,
    pub created_at: i64,
    pub provider: String,
}

/// An account at a provider without a record form of its own.
#[derive(Debug)]
pub struct GenericProviderIdentityRecord {
    pub proof_identifier: String,
    pub public_data: PublicData,
    pub provider: String,
    pub created_at: i64,
}

/// A record that keeps the parameters of the attested request beside the
/// provider's identifier.
#[derive(Debug)]
pub struct IdentityRecordV2 {
    pub proof_identifier: String,
    pub public_data: PublicData,
    pub provider_id: String,
    pub claim_data_params: String,
    pub created_at: i64,
}

impl XProviderIdentityRecord {
    pub fn new(proof: ReclaimProof, nickname: String, created_at: i64, provider: String) -> (record: Self)
        ensures
            record.proof_identifier == proof.identifier,
            record.public_data == proof.public_data,
            record.nickname == nickname,
            record.created_at == created_at,
            record.provider == provider,
    {
        XProviderIdentityRecord {
            proof_identifier: proof.identifier,
            public_data: proof.public_data,
            nickname,
            created_at,
            provider,
        }
    }
}

impl GoogleProviderIdentityRecord {
    pub fn new(proof: ReclaimProof, email: String, created_at: i64, provider: String) -> (record: Self)
        ensures
            record.proof_identifier == proof.identifier,
            record.public_data == proof.public_data,
            record.email == email,
            record.created_at == created_at,
            record.provider == provider,
    {
        GoogleProviderIdentityRecord {
            proof_identifier: proof.identifier,
            public_data: proof.public_data,
            email,
            created_at,
            provider,
        }
    }
}

impl GithubProviderIdentityRecord {
    pub fn new(proof: ReclaimProof, username: String, created_at: i64, provider: String) -> (record: Self)
        ensures
            record.proof_identifier == proof.identifier,
            record.public_data == proof.public_data,
            record.username == username,
            record.created_at == created_at,
            record.provider == provider,
    {
        GithubProviderIdentityRecord {
            proof_identifier: proof.identifier,
            public_data: proof.public_data,
            username,
            created_at,
            provider,
        }
    }
}

impl LinkedinProviderIdentityRecord {
    pub fn new(proof: ReclaimProof, username: String, created_at: i64, provider: String) -> (record: Self)
        ensures
            record.proof_identifier == proof.identifier,
            record.public_data == proof.public_data,
            record.username == username,
            record.created_at == created_at,
            record.provider == provider,
    {
        LinkedinProviderIdentityRecord {
            proof_identifier: proof.identifier,
            public_data: proof.public_data,
            username,
            created_at,
            provider,
        }
    }
}

impl GenericProviderIdentityRecord {
    pub fn new(proof: ReclaimProof, created_at: i64, provider: String) -> (record: Self)
        ensures
            record.proof_identifier == proof.identifier,
            record.public_data == proof.public_data,
            record.created_at == created_at,
            record.provider == provider,
    {
        GenericProviderIdentityRecord {
            proof_identifier: proof.identifier,
            public_data: proof.public_data,
            provider,
            created_at,
        }
    }
}

impl IdentityRecordV2 {
    pub fn new(proof: ReclaimProof, created_at: i64, provider_id: String) -> (record: Self)
        ensures
            record.proof_identifier == proof.identifier,
            record.public_data == proof.public_data,
            record.claim_data_params == proof.claim_data.parameters,
            record.created_at == created_at,
            record.provider_id == provider_id,
    {
        IdentityRecordV2 {
            proof_identifier: proof.identifier,
            public_data: proof.public_data,
            provider_id,
            claim_data_params: proof.claim_data.parameters,
            created_at,
        }
    }
}

/// An identity record of any provider.
#[derive(Debug)]
pub enum IdentityRecord {
    X(XProviderIdentityRecord),
    Google(GoogleProviderIdentityRecord),
    Github(GithubProviderIdentityRecord),
    Linkedin(LinkedinProviderIdentityRecord),
    Generic(GenericProviderIdentityRecord),
}

/// Why no identity record came of a proof.
#[derive(Debug)]
pub enum ProofServiceError {
    /// The external check did not find the proof to hold.
    ReclaimProofNotVerifiedError(String),
    /// The context of the claim is no JSON document.
    ContextDeserializationError(String),
    /// The context holds no email address.
    EmailNotFound,
    /// The context holds no screen name.
    ScreennameNotFound,
    /// The context holds no user name.
    UsernameNotFound,
}

/// Where in a claim's context a known provider reports the name of the
/// account, as a JSON pointer. For other providers it is the empty pointer,
/// which leads to the context as a whole.
pub open spec fn field_pointer(provider: &IdentityProvider) -> Seq<char> {
    match provider {
        IdentityProvider::X => "/extractedParameters/screen_name"@,
        IdentityProvider::Google => "/extractedParameters/email"@,
        IdentityProvider::Github => "/extractedParameters/username"@,
        IdentityProvider::Linkedin => "/extractedParameters/Username"@,
        IdentityProvider::Other(_) => ""@,
    }
}

/// Whether `error` is the one that reports a context without the field
/// that `provider` needs.
pub open spec fn is_missing_field(provider: &IdentityProvider, error: ProofServiceError) -> bool {
    match provider {
        IdentityProvider::X => error is ScreennameNotFound,
        IdentityProvider::Google => error is EmailNotFound,
        IdentityProvider::Github => error is UsernameNotFound,
        IdentityProvider::Linkedin => error is UsernameNotFound,
        IdentityProvider::Other(_) => false,
    }
}

/// The account name that a record keeps for a value found in the context.
/// An email address loses quotation marks around it and is put in lower
/// case; every other name is kept as it is.
pub open spec fn account_name(provider: &IdentityProvider, found: Seq<char>) -> Seq<char> {
    match provider {
        IdentityProvider::Google => lowercase_of(trim_both(found, '"')),
        _ => found,
    }
}

/// Whether `record` is the one for `provider` with the given account name,
/// made of `proof` at `created_at`.
pub open spec fn is_record_of(
    record: IdentityRecord,
    provider: &IdentityProvider,
    proof: ReclaimProof,
    name: Seq<char>,
    created_at: i64,
) -> bool {
    match provider {
        IdentityProvider::X => {
            &&& record matches IdentityRecord::X(r)
            &&& r.proof_identifier == proof.identifier
            &&& r.public_data == proof.public_data
            &&& r.nickname@ == name
            &&& r.created_at == created_at
            &&& r.provider@ == provider_name(provider)
        },
        IdentityProvider::Google => {
            &&& record matches IdentityRecord::Google(r)
            &&& r.proof_identifier == proof.identifier
            &&& r.public_data == proof.public_data
            &&& r.email@ == name
            &&& r.created_at == created_at
            &&& r.provider@ == provider_name(provider)
        },
        IdentityProvider::Github => {
            &&& record matches IdentityRecord::Github(r)
            &&& r.proof_identifier == proof.identifier
            &&& r.public_data == proof.public_data
            &&& r.username@ == name
            &&& r.created_at == created_at
            &&& r.provider@ == provider_name(provider)
        },
        IdentityProvider::Linkedin => {
            &&& record matches IdentityRecord::Linkedin(r)
            &&& r.proof_identifier == proof.identifier
            &&& r.public_data == proof.public_data
            &&& r.username@ == name
            &&& r.created_at == created_at
            &&& r.provider@ == provider_name(provider)
        },
        IdentityProvider::Other(_) => {
            &&& record matches IdentityRecord::Generic(r)
            &&& r.proof_identifier == proof.identifier
            &&& r.public_data == proof.public_data
            &&& r.created_at == created_at
            &&& r.provider@ == provider_name(provider)
        },
    }
}

/// Whether `result` is what building a record gives, where the lookup of
/// the provider's field in the context came out as `lookup`. A provider
/// without a record form of its own always gets a generic record; for a
/// known provider the context must be JSON and hold the field.
pub open spec fn is_built(
    result: Result<IdentityRecord, ProofServiceError>,
    provider: &IdentityProvider,
    proof: ReclaimProof,
    lookup: Result<Option<Seq<char>>, ()>,
    created_at: i64,
) -> bool {
    if provider is Other {
        result is Ok && is_record_of(result->Ok_0, provider, proof, ""@, created_at)
    } else {
        match lookup {
            Err(_) => result is Err && result->Err_0 is ContextDeserializationError,
            Ok(None) => result is Err && is_missing_field(provider, result->Err_0),
            Ok(Some(found)) => result is Ok && is_record_of(
                result->Ok_0,
                provider,
                proof,
                account_name(provider, found),
                created_at,
            ),
        }
    }
}

/// What a lookup found, or that the document was no JSON.
pub open spec fn lookup_view(lookup: Result<Option<String>, String>) -> Result<Option<Seq<char>>, ()> {
    match lookup {
        Ok(Some(found)) => Ok(Some(found@)),
        Ok(None) => Ok(None),
        Err(_) => Err(()),
    }
}

/// Turns verified proofs into identity records.
pub struct IdentityRecordBuilder;

impl IdentityRecordBuilder {
    /// Looks up in a claim's context the field that a known provider
    /// reports the account under; for another provider, the context as a
    /// whole. An error carries the parser's message.
    pub fn lookup_field(provider: &IdentityProvider, context: &str) -> (lookup: Result<Option<String>, String>)
        ensures
            lookup_view(lookup) == json_text_at_pointer(encode_utf8(context@), field_pointer(provider)),
    {
        let pointer = match provider {
            IdentityProvider::X => "/extractedParameters/screen_name",
            IdentityProvider::Google => "/extractedParameters/email",
            IdentityProvider::Github => "/extractedParameters/username",
            IdentityProvider::Linkedin => "/extractedParameters/Username",
            IdentityProvider::Other(_) => "",
        };
        let found = json_text_at(context.as_bytes(), pointer);
        proof {
            let named = json_text_at_pointer(encode_utf8(context@), field_pointer(provider));
            if named is Err {
                assert(named->Err_0 == ());
            }
        }
        match found {
            Ok(found) => Ok(found),
            Err(error) => Err(json_error_message(&error)),
        }
    }

    /// Makes the record for `provider` from a proof and from what the
    /// lookup of the provider's field in the context came out as.
    pub fn record_from_lookup(
        provider: &IdentityProvider,
        proof: ReclaimProof,
        lookup: Result<Option<String>, String>,
        created_at: i64,
    ) -> (result: Result<IdentityRecord, ProofServiceError>)
        ensures
            is_built(result, provider, proof, lookup_view(lookup), created_at),
    {
        let name = provider.to_string();
        match provider {
            IdentityProvider::Other(_) => {
                return Ok(IdentityRecord::Generic(GenericProviderIdentityRecord::new(proof, created_at, name)));
            },
            _ => {},
        }
        let found = match lookup {
            Err(message) => { return Err(ProofServiceError::ContextDeserializationError(message)); },
            Ok(None) => {
                return Err(
                    match provider {
                        IdentityProvider::X => ProofServiceError::ScreennameNotFound,
                        IdentityProvider::Google => ProofServiceError::EmailNotFound,
                        _ => ProofServiceError::UsernameNotFound,
                    },
                );
            },
            Ok(Some(found)) => found,
        };
        match provider {
            IdentityProvider::X => Ok(IdentityRecord::X(XProviderIdentityRecord::new(proof, found, created_at, name))),
            IdentityProvider::Google => {
                let email = to_lowercase(trim_matches(found.as_str(), '"'));
                Ok(IdentityRecord::Google(GoogleProviderIdentityRecord::new(proof, email, created_at, name)))
            },
            IdentityProvider::Github => Ok(
                IdentityRecord::Github(GithubProviderIdentityRecord::new(proof, found, created_at, name)),
            ),
            _ => Ok(IdentityRecord::Linkedin(LinkedinProviderIdentityRecord::new(proof, found, created_at, name))),
        }
    }

    /// Builds the identity record for a proof that the external verifier
    /// has accepted. Nothing of the proof is verified again here.
    pub fn build(provider: &IdentityProvider, proof: ReclaimProof, created_at: i64) -> (result: Result<
        IdentityRecord,
        ProofServiceError,
    >)
        ensures
            is_built(
                result,
                provider,
                proof,
                json_text_at_pointer(encode_utf8(proof.claim_data.context@), field_pointer(provider)),
                created_at,
            ),
            provider is Other ==> result is Ok && result->Ok_0 is Generic,
    {
        match provider {
            IdentityProvider::Other(_) => Self::record_from_lookup(provider, proof, Ok(None), created_at),
            _ => {
                let lookup = Self::lookup_field(provider, proof.claim_data.context.as_str());
                Self::record_from_lookup(provider, proof, lookup, created_at)
            },
        }
    }
}

/// Why a proof gave no data to sign.
#[derive(Debug)]
pub enum ProofError {
    ProofNotVerifiedError(String),
    SerializationError(String),
}

/// A record of a proof as it is signed and stored with an account.
#[derive(Debug)]
pub struct UserIdentityRecord {
    pub proof_identifier: String,
    pub public_data: PublicData,
    pub provider_id: String,
    pub claim_data_params: String,
    pub created_at: i64,
}

impl UserIdentityRecord {
    pub fn new(proof: ReclaimProof, created_at: i64, provider_id: String) -> (record: Self)
        ensures
            record.proof_identifier == proof.identifier,
            record.public_data == proof.public_data,
            record.claim_data_params == proof.claim_data.parameters,
            record.created_at == created_at,
            record.provider_id == provider_id,
    {
        UserIdentityRecord {
            proof_identifier: proof.identifier,
            public_data: proof.public_data,
            provider_id,
            claim_data_params: proof.claim_data.parameters,
            created_at,
        }
    }
}

/// What the external verifier said of a proof: whether it holds, or the
/// verifier's own error.
pub open spec fn is_accepted(outcome: Result<bool, String>) -> bool {
    outcome matches Ok(holds) && holds
}

/// Reads the verdict of the external proof verifier.
pub struct ReclaimProofValidator;

impl ReclaimProofValidator {
    /// Reads what the external check of a proof came to: only a proof that
    /// was found to hold passes; the error of the check is handed on.
    pub fn verdict(outcome: Result<bool, String>) -> (result: Result<bool, ProofError>)
        ensures
            is_accepted(outcome) <==> result is Ok,
            result matches Ok(holds) ==> holds,
            result is Err ==> result->Err_0 is ProofNotVerifiedError,
            outcome matches Err(message) ==> result->Err_0->ProofNotVerifiedError_0 == message,
            outcome matches Ok(holds) ==> (!holds ==> result->Err_0->ProofNotVerifiedError_0@
                == "Proof is not valid"@),
    {
        match outcome {
            Ok(true) => Ok(true),
            Ok(false) => Err(ProofError::ProofNotVerifiedError(String::from_str("Proof is not valid"))),
            Err(message) => Err(ProofError::ProofNotVerifiedError(message)),
        }
    }
}

/// A proof on its way to an account: what is to be signed for it.
pub struct ProofService {
    pub data: ReclaimProof,
    pub provider_id: String,
}

/// Whether `result` is what preparing the record of a provider gives for
/// a proof, where the external check of the proof came out as `outcome`.
/// A proof that was not found to hold gives no record; else the record is
/// built for the provider that `provider_id` names.
pub open spec fn is_payload(
    provider_id: Seq<char>,
    proof: ReclaimProof,
    outcome: Result<bool, String>,
    now: i64,
    result: Result<IdentityRecord, ProofServiceError>,
) -> bool {
    match outcome {
        Err(message) => result matches Err(ProofServiceError::ReclaimProofNotVerifiedError(reported)) && reported
            == message,
        Ok(holds) => if holds {
            exists|provider: IdentityProvider|
                {
                    &&& provider_name(&provider) == provider_id
                    &&& provider is Other <==> !is_known_provider_name(provider_id)
                    &&& #[trigger] is_built(
                        result,
                        &provider,
                        proof,
                        json_text_at_pointer(encode_utf8(proof.claim_data.context@), field_pointer(&provider)),
                        now,
                    )
                }
        } else {
            result matches Err(ProofServiceError::ReclaimProofNotVerifiedError(reported)) && reported@
                == "Proof is not valid"@
        },
    }
}

impl ProofService {
    /// The identity record of the provider for this proof, made at `now`,
    /// once the external check has found the proof to hold. The record is
    /// what the user signs and what is added to the account.
    pub fn prepare_payload_to_apply(self, outcome: Result<bool, String>, now: i64) -> (result: Result<
        IdentityRecord,
        ProofServiceError,
    >)
        ensures
            is_payload(self.provider_id@, self.data, outcome, now, result),
    {
        match outcome {
            Ok(true) => {
                let provider = IdentityProvider::from_name(self.provider_id);
                let result = IdentityRecordBuilder::build(&provider, self.data, now);
                assert(is_built(
                    result,
                    &provider,
                    self.data,
                    json_text_at_pointer(encode_utf8(self.data.claim_data.context@), field_pointer(&provider)),
                    now,
                ));
                result
            },
            Ok(false) => Err(
                ProofServiceError::ReclaimProofNotVerifiedError(String::from_str("Proof is not valid")),
            ),
            Err(message) => Err(ProofServiceError::ReclaimProofNotVerifiedError(message)),
        }
    }

    /// The record that the user signs for this proof, made at `now`, once
    /// the external verifier has said that the proof holds. In every other
    /// case the verifier's verdict is the error.
    pub fn validate_and_get_data_to_sign(self, outcome: Result<bool, String>, now: i64) -> (result: Result<
        UserIdentityRecord,
        ProofError,
    >)
        ensures
            is_accepted(outcome) <==> result is Ok,
            result matches Ok(record) ==> {
                &&& record.proof_identifier == self.data.identifier
                &&& record.public_data == self.data.public_data
                &&& record.claim_data_params == self.data.claim_data.parameters
                &&& record.provider_id == self.provider_id
                &&& record.created_at == now
            },
            result is Err ==> result->Err_0 is ProofNotVerifiedError,
            outcome matches Err(message) ==> result->Err_0->ProofNotVerifiedError_0 == message,
    {
        match ReclaimProofValidator::verdict(outcome) {
            Ok(_) => Ok(UserIdentityRecord::new(self.data, now, self.provider_id)),
            Err(error) => Err(error),
        }
    }
}

} // verus!
