//! Session tokens: short-lived access tokens and long-lived refresh tokens,
//! signed with the service's secret.
//!
//! A refresh token carries in `iat` the time at which its session began.
//! Rotation keeps that time, so the inactivity ceiling is measured from the
//! first sign-in of the session and is not reset when tokens are renewed.
//! Rotation also spends the refresh token: a registry of spent tokens keeps
//! a token from being exchanged twice. The refresh token that a rotation
//! gives lapses later than the one it replaces, so it is never the token
//! that went in, not even within the second in which that was issued.
//!
//! A policy is in order where access tokens live for a positive time and
//! refresh tokens live longer. `TokenConfig::from_settings` gives no other
//! policy.

use vstd::prelude::*;
use vstd::string::*;
use vstd::utf8::encode_utf8;
use jsonwebtoken::errors::ErrorKind;
use jsonwebtoken::{decode, DecodingKey, Validation};
use serde_json::Value;
use crate::clock::{get_current_time, names_a_date, timestamp_exists};
use crate::codec::{base64_decode, base64_decoding};
use crate::json::{json_integer_at, json_integer_at_pointer};
use crate::text::{chars_of, find_char, first_index, str_equal};

verus! {

/// What a token may be used for.
#[derive(Debug, Clone, Copy, PartialEq, Eq, Structural)]
pub enum TokenType {
    Access,
    Refresh,
}

/// The name under which a token type travels inside a token.
pub open spec fn token_type_name(token_type: TokenType) -> Seq<char> {
    match token_type {
        TokenType::Access => "Access"@,
        TokenType::Refresh => "Refresh"@,
    }
}

/// The token type that a name stands for.
pub open spec fn token_type_named(name: Seq<char>) -> Option<TokenType> {
    if name == "Access"@ {
        Some(TokenType::Access)
    } else if name == "Refresh"@ {
        Some(TokenType::Refresh)
    } else {
        None
    }
}

/// Every token type is read back from its own name.
pub proof fn lemma_token_type_name_round_trips(token_type: TokenType)
    ensures
        token_type_named(token_type_name(token_type)) == Some(token_type),
{
    reveal_strlit("Access");
    reveal_strlit("Refresh");
    assert("Access"@.len() != "Refresh"@.len());
}

impl TokenType {
    /// The name under which this type travels inside a token.
    pub fn name(&self) -> (name: &'static str)
        ensures
            name@ == token_type_name(*self),
    {
        match self {
            TokenType::Access => "Access",
            TokenType::Refresh => "Refresh",
        }
    }

    /// Reads a token type from its name.
    pub fn from_name(name: &str) -> (token_type: Option<TokenType>)
        ensures
            token_type == token_type_named(name@),
    {
        if str_equal(name, "Access") {
            Some(TokenType::Access)
        } else if str_equal(name, "Refresh") {
            Some(TokenType::Refresh)
        } else {
            None
        }
    }
}

/// The claims of a token: whom it speaks for, when its session began, when
/// it lapses and what it may be used for.
#[derive(Debug)]
pub struct Claims {
    pub sub: String,
    pub exp: i64,
    pub iat: i64,
    pub token_type: TokenType,
}

pub struct ClaimsView {
    pub sub: Seq<char>,
    pub exp: i64,
    pub iat: i64,
    pub token_type: TokenType,
}

impl View for Claims {
    type V = ClaimsView;

    open spec fn view(&self) -> ClaimsView {
        ClaimsView { sub: self.sub@, exp: self.exp, iat: self.iat, token_type: self.token_type }
    }
}

/// An access token and the refresh token issued with it.
#[derive(Debug)]
pub struct TokenPair {
    pub access_token: String,
    pub refresh_token: String,
}

/// The token policy of a deployment, fixed when the process starts. All
/// durations are in seconds but the refresh threshold, which is in minutes.
pub struct TokenConfig {
    pub access_token_duration: i64,
    pub refresh_token_duration: i64,
    pub jwt_secret: String,
    pub refresh_threshold_minutes: i64,
    pub max_inactivity: i64,
}

/// Why a token was not issued or not accepted.
#[derive(Debug, Clone, Copy, PartialEq, Eq, Structural)]
pub enum TokenError {
    /// The time is past the token's `exp`.
    Expired,
    /// The token is of another type than the one asked for.
    WrongType,
    /// The token does not have the structure of a token of this service.
    Malformed,
    /// The token's authentication code was not made with this secret.
    SignatureInvalid,
    /// The session began longer ago than the inactivity ceiling allows.
    InactivityTimeout,
    /// The refresh token was exchanged for a new pair before.
    Reused,
    /// The token could not be made.
    GenerationFailed,
}

/// Why the token library turned a token down.
#[derive(Debug, Clone, Copy, PartialEq, Eq, Structural)]
pub enum JwtFailure {
    Malformed,
    SignatureInvalid,
}

/// The four members of a token's payload as they were found in it.
pub struct RawClaims {
    pub sub: Option<String>,
    pub exp: Option<i64>,
    pub iat: Option<i64>,
    pub token_type: Option<String>,
}

pub struct RawClaimsView {
    pub sub: Option<Seq<char>>,
    pub exp: Option<i64>,
    pub iat: Option<i64>,
    pub token_type: Option<Seq<char>>,
}

impl View for RawClaims {
    type V = RawClaimsView;

    open spec fn view(&self) -> RawClaimsView {
        RawClaimsView {
            sub: match self.sub {
                Some(sub) => Some(sub@),
                None => None,
            },
            exp: self.exp,
            iat: self.iat,
            token_type: match self.token_type {
                Some(name) => Some(name@),
                None => None,
            },
        }
    }
}

/// The token that `jsonwebtoken` makes with its default header for a
/// payload of the members `sub`, `exp`, `iat` and `token_type`, signed with
/// `secret`; `None` where it makes none.
pub uninterp spec fn jwt_encoding(
    subject: Seq<char>,
    expires: i64,
    issued: i64,
    kind: Seq<char>,
    secret: Seq<u8>,
) -> Option<Seq<char>>;

/// What `jsonwebtoken` reads from a token under `secret`, with HS256 as the
/// only algorithm and no check of any time: the members `sub`, `exp`, `iat`
/// and `token_type` of its payload, or why it turned the token down.
pub uninterp spec fn jwt_decoding(token: Seq<char>, secret: Seq<u8>) -> Result<RawClaimsView, JwtFailure>;

/// A decoding that found all four members.
pub open spec fn decoded_members(subject: Seq<char>, expires: i64, issued: i64, kind: Seq<char>) -> Result<
    RawClaimsView,
    JwtFailure,
> {
    Ok(RawClaimsView { sub: Some(subject), exp: Some(expires), iat: Some(issued), token_type: Some(kind) })
}

/// The claims of `subject` with the given times and type.
pub open spec fn claims_view(subject: Seq<char>, expires: i64, issued: i64, token_type: TokenType) -> ClaimsView {
    ClaimsView { sub: subject, exp: expires, iat: issued, token_type }
}

/// Calls `jsonwebtoken::encode` with the default header (HS256) on a JSON
/// object of the four members, under the given secret. The contract claims
/// that a token is made: header and key are of one family, an object of
/// texts and integers is written without fault, and the authentication
/// code is computed for every key. It names the token, and claims that
/// `jsonwebtoken::decode` reads back from it, under the same secret, the
/// members that went in.
#[verifier::external_body]
pub(crate) fn jwt_encode(subject: &str, expires: i64, issued: i64, kind: &str, secret: &[u8]) -> (token: Option<String>)
    ensures
        token.is_some(),
        token.is_some() == jwt_encoding(subject@, expires, issued, kind@, secret@).is_some(),
        token.is_some() ==> token.unwrap()@ == jwt_encoding(subject@, expires, issued, kind@, secret@).unwrap(),
        token.is_some() ==> jwt_decoding(token.unwrap()@, secret@) == decoded_members(
            subject@,
            expires,
            issued,
            kind@,
        ),
{
    let mut payload = serde_json::Map::new();
    payload.insert("sub".to_string(), serde_json::Value::from(subject));
    payload.insert("exp".to_string(), serde_json::Value::from(expires));
    payload.insert("iat".to_string(), serde_json::Value::from(issued));
    payload.insert("token_type".to_string(), serde_json::Value::from(kind));
    let key = jsonwebtoken::EncodingKey::from_secret(secret);
    jsonwebtoken::encode(&jsonwebtoken::Header::default(), &payload, &key).ok()
}

/// Calls `jsonwebtoken::decode` with the default validation, from which the
/// check of `exp` against the clock is taken out so that the outcome depends
/// on token and secret alone, and reads the four members with `as_str` and
/// `as_i64`. The contract names the outcome.
#[verifier::external_body]
pub(crate) fn jwt_decode(token: &str, secret: &[u8]) -> (decoded: Result<RawClaims, JwtFailure>)
    ensures
        decoded is Ok == jwt_decoding(token@, secret@) is Ok,
        decoded is Ok ==> decoded->Ok_0@ == jwt_decoding(token@, secret@)->Ok_0,
        decoded is Err ==> decoded->Err_0 == jwt_decoding(token@, secret@)->Err_0,
{
    let mut rules = Validation::default();
    rules.validate_exp = false;
    rules.required_spec_claims.clear();
    let claims = match decode::<Value>(token, &DecodingKey::from_secret(secret), &rules) {
        Ok(data) => data.claims,
        Err(error) if matches!(error.kind(), ErrorKind::InvalidSignature) => return Err(JwtFailure::SignatureInvalid),
        Err(_) => return Err(JwtFailure::Malformed),
    };
    let text = |name: &str| claims.get(name).and_then(|v| v.as_str()).map(String::from);
    let number = |name: &str| claims.get(name).and_then(|v| v.as_i64());
    Ok(RawClaims { sub: text("sub"), exp: number("exp"), iat: number("iat"), token_type: text("token_type") })
}

/// The payload members that stand for claims.
pub open spec fn raw_claims_of(claims: ClaimsView) -> RawClaimsView {
    RawClaimsView {
        sub: Some(claims.sub),
        exp: Some(claims.exp),
        iat: Some(claims.iat),
        token_type: Some(token_type_name(claims.token_type)),
    }
}

/// The claims that payload members stand for: all four must be there, and
/// the type must be a known one.
pub open spec fn claims_of_raw(raw: RawClaimsView) -> Option<ClaimsView> {
    if raw.sub is Some && raw.exp is Some && raw.iat is Some && raw.token_type is Some
        && token_type_named(raw.token_type->Some_0) is Some {
        Some(
            ClaimsView {
                sub: raw.sub->Some_0,
                exp: raw.exp->Some_0,
                iat: raw.iat->Some_0,
                token_type: token_type_named(raw.token_type->Some_0)->Some_0,
            },
        )
    } else {
        None
    }
}

/// The verdict on a decoded token at time `now`. A bad authentication code
/// or structure is reported first, then a lapsed token, then a token of
/// another type than `expected`, where a type is expected.
pub open spec fn checked_claims(
    decoded: Result<RawClaimsView, JwtFailure>,
    expected: Option<TokenType>,
    now: i64,
) -> Result<ClaimsView, TokenError> {
    match decoded {
        Err(JwtFailure::SignatureInvalid) => Err(TokenError::SignatureInvalid),
        Err(JwtFailure::Malformed) => Err(TokenError::Malformed),
        Ok(raw) => match claims_of_raw(raw) {
            None => Err(TokenError::Malformed),
            Some(claims) => if now > claims.exp {
                Err(TokenError::Expired)
            } else if expected is Some && expected->Some_0 != claims.token_type {
                Err(TokenError::WrongType)
            } else {
                Ok(claims)
            },
        },
    }
}

/// What a rotation admits: a verified refresh token whose session
/// began more than `ceiling` seconds before `now` is turned down, whatever
/// its `exp`.
pub open spec fn refresh_admission(verified: Result<ClaimsView, TokenError>, now: i64, ceiling: i64) -> Result<
    ClaimsView,
    TokenError,
> {
    match verified {
        Err(error) => Err(error),
        Ok(claims) => if now - claims.iat > ceiling {
            Err(TokenError::InactivityTimeout)
        } else {
            Ok(claims)
        },
    }
}

/// Whether an executable result is the one a specification gives.
pub open spec fn claims_match(result: Result<Claims, TokenError>, expected: Result<ClaimsView, TokenError>) -> bool {
    match result {
        Ok(claims) => expected == Ok::<ClaimsView, TokenError>(claims@),
        Err(error) => expected == Err::<ClaimsView, TokenError>(error),
    }
}

/// The secret of a configuration as the bytes that sign its tokens.
pub open spec fn secret_of(config: &TokenConfig) -> Seq<u8> {
    encode_utf8(config.jwt_secret@)
}

/// Whether a time is one that a token can state.
pub open spec fn is_time(seconds: int) -> bool {
    i64::MIN <= seconds <= i64::MAX
}

/// The text of the token that a configuration issues to `signer`, lapsing
/// at `expires`, for a session that began at `session_start`. There is
/// none where the time of lapse is no `i64`, or where the token library
/// makes none.
pub open spec fn token_until(
    config: &TokenConfig,
    signer: Seq<char>,
    token_type: TokenType,
    expires: int,
    session_start: i64,
) -> Option<Seq<char>> {
    if is_time(expires) {
        jwt_encoding(signer, expires as i64, session_start, token_type_name(token_type), secret_of(config))
    } else {
        None
    }
}

/// The text of the token that a configuration issues to `signer`, lapsing
/// `lifetime` seconds after `now`, for a session that began at
/// `session_start`.
pub open spec fn token_text(
    config: &TokenConfig,
    signer: Seq<char>,
    token_type: TokenType,
    lifetime: i64,
    session_start: i64,
    now: i64,
) -> Option<Seq<char>> {
    token_until(config, signer, token_type, now + lifetime, session_start)
}

/// The verdict of a configuration on a token at time `now`.
pub open spec fn verification(config: &TokenConfig, token: Seq<char>, expected: Option<TokenType>, now: i64) -> Result<
    ClaimsView,
    TokenError,
> {
    checked_claims(jwt_decoding(token, secret_of(config)), expected, now)
}

/// Whether `result` is the pair issued to `signer` at `now`, for a session
/// that began at `session_start`, with a refresh token that lapses at
/// `refresh_expires`. The access token lapses its lifetime after `now`. A
/// pair is issued where both times of lapse are times that a token can
/// state, and only there. Until it lapses, each token of the pair verifies
/// as its own type, with exactly its claims, and is turned down with
/// `WrongType` as the other type.
pub open spec fn is_pair(
    config: &TokenConfig,
    signer: Seq<char>,
    session_start: i64,
    now: i64,
    refresh_expires: int,
    result: Result<TokenPair, TokenError>,
) -> bool {
    let access_expires = now + config.access_token_duration;
    if is_time(access_expires) && is_time(refresh_expires) {
        &&& result matches Ok(pair)
        &&& token_until(config, signer, TokenType::Access, access_expires, now) == Some(pair.access_token@)
        &&& token_until(config, signer, TokenType::Refresh, refresh_expires, session_start) == Some(
            pair.refresh_token@,
        )
        &&& verifies_only_as(
            config,
            pair.access_token@,
            claims_view(signer, access_expires as i64, now, TokenType::Access),
        )
        &&& verifies_only_as(
            config,
            pair.refresh_token@,
            claims_view(signer, refresh_expires as i64, session_start, TokenType::Refresh),
        )
    } else {
        result == Err::<TokenPair, TokenError>(TokenError::GenerationFailed)
    }
}

/// Whether `result` is what issuing a pair to `signer` at `now` gives, for a
/// session that began at `session_start`: the refresh token lapses its
/// lifetime after `now`.
pub open spec fn is_issuance(
    config: &TokenConfig,
    signer: Seq<char>,
    session_start: i64,
    now: i64,
    result: Result<TokenPair, TokenError>,
) -> bool {
    is_pair(config, signer, session_start, now, now + config.refresh_token_duration, result)
}

/// When the refresh token lapses that replaces one that lapses at
/// `replaced`: its lifetime after `now`, and in any case later than the
/// token it replaces, so that no rotation gives back the token that went
/// in.
pub open spec fn rotated_expiry(config: &TokenConfig, replaced: i64, now: i64) -> int {
    if now + config.refresh_token_duration > replaced {
        now + config.refresh_token_duration
    } else {
        replaced + 1
    }
}

/// Whether a token, until it lapses, verifies as its own type with exactly
/// these claims, and is turned down with `WrongType` as the other type.
pub open spec fn verifies_only_as(config: &TokenConfig, token: Seq<char>, claims: ClaimsView) -> bool {
    forall|later: i64, expected: TokenType|
        later <= claims.exp ==> #[trigger] verification(config, token, Some(expected), later) == if expected
            == claims.token_type {
            Ok::<ClaimsView, TokenError>(claims)
        } else {
            Err::<ClaimsView, TokenError>(TokenError::WrongType)
        }
}

/// Claims that were written into a token and read back are accepted as
/// their own type until they lapse, with the subject unchanged, and are
/// turned down with `WrongType` where the other type is asked for.
pub proof fn lemma_claims_verify_only_as_their_type(claims: ClaimsView, expected: TokenType, later: i64)
    requires
        later <= claims.exp,
    ensures
        expected == claims.token_type ==> checked_claims(Ok(raw_claims_of(claims)), Some(expected), later) == Ok::<
            ClaimsView,
            TokenError,
        >(claims),
        expected != claims.token_type ==> checked_claims(Ok(raw_claims_of(claims)), Some(expected), later) == Err::<
            ClaimsView,
            TokenError,
        >(TokenError::WrongType),
        checked_claims(Ok(raw_claims_of(claims)), None, later) == Ok::<ClaimsView, TokenError>(claims),
{
    lemma_token_type_name_round_trips(claims.token_type);
}

/// A refresh token whose session began longer ago than the ceiling is not
/// admitted, though it has not lapsed.
pub proof fn lemma_dormant_session_times_out(claims: ClaimsView, now: i64, ceiling: i64)
    requires
        claims.token_type == TokenType::Refresh,
        now <= claims.exp,
        now - claims.iat > ceiling,
    ensures
        refresh_admission(checked_claims(Ok(raw_claims_of(claims)), Some(TokenType::Refresh), now), now, ceiling) == Err::<
            ClaimsView,
            TokenError,
        >(TokenError::InactivityTimeout),
{
    lemma_token_type_name_round_trips(claims.token_type);
}

/// Turns what the token library read into claims: the verdict on a decoded
/// token at time `now`.
pub fn check_claims(decoded: Result<RawClaims, JwtFailure>, expected: Option<TokenType>, now: i64) -> (result: Result<
    Claims,
    TokenError,
>)
    ensures
        claims_match(
            result,
            checked_claims(
                match decoded {
                    Ok(raw) => Ok(raw@),
                    Err(failure) => Err(failure),
                },
                expected,
                now,
            ),
        ),
{
    let raw = match decoded {
        Err(JwtFailure::SignatureInvalid) => { return Err(TokenError::SignatureInvalid); },
        Err(JwtFailure::Malformed) => { return Err(TokenError::Malformed); },
        Ok(raw) => raw,
    };
    let ghost seen = raw@;
    let RawClaims { sub, exp, iat, token_type } = raw;
    let (sub, exp, iat, name) = match (sub, exp, iat, token_type) {
        (Some(sub), Some(exp), Some(iat), Some(name)) => (sub, exp, iat, name),
        _ => { return Err(TokenError::Malformed); },
    };
    let token_type = match TokenType::from_name(name.as_str()) {
        Some(token_type) => token_type,
        None => { return Err(TokenError::Malformed); },
    };
    assert(claims_of_raw(seen) == Some(ClaimsView { sub: sub@, exp, iat, token_type }));
    if now > exp {
        return Err(TokenError::Expired);
    }
    match expected {
        Some(wanted) => {
            if !token_type_is(wanted, token_type) {
                return Err(TokenError::WrongType);
            }
        },
        None => {},
    }
    Ok(Claims { sub, exp, iat, token_type })
}

/// Whether two token types are the same.
pub fn token_type_is(left: TokenType, right: TokenType) -> (same: bool)
    ensures
        same == (left == right),
{
    match (left, right) {
        (TokenType::Access, TokenType::Access) => true,
        (TokenType::Refresh, TokenType::Refresh) => true,
        _ => false,
    }
}

/// Issues one token to `signer` that lapses at `expires`, for a session
/// that began at `session_start`. Until it lapses, the token verifies as
/// its own type with exactly these claims.
pub fn create_token_until(
    config: &TokenConfig,
    signer: &str,
    token_type: TokenType,
    expires: i64,
    session_start: i64,
) -> (result: Result<String, TokenError>)
    ensures
        result matches Ok(token) && token_until(config, signer@, token_type, expires as int, session_start) == Some(
            token@,
        ) && verifies_only_as(config, token@, claims_view(signer@, expires, session_start, token_type)),
{
    let secret = config.jwt_secret.as_str().as_bytes_vec();
    match jwt_encode(signer, expires, session_start, token_type.name(), secret.as_slice()) {
        Some(token) => {
            proof {
                let claims = ClaimsView { sub: signer@, exp: expires, iat: session_start, token_type };
                assert(jwt_decoding(token@, secret_of(config)) == Ok::<RawClaimsView, JwtFailure>(raw_claims_of(claims)));
                assert forall|later: i64, expected: TokenType| later <= claims.exp implies #[trigger] verification(
                    config,
                    token@,
                    Some(expected),
                    later,
                ) == if expected == claims.token_type {
                    Ok::<ClaimsView, TokenError>(claims)
                } else {
                    Err::<ClaimsView, TokenError>(TokenError::WrongType)
                } by {
                    lemma_claims_verify_only_as_their_type(claims, expected, later);
                }
            }
            Ok(token)
        },
        None => Err(TokenError::GenerationFailed),
    }
}

/// Issues one token to `signer`, lapsing `lifetime` seconds after `now`, for
/// a session that began at `session_start`. The token is made unless its
/// time of lapse is none that a token can state.
pub fn create_token_internal(
    config: &TokenConfig,
    signer: &str,
    token_type: TokenType,
    lifetime: i64,
    session_start: i64,
    now: i64,
) -> (result: Result<String, TokenError>)
    ensures
        result is Ok == is_time(now + lifetime),
        match result {
            Ok(token) => {
                &&& token_text(config, signer@, token_type, lifetime, session_start, now) == Some(token@)
                &&& verifies_only_as(
                    config,
                    token@,
                    claims_view(signer@, (now + lifetime) as i64, session_start, token_type),
                )
            },
            Err(error) => error == TokenError::GenerationFailed,
        },
{
    match now.checked_add(lifetime) {
        Some(expires) => create_token_until(config, signer, token_type, expires, session_start),
        None => Err(TokenError::GenerationFailed),
    }
}

/// Issues an access token to `signer` at time `now`. The token is made
/// unless its time of lapse is none that a token can state.
pub fn create_access_token(config: &TokenConfig, signer: String, now: i64) -> (result: Result<String, TokenError>)
    ensures
        result is Ok == is_time(now + config.access_token_duration),
        match result {
            Ok(token) => {
                &&& token_text(config, signer@, TokenType::Access, config.access_token_duration, now, now) == Some(
                    token@,
                )
                &&& verifies_only_as(
                    config,
                    token@,
                    claims_view(signer@, (now + config.access_token_duration) as i64, now, TokenType::Access),
                )
            },
            Err(error) => error == TokenError::GenerationFailed,
        },
{
    create_token_internal(config, signer.as_str(), TokenType::Access, config.access_token_duration, now, now)
}

/// Issues a refresh token to `signer` at time `now`, for a session that
/// begins now. The token is made unless its time of lapse is none that a
/// token can state.
pub fn create_refresh_token(config: &TokenConfig, signer: String, now: i64) -> (result: Result<String, TokenError>)
    ensures
        result is Ok == is_time(now + config.refresh_token_duration),
        match result {
            Ok(token) => {
                &&& token_text(config, signer@, TokenType::Refresh, config.refresh_token_duration, now, now) == Some(
                    token@,
                )
                &&& verifies_only_as(
                    config,
                    token@,
                    claims_view(signer@, (now + config.refresh_token_duration) as i64, now, TokenType::Refresh),
                )
            },
            Err(error) => error == TokenError::GenerationFailed,
        },
{
    create_token_internal(config, signer.as_str(), TokenType::Refresh, config.refresh_token_duration, now, now)
}

/// Reads the claims of a token of either type at time `now`.
pub fn decode_token(config: &TokenConfig, token: String, now: i64) -> (result: Result<Claims, TokenError>)
    ensures
        claims_match(result, verification(config, token@, None, now)),
{
    let secret = config.jwt_secret.as_str().as_bytes_vec();
    let decoded = jwt_decode(token.as_str(), secret.as_slice());
    check_claims(decoded, None, now)
}

/// A setting, or the usual value where there is none.
pub open spec fn setting_or(setting: Option<i64>, usual: i64) -> i64 {
    match setting {
        Some(value) => value,
        None => usual,
    }
}

/// The policy that settings give: lifetimes of access tokens in hours, of
/// refresh tokens in days, the inactivity ceiling in days. There is none
/// where a duration in seconds is no `i64`, where the lifetime of access
/// tokens is not positive, or where refresh tokens do not live longer than
/// access tokens.
pub open spec fn policy_of(
    jwt_secret: Seq<char>,
    access_token_hours: Option<i64>,
    refresh_token_days: Option<i64>,
    refresh_threshold_minutes: Option<i64>,
    max_inactivity_days: Option<i64>,
) -> Option<(i64, i64, i64, i64)> {
    let access = setting_or(access_token_hours, 1) * 3600;
    let refresh = setting_or(refresh_token_days, 30) * 86400;
    let ceiling = setting_or(max_inactivity_days, 30) * 86400;
    if is_time(access) && is_time(refresh) && is_time(ceiling) && 0 < access < refresh {
        Some((access as i64, refresh as i64, setting_or(refresh_threshold_minutes, 5), ceiling as i64))
    } else {
        None
    }
}

impl TokenConfig {
    /// Whether the lifetimes of this policy are in order: access tokens
    /// live for a positive time, and refresh tokens live longer.
    pub open spec fn is_sound(&self) -> bool {
        0 < self.access_token_duration < self.refresh_token_duration
    }

    /// The policy for the settings of a deployment. A setting that is not
    /// given has its usual value: one hour, thirty days, five minutes,
    /// thirty days. Settings whose lifetimes are not in order give no
    /// policy.
    pub fn from_settings(
        jwt_secret: String,
        access_token_hours: Option<i64>,
        refresh_token_days: Option<i64>,
        refresh_threshold_minutes: Option<i64>,
        max_inactivity_days: Option<i64>,
    ) -> (config: Option<Self>)
        ensures
            match policy_of(
                jwt_secret@,
                access_token_hours,
                refresh_token_days,
                refresh_threshold_minutes,
                max_inactivity_days,
            ) {
                Some(policy) => {
                    &&& config matches Some(c)
                    &&& c.jwt_secret == jwt_secret
                    &&& c.access_token_duration == policy.0
                    &&& c.refresh_token_duration == policy.1
                    &&& c.refresh_threshold_minutes == policy.2
                    &&& c.max_inactivity == policy.3
                    &&& c.is_sound()
                },
                None => config is None,
            },
    {
        let hours = match access_token_hours {
            Some(hours) => hours,
            None => 1,
        };
        let days = match refresh_token_days {
            Some(days) => days,
            None => 30,
        };
        let ceiling_days = match max_inactivity_days {
            Some(days) => days,
            None => 30,
        };
        let threshold = match refresh_threshold_minutes {
            Some(minutes) => minutes,
            None => 5,
        };
        let access = match hours.checked_mul(3600) {
            Some(seconds) => seconds,
            None => { return None; },
        };
        let refresh = match days.checked_mul(86400) {
            Some(seconds) => seconds,
            None => { return None; },
        };
        let ceiling = match ceiling_days.checked_mul(86400) {
            Some(seconds) => seconds,
            None => { return None; },
        };
        if access <= 0 || refresh <= access {
            return None;
        }
        Some(
            TokenConfig {
                access_token_duration: access,
                refresh_token_duration: refresh,
                jwt_secret,
                refresh_threshold_minutes: threshold,
                max_inactivity: ceiling,
            },
        )
    }

    /// The policy with the usual durations: access tokens of one hour,
    /// refresh tokens of thirty days, renewal five minutes before lapse, and
    /// an inactivity ceiling of thirty days.
    pub fn new(jwt_secret: String) -> (config: Self)
        ensures
            config.jwt_secret == jwt_secret,
            config.access_token_duration == 3600,
            config.refresh_token_duration == 2592000,
            config.refresh_threshold_minutes == 5,
            config.max_inactivity == 2592000,
            config.is_sound(),
    {
        TokenConfig {
            access_token_duration: 3600,
            refresh_token_duration: 2592000,
            jwt_secret,
            refresh_threshold_minutes: 5,
            max_inactivity: 2592000,
        }
    }
}

/// Issues an access token to `signer` at time `now` and a refresh token
/// that lapses at `refresh_expires`, for a session that began at
/// `session_start`.
pub fn issue_pair_until(
    config: &TokenConfig,
    signer: &str,
    session_start: i64,
    now: i64,
    refresh_expires: i64,
) -> (result: Result<TokenPair, TokenError>)
    ensures
        is_pair(config, signer@, session_start, now, refresh_expires as int, result),
{
    let access_token = match create_token_internal(
        config,
        signer,
        TokenType::Access,
        config.access_token_duration,
        now,
        now,
    ) {
        Ok(token) => token,
        Err(error) => { return Err(error); },
    };
    let refresh_token = match create_token_until(config, signer, TokenType::Refresh, refresh_expires, session_start) {
        Ok(token) => token,
        Err(error) => { return Err(error); },
    };
    Ok(TokenPair { access_token, refresh_token })
}

/// Issues an access token and a refresh token to `signer` at time `now`,
/// for a session that began at `session_start`. The pair is issued unless
/// a time of lapse is none that a token can state.
pub fn issue_pair(config: &TokenConfig, signer: &str, session_start: i64, now: i64) -> (result: Result<
    TokenPair,
    TokenError,
>)
    ensures
        is_issuance(config, signer@, session_start, now, result),
{
    match now.checked_add(config.refresh_token_duration) {
        Some(refresh_expires) => issue_pair_until(config, signer, session_start, now, refresh_expires),
        None => Err(TokenError::GenerationFailed),
    }
}

/// When the refresh token lapses that replaces one that lapses at
/// `replaced`, or `None` where that is no time that a token can state.
pub fn rotated_expiry_of(config: &TokenConfig, replaced: i64, now: i64) -> (expires: Option<i64>)
    ensures
        match expires {
            Some(expires) => expires == rotated_expiry(config, replaced, now),
            None => !is_time(rotated_expiry(config, replaced, now)),
        },
{
    match now.checked_add(config.refresh_token_duration) {
        Some(usual) if usual > replaced => Some(usual),
        Some(_) => replaced.checked_add(1),
        None => {
            if config.refresh_token_duration > 0 {
                None
            } else {
                replaced.checked_add(1)
            }
        },
    }
}

/// The refresh tokens that were exchanged for a new pair. A token that is
/// in here is spent: it is not exchanged again.
pub struct RefreshRegistry {
    spent: Vec<String>,
}

/// What each of the texts holds.
pub open spec fn tokens_view(tokens: Seq<String>) -> Seq<Seq<char>> {
    tokens.map_values(|token: String| token@)
}

impl View for RefreshRegistry {
    type V = Seq<Seq<char>>;

    closed spec fn view(&self) -> Seq<Seq<char>> {
        tokens_view(self.spent@)
    }
}

impl RefreshRegistry {
    /// A registry in which no token is spent.
    pub fn new() -> (registry: Self)
        ensures
            registry@ == Seq::<Seq<char>>::empty(),
    {
        let registry = RefreshRegistry { spent: Vec::new() };
        assert(registry@ =~= Seq::<Seq<char>>::empty());
        registry
    }

    /// The registry of the tokens that are known to be spent, as a store
    /// kept them.
    pub fn from_tokens(tokens: Vec<String>) -> (registry: Self)
        ensures
            registry@ == tokens_view(tokens@),
    {
        RefreshRegistry { spent: tokens }
    }

    /// The spent tokens, in the order in which they were spent.
    pub fn tokens(&self) -> (tokens: &Vec<String>)
        ensures
            tokens_view(tokens@) == self@,
    {
        &self.spent
    }

    /// Whether the token is spent.
    pub fn contains(&self, token: &str) -> (spent: bool)
        ensures
            spent == self@.contains(token@),
    {
        let mut index: usize = 0;
        while index < self.spent.len()
            invariant
                index <= self.spent@.len(),
                forall|i: int| 0 <= i < index ==> self@[i] != token@,
            decreases self.spent@.len() - index,
        {
            if str_equal(self.spent[index].as_str(), token) {
                assert(self@[index as int] == token@);
                return true;
            }
            index += 1;
        }
        false
    }

    /// How many tokens are spent.
    pub fn len(&self) -> (count: usize)
        ensures
            count == self@.len(),
    {
        self.spent.len()
    }

    /// Marks the token as spent.
    pub fn spend(&mut self, token: String)
        ensures
            final(self)@ == old(self)@.push(token@),
    {
        let ghost before = self@;
        self.spent.push(token);
        assert(self@ =~= before.push(token@));
    }
}

/// Whether `after` and `result` are what rotating `refresh_token` at `now`
/// gives, where the tokens in `spent` were exchanged before: the error of
/// the verification as a refresh token or of the inactivity ceiling; for a
/// token that is spent, the error that says so; or else a new pair for the
/// same subject and the same session, with the token spent from now on.
/// The new refresh token lapses later than the one it replaces. Where no
/// pair is issued, no token is spent.
pub open spec fn is_rotation(
    config: &TokenConfig,
    spent: Seq<Seq<char>>,
    refresh_token: Seq<char>,
    now: i64,
    after: Seq<Seq<char>>,
    result: Result<TokenPair, TokenError>,
) -> bool {
    match refresh_admission(
        verification(config, refresh_token, Some(TokenType::Refresh), now),
        now,
        config.max_inactivity,
    ) {
        Err(error) => result is Err && result->Err_0 == error && after == spent,
        Ok(claims) => if spent.contains(refresh_token) {
            result is Err && result->Err_0 == TokenError::Reused && after == spent
        } else {
            is_pair(config, claims.sub, claims.iat, now, rotated_expiry(config, claims.exp, now), result) && after
                == if result is Ok {
                spent.push(refresh_token)
            } else {
                spent
            }
        },
    }
}

/// Rotation gives a new refresh token: the refresh token of the new pair
/// is another text than the token that was exchanged for it, it lapses
/// later, and it speaks for the same subject and the same session.
pub proof fn lemma_rotated_token_is_new(
    config: &TokenConfig,
    refresh_token: Seq<char>,
    spent: (Seq<Seq<char>>, Seq<Seq<char>>),
    now: i64,
    result: Result<TokenPair, TokenError>,
)
    requires
        is_rotation(config, spent.0, refresh_token, now, spent.1, result),
        result is Ok,
    ensures
        result->Ok_0.refresh_token@ != refresh_token,
        verification(config, refresh_token, Some(TokenType::Refresh), now) matches Ok(replaced) && verification(
            config,
            result->Ok_0.refresh_token@,
            Some(TokenType::Refresh),
            now,
        ) matches Ok(issued) && issued.exp > replaced.exp && issued.sub == replaced.sub && issued.iat
            == replaced.iat,
{
    let replaced = verification(config, refresh_token, Some(TokenType::Refresh), now)->Ok_0;
    let expires = rotated_expiry(config, replaced.exp, now);
    let issued = claims_view(replaced.sub, expires as i64, replaced.iat, TokenType::Refresh);
    assert(now <= replaced.exp);
    assert(verification(config, result->Ok_0.refresh_token@, Some(TokenType::Refresh), now) == Ok::<
        ClaimsView,
        TokenError,
    >(issued));
}

/// Under a policy whose lifetimes are in order, the refresh token of a
/// pair outlives its access token.
pub proof fn lemma_refresh_outlives_access(
    config: &TokenConfig,
    signer: Seq<char>,
    now: i64,
    result: Result<TokenPair, TokenError>,
)
    requires
        config.is_sound(),
        is_issuance(config, signer, now, now, result),
        result is Ok,
    ensures
        verification(config, result->Ok_0.access_token@, Some(TokenType::Access), now) matches Ok(access)
            && verification(config, result->Ok_0.refresh_token@, Some(TokenType::Refresh), now) matches Ok(refresh)
            && refresh.exp - refresh.iat > access.exp - access.iat && access.iat == now && refresh.iat == now
            && access.sub == signer && refresh.sub == signer,
{
    let access = claims_view(signer, (now + config.access_token_duration) as i64, now, TokenType::Access);
    let refresh = claims_view(signer, (now + config.refresh_token_duration) as i64, now, TokenType::Refresh);
    assert(verification(config, result->Ok_0.access_token@, Some(TokenType::Access), now) == Ok::<
        ClaimsView,
        TokenError,
    >(access));
    assert(verification(config, result->Ok_0.refresh_token@, Some(TokenType::Refresh), now) == Ok::<
        ClaimsView,
        TokenError,
    >(refresh));
}

/// Rotation spends the refresh token: after a token was exchanged for a new
/// pair, exchanging it again fails, and spends nothing more.
pub proof fn lemma_exchanged_token_is_spent(
    config: &TokenConfig,
    refresh_token: Seq<char>,
    spent: (Seq<Seq<char>>, Seq<Seq<char>>, Seq<Seq<char>>),
    times: (i64, i64),
    first: Result<TokenPair, TokenError>,
    second: Result<TokenPair, TokenError>,
)
    requires
        is_rotation(config, spent.0, refresh_token, times.0, spent.1, first),
        first is Ok,
        is_rotation(config, spent.1, refresh_token, times.1, spent.2, second),
    ensures
        second is Err,
        spent.2 == spent.1,
        spent.1.contains(refresh_token),
{
    assert(spent.1[spent.0.len() as int] == refresh_token);
}

/// Issues and verifies tokens under one policy.
pub struct JwtService {
    pub config: TokenConfig,
}

impl JwtService {
    pub fn new(config: TokenConfig) -> (service: Self)
        ensures
            service.config == config,
    {
        JwtService { config }
    }

    /// Issues a pair to `signer` for a session that begins at `now`. Until
    /// it lapses, each token verifies as its own type with `signer` as its
    /// subject, and is turned down with `WrongType` as the other type.
    pub fn create_token_pair_at(&self, signer: &str, now: i64) -> (result: Result<TokenPair, TokenError>)
        ensures
            is_issuance(&self.config, signer@, now, now, result),
            result matches Ok(pair) ==> verifies_only_as(
                &self.config,
                pair.access_token@,
                claims_view(signer@, (now + self.config.access_token_duration) as i64, now, TokenType::Access),
            ),
            result matches Ok(pair) ==> verifies_only_as(
                &self.config,
                pair.refresh_token@,
                claims_view(signer@, (now + self.config.refresh_token_duration) as i64, now, TokenType::Refresh),
            ),
    {
        issue_pair(&self.config, signer, now, now)
    }

    /// Issues a pair to `signer` for a session that begins at the current
    /// time.
    pub fn create_token_pair(&self, signer: &str) -> (result: Result<TokenPair, TokenError>)
        ensures
            exists|now: i64| is_issuance(&self.config, signer@, now, now, result),
    {
        let now = get_current_time();
        let result = self.create_token_pair_at(signer, now);
        assert(is_issuance(&self.config, signer@, now, now, result));
        result
    }

    /// Verifies `token` as a token of type `expected_type` at time `now`.
    pub fn verify_token_at(&self, token: &str, expected_type: TokenType, now: i64) -> (result: Result<
        Claims,
        TokenError,
    >)
        ensures
            claims_match(result, verification(&self.config, token@, Some(expected_type), now)),
    {
        let secret = self.config.jwt_secret.as_str().as_bytes_vec();
        let decoded = jwt_decode(token, secret.as_slice());
        check_claims(decoded, Some(expected_type), now)
    }

    /// Verifies `token` as a token of type `expected_type` at the current
    /// time.
    pub fn verify_token(&self, token: &str, expected_type: TokenType) -> (result: Result<Claims, TokenError>)
        ensures
            exists|now: i64| claims_match(result, verification(&self.config, token@, Some(expected_type), now)),
    {
        let now = get_current_time();
        let result = self.verify_token_at(token, expected_type, now);
        assert(claims_match(result, verification(&self.config, token@, Some(expected_type), now)));
        result
    }

    /// Decides on verified refresh claims whether the session may go on:
    /// not when it began more than the ceiling before `now`.
    pub fn admit_refresh(&self, verified: Result<Claims, TokenError>, now: i64) -> (result: Result<Claims, TokenError>)
        ensures
            claims_match(
                result,
                refresh_admission(
                    match verified {
                        Ok(claims) => Ok(claims@),
                        Err(error) => Err(error),
                    },
                    now,
                    self.config.max_inactivity,
                ),
            ),
    {
        match verified {
            Err(error) => Err(error),
            Ok(claims) => {
                if (now as i128) - (claims.iat as i128) > (self.config.max_inactivity as i128) {
                    Err(TokenError::InactivityTimeout)
                } else {
                    Ok(claims)
                }
            },
        }
    }

    /// Exchanges a refresh token for a new pair at time `now`. The token
    /// must verify as a refresh token, its session must have begun within
    /// the inactivity ceiling, whatever its `exp`, and it must not have been
    /// exchanged before. The new pair is for the same subject and the same
    /// session, its refresh token lapses later than the one that was
    /// exchanged, and the token is spent.
    pub fn refresh_at(&self, registry: &mut RefreshRegistry, refresh_token: &str, now: i64) -> (result: Result<
        TokenPair,
        TokenError,
    >)
        ensures
            is_rotation(&self.config, old(registry)@, refresh_token@, now, final(registry)@, result),
    {
        let verified = self.verify_token_at(refresh_token, TokenType::Refresh, now);
        let claims = match self.admit_refresh(verified, now) {
            Err(error) => { return Err(error); },
            Ok(claims) => claims,
        };
        if registry.contains(refresh_token) {
            return Err(TokenError::Reused);
        }
        let result = match rotated_expiry_of(&self.config, claims.exp, now) {
            Some(expires) => issue_pair_until(&self.config, claims.sub.as_str(), claims.iat, now, expires),
            None => Err(TokenError::GenerationFailed),
        };
        if result.is_ok() {
            registry.spend(String::from_str(refresh_token));
        }
        result
    }

    /// Exchanges a refresh token for a new pair at the current time.
    pub fn refresh(&self, registry: &mut RefreshRegistry, refresh_token: &str) -> (result: Result<
        TokenPair,
        TokenError,
    >)
        ensures
            exists|now: i64| is_rotation(&self.config, old(registry)@, refresh_token@, now, final(registry)@, result),
    {
        let now = get_current_time();
        let result = self.refresh_at(registry, refresh_token, now);
        assert(is_rotation(&self.config, old(registry)@, refresh_token@, now, registry@, result));
        result
    }
}

/// The middle one of the three parts that exactly two dots cut a token
/// into.
pub open spec fn payload_segment(token: Seq<char>) -> Option<Seq<char>> {
    let first = first_index(token, '.');
    if first >= token.len() {
        None
    } else {
        let rest = token.skip(first + 1);
        let second = first_index(rest, '.');
        if second >= rest.len() {
            None
        } else {
            let tail = rest.skip(second + 1);
            if first_index(tail, '.') < tail.len() {
                None
            } else {
                Some(rest.take(second))
            }
        }
    }
}

/// The `exp` that a token states, read without checking who made the token:
/// the payload must be standard base64 of a JSON document whose member `exp`
/// is an integer that names a date.
pub open spec fn stated_expiry(token: Seq<char>) -> Option<i64> {
    match payload_segment(token) {
        None => None,
        Some(segment) => match base64_decoding(segment) {
            None => None,
            Some(document) => match json_integer_at_pointer(document, "/exp"@) {
                Ok(Some(expires)) => if names_a_date(expires) {
                    Some(expires)
                } else {
                    None
                },
                _ => None,
            },
        },
    }
}

/// Whether a token that lapses at `expires` has lapsed `buffer_minutes`
/// after `now`.
pub open spec fn lapses_within(expires: i64, buffer_minutes: i64, now: i64) -> bool {
    now + buffer_minutes * 60 >= expires
}

/// Cuts the payload out of a token of three parts.
pub fn payload_of<'a>(token: &'a str) -> (segment: Option<&'a str>)
    ensures
        segment.is_some() == payload_segment(token@).is_some(),
        segment.is_some() ==> segment.unwrap()@ == payload_segment(token@).unwrap(),
{
    let chars = chars_of(token);
    let length = chars.len();
    let first = find_char(&chars, 0, length, '.');
    assert(chars@.subrange(0, length as int) =~= token@);
    if first >= length {
        return None;
    }
    let second = find_char(&chars, first + 1, length, '.');
    assert(chars@.subrange(first + 1, length as int) =~= token@.skip(first + 1));
    if second >= length {
        return None;
    }
    let third = find_char(&chars, second + 1, length, '.');
    proof {
        let rest = token@.skip(first + 1);
        assert(chars@.subrange(second + 1, length as int) =~= rest.skip(second - first));
        assert(rest.take(second - first - 1) =~= token@.subrange(first + 1, second as int));
    }
    if third < length {
        return None;
    }
    Some(token.substring_char(first + 1, second))
}

/// Questions about a token that are answered from its own text.
pub struct TokenUtils;

impl TokenUtils {
    /// Reads the `exp` that a token states, without checking who made it.
    pub fn stated_expiry_of(token: &str) -> (expires: Option<i64>)
        ensures
            expires == stated_expiry(token@),
    {
        let segment = match payload_of(token) {
            Some(segment) => segment,
            None => { return None; },
        };
        let document = match base64_decode(segment) {
            Some(document) => document,
            None => { return None; },
        };
        match json_integer_at(document.as_slice(), "/exp") {
            Ok(Some(expires)) => {
                if timestamp_exists(expires) {
                    Some(expires)
                } else {
                    None
                }
            },
            _ => None,
        }
    }

    /// Whether a token with the stated time of lapse will have lapsed
    /// `buffer_minutes` after `now`. A token that states none is malformed.
    pub fn expiry_verdict(expires: Option<i64>, buffer_minutes: i64, now: i64) -> (result: Result<bool, TokenError>)
        ensures
            match expires {
                Some(expires) => result == Ok::<bool, TokenError>(lapses_within(expires, buffer_minutes, now)),
                None => result == Err::<bool, TokenError>(TokenError::Malformed),
            },
    {
        match expires {
            Some(expires) => Ok((now as i128) + (buffer_minutes as i128) * 60 >= (expires as i128)),
            None => Err(TokenError::Malformed),
        }
    }

    /// Whether the token will have lapsed `buffer_minutes` after `now`, by
    /// the `exp` it states. A token that states none is malformed.
    pub fn is_token_expired_at(token: &str, buffer_minutes: i64, now: i64) -> (result: Result<bool, TokenError>)
        ensures
            match stated_expiry(token@) {
                Some(expires) => result == Ok::<bool, TokenError>(lapses_within(expires, buffer_minutes, now)),
                None => result == Err::<bool, TokenError>(TokenError::Malformed),
            },
    {
        Self::expiry_verdict(Self::stated_expiry_of(token), buffer_minutes, now)
    }

    /// Whether the token will have lapsed `buffer_minutes` after the
    /// current time.
    pub fn is_token_expired(token: &str, buffer_minutes: i64) -> (result: Result<bool, TokenError>)
        ensures
            match stated_expiry(token@) {
                Some(expires) => exists|now: i64|
                    result == Ok::<bool, TokenError>(lapses_within(expires, buffer_minutes, now)),
                None => result == Err::<bool, TokenError>(TokenError::Malformed),
            },
    {
        let now = get_current_time();
        let result = Self::is_token_expired_at(token, buffer_minutes, now);
        proof {
            if stated_expiry(token@) is Some {
                assert(result == Ok::<bool, TokenError>(
                    lapses_within(stated_expiry(token@)->Some_0, buffer_minutes, now),
                ));
            }
        }
        result
    }

    /// Whether an access token should be renewed at time `now`: when it
    /// lapses within five minutes, or states no time of lapse.
    pub fn should_refresh_token_at(access_token: &str, now: i64) -> (renew: bool)
        ensures
            renew == match stated_expiry(access_token@) {
                Some(expires) => lapses_within(expires, 5, now),
                None => true,
            },
    {
        match Self::is_token_expired_at(access_token, 5, now) {
            Ok(renew) => renew,
            Err(_) => true,
        }
    }

    /// Whether an access token should be renewed now.
    pub fn should_refresh_token(access_token: &str) -> (renew: bool)
        ensures
            stated_expiry(access_token@) is None ==> renew,
            stated_expiry(access_token@) matches Some(expires) ==> exists|now: i64|
                renew == lapses_within(expires, 5, now),
    {
        let now = get_current_time();
        let renew = Self::should_refresh_token_at(access_token, now);
        proof {
            if stated_expiry(access_token@) is Some {
                assert(renew == lapses_within(stated_expiry(access_token@)->Some_0, 5, now));
            }
        }
        renew
    }
}

} // verus!
