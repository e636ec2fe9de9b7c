//! The guard in front of protected requests: it finds the token that a
//! request carries, in a header or in a cookie, and verifies it.

use vstd::prelude::*;
use vstd::string::*;
use crate::text::{chars_of, find_char, first_index, has_prefix, skip_space_chars, skip_spaces, str_equal, strip_prefix};
use crate::token::{
    is_rotation, verification, Claims, ClaimsView, JwtService, RefreshRegistry, TokenConfig, TokenError, TokenPair,
    TokenType,
};

verus! {

/// The authenticated principal that downstream handlers see.
#[derive(Debug, Clone)]
pub struct JwtUserPayload {
    pub user_id: String,
}

impl JwtUserPayload {
    pub fn new(user_id: String) -> (payload: Self)
        ensures
            payload.user_id == user_id,
    {
        JwtUserPayload { user_id }
    }
}

/// The subject of verified claims.
#[derive(Clone)]
pub struct AuthUser {
    pub user_id: String,
}

/// Why a request was not authenticated.
#[derive(Debug, Clone, Copy, PartialEq, Eq, Structural)]
pub enum AuthError {
    /// The request carries no access token where the policy looks for
    /// one.
    MissingToken,
    /// The request carries no refresh token where the policy looks for
    /// one.
    MissingRefreshToken,
    /// The authorization header is not of the form `Bearer <token>`.
    InvalidHeaderFormat,
    /// The token was found and turned down.
    Token(TokenError),
    /// A text that should be base64 is none.
    Base64Error,
    /// The bytes are no public key.
    PublicKeyError,
    /// The service's signing key made no signature.
    KeyStoreError,
}

/// Where a request carries its token.
#[derive(Debug, Clone, Copy, PartialEq, Eq, Structural)]
pub enum TokenCarrier {
    /// In the `Authorization` header, after `Bearer `.
    Header,
    /// In a cookie named after the token.
    Cookie,
}

/// The token in an authorization header of the form `Bearer <token>`.
pub open spec fn bearer_token(header: Seq<char>) -> Option<Seq<char>> {
    if has_prefix(header, "Bearer "@) {
        Some(header.subrange("Bearer "@.len() as int, header.len() as int))
    } else {
        None
    }
}

/// The value of the first cookie called `name` in a `Cookie` header:
/// pairs are separated by `;`, spaces before a pair are skipped, and the
/// name ends at the first `=`.
pub open spec fn cookie_value(header: Seq<char>, name: Seq<char>) -> Option<Seq<char>>
    decreases header.len(),
{
    let end = first_index(header, ';');
    let pair = skip_spaces(header.take(end));
    let split = first_index(pair, '=');
    if 0 <= split < pair.len() && pair.take(split) == name {
        Some(pair.skip(split + 1))
    } else if 0 <= end < header.len() {
        cookie_value(header.skip(end + 1), name)
    } else {
        None
    }
}

/// The name of the cookie that carries a token of the given type.
pub open spec fn cookie_name(token_type: TokenType) -> Seq<char> {
    match token_type {
        TokenType::Access => "access_token"@,
        TokenType::Refresh => "refresh_token"@,
    }
}

/// What is wrong with a request that carries no token of the given type.
pub open spec fn missing(token_type: TokenType) -> AuthError {
    match token_type {
        TokenType::Access => AuthError::MissingToken,
        TokenType::Refresh => AuthError::MissingRefreshToken,
    }
}

/// The token that a request presents under a carrier policy, from what its
/// `Authorization` and `Cookie` headers hold.
pub open spec fn presented_token(
    carrier: TokenCarrier,
    token_type: TokenType,
    authorization: Option<Seq<char>>,
    cookies: Option<Seq<char>>,
) -> Result<Seq<char>, AuthError> {
    match carrier {
        TokenCarrier::Header => match authorization {
            None => Err(missing(token_type)),
            Some(header) => match bearer_token(header) {
                None => Err(AuthError::InvalidHeaderFormat),
                Some(token) => Ok(token),
            },
        },
        TokenCarrier::Cookie => match cookies {
            None => Err(missing(token_type)),
            Some(header) => match cookie_value(header, cookie_name(token_type)) {
                None => Err(missing(token_type)),
                Some(token) => Ok(token),
            },
        },
    }
}

/// What a header holds, where the request has it.
pub open spec fn header_view(header: Option<&str>) -> Option<Seq<char>> {
    match header {
        Some(text) => Some(text@),
        None => None,
    }
}

/// The verdict on a request: the principal named by the access token that
/// the request presents, or why there is none.
pub open spec fn authentication(
    config: &TokenConfig,
    carrier: TokenCarrier,
    authorization: Option<Seq<char>>,
    cookies: Option<Seq<char>>,
    now: i64,
) -> Result<Seq<char>, AuthError> {
    match presented_token(carrier, TokenType::Access, authorization, cookies) {
        Err(error) => Err(error),
        Ok(token) => match verification(config, token, Some(TokenType::Access), now) {
            Err(error) => Err(AuthError::Token(error)),
            Ok(claims) => Ok(claims.sub),
        },
    }
}

/// Whether an executable result is the one a specification gives.
pub open spec fn principal_matches(result: Result<JwtUserPayload, AuthError>, expected: Result<Seq<char>, AuthError>) -> bool {
    match result {
        Ok(principal) => expected == Ok::<Seq<char>, AuthError>(principal.user_id@),
        Err(error) => expected == Err::<Seq<char>, AuthError>(error),
    }
}

/// Whether an executable result is the one a specification gives.
pub open spec fn token_matches(result: Result<&str, AuthError>, expected: Result<Seq<char>, AuthError>) -> bool {
    match result {
        Ok(token) => expected == Ok::<Seq<char>, AuthError>(token@),
        Err(error) => expected == Err::<Seq<char>, AuthError>(error),
    }
}

/// Reads the token out of an authorization header.
pub fn bearer_token_of<'a>(header: &'a str) -> (token: Option<&'a str>)
    ensures
        token.is_some() == bearer_token(header@).is_some(),
        token.is_some() ==> token.unwrap()@ == bearer_token(header@).unwrap(),
{
    strip_prefix(header, "Bearer ")
}

/// Reads the value of the first cookie called `name` out of a `Cookie`
/// header.
pub fn cookie_of<'a>(header: &'a str, name: &str) -> (value: Option<&'a str>)
    ensures
        value.is_some() == cookie_value(header@, name@).is_some(),
        value.is_some() ==> value.unwrap()@ == cookie_value(header@, name@).unwrap(),
{
    let chars = chars_of(header);
    let length = chars.len();
    let mut start: usize = 0;
    assert(header@.skip(0) =~= header@);
    loop
        invariant
            chars@ == header@,
            length == chars@.len(),
            start <= length,
            cookie_value(header@, name@) == cookie_value(header@.skip(start as int), name@),
        decreases length - start,
    {
        let end = find_char(&chars, start, length, ';');
        let begin = skip_space_chars(&chars, start, end);
        let split = find_char(&chars, begin, end, '=');
        proof {
            let rest = header@.skip(start as int);
            assert(chars@.subrange(start as int, length as int) =~= rest);
            assert(rest.take(end - start) =~= chars@.subrange(start as int, end as int));
            let pair = chars@.subrange(begin as int, end as int);
            assert(pair.take(split - begin) =~= header@.subrange(begin as int, split as int));
            if split < end {
                assert(pair.skip(split - begin + 1) =~= header@.subrange(split + 1, end as int));
            }
            if end < length {
                assert(rest.skip(end - start + 1) =~= header@.skip(end + 1));
            }
        }
        if split < end {
            let found = header.substring_char(begin, split);
            if str_equal(found, name) {
                return Some(header.substring_char(split + 1, end));
            }
        }
        if end >= length {
            return None;
        }
        start = end + 1;
    }
}

/// A cookie that hands a token to a client: its name and value, the
/// seconds it lives, and whether scripts are kept from reading it. Every
/// such cookie is for the whole site, travels over secure connections only
/// and is not sent with requests from other sites.
#[derive(Debug)]
pub struct TokenCookie {
    pub name: String,
    pub value: String,
    pub max_age: i64,
    pub http_only: bool,
}

/// Whether `cookies` are the cookies that hand out a pair under a carrier
/// policy: none where tokens travel in headers; else one for the access
/// token, for the lifetime of access tokens, and one for the refresh token,
/// for the lifetime of refresh tokens and out of reach of scripts.
pub open spec fn are_token_cookies(
    carrier: TokenCarrier,
    config: &TokenConfig,
    pair: &TokenPair,
    cookies: Seq<TokenCookie>,
) -> bool {
    match carrier {
        TokenCarrier::Header => cookies.len() == 0,
        TokenCarrier::Cookie => {
            &&& cookies.len() == 2
            &&& cookies[0].name@ == cookie_name(TokenType::Access)
            &&& cookies[0].value@ == pair.access_token@
            &&& cookies[0].max_age == config.access_token_duration
            &&& !cookies[0].http_only
            &&& cookies[1].name@ == cookie_name(TokenType::Refresh)
            &&& cookies[1].value@ == pair.refresh_token@
            &&& cookies[1].max_age == config.refresh_token_duration
            &&& cookies[1].http_only
        },
    }
}

/// The guard of a deployment: it knows where requests carry their tokens.
pub struct SessionGuard {
    pub carrier: TokenCarrier,
}

impl SessionGuard {
    pub fn new(carrier: TokenCarrier) -> (guard: Self)
        ensures
            guard.carrier == carrier,
    {
        SessionGuard { carrier }
    }

    /// The cookies that a response sets to hand out a pair of tokens.
    pub fn cookies_for(&self, config: &TokenConfig, pair: &TokenPair) -> (cookies: Vec<TokenCookie>)
        ensures
            are_token_cookies(self.carrier, config, pair, cookies@),
    {
        let mut cookies: Vec<TokenCookie> = Vec::new();
        match self.carrier {
            TokenCarrier::Header => {},
            TokenCarrier::Cookie => {
                proof {
                    reveal_strlit("access_token");
                    reveal_strlit("refresh_token");
                }
                cookies.push(
                    TokenCookie {
                        name: String::from_str("access_token"),
                        value: pair.access_token.clone(),
                        max_age: config.access_token_duration,
                        http_only: false,
                    },
                );
                cookies.push(
                    TokenCookie {
                        name: String::from_str("refresh_token"),
                        value: pair.refresh_token.clone(),
                        max_age: config.refresh_token_duration,
                        http_only: true,
                    },
                );
            },
        }
        cookies
    }

    /// Finds the token of the given type that a request presents.
    pub fn token_of<'a>(
        &self,
        token_type: TokenType,
        authorization: Option<&'a str>,
        cookies: Option<&'a str>,
    ) -> (result: Result<&'a str, AuthError>)
        ensures
            token_matches(
                result,
                presented_token(self.carrier, token_type, header_view(authorization), header_view(cookies)),
            ),
    {
        let absent = match token_type {
            TokenType::Access => AuthError::MissingToken,
            TokenType::Refresh => AuthError::MissingRefreshToken,
        };
        match self.carrier {
            TokenCarrier::Header => match authorization {
                None => Err(absent),
                Some(header) => match bearer_token_of(header) {
                    None => Err(AuthError::InvalidHeaderFormat),
                    Some(token) => Ok(token),
                },
            },
            TokenCarrier::Cookie => match cookies {
                None => Err(absent),
                Some(header) => {
                    let name = match token_type {
                        TokenType::Access => "access_token",
                        TokenType::Refresh => "refresh_token",
                    };
                    match cookie_of(header, name) {
                        None => Err(absent),
                        Some(token) => Ok(token),
                    }
                },
            },
        }
    }

    /// Authenticates a request at time `now`: the token it presents must
    /// verify as an access token, and its subject becomes the principal. In
    /// every other case the request is turned down.
    pub fn authenticate_at(
        &self,
        service: &JwtService,
        authorization: Option<&str>,
        cookies: Option<&str>,
        now: i64,
    ) -> (result: Result<JwtUserPayload, AuthError>)
        ensures
            principal_matches(
                result,
                authentication(&service.config, self.carrier, header_view(authorization), header_view(cookies), now),
            ),
    {
        let token = match self.token_of(TokenType::Access, authorization, cookies) {
            Ok(token) => token,
            Err(error) => { return Err(error); },
        };
        match service.verify_token_at(token, TokenType::Access, now) {
            Ok(claims) => Ok(JwtUserPayload::new(claims.sub)),
            Err(error) => Err(AuthError::Token(error)),
        }
    }

    /// Authenticates a request at the current time.
    pub fn authenticate(&self, service: &JwtService, authorization: Option<&str>, cookies: Option<&str>) -> (result:
        Result<JwtUserPayload, AuthError>)
        ensures
            exists|now: i64|
                principal_matches(
                    result,
                    authentication(
                        &service.config,
                        self.carrier,
                        header_view(authorization),
                        header_view(cookies),
                        now,
                    ),
                ),
    {
        let now = crate::clock::get_current_time();
        let result = self.authenticate_at(service, authorization, cookies, now);
        assert(principal_matches(
            result,
            authentication(&service.config, self.carrier, header_view(authorization), header_view(cookies), now),
        ));
        result
    }

    /// Renews the tokens of a request at time `now`: the refresh token it
    /// presents is exchanged for a new pair, and is spent.
    pub fn refresh_tokens_at(
        &self,
        service: &JwtService,
        registry: &mut RefreshRegistry,
        authorization: Option<&str>,
        cookies: Option<&str>,
        now: i64,
    ) -> (result: Result<TokenPair, AuthError>)
        ensures
            is_renewal(
                &service.config,
                old(registry)@,
                presented_token(self.carrier, TokenType::Refresh, header_view(authorization), header_view(cookies)),
                now,
                final(registry)@,
                result,
            ),
    {
        let token = match self.token_of(TokenType::Refresh, authorization, cookies) {
            Ok(token) => token,
            Err(error) => { return Err(error); },
        };
        match service.refresh_at(registry, token, now) {
            Ok(pair) => Ok(pair),
            Err(error) => Err(AuthError::Token(error)),
        }
    }
}

/// Whether `after` and `result` are what renewing gives for the token that
/// a request presents: the fault in presenting it, with no token spent, or
/// the rotation of the token with its error, if any, marked as a token's.
pub open spec fn is_renewal(
    config: &TokenConfig,
    spent: Seq<Seq<char>>,
    presented: Result<Seq<char>, AuthError>,
    now: i64,
    after: Seq<Seq<char>>,
    result: Result<TokenPair, AuthError>,
) -> bool {
    match presented {
        Err(error) => result is Err && result->Err_0 == error && after == spent,
        Ok(token) => match result {
            Ok(pair) => is_rotation(config, spent, token, now, after, Ok(pair)),
            Err(AuthError::Token(error)) => is_rotation(config, spent, token, now, after, Err(error)),
            Err(_) => false,
        },
    }
}

/// Renews the tokens of a request whose refresh token travels in the
/// authorization header.
pub fn refresh_tokens(
    service: &JwtService,
    registry: &mut RefreshRegistry,
    authorization: Option<&str>,
    now: i64,
) -> (result: Result<TokenPair, AuthError>)
    ensures
        is_renewal(
            &service.config,
            old(registry)@,
            presented_token(TokenCarrier::Header, TokenType::Refresh, header_view(authorization), None),
            now,
            final(registry)@,
            result,
        ),
{
    let guard = SessionGuard::new(TokenCarrier::Header);
    guard.refresh_tokens_at(service, registry, authorization, None, now)
}

/// Whether an executable result is the one a specification gives.
pub open spec fn extraction_matches(result: Result<Claims, AuthError>, expected: Result<ClaimsView, AuthError>) -> bool {
    match result {
        Ok(claims) => expected == Ok::<ClaimsView, AuthError>(claims@),
        Err(error) => expected == Err::<ClaimsView, AuthError>(error),
    }
}

/// The claims of the access token in an authorization header.
pub open spec fn extraction(config: &TokenConfig, auth_header: Seq<char>, now: i64) -> Result<ClaimsView, AuthError> {
    match bearer_token(auth_header) {
        None => Err(AuthError::InvalidHeaderFormat),
        Some(token) => match verification(config, token, Some(TokenType::Access), now) {
            Ok(claims) => Ok(claims),
            Err(error) => Err(AuthError::Token(error)),
        },
    }
}

/// Reads and verifies the access token in an authorization header of the
/// form `Bearer <token>`, at time `now`.
pub fn extract_token(service: &JwtService, auth_header: &str, now: i64) -> (result: Result<Claims, AuthError>)
    ensures
        extraction_matches(result, extraction(&service.config, auth_header@, now)),
{
    let token = match bearer_token_of(auth_header) {
        Some(token) => token,
        None => { return Err(AuthError::InvalidHeaderFormat); },
    };
    match service.verify_token_at(token, TokenType::Access, now) {
        Ok(claims) => Ok(claims),
        Err(error) => Err(AuthError::Token(error)),
    }
}

} // verus!
