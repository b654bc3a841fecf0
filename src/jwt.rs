use vstd::prelude::*;
use crate::error::AuthError;
use crate::text::hex_text;
use jsonwebtoken::errors::ErrorKind;
use jsonwebtoken::{decode, encode, Algorithm, DecodingKey, EncodingKey, Header, Validation};
use serde_json::Value;
use SealError::{BadSignature, Malformed};

verus! {

/// Seconds an access token stays valid.
pub const ACCESS_TOKEN_LIFETIME: i64 = 3600;

/// Seconds a refresh token stays valid (thirty days).
pub const REFRESH_TOKEN_LIFETIME: i64 = 2592000;

/// The two kinds of bearer token.
#[derive(Debug, Clone, Copy, PartialEq, Eq, Structural)]
pub enum TokenType {
    Access,
    Refresh,
}

pub open spec fn lifetime_of(t: TokenType) -> int {
    match t {
        TokenType::Access => ACCESS_TOKEN_LIFETIME as int,
        TokenType::Refresh => REFRESH_TOKEN_LIFETIME as int,
    }
}

/// How a token type is written in the `token_type` claim.
pub open spec fn type_text(t: TokenType) -> Seq<char> {
    match t {
        TokenType::Access => seq!['a', 'c', 'c', 'e', 's', 's'],
        TokenType::Refresh => seq!['r', 'e', 'f', 'r', 'e', 's', 'h'],
    }
}

pub open spec fn type_of_text(s: Seq<char>) -> Option<TokenType> {
    if s == type_text(TokenType::Access) {
        Some(TokenType::Access)
    } else if s == type_text(TokenType::Refresh) {
        Some(TokenType::Refresh)
    } else {
        None
    }
}

/// The payload of a token, as the library hands it out.
#[derive(Debug, Clone)]
pub struct Claims {
    pub sub: String,
    pub exp: i64,
    pub iat: i64,
    pub token_type: TokenType,
}

pub ghost struct ClaimsModel {
    pub sub: Seq<char>,
    pub iat: i64,
    pub exp: i64,
    pub token_type: TokenType,
}

impl View for Claims {
    type V = ClaimsModel;

    open spec fn view(&self) -> ClaimsModel {
        ClaimsModel { sub: self.sub@, iat: self.iat, exp: self.exp, token_type: self.token_type }
    }
}

/// The claim fields as read from a token, before the type is checked.
pub struct RawClaims {
    pub sub: String,
    pub iat: i64,
    pub exp: i64,
    pub token_type: String,
}

/// Why a token could not be opened.
#[derive(Debug, Clone, Copy, PartialEq, Eq, Structural)]
pub enum SealError {
    /// The signature does not match header and payload under the secret.
    BadSignature,
    /// Not a token of the expected shape, or its claims are missing or mistyped.
    Malformed,
}

/// Claim fields `(sub, iat, exp, token_type)`.
pub type ClaimFields = (Seq<char>, i64, i64, Seq<char>);

/// The compact HS256 token that signs the given claims under `secret`.
pub uninterp spec fn jwt_signed(secret: Seq<char>, sub: Seq<char>, iat: i64, exp: i64, kind: Seq<char>) -> Seq<char>;

/// What checking the signature of `token` under `secret` and reading its claims gives.
pub uninterp spec fn jwt_opened(secret: Seq<char>, token: Seq<char>) -> Result<ClaimFields, SealError>;

/// The lower-case hyphenated text of a UUID: its 32 hexadecimal digits in
/// groups of 8, 4, 4, 4 and 12.
pub open spec fn uuid_hyphenated(id: u128) -> Seq<char> {
    let h = hex_text(id as nat, 32);
    h.subrange(0, 8) + seq!['-'] + h.subrange(8, 12) + seq!['-'] + h.subrange(12, 16) + seq!['-']
        + h.subrange(16, 20) + seq!['-'] + h.subrange(20, 32)
}

/// What parsing a text as a UUID gives.
pub uninterp spec fn uuid_parsed(s: Seq<char>) -> Option<u128>;

/// Relies on `jsonwebtoken::encode` with the default header (HS256) and an
/// HMAC key from `secret`: with a key of the header's family and a JSON map
/// as payload it does not fail; the token signs a JSON object with the four
/// claims, and `jsonwebtoken::decode` under the same secret reads them back.
#[verifier::external_body]
fn jwt_sign(secret: &str, sub: &str, iat: i64, exp: i64, kind: &str) -> (r: Option<String>)
    ensures
        r is Some,
        match r {
            Some(t) => {
                &&& t@ == jwt_signed(secret@, sub@, iat, exp, kind@)
                &&& jwt_opened(secret@, t@) == Ok::<ClaimFields, SealError>((sub@, iat, exp, kind@))
            },
            None => false,
        },
{
    let mut c = serde_json::Map::new();
    c.insert("sub".to_string(), Value::from(sub));
    c.insert("iat".to_string(), Value::from(iat));
    c.insert("exp".to_string(), Value::from(exp));
    c.insert("token_type".to_string(), Value::from(kind));
    encode(&Header::default(), &c, &EncodingKey::from_secret(secret.as_bytes())).ok()
}

/// Relies on `jsonwebtoken::decode` with HS256 and no claim validation: it
/// checks the signature under `secret` and hands back the payload, whose four
/// claims are read here.
#[verifier::external_body]
fn jwt_open(secret: &str, token: &str) -> (r: Result<RawClaims, SealError>)
    ensures
        match r {
            Ok(c) => jwt_opened(secret@, token@) == Ok::<ClaimFields, SealError>((c.sub@, c.iat, c.exp, c.token_type@)),
            Err(e) => jwt_opened(secret@, token@) == Err::<ClaimFields, SealError>(e),
        },
{
    let mut rules = Validation::new(Algorithm::HS256);
    rules.validate_exp = false;
    rules.required_spec_claims.clear();
    let c = match decode::<Value>(token, &DecodingKey::from_secret(secret.as_bytes()), &rules) {
        Ok(data) => data.claims,
        Err(e) if matches!(e.kind(), ErrorKind::InvalidSignature) => return Err(BadSignature),
        Err(_) => return Err(Malformed),
    };
    match (c["sub"].as_str(), c["iat"].as_i64(), c["exp"].as_i64(), c["token_type"].as_str()) {
        (Some(s), Some(i), Some(x), Some(t)) => Ok(RawClaims { sub: s.to_string(), iat: i, exp: x, token_type: t.to_string() }),
        _ => Err(Malformed),
    }
}

/// Relies on `uuid::Uuid::hyphenated`: the canonical text of the identifier,
/// which `uuid::Uuid::parse_str` reads back.
#[verifier::external_body]
pub(crate) fn uuid_text(id: u128) -> (r: String)
    ensures
        r@ == uuid_hyphenated(id),
        uuid_parsed(r@) == Some(id),
{
    uuid::Uuid::from_u128(id).hyphenated().to_string()
}

/// Relies on `uuid::Uuid::parse_str`.
#[verifier::external_body]
pub(crate) fn parse_uuid(s: &str) -> (r: Option<u128>)
    ensures
        r == uuid_parsed(s@),
{
    uuid::Uuid::parse_str(s).ok().map(|u| u.as_u128())
}

/// Relies on `chrono::Utc::now`: the current instant in seconds since the
/// epoch. It panics on a system clock before 1970, and a `DateTime` ends with
/// the year 262142, so the reading lies between 0 and 10^13.
#[verifier::external_body]
pub(crate) fn unix_now() -> (r: i64)
    ensures
        0 <= r < 10_000_000_000_000,
{
    chrono::Utc::now().timestamp()
}

pub open spec fn claims_model(id: u128, t: TokenType, now: i64) -> ClaimsModel {
    ClaimsModel { sub: uuid_hyphenated(id), iat: now, exp: (now + lifetime_of(t)) as i64, token_type: t }
}

/// `r` is what issuing a token of type `t` for identity `id` at `now` under
/// `secret` gives: the signed claims when the expiry fits, `Internal` otherwise.
pub open spec fn issued(secret: Seq<char>, id: u128, t: TokenType, now: i64, r: Result<String, AuthError>) -> bool {
    let c = claims_model(id, t, now);
    &&& (r is Ok <==> now + lifetime_of(t) <= i64::MAX)
    &&& (r is Err ==> r == Err::<String, AuthError>(AuthError::Internal))
    &&& (r matches Ok(tok) ==> {
        &&& tok@ == jwt_signed(secret, c.sub, c.iat, c.exp, type_text(t))
        &&& jwt_opened(secret, tok@) == Ok::<ClaimFields, SealError>((c.sub, c.iat, c.exp, type_text(t)))
    })
}

/// What verifying a token at `now` gives, from what opening it gave.
pub open spec fn verify_outcome(opened: Result<ClaimFields, SealError>, now: i64) -> Result<ClaimsModel, AuthError> {
    match opened {
        Err(SealError::BadSignature) => Err(AuthError::InvalidSignature),
        Err(SealError::Malformed) => Err(AuthError::MalformedCredential),
        Ok((sub, iat, exp, kind)) => if exp <= now {
            Err(AuthError::Expired)
        } else {
            match type_of_text(kind) {
                None => Err(AuthError::MalformedCredential),
                Some(t) => Ok(ClaimsModel { sub, iat, exp, token_type: t }),
            }
        },
    }
}

pub open spec fn claims_result(r: Result<Claims, AuthError>) -> Result<ClaimsModel, AuthError> {
    match r {
        Ok(c) => Ok(c@),
        Err(e) => Err(e),
    }
}

/// Mints and verifies tokens under one shared secret.
pub struct JwtService {
    secret: String,
}

impl JwtService {
    pub closed spec fn secret(&self) -> Seq<char> {
        self.secret@
    }

    pub fn new(secret: &str) -> (r: Self)
        ensures
            r.secret() == secret@,
    {
        JwtService { secret: secret.to_owned() }
    }

    fn kind_label(t: TokenType) -> (r: &'static str)
        ensures
            r@ == type_text(t),
    {
        match t {
            TokenType::Access => {
                proof { reveal_strlit("access"); }
                "access"
            },
            TokenType::Refresh => {
                proof { reveal_strlit("refresh"); }
                "refresh"
            },
        }
    }

    /// Signs a token of type `t` for identity `id`, issued at `now`. It fails,
    /// with `Internal`, only when `now` is too late for the token's expiry to
    /// be written.
    pub fn issue_at(&self, id: u128, t: TokenType, now: i64) -> (r: Result<String, AuthError>)
        ensures
            issued(self.secret(), id, t, now, r),
    {
        let late = match t {
            TokenType::Access => now > i64::MAX - ACCESS_TOKEN_LIFETIME,
            TokenType::Refresh => now > i64::MAX - REFRESH_TOKEN_LIFETIME,
        };
        if late {
            return Err(AuthError::Internal);
        }
        let sub = uuid_text(id);
        let exp: i64 = match t {
            TokenType::Access => now + ACCESS_TOKEN_LIFETIME,
            TokenType::Refresh => now + REFRESH_TOKEN_LIFETIME,
        };
        match jwt_sign(self.secret.as_str(), sub.as_str(), now, exp, Self::kind_label(t)) {
            Some(tok) => Ok(tok),
            None => Err(AuthError::Internal),
        }
    }

    /// Signs a token of type `t` for identity `id`, issued at the clock's
    /// current reading, which always leaves room for the expiry.
    pub fn issue(&self, id: u128, t: TokenType) -> (r: Result<String, AuthError>)
        ensures
            r is Ok,
            exists|now: i64| 0 <= now && #[trigger] issued(self.secret(), id, t, now, r),
    {
        let now = unix_now();
        self.issue_at(id, t, now)
    }

    /// An access token for `user_id`, issued at the clock's current reading.
    pub fn generate_access_token(&self, user_id: u128) -> (r: Result<String, AuthError>)
        ensures
            r is Ok,
            exists|now: i64| 0 <= now && #[trigger] issued(self.secret(), user_id, TokenType::Access, now, r),
    {
        self.issue(user_id, TokenType::Access)
    }

    /// A refresh token for `user_id`, issued at the clock's current reading.
    pub fn generate_refresh_token(&self, user_id: u128) -> (r: Result<String, AuthError>)
        ensures
            r is Ok,
            exists|now: i64| 0 <= now && #[trigger] issued(self.secret(), user_id, TokenType::Refresh, now, r),
    {
        self.issue(user_id, TokenType::Refresh)
    }

    /// Checks the signature of `token` and that it has not expired at `now`.
    pub fn verify_at(&self, token: &str, now: i64) -> (r: Result<Claims, AuthError>)
        ensures
            claims_result(r) == verify_outcome(jwt_opened(self.secret(), token@), now),
    {
        let raw = match jwt_open(self.secret.as_str(), token) {
            Ok(raw) => raw,
            Err(SealError::BadSignature) => return Err(AuthError::InvalidSignature),
            Err(SealError::Malformed) => return Err(AuthError::MalformedCredential),
        };
        if raw.exp <= now {
            return Err(AuthError::Expired);
        }
        let access = "access".to_owned();
        let refresh = "refresh".to_owned();
        proof {
            reveal_strlit("access");
            reveal_strlit("refresh");
            assert(access@ =~= type_text(TokenType::Access));
            assert(refresh@ =~= type_text(TokenType::Refresh));
        }
        let token_type = if raw.token_type == access {
            TokenType::Access
        } else if raw.token_type == refresh {
            TokenType::Refresh
        } else {
            return Err(AuthError::MalformedCredential);
        };
        Ok(Claims { sub: raw.sub, exp: raw.exp, iat: raw.iat, token_type })
    }

    /// Trades a refresh token that verifies at `now` for an access token
    /// issued at `now` to the identity it names.
    pub fn refresh_at(&self, refresh_token: &str, now: i64) -> (r: Result<String, AuthError>)
        ensures
            ({
                let v = verify_outcome(jwt_opened(self.secret(), refresh_token@), now);
                match v {
                    Err(e) => r == Err::<String, AuthError>(e),
                    Ok(c) => if c.token_type != TokenType::Refresh {
                        r == Err::<String, AuthError>(AuthError::WrongTokenType)
                    } else {
                        match uuid_parsed(c.sub) {
                            None => r == Err::<String, AuthError>(AuthError::MalformedCredential),
                            Some(id) => (now + ACCESS_TOKEN_LIFETIME <= i64::MAX <==> r is Ok) && match r {
                                Ok(tok) => {
                                    let a = claims_model(id, TokenType::Access, now);
                                    jwt_opened(self.secret(), tok@) == Ok::<ClaimFields, SealError>((a.sub, a.iat, a.exp, type_text(TokenType::Access)))
                                },
                                Err(e) => e == AuthError::Internal,
                            },
                        }
                    },
                }
            }),
    {
        let claims = match self.verify_at(refresh_token, now) {
            Ok(c) => c,
            Err(e) => return Err(e),
        };
        if claims.token_type != TokenType::Refresh {
            return Err(AuthError::WrongTokenType);
        }
        let id = match parse_uuid(claims.sub.as_str()) {
            Some(id) => id,
            None => return Err(AuthError::MalformedCredential),
        };
        self.issue_at(id, TokenType::Access, now)
    }

    /// Checks the signature of `token` and that it has not expired by now.
    pub fn verify_token(&self, token: &str) -> (r: Result<Claims, AuthError>)
        ensures
            exists|now: i64| claims_result(r) == #[trigger] verify_outcome(jwt_opened(self.secret(), token@), now),
    {
        let now = unix_now();
        self.verify_at(token, now)
    }
}

/// A token issued for identity `id` with type `t` at `issued` verifies, at
/// any instant before its expiry, to claims naming that identity and type.
pub proof fn lemma_issued_token_verifies(secret: Seq<char>, token: Seq<char>, id: u128, t: TokenType, issued: i64, now: i64)
    requires
        issued + lifetime_of(t) <= i64::MAX,
        jwt_opened(secret, token) == Ok::<ClaimFields, SealError>((
            claims_model(id, t, issued).sub,
            claims_model(id, t, issued).iat,
            claims_model(id, t, issued).exp,
            type_text(t),
        )),
        now < claims_model(id, t, issued).exp,
    ensures
        verify_outcome(jwt_opened(secret, token), now) == Ok::<ClaimsModel, AuthError>(claims_model(id, t, issued)),
        claims_model(id, t, issued).sub == uuid_hyphenated(id),
        claims_model(id, t, issued).token_type == t,
{
    assert(type_text(TokenType::Access) != type_text(TokenType::Refresh)) by {
        assert(type_text(TokenType::Access).len() != type_text(TokenType::Refresh).len());
    }
}

/// Whatever a token says otherwise, once its expiry is reached it verifies
/// to `Expired`.
pub proof fn lemma_expired_token_rejected(secret: Seq<char>, token: Seq<char>, now: i64)
    requires
        jwt_opened(secret, token) is Ok,
        jwt_opened(secret, token)->Ok_0.2 <= now,
    ensures
        verify_outcome(jwt_opened(secret, token), now) == Err::<ClaimsModel, AuthError>(AuthError::Expired),
{
}

} // verus!
