use vstd::prelude::*;
use crate::error::{status_of, AuthError};
use crate::jwt::{jwt_opened, uuid_parsed, verify_outcome, JwtService, TokenType};
use crate::models::User;
use crate::users::{found, lookup_id, UserRepository};

verus! {

/// The scheme word that opens an `Authorization` header value.
pub open spec fn bearer_prefix() -> Seq<char> {
    seq!['B', 'e', 'a', 'r', 'e', 'r', ' ']
}

/// The token carried by an `Authorization` header value, if it has the bearer form.
pub open spec fn bearer_of(h: Seq<char>) -> Option<Seq<char>> {
    if bearer_prefix().len() <= h.len() && h.subrange(0, bearer_prefix().len() as int) == bearer_prefix() {
        Some(h.subrange(bearer_prefix().len() as int, h.len() as int))
    } else {
        None
    }
}

pub open spec fn text_of(h: Option<&str>) -> Option<Seq<char>> {
    match h {
        Some(s) => Some(s@),
        None => None,
    }
}

/// Steps one to four of the required gate: from the header to an identifier.
pub open spec fn credential_outcome(secret: Seq<char>, header: Option<Seq<char>>, now: i64) -> Result<u128, AuthError> {
    match (match header { Some(h) => bearer_of(h), None => None }) {
        None => Err(AuthError::MissingCredential),
        Some(token) => match verify_outcome(jwt_opened(secret, token), now) {
            Err(e) => Err(e),
            Ok(c) => if c.token_type != TokenType::Access {
                Err(AuthError::WrongTokenType)
            } else {
                match uuid_parsed(c.sub) {
                    None => Err(AuthError::MalformedCredential),
                    Some(id) => Ok(id),
                }
            },
        },
    }
}

/// Steps five and six of the required gate: from the looked-up account to an identity.
pub open spec fn acceptance(found: Option<User>) -> Result<User, AuthError> {
    match found {
        None => Err(AuthError::IdentityNotFound),
        Some(u) => if u.activated { Ok(u) } else { Err(AuthError::IdentityNotActivated) },
    }
}

/// What the required gate resolves a request to.
pub open spec fn gate_outcome(secret: Seq<char>, s: Seq<User>, header: Option<Seq<char>>, now: i64) -> Result<User, AuthError> {
    match credential_outcome(secret, header, now) {
        Err(e) => Err(e),
        Ok(id) => acceptance(found(s, lookup_id(s, id))),
    }
}

/// What the optional gate attaches to a request.
pub open spec fn optional_outcome(secret: Seq<char>, s: Seq<User>, header: Option<Seq<char>>, now: i64) -> Option<User> {
    match gate_outcome(secret, s, header, now) {
        Ok(u) => Some(u),
        Err(_) => None,
    }
}

/// What the admin gate decides for the identity attached to a request.
pub open spec fn admin_outcome(identity: Option<User>) -> Result<(), AuthError> {
    match identity {
        None => Err(AuthError::Unauthenticated),
        Some(u) => if u.admin { Ok(()) } else { Err(AuthError::InsufficientPrivilege) },
    }
}

/// Relies on `str::strip_prefix`: the rest of `s` after `p`, when `s` starts with `p`.
#[verifier::external_body]
fn strip_prefix<'a>(s: &'a str, p: &str) -> (r: Option<&'a str>)
    ensures
        match r {
            Some(rest) => s@ == p@ + rest@,
            None => !(p@.len() <= s@.len() && s@.subrange(0, p@.len() as int) == p@),
        },
{
    s.strip_prefix(p)
}

/// The token of a `Bearer` header value.
pub fn bearer_token<'a>(header: Option<&'a str>) -> (r: Option<&'a str>)
    ensures
        text_of(r) == (match text_of(header) { Some(h) => bearer_of(h), None => None }),
{
    match header {
        None => None,
        Some(h) => {
            proof { reveal_strlit("Bearer "); }
            let r = strip_prefix(h, "Bearer ");
            proof {
                assert("Bearer "@ =~= bearer_prefix());
                if let Some(rest) = r {
                    assert(h@.subrange(0, 7) =~= bearer_prefix());
                    assert(h@.subrange(7, h@.len() as int) =~= rest@);
                }
            }
            r
        },
    }
}

/// Resolves the `Authorization` header to the identifier that its access
/// token names.
pub fn authenticate_credential(jwt: &JwtService, header: Option<&str>, now: i64) -> (r: Result<u128, AuthError>)
    ensures
        r == credential_outcome(jwt.secret(), text_of(header), now),
{
    let token = match bearer_token(header) {
        Some(t) => t,
        None => return Err(AuthError::MissingCredential),
    };
    let claims = match jwt.verify_at(token, now) {
        Ok(c) => c,
        Err(e) => return Err(e),
    };
    if claims.token_type != TokenType::Access {
        return Err(AuthError::WrongTokenType);
    }
    match crate::jwt::parse_uuid(claims.sub.as_str()) {
        Some(id) => Ok(id),
        None => Err(AuthError::MalformedCredential),
    }
}

/// Accepts a looked-up account as the request's identity when it exists
/// and is active.
pub fn accept_identity(found: Option<User>) -> (r: Result<User, AuthError>)
    ensures
        r == acceptance(found),
{
    match found {
        None => Err(AuthError::IdentityNotFound),
        Some(u) => if u.activated {
            Ok(u)
        } else {
            Err(AuthError::IdentityNotActivated)
        },
    }
}

/// The required gate: the identity that the request's bearer token
/// resolves to, or why there is none.
pub fn auth_middleware(jwt: &JwtService, repo: &UserRepository, header: Option<&str>, now: i64) -> (r: Result<User, AuthError>)
    requires
        repo.wf(),
    ensures
        r == gate_outcome(jwt.secret(), repo@, text_of(header), now),
{
    match authenticate_credential(jwt, header, now) {
        Err(e) => Err(e),
        Ok(id) => accept_identity(repo.find_by_id(id)),
    }
}

/// The optional gate: the identity, when the required gate would accept the
/// request; no identity otherwise.
pub fn optional_auth_middleware(jwt: &JwtService, repo: &UserRepository, header: Option<&str>, now: i64) -> (r: Option<User>)
    requires
        repo.wf(),
    ensures
        r == optional_outcome(jwt.secret(), repo@, text_of(header), now),
{
    match auth_middleware(jwt, repo, header, now) {
        Ok(u) => Some(u),
        Err(_) => None,
    }
}

/// The admin gate, run on the identity an earlier gate attached.
pub fn admin_middleware(identity: Option<&User>) -> (r: Result<(), AuthError>)
    ensures
        r == admin_outcome(match identity { Some(u) => Some(*u), None => None }),
{
    match identity {
        None => Err(AuthError::Unauthenticated),
        Some(u) => if u.admin {
            Ok(())
        } else {
            Err(AuthError::InsufficientPrivilege)
        },
    }
}

/// A refresh token that would otherwise verify is never accepted by the
/// required gate, whatever the store holds.
pub proof fn lemma_refresh_token_rejected(secret: Seq<char>, s: Seq<User>, token: Seq<char>, now: i64)
    requires
        verify_outcome(jwt_opened(secret, token), now) is Ok,
        verify_outcome(jwt_opened(secret, token), now)->Ok_0.token_type == TokenType::Refresh,
    ensures
        credential_outcome(secret, Some(bearer_prefix() + token), now) == Err::<u128, AuthError>(AuthError::WrongTokenType),
        gate_outcome(secret, s, Some(bearer_prefix() + token), now) == Err::<User, AuthError>(AuthError::WrongTokenType),
        optional_outcome(secret, s, Some(bearer_prefix() + token), now) is None,
{
    let h = bearer_prefix() + token;
    assert(h.subrange(0, 7) =~= bearer_prefix());
    assert(h.subrange(7, h.len() as int) =~= token);
}

/// For an identity that the required gate resolved, the admin gate passes
/// the request on exactly when the identity is an administrator, and
/// otherwise answers 403.
pub proof fn lemma_admin_gate_after_auth(secret: Seq<char>, s: Seq<User>, header: Option<Seq<char>>, now: i64)
    requires
        gate_outcome(secret, s, header, now) is Ok,
    ensures
        ({
            let u = gate_outcome(secret, s, header, now)->Ok_0;
            &&& u.admin ==> admin_outcome(Some(u)) == Ok::<(), AuthError>(())
            &&& !u.admin ==> admin_outcome(Some(u)) == Err::<(), AuthError>(AuthError::InsufficientPrivilege)
            &&& !u.admin ==> status_of(AuthError::InsufficientPrivilege) == 403
        }),
{
}

} // verus!
