use rust_boilerplate::error::AuthError;
use rust_boilerplate::flows::{ActivationFlow, PasswordResetFlow};
use rust_boilerplate::jwt::{Claims, JwtService, TokenType};
use rust_boilerplate::middleware::{
    accept_identity, admin_middleware, auth_middleware, authenticate_credential, bearer_token,
    optional_auth_middleware,
};
use rust_boilerplate::models::{CreateUserRequest, User};
use rust_boilerplate::users::UserRepository;

const T0: i64 = 1_700_000_000;
const ALICE: u128 = 0x0123_4567_89ab_cdef_0123_4567_89ab_cdef;
const BOB: u128 = 42;

fn md5_of(raw: &str) -> u128 {
    u128::from_be_bytes(md5::compute(raw.as_bytes()).0)
}

fn uuid_text(id: u128) -> String {
    uuid::Uuid::from_u128(id).hyphenated().to_string()
}

fn signup(repo: &mut UserRepository, id: u128, email: &str, raw: &str) -> User {
    let req = CreateUserRequest {
        name: "Alice".to_string(),
        email: email.to_string(),
        password: "secret1".to_string(),
        password_confirmation: "secret1".to_string(),
    };
    repo.create(id, &req, "hash0", md5_of(raw), T0).unwrap()
}

fn active_repo() -> UserRepository {
    let mut repo = UserRepository::new();
    signup(&mut repo, ALICE, "alice@example.com", "first");
    ActivationFlow::consume(&mut repo, "first", T0).unwrap();
    repo
}

fn bearer(tok: &str) -> String {
    format!("Bearer {}", tok)
}

#[test]
fn status_codes() {
    assert_eq!(AuthError::InsufficientPrivilege.status_code(), 403);
    assert_eq!(AuthError::Expired.status_code(), 401);
    assert_eq!(AuthError::MissingCredential.status_code(), 401);
    assert_eq!(AuthError::IdentityNotActivated.status_code(), 401);
    assert_eq!(AuthError::Internal.status_code(), 500);
}

#[test]
fn access_token_round_trip() {
    let jwt = JwtService::new("s3cret");
    let tok = jwt.issue_at(ALICE, TokenType::Access, T0).unwrap();
    let c: Claims = jwt.verify_at(&tok, T0 + 3599).unwrap();
    assert_eq!(c.sub, uuid_text(ALICE));
    assert_eq!(c.iat, T0);
    assert_eq!(c.exp, T0 + 3600);
    assert_eq!(c.token_type, TokenType::Access);
}

#[test]
fn refresh_token_round_trip() {
    let jwt = JwtService::new("s3cret");
    let tok = jwt.issue_at(BOB, TokenType::Refresh, T0).unwrap();
    let c = jwt.verify_at(&tok, T0 + 2_591_999).unwrap();
    assert_eq!(c.sub, uuid_text(BOB));
    assert_eq!(c.exp, T0 + 2_592_000);
    assert_eq!(c.token_type, TokenType::Refresh);
}

#[test]
fn token_expires_at_its_expiry() {
    let jwt = JwtService::new("s3cret");
    let tok = jwt.issue_at(ALICE, TokenType::Access, T0).unwrap();
    assert_eq!(jwt.verify_at(&tok, T0 + 3600).unwrap_err(), AuthError::Expired);
    assert_eq!(jwt.verify_at(&tok, T0 + 100_000).unwrap_err(), AuthError::Expired);
    let r = jwt.issue_at(ALICE, TokenType::Refresh, T0).unwrap();
    assert_eq!(jwt.verify_at(&r, T0 + 2_592_000).unwrap_err(), AuthError::Expired);
}

#[test]
fn altered_signature_is_rejected() {
    let jwt = JwtService::new("s3cret");
    let tok = jwt.issue_at(ALICE, TokenType::Access, T0).unwrap();
    let dot = tok.rfind('.').unwrap();
    let mut bytes = tok.clone().into_bytes();
    let k = dot + 5;
    bytes[k] = if bytes[k] == b'A' { b'B' } else { b'A' };
    let forged = String::from_utf8(bytes).unwrap();
    assert_ne!(forged, tok);
    assert_eq!(jwt.verify_at(&forged, T0 + 1).unwrap_err(), AuthError::InvalidSignature);
}

#[test]
fn other_secret_is_rejected() {
    let tok = JwtService::new("one").issue_at(ALICE, TokenType::Access, T0).unwrap();
    let other = JwtService::new("two");
    assert_eq!(other.verify_at(&tok, T0 + 1).unwrap_err(), AuthError::InvalidSignature);
}

#[test]
fn garbage_is_malformed() {
    let jwt = JwtService::new("s3cret");
    assert_eq!(jwt.verify_at("not-a-token", T0).unwrap_err(), AuthError::MalformedCredential);
    assert_eq!(jwt.verify_at("", T0).unwrap_err(), AuthError::MalformedCredential);
}

#[test]
fn tokens_from_the_clock_verify_now() {
    let jwt = JwtService::new("s3cret");
    let a = jwt.generate_access_token(ALICE).unwrap();
    let c = jwt.verify_token(&a).unwrap();
    assert_eq!(c.token_type, TokenType::Access);
    assert_eq!(c.exp - c.iat, 3600);
    let r = jwt.generate_refresh_token(ALICE).unwrap();
    let c = jwt.verify_token(&r).unwrap();
    assert_eq!(c.token_type, TokenType::Refresh);
    assert_eq!(c.exp - c.iat, 2_592_000);
}

#[test]
fn bearer_prefix_is_required() {
    assert_eq!(bearer_token(Some("Bearer abc.def")), Some("abc.def"));
    assert_eq!(bearer_token(Some("Bearer ")), Some(""));
    assert_eq!(bearer_token(Some("bearer abc")), None);
    assert_eq!(bearer_token(Some("Basic abc")), None);
    assert_eq!(bearer_token(Some("Bearer")), None);
    assert_eq!(bearer_token(None), None);
}

#[test]
fn gate_resolves_active_identity() {
    let jwt = JwtService::new("s3cret");
    let repo = active_repo();
    let tok = jwt.issue_at(ALICE, TokenType::Access, T0).unwrap();
    let h = bearer(&tok);
    let u = auth_middleware(&jwt, &repo, Some(&h), T0 + 10).unwrap();
    assert_eq!(u.id, ALICE);
    assert!(u.activated);
    assert_eq!(authenticate_credential(&jwt, Some(&h), T0 + 10), Ok(ALICE));
    assert_eq!(optional_auth_middleware(&jwt, &repo, Some(&h), T0 + 10).unwrap().id, ALICE);
}

#[test]
fn gate_rejects_refresh_token() {
    let jwt = JwtService::new("s3cret");
    let repo = active_repo();
    let tok = jwt.issue_at(ALICE, TokenType::Refresh, T0).unwrap();
    let h = bearer(&tok);
    assert_eq!(auth_middleware(&jwt, &repo, Some(&h), T0 + 10).unwrap_err(), AuthError::WrongTokenType);
    assert!(optional_auth_middleware(&jwt, &repo, Some(&h), T0 + 10).is_none());
}

#[test]
fn gate_failures() {
    let jwt = JwtService::new("s3cret");
    let mut repo = active_repo();
    assert_eq!(auth_middleware(&jwt, &repo, None, T0).unwrap_err(), AuthError::MissingCredential);
    assert_eq!(auth_middleware(&jwt, &repo, Some("Token x"), T0).unwrap_err(), AuthError::MissingCredential);
    assert_eq!(auth_middleware(&jwt, &repo, Some("Bearer x"), T0).unwrap_err(), AuthError::MalformedCredential);
    let tok = jwt.issue_at(ALICE, TokenType::Access, T0).unwrap();
    let h = bearer(&tok);
    assert_eq!(auth_middleware(&jwt, &repo, Some(&h), T0 + 3600).unwrap_err(), AuthError::Expired);
    let bob = jwt.issue_at(BOB, TokenType::Access, T0).unwrap();
    let hb = bearer(&bob);
    assert_eq!(auth_middleware(&jwt, &repo, Some(&hb), T0).unwrap_err(), AuthError::IdentityNotFound);
    signup(&mut repo, BOB, "bob@example.com", "bobtoken");
    assert_eq!(auth_middleware(&jwt, &repo, Some(&hb), T0).unwrap_err(), AuthError::IdentityNotActivated);
    assert!(optional_auth_middleware(&jwt, &repo, Some(&hb), T0).is_none());
    assert!(optional_auth_middleware(&jwt, &repo, None, T0).is_none());
}

#[test]
fn accept_identity_cases() {
    let mut repo = UserRepository::new();
    let u = signup(&mut repo, BOB, "bob@example.com", "t");
    assert_eq!(accept_identity(None).unwrap_err(), AuthError::IdentityNotFound);
    assert_eq!(accept_identity(Some(u)).unwrap_err(), AuthError::IdentityNotActivated);
}

#[test]
fn admin_gate() {
    let repo = active_repo();
    let mut u = repo.find_by_id(ALICE).unwrap();
    assert_eq!(admin_middleware(None).unwrap_err(), AuthError::Unauthenticated);
    assert_eq!(admin_middleware(None).unwrap_err().status_code(), 401);
    assert_eq!(admin_middleware(Some(&u)).unwrap_err(), AuthError::InsufficientPrivilege);
    assert_eq!(admin_middleware(Some(&u)).unwrap_err().status_code(), 403);
    u.admin = true;
    assert_eq!(admin_middleware(Some(&u)), Ok(()));
}

#[test]
fn signup_creates_pending_identity() {
    let mut repo = UserRepository::new();
    let u = signup(&mut repo, ALICE, "Alice@Example.COM", "first");
    assert!(!u.activated);
    assert_eq!(u.activation_digest, Some(md5_of("first")));
    assert_eq!(u.email, "alice@example.com");
    assert!(u.reset_digest.is_none() && u.reset_sent_at.is_none());
    assert_eq!(repo.len(), 1);
    assert_eq!(repo.find_by_email("ALICE@example.com").unwrap().id, ALICE);
    assert!(repo.find_by_email("bob@example.com").is_none());
    let req = CreateUserRequest {
        name: "Other".to_string(),
        email: "other@example.com".to_string(),
        password: "pw1234".to_string(),
        password_confirmation: "pw1234".to_string(),
    };
    assert!(repo.create(ALICE, &req, "h", 1, T0).is_none());
    assert_eq!(repo.len(), 1);
}

#[test]
fn activation_is_single_use() {
    let mut repo = UserRepository::new();
    signup(&mut repo, ALICE, "alice@example.com", "initial");
    let armed = ActivationFlow::begin_with(&mut repo, ALICE, "abc123", T0 + 5).unwrap();
    assert_eq!(armed.activation_digest, Some(md5_of("abc123")));
    assert_eq!(repo.find_by_activation_token(md5_of("abc123")).unwrap().id, ALICE);
    assert_eq!(ActivationFlow::consume(&mut repo, "initial", T0 + 6).unwrap_err(), AuthError::IdentityNotFound);
    let u = ActivationFlow::consume(&mut repo, "abc123", T0 + 10).unwrap();
    assert!(u.activated);
    assert_eq!(u.activation_digest, None);
    assert_eq!(u.activated_at, Some(T0 + 10));
    assert!(repo.find_by_id(ALICE).unwrap().activated);
    assert_eq!(ActivationFlow::consume(&mut repo, "abc123", T0 + 11).unwrap_err(), AuthError::IdentityNotFound);
    assert_eq!(ActivationFlow::begin_with(&mut repo, ALICE, "again", T0 + 12).unwrap_err(), AuthError::IdentityNotFound);
}

#[test]
fn activation_with_random_token() {
    let mut repo = UserRepository::new();
    signup(&mut repo, ALICE, "alice@example.com", "initial");
    let raw = ActivationFlow::begin(&mut repo, ALICE, T0).unwrap();
    assert_eq!(repo.find_by_id(ALICE).unwrap().activation_digest, Some(md5_of(&raw)));
    assert!(ActivationFlow::consume(&mut repo, &raw, T0 + 1).unwrap().activated);
    assert_eq!(ActivationFlow::begin(&mut repo, BOB, T0).unwrap_err(), AuthError::IdentityNotFound);
}

#[test]
fn reset_within_window() {
    let mut repo = active_repo();
    let armed = PasswordResetFlow::begin_with(&mut repo, ALICE, "reset-me", T0).unwrap();
    assert_eq!(armed.reset_digest, Some(md5_of("reset-me")));
    assert_eq!(armed.reset_sent_at, Some(T0));
    let u = PasswordResetFlow::consume(&mut repo, "reset-me", "hash1".to_string(), T0 + 7140).unwrap();
    assert_eq!(u.password_digest, "hash1");
    assert!(u.reset_digest.is_none() && u.reset_sent_at.is_none());
    let stored = repo.find_by_id(ALICE).unwrap();
    assert_eq!(stored.password_digest, "hash1");
    assert!(stored.reset_digest.is_none());
    assert_eq!(
        PasswordResetFlow::consume(&mut repo, "reset-me", "hash2".to_string(), T0 + 7150).unwrap_err(),
        AuthError::IdentityNotFound
    );
}

#[test]
fn reset_after_window() {
    let mut repo = active_repo();
    PasswordResetFlow::begin_with(&mut repo, ALICE, "reset-me", T0).unwrap();
    assert!(repo.find_by_reset_token(md5_of("reset-me"), T0 + 7199).is_some());
    assert!(repo.find_by_reset_token(md5_of("reset-me"), T0 + 7200).is_none());
    assert_eq!(
        PasswordResetFlow::consume(&mut repo, "reset-me", "hash1".to_string(), T0 + 7260).unwrap_err(),
        AuthError::Expired
    );
    assert_eq!(repo.find_by_id(ALICE).unwrap().password_digest, "hash0");
    assert_eq!(
        PasswordResetFlow::consume(&mut repo, "wrong", "hash1".to_string(), T0 + 10).unwrap_err(),
        AuthError::IdentityNotFound
    );
}

#[test]
fn reset_last_request_wins() {
    let mut repo = active_repo();
    PasswordResetFlow::begin_with(&mut repo, ALICE, "first", T0).unwrap();
    PasswordResetFlow::begin_with(&mut repo, ALICE, "second", T0 + 100).unwrap();
    assert_eq!(
        PasswordResetFlow::consume(&mut repo, "first", "h".to_string(), T0 + 200).unwrap_err(),
        AuthError::IdentityNotFound
    );
    assert!(PasswordResetFlow::consume(&mut repo, "second", "h".to_string(), T0 + 7299).is_ok());
    let raw = PasswordResetFlow::begin(&mut repo, ALICE, T0).unwrap();
    assert_eq!(repo.find_by_id(ALICE).unwrap().reset_digest, Some(md5_of(&raw)));
    assert!(repo.clear_reset_token(ALICE, T0).unwrap().reset_digest.is_none());
    assert_eq!(PasswordResetFlow::begin(&mut repo, BOB, T0).unwrap_err(), AuthError::IdentityNotFound);
}

#[test]
fn refresh_exchange() {
    let jwt = JwtService::new("s3cret");
    let r = jwt.issue_at(ALICE, TokenType::Refresh, T0).unwrap();
    let a = jwt.refresh_at(&r, T0 + 86_400).unwrap();
    let c = jwt.verify_at(&a, T0 + 86_401).unwrap();
    assert_eq!(c.token_type, TokenType::Access);
    assert_eq!(c.sub, uuid_text(ALICE));
    assert_eq!(c.iat, T0 + 86_400);
    assert_eq!(c.exp, T0 + 86_400 + 3600);
    let access = jwt.issue_at(ALICE, TokenType::Access, T0).unwrap();
    assert_eq!(jwt.refresh_at(&access, T0 + 1).unwrap_err(), AuthError::WrongTokenType);
    assert_eq!(jwt.refresh_at(&r, T0 + 2_592_000).unwrap_err(), AuthError::Expired);
    assert_eq!(jwt.refresh_at("x.y.z", T0).unwrap_err(), AuthError::MalformedCredential);
}

#[test]
fn activation_digest_is_held_once() {
    let mut repo = UserRepository::new();
    signup(&mut repo, ALICE, "alice@example.com", "shared");
    let req = CreateUserRequest {
        name: "Bob".to_string(),
        email: "bob@example.com".to_string(),
        password: "secret1".to_string(),
        password_confirmation: "secret1".to_string(),
    };
    assert!(repo.create(BOB, &req, "h", md5_of("shared"), T0).is_none());
    signup(&mut repo, BOB, "bob@example.com", "own");
    assert_eq!(ActivationFlow::begin_with(&mut repo, BOB, "shared", T0 + 1).unwrap_err(), AuthError::Internal);
    assert_eq!(repo.find_by_id(BOB).unwrap().activation_digest, Some(md5_of("own")));
    assert!(ActivationFlow::begin_with(&mut repo, ALICE, "shared", T0 + 2).is_ok());
    assert!(ActivationFlow::consume(&mut repo, "shared", T0 + 3).unwrap().activated);
    assert_eq!(ActivationFlow::consume(&mut repo, "shared", T0 + 4).unwrap_err(), AuthError::IdentityNotFound);
}

#[test]
fn activation_decision() {
    let mut repo = UserRepository::new();
    let u = signup(&mut repo, ALICE, "alice@example.com", "t");
    let a = ActivationFlow::decide(Some(u), T0 + 9).unwrap();
    assert!(a.activated);
    assert_eq!(a.activated_at, Some(T0 + 9));
    assert_eq!(a.activation_digest, None);
    assert_eq!(a.updated_at, T0 + 9);
    assert_eq!(ActivationFlow::decide(None, T0).unwrap_err(), AuthError::IdentityNotFound);
}

#[test]
fn reset_finds_the_holder_within_its_window() {
    let mut repo = active_repo();
    signup(&mut repo, BOB, "bob@example.com", "bobtoken");
    PasswordResetFlow::begin_with(&mut repo, ALICE, "same", T0).unwrap();
    PasswordResetFlow::begin_with(&mut repo, BOB, "same", T0 + 8000).unwrap();
    assert_eq!(repo.find_by_reset_token(md5_of("same"), T0 + 8100).unwrap().id, BOB);
    let u = PasswordResetFlow::consume(&mut repo, "same", "bobhash".to_string(), T0 + 8100).unwrap();
    assert_eq!(u.id, BOB);
    assert_eq!(repo.find_by_id(ALICE).unwrap().password_digest, "hash0");
    assert_eq!(
        PasswordResetFlow::consume(&mut repo, "same", "x".to_string(), T0 + 8200).unwrap_err(),
        AuthError::Expired
    );
}

#[test]
fn reset_holder_choice() {
    let mut repo = active_repo();
    signup(&mut repo, BOB, "bob@example.com", "bobtoken");
    let stale = PasswordResetFlow::begin_with(&mut repo, ALICE, "same", T0).unwrap();
    let fresh = PasswordResetFlow::begin_with(&mut repo, BOB, "same", T0 + 8000).unwrap();
    let d = md5_of("same");
    let holders = vec![stale.clone(), fresh];
    assert_eq!(PasswordResetFlow::choose_holder(&holders, d, T0 + 8100), Ok(1));
    assert_eq!(PasswordResetFlow::choose_holder(&holders, d, T0 + 100), Ok(0));
    assert_eq!(PasswordResetFlow::choose_holder(&vec![stale], d, T0 + 7200), Err(AuthError::Expired));
    assert_eq!(PasswordResetFlow::choose_holder(&holders, md5_of("other"), T0), Err(AuthError::IdentityNotFound));
    assert_eq!(PasswordResetFlow::choose_holder(&Vec::new(), d, T0), Err(AuthError::IdentityNotFound));
}

#[test]
fn issuing_at_the_edge_of_the_clock() {
    let jwt = JwtService::new("s3cret");
    assert!(jwt.issue_at(ALICE, TokenType::Access, i64::MAX - 3600).is_ok());
    assert_eq!(jwt.issue_at(ALICE, TokenType::Access, i64::MAX - 3599).unwrap_err(), AuthError::Internal);
    assert!(jwt.issue_at(ALICE, TokenType::Refresh, i64::MAX - 2_592_000).is_ok());
    assert_eq!(jwt.issue_at(ALICE, TokenType::Refresh, i64::MAX - 2_591_999).unwrap_err(), AuthError::Internal);
    assert!(jwt.issue(ALICE, TokenType::Refresh).is_ok());
}

#[test]
fn reset_record_fields() {
    let mut repo = active_repo();
    let armed = PasswordResetFlow::begin_with(&mut repo, ALICE, "r", T0).unwrap();
    let u = PasswordResetFlow::reset_record(armed, "newhash".to_string(), T0 + 60);
    assert_eq!(u.password_digest, "newhash");
    assert!(u.reset_digest.is_none() && u.reset_sent_at.is_none());
    assert_eq!(u.updated_at, T0 + 60);
    assert_eq!(u.id, ALICE);
    assert!(u.activated);
}
