use vstd::prelude::*;
use crate::error::AuthError;
use crate::models::User;
use crate::users::{
    activated, activation_digests_unique, activation_held, arming, first_activation, first_live_reset, first_reset, live_reset_index, lookup_activation, lookup_id,
    lookup_live_reset, lookup_pending, lookup_reset, password_reset, reset_index, updated_by,
    with_reset, UserRepository,
};

verus! {

/// The digest stored in place of a raw one-time token.
pub uninterp spec fn digest_of(raw: Seq<char>) -> u128;

/// Relies on `md5::compute` over the UTF-8 bytes of `raw`; the sixteen bytes
/// are read as one big-endian integer.
#[verifier::external_body]
fn token_digest(raw: &str) -> (r: u128)
    ensures
        r == digest_of(raw@),
{
    u128::from_be_bytes(md5::compute(raw.as_bytes()).0)
}

/// Relies on `uuid::Uuid::new_v4`: 122 random bits, as 32 hexadecimal digits.
#[verifier::external_body]
fn random_token() -> (r: String) {
    uuid::Uuid::new_v4().simple().to_string()
}

/// The digest under which a raw one-time token is stored.
pub fn digest_token(raw: &str) -> (r: u128)
    ensures
        r == digest_of(raw@),
{
    token_digest(raw)
}

/// What a reset token with digest `d` decides at `now` among accounts `s`:
/// the first holder whose request is still usable; otherwise `Expired` when
/// some account holds the digest, and `IdentityNotFound` when none does.
pub open spec fn reset_choice(s: Seq<User>, d: u128, now: i64) -> Result<int, AuthError> {
    match lookup_live_reset(s, d, now) {
        Some(i) => Ok(i),
        None => if lookup_reset(s, d) is Some {
            Err(AuthError::Expired)
        } else {
            Err(AuthError::IdentityNotFound)
        },
    }
}

/// Store and result after a reset token with digest `d` and a new password
/// digest are presented at `now`.
pub open spec fn reset_outcome(s: Seq<User>, d: u128, hash: String, now: i64) -> (Seq<User>, Result<User, AuthError>) {
    match reset_choice(s, d, now) {
        Ok(i) => (s.update(i, password_reset(s[i], hash, now)), Ok(password_reset(s[i], hash, now))),
        Err(e) => (s, Err(e)),
    }
}

/// The one-time token that turns a pending account into an active one.
pub struct ActivationFlow;

impl ActivationFlow {
    /// Arms the pending account `id` with the digest of `raw`, replacing any
    /// earlier one; refused with `Internal` when another account holds it.
    pub fn begin_with(repo: &mut UserRepository, id: u128, raw: &str, now: i64) -> (r: Result<User, AuthError>)
        requires
            old(repo).wf(),
        ensures
            final(repo).wf(),
            (final(repo)@, r) == arming(old(repo)@, id, digest_of(raw@), now),
    {
        let d = digest_token(raw);
        repo.set_activation_digest(id, d, now)
    }

    /// Arms the pending account `id` with a fresh random token and returns
    /// the raw token for delivery to its owner.
    pub fn begin(repo: &mut UserRepository, id: u128, now: i64) -> (r: Result<String, AuthError>)
        requires
            old(repo).wf(),
        ensures
            final(repo).wf(),
            match r {
                Ok(raw) => arming(old(repo)@, id, digest_of(raw@), now).1 is Ok && final(repo)@ == arming(old(repo)@, id, digest_of(raw@), now).0,
                Err(e) => final(repo)@ == old(repo)@ && (lookup_pending(old(repo)@, id) is None <==> e == AuthError::IdentityNotFound)
                    && (e == AuthError::IdentityNotFound || e == AuthError::Internal),
            },
    {
        let raw = random_token();
        match Self::begin_with(repo, id, raw.as_str(), now) {
            Ok(_) => Ok(raw),
            Err(e) => Err(e),
        }
    }

    /// Decides a presented activation token from the account found by its
    /// digest: that account, activated at `now`.
    pub fn decide(found: Option<User>, now: i64) -> (r: Result<User, AuthError>)
        ensures
            r == (match found {
                Some(u) => Ok::<User, AuthError>(activated(u, now)),
                None => Err::<User, AuthError>(AuthError::IdentityNotFound),
            }),
    {
        match found {
            Some(u) => Ok(User { activated: true, activated_at: Some(now), activation_digest: None, updated_at: now, ..u }),
            None => Err(AuthError::IdentityNotFound),
        }
    }

    /// Activates the account holding the digest of `raw`.
    pub fn consume(repo: &mut UserRepository, raw: &str, now: i64) -> (r: Result<User, AuthError>)
        requires
            old(repo).wf(),
        ensures
            final(repo).wf(),
            updated_by(old(repo)@, lookup_activation(old(repo)@, digest_of(raw@)), |u: User| activated(u, now), final(repo)@, r),
    {
        let d = digest_token(raw);
        match repo.find_by_activation_token(d) {
            Some(u) => {
                proof {
                    repo.lemma_lookup_own_id(lookup_activation(repo@, d)->0);
                }
                repo.activate(u.id, now)
            },
            None => Err(AuthError::IdentityNotFound),
        }
    }
}

/// The time-limited token that lets an account owner set a new password.
pub struct PasswordResetFlow;

impl PasswordResetFlow {
    /// Records at `now` a reset request with the digest of `raw` on account
    /// `id`; a later request replaces an earlier one.
    pub fn begin_with(repo: &mut UserRepository, id: u128, raw: &str, now: i64) -> (r: Result<User, AuthError>)
        requires
            old(repo).wf(),
        ensures
            final(repo).wf(),
            updated_by(old(repo)@, lookup_id(old(repo)@, id), |u: User| with_reset(u, digest_of(raw@), now), final(repo)@, r),
    {
        let d = digest_token(raw);
        repo.set_reset_token(id, d, now)
    }

    /// Records a reset request with a fresh random token and returns the raw
    /// token for delivery to the account owner.
    pub fn begin(repo: &mut UserRepository, id: u128, now: i64) -> (r: Result<String, AuthError>)
        requires
            old(repo).wf(),
        ensures
            final(repo).wf(),
            match r {
                Ok(raw) => updated_by(old(repo)@, lookup_id(old(repo)@, id), |u: User| with_reset(u, digest_of(raw@), now), final(repo)@, Ok(final(repo)@[lookup_id(old(repo)@, id)->0])),
                Err(e) => e == AuthError::IdentityNotFound && lookup_id(old(repo)@, id) is None && final(repo)@ == old(repo)@,
            },
    {
        let raw = random_token();
        match Self::begin_with(repo, id, raw.as_str(), now) {
            Ok(_) => Ok(raw),
            Err(e) => Err(e),
        }
    }

    /// Decides a presented reset token among the accounts holding its
    /// digest: the index of the holder whose password is to be set.
    pub fn choose_holder(holders: &Vec<User>, digest: u128, now: i64) -> (r: Result<usize, AuthError>)
        ensures
            match r {
                Ok(i) => reset_choice(holders@, digest, now) == Ok::<int, AuthError>(i as int),
                Err(e) => reset_choice(holders@, digest, now) == Err::<int, AuthError>(e),
            },
    {
        match live_reset_index(holders, digest, now) {
            Some(i) => Ok(i),
            None => if reset_index(holders, digest).is_some() {
                Err(AuthError::Expired)
            } else {
                Err(AuthError::IdentityNotFound)
            },
        }
    }

    /// The record of an account whose reset token was accepted at `now`: the
    /// new password digest set and the reset request cleared.
    pub fn reset_record(u: User, new_password_hash: String, now: i64) -> (r: User)
        ensures
            r == password_reset(u, new_password_hash, now),
    {
        User { password_digest: new_password_hash, reset_digest: None, reset_sent_at: None, updated_at: now, ..u }
    }

    /// Sets `new_password_hash` on the account whose reset digest is that of
    /// `raw`, when its request is less than two hours old at `now`.
    pub fn consume(repo: &mut UserRepository, raw: &str, new_password_hash: String, now: i64) -> (r: Result<User, AuthError>)
        requires
            old(repo).wf(),
        ensures
            final(repo).wf(),
            (final(repo)@, r) == reset_outcome(old(repo)@, digest_of(raw@), new_password_hash, now),
    {
        let d = digest_token(raw);
        match repo.find_by_reset_token(d, now) {
            Some(u) => {
                proof {
                    repo.lemma_lookup_own_id(lookup_live_reset(repo@, d, now)->0);
                }
                repo.reset_password(u.id, new_password_hash, now)
            },
            None => if repo.find_by_reset_digest(d).is_some() {
                Err(AuthError::Expired)
            } else {
                Err(AuthError::IdentityNotFound)
            },
        }
    }
}

/// Consuming an activation token leaves its account active and without a
/// digest; since no other account holds that digest, presenting the same
/// token again finds no account.
pub proof fn lemma_activation_single_use(s: Seq<User>, d: u128, now: i64)
    requires
        activation_digests_unique(s),
        lookup_activation(s, d) is Some,
    ensures
        ({
            let i = lookup_activation(s, d)->0;
            let after = s.update(i, activated(s[i], now));
            &&& after[i].activated
            &&& after[i].activation_digest is None
            &&& lookup_activation(after, d) is None
        }),
{
    let i = lookup_activation(s, d)->0;
    assert(first_activation(s, d, i));
    let after = s.update(i, activated(s[i], now));
    if lookup_activation(after, d) is Some {
        let j = lookup_activation(after, d)->0;
        assert(first_activation(after, d, j));
        assert(s[i].activation_digest != s[j].activation_digest);
    }
}

/// A new account starts pending with its activation digest set; presenting
/// the raw token of that digest activates it and clears the digest, and
/// presenting it again finds no account.
pub proof fn lemma_signup_activation(s: Seq<User>, u: User, d: u128, now: i64)
    requires
        activation_digests_unique(s),
        !activation_held(s, d),
        !u.activated,
        u.activation_digest == Some(d),
    ensures
        ({
            let s1 = s.push(u);
            let after = s1.update(s.len() as int, activated(u, now));
            &&& lookup_activation(s1, d) == Some(s.len() as int)
            &&& after[s.len() as int].activated
            &&& after[s.len() as int].activation_digest is None
            &&& lookup_activation(after, d) is None
        }),
{
    let s1 = s.push(u);
    let n = s.len() as int;
    assert forall|j: int| 0 <= j < n implies s1[j].activation_digest != Some(d) by {
        assert(s1[j] == s[j]);
        if s[j].activation_digest == Some(d) {
            assert(activation_held(s, d));
        }
    }
    assert(first_activation(s1, d, n));
    let c = choose|k: int| first_activation(s1, d, k);
    assert(c == n);
    let after = s1.update(n, activated(u, now));
    if lookup_activation(after, d) is Some {
        let j = lookup_activation(after, d)->0;
        assert(first_activation(after, d, j));
        assert(s1[j].activation_digest != Some(d));
    }
}

/// Consuming a reset token clears the account's reset request, so the same
/// token never sets a password on that account again, at any later instant.
pub proof fn lemma_reset_single_use(s: Seq<User>, d: u128, hash: String, now: i64, later: i64)
    requires
        reset_outcome(s, d, hash, now).1 is Ok,
    ensures
        ({
            let i = lookup_live_reset(s, d, now)->0;
            let after = reset_outcome(s, d, hash, now).0;
            &&& after[i].reset_digest is None
            &&& after[i].reset_sent_at is None
            &&& lookup_reset(after, d) matches Some(j) ==> j != i
            &&& lookup_live_reset(after, d, later) matches Some(j) ==> j != i
        }),
{
    let i = lookup_live_reset(s, d, now)->0;
    assert(first_live_reset(s, d, now, i));
    let after = reset_outcome(s, d, hash, now).0;
    if lookup_reset(after, d) is Some {
        let j = lookup_reset(after, d)->0;
        assert(first_reset(after, d, j));
    }
    if lookup_live_reset(after, d, later) is Some {
        let j = lookup_live_reset(after, d, later)->0;
        assert(first_live_reset(after, d, later, j));
    }
}

} // verus!
