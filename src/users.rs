use vstd::prelude::*;
use crate::error::AuthError;
use crate::models::{CreateUserRequest, UpdateUserRequest, User};

verus! {

/// The account after a successful activation at `now`.
pub open spec fn activated(u: User, now: i64) -> User {
    User { activated: true, activated_at: Some(now), activation_digest: None, updated_at: now, ..u }
}

/// The account with a fresh activation digest.
pub open spec fn with_activation_digest(u: User, d: u128, now: i64) -> User {
    User { activation_digest: Some(d), updated_at: now, ..u }
}

/// The account with a reset requested at `now`.
pub open spec fn with_reset(u: User, d: u128, now: i64) -> User {
    User { reset_digest: Some(d), reset_sent_at: Some(now), updated_at: now, ..u }
}

/// The account with no reset outstanding.
pub open spec fn reset_cleared(u: User, now: i64) -> User {
    User { reset_digest: None, reset_sent_at: None, updated_at: now, ..u }
}

/// The account with a new password digest and no reset outstanding.
pub open spec fn password_reset(u: User, hash: String, now: i64) -> User {
    User { password_digest: hash, ..reset_cleared(u, now) }
}

/// The account at index `idx`, if there is one.
pub open spec fn found(s: Seq<User>, idx: Option<int>) -> Option<User> {
    match idx {
        Some(i) => Some(s[i]),
        None => None,
    }
}

/// The index of the account with identifier `id`, when it is still pending.
pub open spec fn lookup_pending(s: Seq<User>, id: u128) -> Option<int> {
    match lookup_id(s, id) {
        Some(i) => if s[i].activated { None } else { Some(i) },
        None => None,
    }
}

/// `i` is the first account whose email is `e`.
pub open spec fn first_email(s: Seq<User>, e: Seq<char>, i: int) -> bool {
    &&& 0 <= i < s.len()
    &&& s[i].email@ == e
    &&& forall|j: int| 0 <= j < i ==> s[j].email@ != e
}

pub open spec fn lookup_email(s: Seq<User>, e: Seq<char>) -> Option<int> {
    if exists|i: int| first_email(s, e, i) {
        Some(choose|i: int| first_email(s, e, i))
    } else {
        None
    }
}

/// The account that signup creates.
pub open spec fn new_account(id: u128, req: &CreateUserRequest, password_hash: Seq<char>, d: u128, now: i64, u: User) -> bool {
    &&& u.id == id
    &&& u.name == req.name
    &&& u.email@ == lower_of(req.email@)
    &&& u.password_digest@ == password_hash
    &&& !u.admin
    &&& !u.activated
    &&& u.activated_at is None
    &&& u.activation_digest == Some(d)
    &&& u.reset_digest is None
    &&& u.reset_sent_at is None
    &&& u.created_at == now
    &&& u.updated_at == now
}

/// `s2` and `r` are the store and result after the account at index `idx`
/// is changed by `f`; with no index, nothing changes and the account is not found.
pub open spec fn updated_by(s: Seq<User>, idx: Option<int>, f: spec_fn(User) -> User, s2: Seq<User>, r: Result<User, AuthError>) -> bool {
    match idx {
        Some(i) => r == Ok::<User, AuthError>(f(s[i])) && s2 == s.update(i, f(s[i])),
        None => r == Err::<User, AuthError>(AuthError::IdentityNotFound) && s2 == s,
    }
}

pub open spec fn ids_unique(s: Seq<User>) -> bool {
    forall|i: int, j: int|
        #![trigger s[i], s[j]]
        0 <= i < s.len() && 0 <= j < s.len() && i != j ==> s[i].id != s[j].id
}

/// No two accounts hold the same activation digest.
pub open spec fn activation_digests_unique(s: Seq<User>) -> bool {
    forall|i: int, j: int|
        #![trigger s[i], s[j]]
        0 <= i < s.len() && 0 <= j < s.len() && i != j && s[i].activation_digest is Some
            ==> s[i].activation_digest != s[j].activation_digest
}

/// Some account holds activation digest `d`.
pub open spec fn activation_held(s: Seq<User>, d: u128) -> bool {
    exists|j: int| 0 <= j < s.len() && s[j].activation_digest == Some(d)
}

/// Some account other than the one at index `i` holds activation digest `d`.
pub open spec fn activation_held_elsewhere(s: Seq<User>, d: u128, i: int) -> bool {
    exists|j: int| 0 <= j < s.len() && j != i && s[j].activation_digest == Some(d)
}

/// Store and result after the pending account `id` is armed with activation
/// digest `d` at `now`: refused with `Internal` when another account holds `d`.
pub open spec fn arming(s: Seq<User>, id: u128, d: u128, now: i64) -> (Seq<User>, Result<User, AuthError>) {
    match lookup_pending(s, id) {
        None => (s, Err(AuthError::IdentityNotFound)),
        Some(i) => if activation_held_elsewhere(s, d, i) {
            (s, Err(AuthError::Internal))
        } else {
            (s.update(i, with_activation_digest(s[i], d, now)), Ok(with_activation_digest(s[i], d, now)))
        },
    }
}

pub open spec fn all_wf(s: Seq<User>) -> bool {
    forall|i: int| 0 <= i < s.len() ==> #[trigger] s[i].wf()
}

pub open spec fn has_id(s: Seq<User>, id: u128, i: int) -> bool {
    0 <= i < s.len() && s[i].id == id
}

/// The index of the account with identifier `id`, if any.
pub open spec fn lookup_id(s: Seq<User>, id: u128) -> Option<int> {
    if exists|i: int| has_id(s, id, i) {
        Some(choose|i: int| has_id(s, id, i))
    } else {
        None
    }
}

/// `i` is the first account whose activation digest is `d`.
pub open spec fn first_activation(s: Seq<User>, d: u128, i: int) -> bool {
    &&& 0 <= i < s.len()
    &&& s[i].activation_digest == Some(d)
    &&& forall|j: int| 0 <= j < i ==> s[j].activation_digest != Some(d)
}

pub open spec fn lookup_activation(s: Seq<User>, d: u128) -> Option<int> {
    if exists|i: int| first_activation(s, d, i) {
        Some(choose|i: int| first_activation(s, d, i))
    } else {
        None
    }
}

/// `i` is the first account whose reset digest is `d`.
pub open spec fn first_reset(s: Seq<User>, d: u128, i: int) -> bool {
    &&& 0 <= i < s.len()
    &&& s[i].reset_digest == Some(d)
    &&& forall|j: int| 0 <= j < i ==> s[j].reset_digest != Some(d)
}

pub open spec fn lookup_reset(s: Seq<User>, d: u128) -> Option<int> {
    if exists|i: int| first_reset(s, d, i) {
        Some(choose|i: int| first_reset(s, d, i))
    } else {
        None
    }
}

/// The account holds reset digest `d` from a request still usable at `now`.
pub open spec fn live_reset(u: User, d: u128, now: i64) -> bool {
    &&& u.reset_digest == Some(d)
    &&& u.reset_sent_at is Some
    &&& within_reset_window(u.reset_sent_at->0, now)
}

/// `i` is the first account holding reset digest `d` from a request still
/// usable at `now`.
pub open spec fn first_live_reset(s: Seq<User>, d: u128, now: i64, i: int) -> bool {
    &&& 0 <= i < s.len()
    &&& live_reset(s[i], d, now)
    &&& forall|j: int| 0 <= j < i ==> !live_reset(s[j], d, now)
}

pub open spec fn lookup_live_reset(s: Seq<User>, d: u128, now: i64) -> Option<int> {
    if exists|i: int| first_live_reset(s, d, now, i) {
        Some(choose|i: int| first_live_reset(s, d, now, i))
    } else {
        None
    }
}

/// The index of the first account in `users` whose reset digest is `d`.
pub fn reset_index(users: &Vec<User>, d: u128) -> (r: Option<usize>)
    ensures
        r matches Some(i) ==> lookup_reset(users@, d) == Some(i as int),
        r is None ==> lookup_reset(users@, d) is None,
{
    let mut i: usize = 0;
    while i < users.len()
        invariant
            i <= users@.len(),
            forall|j: int| 0 <= j < i ==> users@[j].reset_digest != Some(d),
        decreases users@.len() - i,
    {
        if users[i].reset_digest == Some(d) {
            assert(first_reset(users@, d, i as int));
            let ghost c = choose|k: int| first_reset(users@, d, k);
            assert(c == i);
            return Some(i);
        }
        i += 1;
    }
    None
}

/// The index of the first account in `users` holding reset digest `d` from a
/// request still usable at `now`.
pub fn live_reset_index(users: &Vec<User>, d: u128, now: i64) -> (r: Option<usize>)
    ensures
        r matches Some(i) ==> lookup_live_reset(users@, d, now) == Some(i as int),
        r is None ==> lookup_live_reset(users@, d, now) is None,
{
    let mut i: usize = 0;
    while i < users.len()
        invariant
            i <= users@.len(),
            forall|j: int| 0 <= j < i ==> !live_reset(users@[j], d, now),
        decreases users@.len() - i,
    {
        let live = match users[i].reset_sent_at {
            Some(sent) => users[i].reset_digest == Some(d) && (now as i128) - (sent as i128) < RESET_WINDOW as i128,
            None => false,
        };
        if live {
            assert(first_live_reset(users@, d, now, i as int));
            let ghost c = choose|k: int| first_live_reset(users@, d, now, k);
            assert(c == i);
            return Some(i);
        }
        i += 1;
    }
    None
}

/// Seconds a password-reset request stays usable (two hours).
pub const RESET_WINDOW: i64 = 7200;

/// A reset requested at `sent` can still be used at `now`.
pub open spec fn within_reset_window(sent: i64, now: i64) -> bool {
    now - sent < RESET_WINDOW
}

/// What `str::to_lowercase` gives; it depends on the characters alone.
pub uninterp spec fn lower_of(s: Seq<char>) -> Seq<char>;

/// Relies on `str::to_lowercase`.
#[verifier::external_body]
pub(crate) fn lowercase(s: &str) -> (r: String)
    ensures
        r@ == lower_of(s@),
{
    s.to_lowercase()
}

/// Why an edit of an account was refused.
#[derive(Debug, Clone, Copy, PartialEq, Eq, Structural)]
pub enum UpdateError {
    /// The edit names no field to change.
    NoFieldsToUpdate,
    /// No account has the identifier.
    NotFound,
}

/// `u2` is `u` edited by `req` and `password_hash` at `now`: present fields
/// replace the old ones, the email in lower case.
pub open spec fn edited(u: User, req: &UpdateUserRequest, password_hash: Option<&str>, now: i64, u2: User) -> bool {
    &&& u2.name == (match req.name { Some(n) => n, None => u.name })
    &&& u2.email@ == (match req.email { Some(e) => lower_of(e@), None => u.email@ })
    &&& u2.password_digest@ == (match password_hash { Some(h) => h@, None => u.password_digest@ })
    &&& u2.updated_at == now
    &&& u2.id == u.id
    &&& u2.admin == u.admin
    &&& u2.activated == u.activated
    &&& u2.activated_at == u.activated_at
    &&& u2.activation_digest == u.activation_digest
    &&& u2.reset_digest == u.reset_digest
    &&& u2.reset_sent_at == u.reset_sent_at
    &&& u2.created_at == u.created_at
}

/// The store of accounts: identifiers are unique, no activation digest is
/// held twice, and every account keeps its invariant.
pub struct UserRepository {
    users: Vec<User>,
}

impl View for UserRepository {
    type V = Seq<User>;

    closed spec fn view(&self) -> Seq<User> {
        self.users@
    }
}

impl User {
    /// A field-by-field copy.
    pub fn duplicate(&self) -> (r: User)
        ensures
            r == *self,
    {
        User {
            id: self.id,
            name: self.name.clone(),
            email: self.email.clone(),
            password_digest: self.password_digest.clone(),
            admin: self.admin,
            activated: self.activated,
            activated_at: self.activated_at,
            activation_digest: self.activation_digest,
            reset_digest: self.reset_digest,
            reset_sent_at: self.reset_sent_at,
            created_at: self.created_at,
            updated_at: self.updated_at,
        }
    }
}

impl UserRepository {
    pub open spec fn wf(&self) -> bool {
        ids_unique(self@) && activation_digests_unique(self@) && all_wf(self@)
    }

    pub fn new() -> (r: Self)
        ensures
            r.wf(),
            r@ == Seq::<User>::empty(),
    {
        UserRepository { users: Vec::new() }
    }

    pub fn len(&self) -> (r: usize)
        ensures
            r == self@.len(),
    {
        self.users.len()
    }

    fn index_of_id(&self, id: u128) -> (r: Option<usize>)
        requires
            self.wf(),
        ensures
            r matches Some(i) ==> lookup_id(self@, id) == Some(i as int),
            r is None ==> lookup_id(self@, id) is None,
    {
        let mut i: usize = 0;
        while i < self.users.len()
            invariant
                i <= self.users@.len(),
                self.wf(),
                forall|j: int| 0 <= j < i ==> self.users@[j].id != id,
            decreases self.users@.len() - i,
        {
            if self.users[i].id == id {
                assert(has_id(self@, id, i as int));
                let ghost c = choose|k: int| has_id(self@, id, k);
                assert(self@[c].id == self@[i as int].id);
                assert(c == i);
                return Some(i);
            }
            i += 1;
        }
        None
    }

    fn index_of_activation(&self, d: u128) -> (r: Option<usize>)
        ensures
            r matches Some(i) ==> lookup_activation(self@, d) == Some(i as int),
            r is None ==> lookup_activation(self@, d) is None && !activation_held(self@, d),
    {
        let mut i: usize = 0;
        while i < self.users.len()
            invariant
                i <= self.users@.len(),
                forall|j: int| 0 <= j < i ==> self.users@[j].activation_digest != Some(d),
            decreases self.users@.len() - i,
        {
            if self.users[i].activation_digest == Some(d) {
                assert(first_activation(self@, d, i as int));
                let ghost c = choose|k: int| first_activation(self@, d, k);
                assert(c == i);
                return Some(i);
            }
            i += 1;
        }
        None
    }

    pub proof fn lemma_lookup_own_id(&self, i: int)
        requires
            self.wf(),
            0 <= i < self@.len(),
        ensures
            lookup_id(self@, self@[i].id) == Some(i),
    {
        assert(has_id(self@, self@[i].id, i));
        let c = choose|k: int| has_id(self@, self@[i].id, k);
        assert(self@[c].id == self@[i].id);
    }

    fn replace_at(&mut self, i: usize, u: User)
        requires
            old(self).wf(),
            i < old(self)@.len(),
            u.wf(),
            u.id == old(self)@[i as int].id,
            u.activation_digest is None || u.activation_digest == old(self)@[i as int].activation_digest
                || !activation_held_elsewhere(old(self)@, u.activation_digest->0, i as int),
        ensures
            final(self).wf(),
            final(self)@ == old(self)@.update(i as int, u),
    {
        let ghost before = self@;
        self.users.set(i, u);
        assert forall|a: int, b: int|
            #![trigger self@[a], self@[b]]
            0 <= a < self@.len() && 0 <= b < self@.len() && a != b implies self@[a].id != self@[b].id by {
            assert(before[a].id != before[b].id);
        }
        assert forall|a: int, b: int|
            #![trigger self@[a], self@[b]]
            0 <= a < self@.len() && 0 <= b < self@.len() && a != b && self@[a].activation_digest is Some
                implies self@[a].activation_digest != self@[b].activation_digest by {
            if a != i && b != i {
                assert(before[a].activation_digest != before[b].activation_digest);
            } else if a == i {
                if u.activation_digest == before[i as int].activation_digest {
                    assert(before[a].activation_digest != before[b].activation_digest);
                } else if self@[b].activation_digest == self@[a].activation_digest {
                    assert(activation_held_elsewhere(before, u.activation_digest->0, i as int));
                }
            } else {
                if self@[b].activation_digest == self@[a].activation_digest {
                    if u.activation_digest == before[i as int].activation_digest {
                        assert(before[a].activation_digest != before[b].activation_digest);
                    } else {
                        assert(activation_held_elsewhere(before, u.activation_digest->0, i as int));
                    }
                }
            }
        }
    }

    /// Adds a pending account; `None` when `id` is taken or another account
    /// already holds the activation digest.
    pub fn create(&mut self, id: u128, req: &CreateUserRequest, password_hash: &str, activation_digest: u128, now: i64) -> (r: Option<User>)
        requires
            old(self).wf(),
        ensures
            final(self).wf(),
            (lookup_id(old(self)@, id) is Some || activation_held(old(self)@, activation_digest)) <==> r is None,
            r is None ==> final(self)@ == old(self)@,
            r matches Some(u) ==> new_account(id, req, password_hash@, activation_digest, now, u) && final(self)@ == old(self)@.push(u),
    {
        if self.index_of_id(id).is_some() {
            return None;
        }
        if self.index_of_activation(activation_digest).is_some() {
            return None;
        }
        let u = User {
            id,
            name: req.name.clone(),
            email: lowercase(req.email.as_str()),
            password_digest: password_hash.to_owned(),
            admin: false,
            activated: false,
            activated_at: None,
            activation_digest: Some(activation_digest),
            reset_digest: None,
            reset_sent_at: None,
            created_at: now,
            updated_at: now,
        };
        let ghost before = self@;
        self.users.push(u.duplicate());
        assert forall|a: int, b: int|
            #![trigger self@[a], self@[b]]
            0 <= a < self@.len() && 0 <= b < self@.len() && a != b implies self@[a].id != self@[b].id by {
            if a < before.len() && b < before.len() {
                assert(before[a].id != before[b].id);
            } else if a < before.len() {
                assert(!has_id(before, id, a));
            } else {
                assert(!has_id(before, id, b));
            }
        }
        assert forall|a: int, b: int|
            #![trigger self@[a], self@[b]]
            0 <= a < self@.len() && 0 <= b < self@.len() && a != b && self@[a].activation_digest is Some
                implies self@[a].activation_digest != self@[b].activation_digest by {
            if a < before.len() && b < before.len() {
                assert(before[a].activation_digest != before[b].activation_digest);
            }
        }
        Some(u)
    }

    pub fn find_by_id(&self, id: u128) -> (r: Option<User>)
        requires
            self.wf(),
        ensures
            r == found(self@, lookup_id(self@, id)),
    {
        match self.index_of_id(id) {
            Some(i) => Some(self.users[i].duplicate()),
            None => None,
        }
    }

    /// The first account whose email is `email` in lower case.
    pub fn find_by_email(&self, email: &str) -> (r: Option<User>)
        ensures
            r == found(self@, lookup_email(self@, lower_of(email@))),
    {
        let e = lowercase(email);
        let mut i: usize = 0;
        while i < self.users.len()
            invariant
                i <= self.users@.len(),
                e@ == lower_of(email@),
                forall|j: int| 0 <= j < i ==> self.users@[j].email@ != e@,
            decreases self.users@.len() - i,
        {
            if self.users[i].email == e {
                assert(first_email(self@, e@, i as int));
                let ghost c = choose|k: int| first_email(self@, e@, k);
                assert(c == i);
                return Some(self.users[i].duplicate());
            }
            i += 1;
        }
        None
    }

    /// The first account whose activation digest is `digest`.
    pub fn find_by_activation_token(&self, digest: u128) -> (r: Option<User>)
        ensures
            r == found(self@, lookup_activation(self@, digest)),
    {
        match self.index_of_activation(digest) {
            Some(i) => Some(self.users[i].duplicate()),
            None => None,
        }
    }

    /// The first account whose reset digest is `digest`, whatever its age.
    pub fn find_by_reset_digest(&self, digest: u128) -> (r: Option<User>)
        ensures
            r == found(self@, lookup_reset(self@, digest)),
    {
        match reset_index(&self.users, digest) {
            Some(i) => Some(self.users[i].duplicate()),
            None => None,
        }
    }

    /// The first account holding reset digest `digest` from a request still
    /// within its window at `now`.
    pub fn find_by_reset_token(&self, digest: u128, now: i64) -> (r: Option<User>)
        ensures
            r == found(self@, lookup_live_reset(self@, digest, now)),
    {
        match live_reset_index(&self.users, digest, now) {
            Some(i) => Some(self.users[i].duplicate()),
            None => None,
        }
    }

    /// Marks the account with identifier `id` active.
    pub fn activate(&mut self, id: u128, now: i64) -> (r: Result<User, AuthError>)
        requires
            old(self).wf(),
        ensures
            final(self).wf(),
            updated_by(old(self)@, lookup_id(old(self)@, id), |u: User| activated(u, now), final(self)@, r),
    {
        match self.index_of_id(id) {
            Some(i) => {
                let u = self.users[i].duplicate();
                assert(self@[i as int].wf());
                let nu = User { activated: true, activated_at: Some(now), activation_digest: None, updated_at: now, ..u };
                assert(nu == activated(self@[i as int], now));
                self.replace_at(i, nu.duplicate());
                Ok(nu)
            },
            None => Err(AuthError::IdentityNotFound),
        }
    }

    /// Gives the pending account with identifier `id` a new activation digest;
    /// `Internal` when another account already holds that digest.
    pub fn set_activation_digest(&mut self, id: u128, digest: u128, now: i64) -> (r: Result<User, AuthError>)
        requires
            old(self).wf(),
        ensures
            final(self).wf(),
            (final(self)@, r) == arming(old(self)@, id, digest, now),
    {
        match self.index_of_id(id) {
            Some(i) => {
                if self.users[i].activated {
                    return Err(AuthError::IdentityNotFound);
                }
                match self.index_of_activation(digest) {
                    Some(j) => {
                        if j != i {
                            assert(activation_held_elsewhere(self@, digest, i as int));
                            return Err(AuthError::Internal);
                        }
                        assert(!activation_held_elsewhere(self@, digest, i as int)) by {
                            if activation_held_elsewhere(self@, digest, i as int) {
                                let k = choose|k: int| 0 <= k < self@.len() && k != i && self@[k].activation_digest == Some(digest);
                                assert(self@[i as int].activation_digest != self@[k].activation_digest);
                            }
                        }
                    },
                    None => {},
                }
                let u = self.users[i].duplicate();
                assert(self@[i as int].wf());
                let nu = User { activation_digest: Some(digest), updated_at: now, ..u };
                assert(nu == with_activation_digest(self@[i as int], digest, now));
                self.replace_at(i, nu.duplicate());
                Ok(nu)
            },
            None => Err(AuthError::IdentityNotFound),
        }
    }

    /// Records a reset request at `now` on the account with identifier `id`.
    pub fn set_reset_token(&mut self, id: u128, digest: u128, now: i64) -> (r: Result<User, AuthError>)
        requires
            old(self).wf(),
        ensures
            final(self).wf(),
            updated_by(old(self)@, lookup_id(old(self)@, id), |u: User| with_reset(u, digest, now), final(self)@, r),
    {
        match self.index_of_id(id) {
            Some(i) => {
                let u = self.users[i].duplicate();
                assert(self@[i as int].wf());
                let nu = User { reset_digest: Some(digest), reset_sent_at: Some(now), updated_at: now, ..u };
                assert(nu == with_reset(self@[i as int], digest, now));
                self.replace_at(i, nu.duplicate());
                Ok(nu)
            },
            None => Err(AuthError::IdentityNotFound),
        }
    }

    /// Drops any reset request of the account with identifier `id`.
    pub fn clear_reset_token(&mut self, id: u128, now: i64) -> (r: Result<User, AuthError>)
        requires
            old(self).wf(),
        ensures
            final(self).wf(),
            updated_by(old(self)@, lookup_id(old(self)@, id), |u: User| reset_cleared(u, now), final(self)@, r),
    {
        match self.index_of_id(id) {
            Some(i) => {
                let u = self.users[i].duplicate();
                assert(self@[i as int].wf());
                let nu = User { reset_digest: None, reset_sent_at: None, updated_at: now, ..u };
                assert(nu == reset_cleared(self@[i as int], now));
                self.replace_at(i, nu.duplicate());
                Ok(nu)
            },
            None => Err(AuthError::IdentityNotFound),
        }
    }

    /// Sets a new password digest on the account with identifier `id` and
    /// drops its reset request.
    pub fn reset_password(&mut self, id: u128, password_hash: String, now: i64) -> (r: Result<User, AuthError>)
        requires
            old(self).wf(),
        ensures
            final(self).wf(),
            updated_by(old(self)@, lookup_id(old(self)@, id), |u: User| password_reset(u, password_hash, now), final(self)@, r),
    {
        match self.index_of_id(id) {
            Some(i) => {
                let u = self.users[i].duplicate();
                assert(self@[i as int].wf());
                let nu = User { password_digest: password_hash, reset_digest: None, reset_sent_at: None, updated_at: now, ..u };
                assert(nu == password_reset(self@[i as int], nu.password_digest, now));
                self.replace_at(i, nu.duplicate());
                Ok(nu)
            },
            None => Err(AuthError::IdentityNotFound),
        }
    }

    /// Edits the account with identifier `id`: each field that `req` or
    /// `password_hash` carries replaces the stored one.
    pub fn update(&mut self, id: u128, req: &UpdateUserRequest, password_hash: Option<&str>, now: i64) -> (r: Result<User, UpdateError>)
        requires
            old(self).wf(),
        ensures
            final(self).wf(),
            req.name is None && req.email is None && password_hash is None ==> r == Err::<User, UpdateError>(UpdateError::NoFieldsToUpdate),
            !(req.name is None && req.email is None && password_hash is None) && lookup_id(old(self)@, id) is None
                ==> r == Err::<User, UpdateError>(UpdateError::NotFound),
            !(req.name is None && req.email is None && password_hash is None) && lookup_id(old(self)@, id) is Some
                ==> r is Ok,
            r is Err ==> final(self)@ == old(self)@,
            r matches Ok(u2) ==> ({
                let i = lookup_id(old(self)@, id)->0;
                &&& lookup_id(old(self)@, id) is Some
                &&& edited(old(self)@[i], req, password_hash, now, u2)
                &&& final(self)@ == old(self)@.update(i, u2)
            }),
    {
        if req.name.is_none() && req.email.is_none() && password_hash.is_none() {
            return Err(UpdateError::NoFieldsToUpdate);
        }
        let i = match self.index_of_id(id) {
            Some(i) => i,
            None => return Err(UpdateError::NotFound),
        };
        let u = self.users[i].duplicate();
        assert(self@[i as int].wf());
        let name = match &req.name {
            Some(n) => n.clone(),
            None => u.name.clone(),
        };
        let email = match &req.email {
            Some(e) => lowercase(e.as_str()),
            None => u.email.clone(),
        };
        let password_digest = match password_hash {
            Some(h) => h.to_owned(),
            None => u.password_digest.clone(),
        };
        let nu = User { name, email, password_digest, updated_at: now, ..u };
        self.replace_at(i, nu.duplicate());
        Ok(nu)
    }

    /// Removes the account with identifier `id`, if there is one.
    pub fn delete(&mut self, id: u128)
        requires
            old(self).wf(),
        ensures
            final(self).wf(),
            final(self)@ == (match lookup_id(old(self)@, id) {
                Some(i) => old(self)@.remove(i),
                None => old(self)@,
            }),
    {
        if let Some(i) = self.index_of_id(id) {
            let ghost before = self@;
            self.users.remove(i);
            assert forall|a: int, b: int|
                #![trigger self@[a], self@[b]]
                0 <= a < self@.len() && 0 <= b < self@.len() && a != b implies self@[a].id != self@[b].id by {
                let a0 = if a < i { a } else { a + 1 };
                let b0 = if b < i { b } else { b + 1 };
                assert(before[a0].id != before[b0].id);
            }
            assert forall|a: int, b: int|
                #![trigger self@[a], self@[b]]
                0 <= a < self@.len() && 0 <= b < self@.len() && a != b && self@[a].activation_digest is Some
                    implies self@[a].activation_digest != self@[b].activation_digest by {
                let a0 = if a < i { a } else { a + 1 };
                let b0 = if b < i { b } else { b + 1 };
                assert(before[a0].activation_digest != before[b0].activation_digest);
            }
            assert forall|a: int| 0 <= a < self@.len() implies #[trigger] self@[a].wf() by {
                let a0 = if a < i { a } else { a + 1 };
                assert(before[a0].wf());
            }
        }
    }
}

} // verus!
