use vstd::prelude::*;
use vstd::string::StringExecFns;
use crate::flows::{digest_of, digest_token};
use crate::text::{decimal_of, decimal_text, hex_of, hex_text};
use crate::users::{lower_of, lowercase};

verus! {

/// A registered account. Identifiers and digests are 128-bit values and
/// instants are seconds since the Unix epoch.
#[derive(Debug, Clone)]
pub struct User {
    pub id: u128,
    pub name: String,
    pub email: String,
    pub password_digest: String,
    pub admin: bool,
    pub activated: bool,
    pub activated_at: Option<i64>,
    pub activation_digest: Option<u128>,
    pub reset_digest: Option<u128>,
    pub reset_sent_at: Option<i64>,
    pub created_at: i64,
    pub updated_at: i64,
}

impl User {
    /// A pending account holds an activation digest and an active one does
    /// not; a reset digest always comes with the instant it was requested.
    pub open spec fn wf(&self) -> bool {
        &&& (!self.activated <==> self.activation_digest is Some)
        &&& (self.reset_digest is Some <==> self.reset_sent_at is Some)
    }
}

/// Signup form.
pub struct CreateUserRequest {
    pub name: String,
    pub email: String,
    pub password: String,
    pub password_confirmation: String,
}

/// Profile edit form; absent fields stay as they are.
pub struct UpdateUserRequest {
    pub name: Option<String>,
    pub email: Option<String>,
    pub password: Option<String>,
    pub password_confirmation: Option<String>,
}

/// Login form.
pub struct LoginRequest {
    pub email: String,
    pub password: String,
    pub remember_me: Option<bool>,
}

/// New micropost form.
pub struct CreateMicropostRequest {
    pub content: String,
    pub picture: Option<String>,
}

/// Micropost edit form.
pub struct UpdateMicropostRequest {
    pub content: Option<String>,
    pub picture: Option<String>,
}

/// Page model of a static page.
pub struct StaticPageTemplate {
    pub title: String,
    pub content: String,
    pub page: String,
}

/// The pages served from fixed text.
#[derive(Debug, Clone, Copy, PartialEq, Eq, Structural)]
pub enum StaticPage {
    Home,
    About,
    Help,
    Contact,
}

/// Title, body text and page key of each fixed page.
pub open spec fn static_page_text(p: StaticPage) -> (Seq<char>, Seq<char>, Seq<char>) {
    match p {
        StaticPage::Home => ("Home"@, "Welcome to the Sample App"@, "home"@),
        StaticPage::About => ("About"@, "This is the About page for the Sample App"@, "about"@),
        StaticPage::Help => ("Help"@, "Get help on the Sample App"@, "help"@),
        StaticPage::Contact => ("Contact"@, "Contact the Sample App"@, "contact"@),
    }
}

impl StaticPageTemplate {
    /// The page model of a fixed page.
    pub fn of(p: StaticPage) -> (r: StaticPageTemplate)
        ensures
            (r.title@, r.content@, r.page@) == static_page_text(p),
    {
        let (title, content, page) = match p {
            StaticPage::Home => ("Home", "Welcome to the Sample App", "home"),
            StaticPage::About => ("About", "This is the About page for the Sample App", "about"),
            StaticPage::Help => ("Help", "Get help on the Sample App", "help"),
            StaticPage::Contact => ("Contact", "Contact the Sample App", "contact"),
        };
        StaticPageTemplate { title: title.to_owned(), content: content.to_owned(), page: page.to_owned() }
    }
}

/// Page model of the signup form.
pub struct SignupTemplate {
    pub title: String,
    pub errors: Vec<String>,
}

/// Page model of the login form.
pub struct LoginTemplate {
    pub title: String,
    pub errors: Vec<String>,
}

/// What trimming white space from both ends of a text gives.
pub uninterp spec fn trimmed(s: Seq<char>) -> Seq<char>;

/// Relies on `str::trim`.
#[verifier::external_body]
fn trim(s: &str) -> (r: &str)
    ensures
        r@ == trimmed(s@),
{
    s.trim()
}

/// The avatar address of an email: the MD5 of the trimmed, lower-cased
/// address in hexadecimal, with the requested size in pixels.
pub open spec fn gravatar_text(email: Seq<char>, size: u32) -> Seq<char> {
    "https://www.gravatar.com/avatar/"@ + hex_text(digest_of(lower_of(trimmed(email))) as nat, 32)
        + "?s="@ + decimal_text(size as nat) + "&d=identicon"@
}

/// The avatar address of `email` at `size` pixels.
pub fn gravatar_url(email: &str, size: u32) -> (r: String)
    ensures
        r@ == gravatar_text(email@, size),
{
    let key = lowercase(trim(email));
    let hash = hex_of(digest_token(key.as_str()), 32);
    let r = "https://www.gravatar.com/avatar/".to_owned().concat(hash.as_str()).concat("?s=");
    r.concat(decimal_of(size).as_str()).concat("&d=identicon")
}

/// An account as shown to clients.
pub struct UserResponse {
    pub id: u128,
    pub name: String,
    pub email: String,
    pub admin: bool,
    pub activated: bool,
    pub created_at: i64,
    pub gravatar_url: String,
    pub microposts_count: i64,
    pub following_count: i64,
    pub followers_count: i64,
}

/// The answer to a successful login or signup.
pub struct AuthResponse {
    pub user: UserResponse,
    pub token: String,
    pub refresh_token: String,
}

impl User {
    /// The avatar address of this account at `size` pixels.
    pub fn gravatar_url(&self, size: u32) -> (r: String)
        ensures
            r@ == gravatar_text(self.email@, size),
    {
        gravatar_url(self.email.as_str(), size)
    }

    /// The account as shown to clients, with its counters at zero.
    pub fn to_response(&self) -> (r: UserResponse)
        ensures
            r.id == self.id,
            r.name == self.name,
            r.email == self.email,
            r.admin == self.admin,
            r.activated == self.activated,
            r.created_at == self.created_at,
            r.gravatar_url@ == gravatar_text(self.email@, 80),
            r.microposts_count == 0,
            r.following_count == 0,
            r.followers_count == 0,
    {
        UserResponse {
            id: self.id,
            name: self.name.clone(),
            email: self.email.clone(),
            admin: self.admin,
            activated: self.activated,
            created_at: self.created_at,
            gravatar_url: self.gravatar_url(80),
            microposts_count: 0,
            following_count: 0,
            followers_count: 0,
        }
    }
}

/// A short post by an account.
pub struct Micropost {
    pub id: u128,
    pub content: String,
    pub user_id: u128,
    pub picture: Option<String>,
    pub created_at: i64,
    pub updated_at: i64,
}

/// The author of a micropost as shown to clients.
pub struct MicropostUserResponse {
    pub id: u128,
    pub name: String,
    pub gravatar_url: String,
}

/// A micropost as shown to clients.
pub struct MicropostResponse {
    pub id: u128,
    pub content: String,
    pub picture: Option<String>,
    pub created_at: i64,
    pub user: MicropostUserResponse,
}

impl Micropost {
    /// The post as shown to clients, with its author's name and avatar.
    pub fn to_response(&self, user_name: String, user_email: String) -> (r: MicropostResponse)
        ensures
            r.id == self.id,
            r.content == self.content,
            r.picture == self.picture,
            r.created_at == self.created_at,
            r.user.id == self.user_id,
            r.user.name == user_name,
            r.user.gravatar_url@ == gravatar_text(user_email@, 50),
    {
        MicropostResponse {
            id: self.id,
            content: self.content.clone(),
            picture: self.picture.clone(),
            created_at: self.created_at,
            user: MicropostUserResponse { id: self.user_id, name: user_name, gravatar_url: gravatar_url(user_email.as_str(), 50) },
        }
    }
}

/// One account following another.
#[derive(Debug, Clone, Copy, PartialEq, Eq, Structural)]
pub struct Relationship {
    pub id: u128,
    pub follower_id: u128,
    pub followed_id: u128,
    pub created_at: i64,
}

/// Follow form.
pub struct CreateRelationshipRequest {
    pub followed_id: u128,
}

/// A relationship as shown to clients.
#[derive(Debug, Clone, Copy, PartialEq, Eq, Structural)]
pub struct RelationshipResponse {
    pub id: u128,
    pub follower_id: u128,
    pub followed_id: u128,
    pub created_at: i64,
}

impl Relationship {
    pub fn to_response(&self) -> (r: RelationshipResponse)
        ensures
            r == (RelationshipResponse {
                id: self.id,
                follower_id: self.follower_id,
                followed_id: self.followed_id,
                created_at: self.created_at,
            }),
    {
        RelationshipResponse {
            id: self.id,
            follower_id: self.follower_id,
            followed_id: self.followed_id,
            created_at: self.created_at,
        }
    }
}

} // verus!
