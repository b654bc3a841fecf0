use vstd::prelude::*;

verus! {

/// Every way an authentication or authorization step can fail.
#[derive(Debug, Clone, Copy, PartialEq, Eq, Structural)]
pub enum AuthError {
    MissingCredential,
    MalformedCredential,
    InvalidSignature,
    Expired,
    WrongTokenType,
    IdentityNotFound,
    IdentityNotActivated,
    Unauthenticated,
    InsufficientPrivilege,
    /// Signing failed, or the clock gave an instant too late to add a lifetime to.
    Internal,
}

pub open spec fn status_of(e: AuthError) -> u16 {
    match e {
        AuthError::InsufficientPrivilege => 403,
        AuthError::Internal => 500,
        _ => 401,
    }
}

impl AuthError {
    /// The HTTP status that the failure surfaces as.
    pub fn status_code(&self) -> (r: u16)
        ensures
            r == status_of(*self),
    {
        match self {
            AuthError::InsufficientPrivilege => 403,
            AuthError::Internal => 500,
            _ => 401,
        }
    }
}

} // verus!
