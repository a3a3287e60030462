//! The error taxonomy of the ceremony orchestration layer.
//!
//! Every variant is terminal for the current request; the caller may retry
//! the whole ceremony from `start`. `StoreUnavailable` is the only class a
//! client should treat as retryable.

use vstd::prelude::*;

verus! {

/// An error raised while driving a registration or authentication ceremony.
#[derive(Clone, Copy, Debug, PartialEq, Eq, Structural)]
pub enum WebauthnError {
    /// The verifier refused the response; deliberately opaque so that no
    /// cryptographic detail leaks to a potential attacker.
    VerificationFailed,
    /// The caller's session holds no pending ceremony state: the challenge
    /// was never issued, has expired, or was already consumed.
    CorruptSession,
    /// No identity/credential pair matches the claimed identifiers. The same
    /// error covers a missing identity and a missing credential, so that
    /// identities cannot be enumerated.
    IdentityNotFound,
    /// The display name is not between 3 and 24 characters.
    InvalidIdentity,
    /// The assertion could not be resolved to a claimed identity and
    /// credential id.
    CredentialMismatch,
    /// The display name is already taken by another identity.
    IdentityAlreadyExists,
    /// The backing store refused the write.
    StoreUnavailable,
    /// An authenticated caller may only add credentials to their own
    /// identity.
    RegisterForSelfOnly,
    /// Authentication cannot start while the caller is already signed in.
    AlreadySignedIn,
}

/// The stable, user-visible message of each error class.
pub open spec fn spec_message(e: WebauthnError) -> Seq<char> {
    match e {
        WebauthnError::VerificationFailed => "Unknown Error"@,
        WebauthnError::CorruptSession => "Corrupt Session"@,
        WebauthnError::IdentityNotFound => "User Not Found"@,
        WebauthnError::InvalidIdentity => "Username must be between 3 and 24 characters"@,
        WebauthnError::CredentialMismatch => "UserID and credentialID don't match"@,
        WebauthnError::IdentityAlreadyExists => (
        "Username already exists. Please sign in or choose a different username."
        )@,
        WebauthnError::StoreUnavailable => "Database error! Sorry! Please try again later."@,
        WebauthnError::RegisterForSelfOnly => (
        "You can only register new credentials for yourself."
        )@,
        WebauthnError::AlreadySignedIn => "You are already signed in."@,
    }
}

impl WebauthnError {
    /// A short human-readable description, stable across releases; no
    /// internal detail is ever exposed here.
    pub fn message(&self) -> (r: &'static str)
        ensures
            r@ == spec_message(*self),
    {
        match self {
            WebauthnError::VerificationFailed => "Unknown Error",
            WebauthnError::CorruptSession => "Corrupt Session",
            WebauthnError::IdentityNotFound => "User Not Found",
            WebauthnError::InvalidIdentity => "Username must be between 3 and 24 characters",
            WebauthnError::CredentialMismatch => "UserID and credentialID don't match",
            WebauthnError::IdentityAlreadyExists => "Username already exists. Please sign in or choose a different username.",
            WebauthnError::StoreUnavailable => "Database error! Sorry! Please try again later.",
            WebauthnError::RegisterForSelfOnly => "You can only register new credentials for yourself.",
            WebauthnError::AlreadySignedIn => "You are already signed in.",
        }
    }
}

} // verus!
