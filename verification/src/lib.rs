//! Server-side orchestration of WebAuthn passkey ceremonies.
//!
//! The crate drives the two passkey ceremonies (registration and
//! authentication) around an external ceremony engine: it issues
//! challenges, binds them to a caller's session handle, consumes them
//! exactly once, and reconciles client assertions against the stored
//! credentials, including signature-counter clone detection.

use vstd::prelude::*;

pub mod authenticate;
pub mod cache;
pub mod chat;
pub mod engine;
pub mod error;
pub mod model;
pub mod register;
pub mod session;
pub mod store;
pub mod useragent;

verus! {

/// A display name is acceptable when its character length lies in the
/// inclusive range `3..=24`.
pub open spec fn valid_username(name: Seq<char>) -> bool {
    3 <= name.len() <= 24
}

/// Decides whether a candidate display name has an acceptable length.
pub fn username_is_valid(name: &String) -> (r: bool)
    ensures
        r == valid_username(name@),
{
    let n = name.as_str().unicode_len();
    3 <= n && n <= 24
}

} // verus!
