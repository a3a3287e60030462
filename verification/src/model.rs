//! Identities and registered credentials.
//!
//! An identity owns one or more credentials; each credential wraps the
//! engine's opaque key material together with the plain values the
//! orchestration logic reads: the globally unique credential id, the
//! signature counter and the backup flags.

use vstd::prelude::*;

verus! {

/// The engine's opaque passkey material (public key, algorithm, internal
/// bookkeeping). The orchestration layer stores it and hands it back to the
/// engine for signature verification, but never looks inside.
#[verifier::external_type_specification]
#[verifier::external_body]
pub struct ExPasskey(webauthn_rs::prelude::Passkey);

/// Relies on chrono::Utc::now: the current wall-clock time as milliseconds
/// since the Unix epoch. Nothing is assumed of the value.
#[verifier::external_body]
pub fn now_millis() -> i64 {
    chrono::Utc::now().timestamp_millis()
}

/// Relies on uuid::Uuid::now_v7: a fresh time-ordered 128-bit unique
/// identifier. Nothing is assumed of the value.
#[verifier::external_body]
pub fn new_user_id() -> u128 {
    uuid::Uuid::now_v7().as_u128()
}

/// A registered identity: a stable unique identifier, a human-chosen
/// display name and a creation timestamp (milliseconds since the epoch).
#[derive(Debug)]
pub struct User {
    pub id: u128,
    pub username: String,
    pub created_at: i64,
}

impl User {
    /// A brand-new identity under the given display name, with a freshly
    /// drawn identifier and the current time as creation timestamp.
    pub fn new(username: String) -> (r: User)
        ensures
            r.username == username,
    {
        User { id: new_user_id(), username, created_at: now_millis() }
    }
}

impl Clone for User {
    fn clone(&self) -> (r: Self)
        ensures
            r == *self,
    {
        User { id: self.id, username: self.username.clone(), created_at: self.created_at }
    }
}

/// A credential registered to one identity. `cred_id` is the engine-reported
/// credential id, globally unique across the store and used as the lookup
/// key during authentication. `counter` is the per-credential signature
/// counter, which never decreases; `clone_warning` is set, and never
/// cleared, when an authenticator reports a non-increasing counter for a
/// credential that previously reported a positive one.
pub struct Authenticator {
    pub user_id: u128,
    pub passkey: webauthn_rs::prelude::Passkey,
    pub cred_id: Vec<u8>,
    pub counter: u32,
    pub backup_state: bool,
    pub backup_eligible: bool,
    pub clone_warning: bool,
    pub user_agent_short: String,
    pub created_at: i64,
}

impl Authenticator {
    /// A freshly registered credential: the counter starts at the value
    /// the key material itself reports, the flags at their neutral values;
    /// both are first updated by a successful authentication.
    pub fn new(
        user_id: u128,
        passkey: webauthn_rs::prelude::Passkey,
        cred_id: Vec<u8>,
        counter: u32,
        user_agent_short: String,
        created_at: i64,
    ) -> (r: Authenticator)
        ensures
            r.user_id == user_id,
            r.passkey == passkey,
            r.cred_id == cred_id,
            r.counter == counter,
            !r.backup_state,
            !r.backup_eligible,
            !r.clone_warning,
            r.user_agent_short == user_agent_short,
            r.created_at == created_at,
    {
        Authenticator {
            user_id,
            passkey,
            cred_id,
            counter,
            backup_state: false,
            backup_eligible: false,
            clone_warning: false,
            user_agent_short,
            created_at,
        }
    }
}

} // verus!
