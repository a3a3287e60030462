//! The challenge cache: short-lived, single-use ceremony state, keyed by an
//! opaque session handle.
//!
//! A pending ceremony is created at `start`, stored under the caller's
//! handle, and consumed (atomically removed) at `finish` — it is never
//! reused, and it expires on its own well before the enclosing session
//! would: a ceremony either completes or times out. Registration state and
//! authentication state live in separate tables, so a mismatched retrieval
//! is impossible by construction.

use std::collections::HashMap;
use vstd::prelude::*;

use crate::model::User;

verus! {

broadcast use vstd::std_specs::hash::group_hash_axioms;

/// A pending ceremony may be consumed for this many milliseconds after it
/// was issued — five minutes, far shorter than the session's idle expiry.
pub const CHALLENGE_TTL_MILLIS: i64 = 300000;

/// Whether a ceremony issued at `issued_at` has timed out by `now`.
pub open spec fn spec_challenge_expired(issued_at: i64, now: i64) -> bool {
    now - issued_at > CHALLENGE_TTL_MILLIS
}

/// A pending registration ceremony: the candidate identity, whether it is
/// brand new (as opposed to an additional credential for an existing,
/// already-authenticated identity), and the engine's challenge state.
pub struct RegistrationChallenge {
    pub user: User,
    pub is_new: bool,
    pub issued_at: i64,
    pub state: webauthn_rs::prelude::PasskeyRegistration,
}

/// A pending discoverable-authentication ceremony: the engine's challenge
/// state. No identity is known yet; the client's assertion will claim one.
pub struct AuthenticationChallenge {
    pub issued_at: i64,
    pub state: webauthn_rs::prelude::DiscoverableAuthentication,
}

/// The cache itself: one pending registration and one pending
/// authentication at most per session handle; a later `put` overwrites the
/// earlier pending ceremony of the same kind, intentionally abandoning it.
pub struct ChallengeCache {
    reg: HashMap<u64, RegistrationChallenge>,
    auth: HashMap<u64, AuthenticationChallenge>,
}

impl ChallengeCache {
    /// The pending registration ceremonies, by session handle.
    pub closed spec fn reg_view(&self) -> Map<u64, RegistrationChallenge> {
        self.reg@
    }

    /// The pending authentication ceremonies, by session handle.
    pub closed spec fn auth_view(&self) -> Map<u64, AuthenticationChallenge> {
        self.auth@
    }

    /// An empty cache.
    pub fn new() -> (r: ChallengeCache)
        ensures
            r.reg_view() == Map::<u64, RegistrationChallenge>::empty(),
            r.auth_view() == Map::<u64, AuthenticationChallenge>::empty(),
    {
        ChallengeCache { reg: HashMap::new(), auth: HashMap::new() }
    }

    /// Store a pending registration under `handle`, overwriting (and so
    /// abandoning) any earlier pending registration of that handle.
    pub fn put_registration(&mut self, handle: u64, challenge: RegistrationChallenge)
        ensures
            final(self).reg_view() == old(self).reg_view().insert(handle, challenge),
            final(self).auth_view() == old(self).auth_view(),
    {
        self.reg.insert(handle, challenge);
    }

    /// Atomically retrieve and delete the pending registration of `handle`.
    /// `None` means there was nothing to consume: no `start` happened, the
    /// ceremony was already consumed, or it has timed out (a timed-out
    /// entry is deleted all the same).
    pub fn take_registration(&mut self, handle: u64, now: i64) -> (r: Option<
        RegistrationChallenge,
    >)
        ensures
            final(self).reg_view() == old(self).reg_view().remove(handle),
            final(self).auth_view() == old(self).auth_view(),
            match r {
                Some(c) => old(self).reg_view().contains_key(handle) && c == old(
                    self,
                ).reg_view()[handle] && !spec_challenge_expired(c.issued_at, now),
                None => !old(self).reg_view().contains_key(handle) || spec_challenge_expired(
                    old(self).reg_view()[handle].issued_at,
                    now,
                ),
            },
    {
        match self.reg.remove(&handle) {
            Some(c) => {
                if (now as i128) - (c.issued_at as i128) > CHALLENGE_TTL_MILLIS as i128 {
                    None
                } else {
                    Some(c)
                }
            },
            None => None,
        }
    }

    /// Store a pending authentication under `handle`, overwriting (and so
    /// abandoning) any earlier pending authentication of that handle.
    pub fn put_authentication(&mut self, handle: u64, challenge: AuthenticationChallenge)
        ensures
            final(self).auth_view() == old(self).auth_view().insert(handle, challenge),
            final(self).reg_view() == old(self).reg_view(),
    {
        self.auth.insert(handle, challenge);
    }

    /// Atomically retrieve and delete the pending authentication of
    /// `handle`, unless it has timed out (a timed-out entry is deleted all
    /// the same).
    pub fn take_authentication(&mut self, handle: u64, now: i64) -> (r: Option<
        AuthenticationChallenge,
    >)
        ensures
            final(self).auth_view() == old(self).auth_view().remove(handle),
            final(self).reg_view() == old(self).reg_view(),
            match r {
                Some(c) => old(self).auth_view().contains_key(handle) && c == old(
                    self,
                ).auth_view()[handle] && !spec_challenge_expired(c.issued_at, now),
                None => !old(self).auth_view().contains_key(handle) || spec_challenge_expired(
                    old(self).auth_view()[handle].issued_at,
                    now,
                ),
            },
    {
        match self.auth.remove(&handle) {
            Some(c) => {
                if (now as i128) - (c.issued_at as i128) > CHALLENGE_TTL_MILLIS as i128 {
                    None
                } else {
                    Some(c)
                }
            },
            None => None,
        }
    }

    /// Drop both pending ceremonies of `handle`, if any: used when the
    /// session itself ends.
    pub fn clear_handle(&mut self, handle: u64)
        ensures
            final(self).reg_view() == old(self).reg_view().remove(handle),
            final(self).auth_view() == old(self).auth_view().remove(handle),
    {
        self.reg.remove(&handle);
        self.auth.remove(&handle);
    }
}

/// A pending ceremony is single-use: `take` removes the entry it returns,
/// so after one consumption the handle holds nothing, and a second
/// `finish` against the same `start` can only observe the corrupt-session
/// signal.
pub proof fn lemma_challenge_single_use<T>(pending: Map<u64, T>, handle: u64)
    ensures
        !pending.remove(handle).contains_key(handle),
{
}

} // verus!
