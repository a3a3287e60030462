//! The registration ceremony: binding a fresh credential to an identity.
//!
//! `start_register` validates the candidate display name, resolves whether
//! this is a brand-new identity or an additional credential for the
//! caller's own identity, builds the exclusion list, obtains a challenge
//! from the engine and caches the pending ceremony under the caller's
//! session handle. `finish_register` consumes the pending ceremony (before
//! anything fallible, so a failed attempt cannot be retried against the
//! same challenge), verifies the response and persists the credential
//! atomically.

use vstd::prelude::*;

use crate::cache::{spec_challenge_expired, ChallengeCache, RegistrationChallenge};
use crate::engine::{
    engine_finish_registration, engine_start_registration, passkey_counter, passkey_cred_id,
    spec_finish_registration, spec_passkey_counter, spec_passkey_cred_id, CeremonyEngine,
};
use crate::error::WebauthnError;
use crate::model::{Authenticator, User};
use crate::session::{AuthSession, SessionMap};
use crate::store::{has_cred_id, has_user_id, has_username, Store};
use crate::{username_is_valid, valid_username};

verus! {

/// The caller's identity as a plain optional value.
pub open spec fn spec_me(me: Option<&User>) -> Option<User> {
    match me {
        Some(u) => Some(*u),
        None => None,
    }
}

/// How `start_register` rejects a candidate, decided by the inputs alone:
/// a malformed display name is `InvalidIdentity`; an authenticated caller
/// asking for a different name than their own is `RegisterForSelfOnly`; an
/// unauthenticated caller asking for a taken name is
/// `IdentityAlreadyExists`. `None` means no input-decided rejection (the
/// engine may still refuse to issue a challenge).
pub open spec fn spec_register_start_rejection(
    users: Seq<User>,
    me: Option<User>,
    username: Seq<char>,
) -> Option<WebauthnError> {
    if !valid_username(username) {
        Some(WebauthnError::InvalidIdentity)
    } else {
        match me {
            Some(u) => if u.username@ != username {
                Some(WebauthnError::RegisterForSelfOnly)
            } else {
                None
            },
            None => if has_username(users, username) {
                Some(WebauthnError::IdentityAlreadyExists)
            } else {
                None
            },
        }
    }
}

/// How `finish_register` answers once the pending ceremony was live and
/// the engine has spoken: a refused response is the opaque
/// `VerificationFailed`; otherwise the store's commit-time uniqueness
/// checks decide, and any persistence conflict — the display name taken
/// meanwhile by a racing registration, an identifier collision, a
/// credential id already registered — surfaces as the generic store
/// error. (`start_register` is where a taken name is reported as such;
/// the store's own `Conflict` class stays distinguishable one level
/// down, in `insert_user_and_passkey`.)
pub open spec fn spec_register_finish_outcome(
    users: Seq<User>,
    auths: Seq<Authenticator>,
    c: RegistrationChallenge,
    verdict: Option<webauthn_rs::prelude::Passkey>,
) -> Option<WebauthnError> {
    match verdict {
        None => Some(WebauthnError::VerificationFailed),
        Some(pk) => {
            let cid = spec_passkey_cred_id(pk);
            if c.is_new {
                if has_username(users, c.user.username@) || has_user_id(users, c.user.id)
                    || has_cred_id(auths, cid) {
                    Some(WebauthnError::StoreUnavailable)
                } else {
                    None
                }
            } else {
                if !has_user_id(users, c.user.id) {
                    Some(WebauthnError::IdentityNotFound)
                } else if has_cred_id(auths, cid) {
                    Some(WebauthnError::StoreUnavailable)
                } else {
                    None
                }
            }
        },
    }
}

/// Begin a registration ceremony for `username` on behalf of the caller
/// (`me` is the caller's authenticated identity, if any). On success the
/// pending ceremony is cached under `handle` — replacing any stale one —
/// and the engine's challenge is returned for the browser.
pub fn start_register(
    engine: &CeremonyEngine,
    store: &Store,
    cache: &mut ChallengeCache,
    handle: u64,
    now: i64,
    me: Option<&User>,
    username: String,
) -> (r: Result<webauthn_rs::prelude::CreationChallengeResponse, WebauthnError>)
    ensures
        final(cache).auth_view() == old(cache).auth_view(),
        match spec_register_start_rejection(store.users(), spec_me(me), username@) {
            Some(e) => r == Err::<webauthn_rs::prelude::CreationChallengeResponse, WebauthnError>(
                e,
            ) && final(cache).reg_view() == old(cache).reg_view(),
            None => match r {
                Ok(_) => {
                    let c = final(cache).reg_view()[handle];
                    &&& final(cache).reg_view().contains_key(handle)
                    &&& final(cache).reg_view().remove(handle) == old(cache).reg_view().remove(
                        handle,
                    )
                    &&& c.user.username@ == username@
                    &&& c.issued_at == now
                    &&& match me {
                        Some(u) => c.user == *u && !c.is_new,
                        None => c.is_new && !has_username(store.users(), username@),
                    }
                },
                Err(e) => e == WebauthnError::VerificationFailed && final(cache).reg_view() == old(
                    cache,
                ).reg_view().remove(handle),
            },
        },
{
    if !username_is_valid(&username) {
        return Err(WebauthnError::InvalidIdentity);
    }
    let (user, is_new, exclude): (User, bool, Vec<Vec<u8>>) = match me {
        Some(u) => {
            if u.username != username {
                return Err(WebauthnError::RegisterForSelfOnly);
            }
            // Exclude the identity's existing credentials, so the
            // authenticator offers a fresh device.
            (u.clone(), false, store.list_credential_ids(u.id))
        },
        None => {
            if store.check_username_exists(&username) {
                return Err(WebauthnError::IdentityAlreadyExists);
            }
            (User::new(username), true, Vec::new())
        },
    };
    // Abandon any stale pending registration of this handle before asking
    // the engine for a new challenge.
    let _ = cache.take_registration(handle, now);
    match engine_start_registration(engine, user.id, &user.username, &exclude) {
        Some((ccr, state)) => {
            cache.put_registration(
                handle,
                RegistrationChallenge { user, is_new, issued_at: now, state },
            );
            proof {
                assert(cache.reg_view().remove(handle) =~= old(cache).reg_view().remove(handle));
            }
            Ok(ccr)
        },
        None => Err(WebauthnError::VerificationFailed),
    }
}

/// Complete a registration ceremony: consume the pending ceremony of
/// `handle` (exactly once — a second `finish` for the same `start` sees
/// `CorruptSession`), verify the signed response, and persist the identity
/// and credential atomically. A brand-new identity is signed in on the
/// spot; adding a credential to an existing identity leaves the caller's
/// session as it is. `ua_short` is the provenance label stored with the
/// credential and `now` the current time in milliseconds.
///
/// Given a live ceremony, the result follows
/// `spec_register_finish_outcome` over the engine's (deterministic)
/// verification outcome: the call succeeds exactly when the response
/// verifies and the store's commit-time uniqueness checks pass.
pub fn finish_register(
    engine: &CeremonyEngine,
    store: &mut Store,
    cache: &mut ChallengeCache,
    sessions: &mut SessionMap,
    handle: u64,
    ua_short: String,
    now: i64,
    reg: &webauthn_rs::prelude::RegisterPublicKeyCredential,
) -> (r: Result<User, WebauthnError>)
    requires
        old(store).wf(),
    ensures
        final(store).wf(),
        final(cache).reg_view() == old(cache).reg_view().remove(handle),
        final(cache).auth_view() == old(cache).auth_view(),
        r == Err::<User, WebauthnError>(WebauthnError::CorruptSession) <==> (!old(
            cache,
        ).reg_view().contains_key(handle) || spec_challenge_expired(
            old(cache).reg_view()[handle].issued_at,
            now,
        )),
        r is Err ==> final(store).users() == old(store).users() && final(store).auths() == old(
            store,
        ).auths() && final(sessions)@ == old(sessions)@,
        ({
            let c = old(cache).reg_view()[handle];
            old(cache).reg_view().contains_key(handle) && !spec_challenge_expired(c.issued_at, now)
                ==> match spec_register_finish_outcome(
                old(store).users(),
                old(store).auths(),
                c,
                spec_finish_registration(engine.engine(), *reg, c.state),
            ) {
                Some(e) => r == Err::<User, WebauthnError>(e),
                None => r is Ok,
            }
        }),
        match r {
            Ok(u) => {
                let c = old(cache).reg_view()[handle];
                &&& old(cache).reg_view().contains_key(handle)
                &&& !spec_challenge_expired(c.issued_at, now)
                &&& u == c.user
                &&& final(store).auths().len() == old(store).auths().len() + 1
                &&& final(store).auths() == old(store).auths().push(final(store).auths().last())
                &&& final(store).auths().last().user_id == c.user.id
                &&& final(store).auths().last().user_agent_short == ua_short
                &&& !final(store).auths().last().clone_warning
                &&& (spec_finish_registration(engine.engine(), *reg, c.state) matches Some(pk) ==> {
                    &&& final(store).auths().last().passkey == pk
                    &&& final(store).auths().last().cred_id@ == spec_passkey_cred_id(pk)
                    &&& final(store).auths().last().counter == spec_passkey_counter(pk)
                })
                &&& if c.is_new {
                    &&& !has_username(old(store).users(), c.user.username@)
                    &&& final(store).users() == old(store).users().push(c.user)
                    &&& final(store).auths().last().created_at == c.user.created_at
                    &&& final(sessions)@ == old(sessions)@.insert(
                        handle,
                        AuthSession {
                            user_id: c.user.id,
                            established_at: now,
                            last_activity: now,
                        },
                    )
                } else {
                    &&& final(store).users() == old(store).users()
                    &&& final(store).auths().last().created_at == now
                    &&& final(sessions)@ == old(sessions)@
                }
            },
            Err(e) => e == WebauthnError::CorruptSession || e == WebauthnError::VerificationFailed
                || e == WebauthnError::IdentityNotFound || e == WebauthnError::StoreUnavailable,
        },
{
    // Retrieve and consume the pending ceremony before anything fallible:
    // a failed verification must not leave a replayable challenge behind.
    let c = match cache.take_registration(handle, now) {
        Some(c) => c,
        None => {
            return Err(WebauthnError::CorruptSession);
        },
    };
    let passkey = match engine_finish_registration(engine, reg, &c.state) {
        Some(p) => p,
        None => {
            // Deliberately generic: verifier internals must not leak.
            return Err(WebauthnError::VerificationFailed);
        },
    };
    let cred_id = passkey_cred_id(&passkey);
    let counter = passkey_counter(&passkey);
    if c.is_new {
        let user = c.user.clone();
        match store.insert_user_and_passkey(c.user, passkey, cred_id, counter, ua_short) {
            Ok(()) => {},
            Err(_) => {
                // Every persistence conflict at finish time is the generic
                // store error; the loser of a name race retries the whole
                // ceremony and learns of the taken name at `start`.
                return Err(WebauthnError::StoreUnavailable);
            },
        }
        // A brand-new identity is signed in right away.
        sessions.set_me_authenticated(handle, user.id, now);
        Ok(user)
    } else {
        let auth = Authenticator::new(c.user.id, passkey, cred_id, counter, ua_short, now);
        match store.insert_authenticator(auth) {
            Ok(()) => {},
            Err(e) => {
                return Err(e);
            },
        }
        Ok(c.user)
    }
}

} // verus!
