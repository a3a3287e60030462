//! The discoverable ("conditional UI") authentication ceremony: signing a
//! caller in without the server prompting for a username.
//!
//! `start_authentication` issues a challenge with no identity hint and
//! caches the pending ceremony under the caller's session handle.
//! `finish_authentication` consumes the pending ceremony (before anything
//! fallible, so one challenge can never be tried twice), resolves the
//! claimed identity/credential pair against the store, delegates the
//! signature check to the engine, reconciles the reported signature
//! counter, and signs the caller in.

use vstd::prelude::*;

use crate::cache::{spec_challenge_expired, AuthenticationChallenge, ChallengeCache};
use crate::engine::{
    engine_finish_discoverable_authentication, engine_identify_discoverable_authentication,
    engine_start_discoverable_authentication, spec_finish_discoverable_authentication,
    spec_identify_discoverable_authentication, spec_passkey_updated, CeremonyEngine,
};
use crate::error::WebauthnError;
use crate::model::{Authenticator, User};
use crate::session::{AuthSession, SessionMap};
use crate::store::{
    cred_index, has_cred, has_user_id, lemma_cred_index_unique, spec_counter_updated, user_index,
    Store,
};

verus! {

/// Begin a discoverable authentication ceremony. A caller who is already
/// signed in is rejected; otherwise any stale pending authentication of
/// `handle` is abandoned and, on success, the fresh pending ceremony is
/// cached and the engine's challenge returned for the browser.
pub fn start_authentication(
    engine: &CeremonyEngine,
    cache: &mut ChallengeCache,
    handle: u64,
    now: i64,
    me: Option<&User>,
) -> (r: Result<webauthn_rs::prelude::RequestChallengeResponse, WebauthnError>)
    ensures
        final(cache).reg_view() == old(cache).reg_view(),
        me is Some ==> r == Err::<webauthn_rs::prelude::RequestChallengeResponse, WebauthnError>(
            WebauthnError::AlreadySignedIn,
        ) && final(cache).auth_view() == old(cache).auth_view(),
        me is None ==> match r {
            Ok(_) => final(cache).auth_view().contains_key(handle)
                && final(cache).auth_view()[handle].issued_at == now
                && final(cache).auth_view().remove(handle) == old(cache).auth_view().remove(
                handle,
            ),
            Err(e) => e == WebauthnError::VerificationFailed && final(cache).auth_view() == old(
                cache,
            ).auth_view().remove(handle),
        },
{
    if me.is_some() {
        return Err(WebauthnError::AlreadySignedIn);
    }
    // Abandon any stale pending authentication of this handle.
    let _ = cache.take_authentication(handle, now);
    match engine_start_discoverable_authentication(engine) {
        Some((rcr, state)) => {
            cache.put_authentication(handle, AuthenticationChallenge { issued_at: now, state });
            proof {
                assert(cache.auth_view().remove(handle) =~= old(cache).auth_view().remove(handle));
            }
            Ok(rcr)
        },
        None => Err(WebauthnError::VerificationFailed),
    }
}

/// How `finish_authentication` answers once the pending ceremony was live,
/// decided by the (deterministic) engine outcomes and the store: a
/// malformed assertion is `CredentialMismatch`; a claimed pair the store
/// does not hold is `IdentityNotFound` (one error for both missing halves,
/// so identities cannot be enumerated); a failed signature check is the
/// opaque `VerificationFailed`. `None` means the login goes through.
pub open spec fn spec_authenticate_finish_outcome(
    webauthn: webauthn_rs::Webauthn,
    auths: Seq<Authenticator>,
    cred: webauthn_rs::prelude::PublicKeyCredential,
    state: webauthn_rs::prelude::DiscoverableAuthentication,
) -> Option<WebauthnError> {
    match spec_identify_discoverable_authentication(webauthn, cred) {
        None => Some(WebauthnError::CredentialMismatch),
        Some(idc) => if !has_cred(auths, idc.0, idc.1) {
            Some(WebauthnError::IdentityNotFound)
        } else if spec_finish_discoverable_authentication(
            webauthn,
            cred,
            state,
            auths[cred_index(auths, idc.0, idc.1)].passkey,
        ) is None {
            Some(WebauthnError::VerificationFailed)
        } else {
            None
        },
    }
}

/// Complete a discoverable authentication ceremony: consume the pending
/// ceremony of `handle` (exactly once — a second `finish` for the same
/// `start` sees `CorruptSession`), resolve the assertion's claimed
/// identity/credential pair, verify the signature against the stored
/// public key, reconcile the reported counter and backup flags (the stored
/// counter never moves downward; a regression sets the sticky clone
/// warning), freshen the stored key material, and sign the caller in.
///
/// Given a live ceremony, the result follows
/// `spec_authenticate_finish_outcome`: the call succeeds exactly when the
/// assertion identifies a stored credential and its signature verifies,
/// and the identity returned — and signed in — is the one the assertion
/// identified. On any failure nothing is persisted and no session is
/// established.
pub fn finish_authentication(
    engine: &CeremonyEngine,
    store: &mut Store,
    cache: &mut ChallengeCache,
    sessions: &mut SessionMap,
    handle: u64,
    now: i64,
    auth_input: &webauthn_rs::prelude::PublicKeyCredential,
) -> (r: Result<User, WebauthnError>)
    requires
        old(store).wf(),
    ensures
        final(store).wf(),
        final(store).users() == old(store).users(),
        final(cache).auth_view() == old(cache).auth_view().remove(handle),
        final(cache).reg_view() == old(cache).reg_view(),
        r == Err::<User, WebauthnError>(WebauthnError::CorruptSession) <==> (!old(
            cache,
        ).auth_view().contains_key(handle) || spec_challenge_expired(
            old(cache).auth_view()[handle].issued_at,
            now,
        )),
        r is Err ==> final(store).auths() == old(store).auths() && final(sessions)@ == old(
            sessions,
        )@,
        ({
            let c = old(cache).auth_view()[handle];
            old(cache).auth_view().contains_key(handle) && !spec_challenge_expired(c.issued_at, now)
                ==> match spec_authenticate_finish_outcome(
                engine.engine(),
                old(store).auths(),
                *auth_input,
                c.state,
            ) {
                Some(e) => r == Err::<User, WebauthnError>(e),
                None => r is Ok,
            }
        }),
        match r {
            Ok(u) => {
                let c = old(cache).auth_view()[handle];
                &&& old(cache).auth_view().contains_key(handle)
                &&& !spec_challenge_expired(c.issued_at, now)
                &&& spec_identify_discoverable_authentication(engine.engine(), *auth_input)
                    matches Some(idc) && {
                    let i = cred_index(old(store).auths(), idc.0, idc.1);
                    let a0 = old(store).auths()[i];
                    &&& u.id == idc.0
                    &&& has_cred(old(store).auths(), idc.0, idc.1)
                    &&& has_user_id(old(store).users(), u.id)
                    &&& u == old(store).users()[user_index(old(store).users(), u.id)]
                    &&& spec_finish_discoverable_authentication(
                        engine.engine(),
                        *auth_input,
                        c.state,
                        a0.passkey,
                    ) matches Some(v) && if v.4 {
                        final(store).auths() == old(store).auths().update(
                            i,
                            (Authenticator {
                                passkey: spec_passkey_updated(a0.passkey, v.0),
                                ..spec_counter_updated(a0, v.1, v.2, v.3)
                            }),
                        )
                    } else {
                        final(store).auths() == old(store).auths()
                    }
                }
                &&& final(sessions)@ == old(sessions)@.insert(
                    handle,
                    AuthSession { user_id: u.id, established_at: now, last_activity: now },
                )
            },
            Err(e) => e == WebauthnError::CorruptSession || e == WebauthnError::CredentialMismatch
                || e == WebauthnError::IdentityNotFound || e == WebauthnError::VerificationFailed,
        },
{
    // Retrieve and consume the pending ceremony before anything fallible:
    // a failed verification must not leave a replayable challenge behind.
    let c = match cache.take_authentication(handle, now) {
        Some(c) => c,
        None => {
            return Err(WebauthnError::CorruptSession);
        },
    };
    // Which identity and credential does the client claim?
    let (user_id, cred_id) = match engine_identify_discoverable_authentication(
        engine,
        auth_input,
    ) {
        Some(p) => p,
        None => {
            return Err(WebauthnError::CredentialMismatch);
        },
    };
    // One error for both missing halves, so identities cannot be
    // enumerated through this endpoint.
    let auth = match store.get_passkey_for_user_and_passkey_id(user_id, &cred_id) {
        Some(a) => a,
        None => {
            return Err(WebauthnError::IdentityNotFound);
        },
    };
    let ghost a0 = *auth;
    let ghost i = cred_index(old(store).auths(), user_id, cred_id@);
    let verdict = engine_finish_discoverable_authentication(
        engine,
        auth_input,
        c.state,
        &auth.passkey,
    );
    let (res, counter, backup_state, backup_eligible, needs_update) = match verdict {
        Some(t) => t,
        None => {
            // Deliberately generic: verifier internals must not leak.
            return Err(WebauthnError::VerificationFailed);
        },
    };
    if needs_update {
        let ghost pre = store.auths();
        match store.update_passkey_for_user_and_passkey_id(
            user_id,
            &cred_id,
            counter,
            backup_state,
            backup_eligible,
        ) {
            Ok(()) => {},
            Err(e) => {
                return Err(e);
            },
        }
        proof {
            lemma_cred_index_unique(store.auths(), user_id, cred_id@, i);
        }
        match store.freshen_passkey(user_id, &cred_id, &res) {
            Ok(()) => {},
            Err(e) => {
                return Err(e);
            },
        }
        proof {
            let target = Authenticator {
                passkey: spec_passkey_updated(a0.passkey, res),
                ..spec_counter_updated(a0, counter, backup_state, backup_eligible)
            };
            assert(store.auths() =~= pre.update(i, target));
        }
    }
    let user = match store.get_user_by_id(user_id) {
        Ok(u) => u,
        Err(e) => {
            return Err(e);
        },
    };
    sessions.set_me_authenticated(handle, user.id, now);
    Ok(user)
}

} // verus!
