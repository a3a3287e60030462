use passkey_auth::authenticate::{finish_authentication, start_authentication};
use passkey_auth::cache::{ChallengeCache, CHALLENGE_TTL_MILLIS};
use passkey_auth::engine::CeremonyEngine;
use passkey_auth::error::WebauthnError;
use passkey_auth::model::User;
use passkey_auth::register::{finish_register, start_register};
use passkey_auth::session::{get_me, SessionMap};
use passkey_auth::store::Store;

use webauthn_authenticator_rs::softpasskey::SoftPasskey;
use webauthn_authenticator_rs::WebauthnAuthenticator;
use webauthn_rs::prelude::{Base64UrlSafeData, PublicKeyCredential, RequestChallengeResponse, Url};
use webauthn_rs_proto::AllowCredentials;

fn engine() -> CeremonyEngine {
    CeremonyEngine::new("localhost", "http://localhost:8080", "localhost").unwrap()
}

fn origin() -> Url {
    Url::parse("http://localhost:8080").unwrap()
}

/// Drive a full registration ceremony for a brand-new identity.
fn register_user(
    wa: &CeremonyEngine,
    store: &mut Store,
    cache: &mut ChallengeCache,
    sessions: &mut SessionMap,
    authenticator: &mut WebauthnAuthenticator<SoftPasskey>,
    handle: u64,
    name: &str,
    now: i64,
) -> User {
    let ccr = start_register(wa, store, cache, handle, now, None, name.to_string()).unwrap();
    let response = authenticator.do_registration(origin(), ccr).unwrap();
    finish_register(
        wa,
        store,
        cache,
        sessions,
        handle,
        "test agent".to_string(),
        now,
        &response,
    )
    .unwrap()
}

/// SoftPasskey cannot discover credentials on its own, so hand it the
/// allow-list a browser's conditional UI would resolve, and set the user
/// handle a discoverable credential would report.
fn signed_assertion(
    authenticator: &mut WebauthnAuthenticator<SoftPasskey>,
    mut rcr: RequestChallengeResponse,
    user: &User,
    cred_id: &[u8],
) -> PublicKeyCredential {
    rcr.public_key.allow_credentials = vec![AllowCredentials {
        type_: "public-key".to_string(),
        id: Base64UrlSafeData::from(cred_id.to_vec()),
        transports: None,
    }];
    let mut assertion = authenticator.do_authentication(origin(), rcr).unwrap();
    assertion.response.user_handle = Some(Base64UrlSafeData::from(
        uuid::Uuid::from_u128(user.id).as_bytes().to_vec(),
    ));
    assertion
}

/// Scenario: "alice" registers one credential, authenticates with it, and a
/// replay of the consumed challenge is rejected.
#[test]
fn alice_registers_then_authenticates() {
    let wa = engine();
    let mut store = Store::new();
    let mut cache = ChallengeCache::new();
    let mut sessions = SessionMap::new();
    let mut authenticator = WebauthnAuthenticator::new(SoftPasskey::new(true));

    let alice = register_user(
        &wa,
        &mut store,
        &mut cache,
        &mut sessions,
        &mut authenticator,
        1,
        "alice",
        1_000,
    );
    assert_eq!(alice.username, "alice");

    // One identity "alice" with one credential.
    let users = store.get_all_users();
    assert_eq!(users.len(), 1);
    assert_eq!(users[0].username, "alice");
    assert_eq!(store.get_authenticators_for_user_id(alice.id).len(), 1);
    // A session was established for the fresh registration.
    assert!(get_me(&sessions, &store, 1, 1_000).is_some());

    // Authenticate on a different session handle.
    let cred_id = store.get_authenticators_for_user_id(alice.id)[0]
        .cred_id
        .clone();
    let rcr = start_authentication(&wa, &mut cache, 2, 1_500, None).unwrap();
    let assertion = signed_assertion(&mut authenticator, rcr, &alice, &cred_id);
    let who = finish_authentication(
        &wa,
        &mut store,
        &mut cache,
        &mut sessions,
        2,
        2_000,
        &assertion,
    )
    .unwrap();
    assert_eq!(who.id, alice.id);
    assert_eq!(who.username, "alice");
    let me = get_me(&sessions, &store, 2, 2_000).unwrap();
    assert_eq!(me.id, alice.id);

    // Replaying the same assertion finds the challenge already consumed.
    let replay = finish_authentication(
        &wa,
        &mut store,
        &mut cache,
        &mut sessions,
        2,
        3_000,
        &assertion,
    );
    assert_eq!(replay.unwrap_err(), WebauthnError::CorruptSession);
}

/// Round trip: a validly-signed assertion from the registered credential
/// returns the identity created at registration, and the stored signature
/// counter advances without a clone warning.
#[test]
fn authentication_round_trip_updates_counter() {
    let wa = engine();
    let mut store = Store::new();
    let mut cache = ChallengeCache::new();
    let mut sessions = SessionMap::new();
    let mut authenticator = WebauthnAuthenticator::new(SoftPasskey::new(true));

    let user = register_user(
        &wa,
        &mut store,
        &mut cache,
        &mut sessions,
        &mut authenticator,
        1,
        "round_trip",
        1_000,
    );
    let cred_id = store.get_authenticators_for_user_id(user.id)[0]
        .cred_id
        .clone();

    for round in 0..2u32 {
        let rcr = start_authentication(&wa, &mut cache, 9, 4_000, None).unwrap();
        let assertion = signed_assertion(&mut authenticator, rcr, &user, &cred_id);
        let who = finish_authentication(
            &wa,
            &mut store,
            &mut cache,
            &mut sessions,
            9,
            5_000,
            &assertion,
        )
        .unwrap();
        assert_eq!(who.id, user.id);
        let stored = store
            .get_passkey_for_user_and_passkey_id(user.id, &cred_id)
            .unwrap();
        assert_eq!(stored.counter, round + 1);
        assert!(!stored.clone_warning);
        // The opaque key material was freshened too: its internal counter
        // tracks the reported one, so the engine's own replay check keeps
        // comparing against current values.
        let material = serde_json::to_value(&stored.passkey).unwrap();
        assert_eq!(material["cred"]["counter"], serde_json::Value::from(round + 1));
    }
}

/// A `finish` with no preceding `start` on that handle fails with
/// `CorruptSession`.
#[test]
fn finish_without_start_is_corrupt_session() {
    let wa = engine();
    let mut store = Store::new();
    let mut cache = ChallengeCache::new();
    let mut sessions = SessionMap::new();
    let mut authenticator = WebauthnAuthenticator::new(SoftPasskey::new(true));

    // Obtain syntactically valid responses from a real ceremony on handle 1.
    let user = register_user(
        &wa,
        &mut store,
        &mut cache,
        &mut sessions,
        &mut authenticator,
        1,
        "corrupt_reg",
        1_000,
    );
    let cred_id = store.get_authenticators_for_user_id(user.id)[0]
        .cred_id
        .clone();
    let ccr = start_register(&wa, &store, &mut cache, 1, 1_500, Some(&user), "corrupt_reg".to_string())
        .unwrap();
    let mut second_device = WebauthnAuthenticator::new(SoftPasskey::new(true));
    let reg_response = second_device.do_registration(origin(), ccr).unwrap();
    let rcr = start_authentication(&wa, &mut cache, 1, 1_500, None).unwrap();
    let assertion = signed_assertion(&mut authenticator, rcr, &user, &cred_id);

    // Handle 77 never saw a `start`.
    let r = finish_register(
        &wa,
        &mut store,
        &mut cache,
        &mut sessions,
        77,
        "agent".to_string(),
        2_000,
        &reg_response,
    );
    assert_eq!(r.unwrap_err(), WebauthnError::CorruptSession);
    let r = finish_authentication(
        &wa,
        &mut store,
        &mut cache,
        &mut sessions,
        77,
        2_000,
        &assertion,
    );
    assert_eq!(r.unwrap_err(), WebauthnError::CorruptSession);
}

/// `finish` succeeds at most once per `start`: the second call observes
/// `CorruptSession`.
#[test]
fn finish_twice_succeeds_at_most_once() {
    let wa = engine();
    let mut store = Store::new();
    let mut cache = ChallengeCache::new();
    let mut sessions = SessionMap::new();
    let mut authenticator = WebauthnAuthenticator::new(SoftPasskey::new(true));

    let ccr = start_register(&wa, &store, &mut cache, 1, 500, None, "once_only".to_string()).unwrap();
    let response = authenticator.do_registration(origin(), ccr).unwrap();
    let first = finish_register(
        &wa,
        &mut store,
        &mut cache,
        &mut sessions,
        1,
        "agent".to_string(),
        1_000,
        &response,
    );
    assert!(first.is_ok());
    let second = finish_register(
        &wa,
        &mut store,
        &mut cache,
        &mut sessions,
        1,
        "agent".to_string(),
        2_000,
        &response,
    );
    assert_eq!(second.unwrap_err(), WebauthnError::CorruptSession);
}

/// Valid unused names start; malformed names and taken names are rejected
/// with their own errors — the taken name is also refused at commit time
/// when two registrations race.
#[test]
fn register_start_name_rules() {
    let wa = engine();
    let mut store = Store::new();
    let mut cache = ChallengeCache::new();
    let mut sessions = SessionMap::new();

    // Length limits: 3 to 24 characters.
    let r = start_register(&wa, &store, &mut cache, 1, 0, None, "ab".to_string());
    assert_eq!(r.unwrap_err(), WebauthnError::InvalidIdentity);
    let r = start_register(&wa, &store, &mut cache, 1, 0, None, "a".repeat(25));
    assert_eq!(r.unwrap_err(), WebauthnError::InvalidIdentity);
    assert!(start_register(&wa, &store, &mut cache, 1, 0, None, "abc".to_string()).is_ok());
    assert!(start_register(&wa, &store, &mut cache, 1, 0, None, "a".repeat(24)).is_ok());

    // Take the name for real.
    let mut authenticator = WebauthnAuthenticator::new(SoftPasskey::new(true));
    let _taken = register_user(
        &wa,
        &mut store,
        &mut cache,
        &mut sessions,
        &mut authenticator,
        1,
        "taken_name",
        1_000,
    );

    // A second registration of the same name is rejected at `start`.
    let r = start_register(&wa, &store, &mut cache, 2, 2_000, None, "taken_name".to_string());
    assert_eq!(r.unwrap_err(), WebauthnError::IdentityAlreadyExists);
}

/// Two concurrent registrations of the same unused name both obtain a
/// challenge, but only one `finish` wins: the uniqueness check holds at
/// commit time, not only at `start`.
#[test]
fn concurrent_duplicate_registrations_one_winner() {
    let wa = engine();
    let mut store = Store::new();
    let mut cache = ChallengeCache::new();
    let mut sessions = SessionMap::new();

    let ccr_a = start_register(&wa, &store, &mut cache, 1, 500, None, "race_name".to_string()).unwrap();
    let ccr_b = start_register(&wa, &store, &mut cache, 2, 600, None, "race_name".to_string()).unwrap();

    let mut device_a = WebauthnAuthenticator::new(SoftPasskey::new(true));
    let mut device_b = WebauthnAuthenticator::new(SoftPasskey::new(true));
    let resp_a = device_a.do_registration(origin(), ccr_a).unwrap();
    let resp_b = device_b.do_registration(origin(), ccr_b).unwrap();

    let first = finish_register(
        &wa,
        &mut store,
        &mut cache,
        &mut sessions,
        1,
        "agent".to_string(),
        1_000,
        &resp_a,
    );
    assert!(first.is_ok());
    let second = finish_register(
        &wa,
        &mut store,
        &mut cache,
        &mut sessions,
        2,
        "agent".to_string(),
        2_000,
        &resp_b,
    );
    // The loser's conflict is the generic store error; the taken name is
    // reported as such only at `start`.
    assert_eq!(second.unwrap_err(), WebauthnError::StoreUnavailable);
    assert_eq!(store.get_all_users().len(), 1);
}

/// An authenticated caller may only register further credentials under
/// their own name, and a signed-in caller may not start authentication.
#[test]
fn self_only_and_already_signed_in() {
    let wa = engine();
    let mut store = Store::new();
    let mut cache = ChallengeCache::new();
    let mut sessions = SessionMap::new();
    let mut authenticator = WebauthnAuthenticator::new(SoftPasskey::new(true));

    let me = register_user(
        &wa,
        &mut store,
        &mut cache,
        &mut sessions,
        &mut authenticator,
        1,
        "self_only",
        1_000,
    );

    let r = start_register(&wa, &store, &mut cache, 1, 2_000, Some(&me), "other_name".to_string());
    assert_eq!(r.unwrap_err(), WebauthnError::RegisterForSelfOnly);

    let r = start_authentication(&wa, &mut cache, 1, 2_000, Some(&me));
    assert_eq!(r.unwrap_err(), WebauthnError::AlreadySignedIn);
}

/// Registering a second credential for a known identity passes the full
/// set of that identity's credential ids as the exclusion list, visible in
/// the challenge sent to the browser.
#[test]
fn exclusion_list_carries_existing_credentials() {
    let wa = engine();
    let mut store = Store::new();
    let mut cache = ChallengeCache::new();
    let mut sessions = SessionMap::new();
    let mut first_device = WebauthnAuthenticator::new(SoftPasskey::new(true));

    let me = register_user(
        &wa,
        &mut store,
        &mut cache,
        &mut sessions,
        &mut first_device,
        1,
        "multi_device",
        1_000,
    );
    let cred_id = store.get_authenticators_for_user_id(me.id)[0]
        .cred_id
        .clone();

    // A brand-new identity has nothing to exclude.
    let ccr = start_register(&wa, &store, &mut cache, 5, 1_500, None, "fresh_name".to_string()).unwrap();
    let v = serde_json::to_value(&ccr).unwrap();
    let excludes = &v["publicKey"]["excludeCredentials"];
    assert!(excludes.is_null() || excludes.as_array().unwrap().is_empty());

    // The known identity's second enrollment excludes its first credential.
    let ccr = start_register(&wa, &store, &mut cache, 1, 1_500, Some(&me), "multi_device".to_string())
        .unwrap();
    let v = serde_json::to_value(&ccr).unwrap();
    let excludes = v["publicKey"]["excludeCredentials"].as_array().unwrap().clone();
    assert_eq!(excludes.len(), 1);
    let expected_id = serde_json::to_value(Base64UrlSafeData::from(cred_id.clone())).unwrap();
    assert_eq!(excludes[0]["id"], expected_id);

    // A second device registers fine and the identity then owns two
    // credentials.
    let mut second_device = WebauthnAuthenticator::new(SoftPasskey::new(true));
    let response = second_device.do_registration(origin(), ccr).unwrap();
    let added = finish_register(
        &wa,
        &mut store,
        &mut cache,
        &mut sessions,
        1,
        "second device".to_string(),
        2_000,
        &response,
    )
    .unwrap();
    assert_eq!(added.id, me.id);
    assert_eq!(store.get_authenticators_for_user_id(me.id).len(), 2);
    // Adding a credential to one's own identity does not create a user.
    assert_eq!(store.get_all_users().len(), 1);
}

/// A syntactically broken assertion is `CredentialMismatch`; an unknown
/// claimed pair is `IdentityNotFound`.
#[test]
fn assertion_resolution_errors() {
    let wa = engine();
    let mut store = Store::new();
    let mut cache = ChallengeCache::new();
    let mut sessions = SessionMap::new();
    let mut authenticator = WebauthnAuthenticator::new(SoftPasskey::new(true));

    let user = register_user(
        &wa,
        &mut store,
        &mut cache,
        &mut sessions,
        &mut authenticator,
        1,
        "resolution",
        1_000,
    );
    let cred_id = store.get_authenticators_for_user_id(user.id)[0]
        .cred_id
        .clone();

    // No user handle: the engine cannot identify the claimed identity.
    let rcr = start_authentication(&wa, &mut cache, 3, 1_500, None).unwrap();
    let mut assertion = signed_assertion(&mut authenticator, rcr, &user, &cred_id);
    assertion.response.user_handle = None;
    let r = finish_authentication(&wa, &mut store, &mut cache, &mut sessions, 3, 2_000, &assertion);
    assert_eq!(r.unwrap_err(), WebauthnError::CredentialMismatch);

    // A claimed identity that owns no such credential: one opaque error for
    // both missing halves.
    let rcr = start_authentication(&wa, &mut cache, 3, 1_500, None).unwrap();
    let unknown_user = User { id: user.id ^ 1, username: "unknown".to_string(), created_at: 0 };
    let assertion = signed_assertion(&mut authenticator, rcr, &unknown_user, &cred_id);
    let r = finish_authentication(&wa, &mut store, &mut cache, &mut sessions, 3, 2_000, &assertion);
    assert_eq!(r.unwrap_err(), WebauthnError::IdentityNotFound);
}

/// A tampered signature fails verification with the deliberately generic
/// error, and the consumed challenge cannot be retried afterwards.
#[test]
fn tampered_signature_is_verification_failed() {
    let wa = engine();
    let mut store = Store::new();
    let mut cache = ChallengeCache::new();
    let mut sessions = SessionMap::new();
    let mut authenticator = WebauthnAuthenticator::new(SoftPasskey::new(true));

    let user = register_user(
        &wa,
        &mut store,
        &mut cache,
        &mut sessions,
        &mut authenticator,
        1,
        "tampered",
        1_000,
    );
    let cred_id = store.get_authenticators_for_user_id(user.id)[0]
        .cred_id
        .clone();

    let rcr = start_authentication(&wa, &mut cache, 4, 1_500, None).unwrap();
    let mut assertion = signed_assertion(&mut authenticator, rcr, &user, &cred_id);
    let mut sig: Vec<u8> = assertion.response.signature.clone().into();
    sig[0] ^= 0xff;
    assertion.response.signature = Base64UrlSafeData::from(sig);

    let r = finish_authentication(&wa, &mut store, &mut cache, &mut sessions, 4, 2_000, &assertion);
    assert_eq!(r.unwrap_err(), WebauthnError::VerificationFailed);
    // The failed attempt consumed the challenge: no second try against it.
    let r = finish_authentication(&wa, &mut store, &mut cache, &mut sessions, 4, 2_000, &assertion);
    assert_eq!(r.unwrap_err(), WebauthnError::CorruptSession);
    // Nothing was persisted and nobody was signed in.
    assert!(get_me(&sessions, &store, 4, 2_000).is_none());
}

/// A pending ceremony times out on its own, well before the session would:
/// a `finish` after the challenge TTL observes `CorruptSession`.
#[test]
fn expired_challenge_is_corrupt_session() {
    let wa = engine();
    let mut store = Store::new();
    let mut cache = ChallengeCache::new();
    let mut sessions = SessionMap::new();
    let mut authenticator = WebauthnAuthenticator::new(SoftPasskey::new(true));

    let ccr = start_register(&wa, &store, &mut cache, 1, 1_000, None, "late_finish".to_string())
        .unwrap();
    let response = authenticator.do_registration(origin(), ccr).unwrap();

    // Just inside the window the ceremony would still complete; one past
    // it, the challenge is gone.
    let too_late = 1_001 + CHALLENGE_TTL_MILLIS;
    let r = finish_register(
        &wa,
        &mut store,
        &mut cache,
        &mut sessions,
        1,
        "agent".to_string(),
        too_late,
        &response,
    );
    assert_eq!(r.unwrap_err(), WebauthnError::CorruptSession);
    assert_eq!(store.get_all_users().len(), 0);

    // The timed-out entry was consumed: a retry inside any window still
    // finds nothing.
    let r = finish_register(
        &wa,
        &mut store,
        &mut cache,
        &mut sessions,
        1,
        "agent".to_string(),
        1_002 + CHALLENGE_TTL_MILLIS,
        &response,
    );
    assert_eq!(r.unwrap_err(), WebauthnError::CorruptSession);
}
