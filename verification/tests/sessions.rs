use passkey_auth::cache::ChallengeCache;
use passkey_auth::session::{
    get_me, get_my_authenticators, is_valid_table_name, should_roll, signout, SessionMap,
    ROLL_SESSION_EVERY_MILLIS, SESSION_IDLE_EXPIRY_MILLIS,
};
use passkey_auth::store::Store;

#[test]
fn session_establish_lookup_expiry() {
    let mut sessions = SessionMap::new();
    assert!(sessions.current_user_id(5, 0).is_none());

    sessions.set_me_authenticated(5, 1234, 1_000);
    assert_eq!(sessions.current_user_id(5, 1_000), Some(1234));
    // Just inside the idle window.
    assert_eq!(
        sessions.current_user_id(5, 1_000 + SESSION_IDLE_EXPIRY_MILLIS),
        Some(1234)
    );
    // One past the idle window: expired.
    assert!(sessions
        .current_user_id(5, 1_001 + SESSION_IDLE_EXPIRY_MILLIS)
        .is_none());
    // Another handle knows nothing.
    assert!(sessions.current_user_id(6, 1_000).is_none());
}

#[test]
fn rolling_is_coalesced() {
    assert!(!should_roll(1_000, 1_000 + ROLL_SESSION_EVERY_MILLIS));
    assert!(should_roll(1_000, 1_001 + ROLL_SESSION_EVERY_MILLIS));

    let mut sessions = SessionMap::new();
    sessions.set_me_authenticated(1, 42, 1_000);

    // Within a minute: no write.
    assert!(!sessions.roll_expiry(1, 1_000 + ROLL_SESSION_EVERY_MILLIS));
    // Past a minute: the activity time moves.
    assert!(sessions.roll_expiry(1, 2_000 + ROLL_SESSION_EVERY_MILLIS));
    // The moved activity time extends the expiry horizon.
    let horizon = 2_000 + ROLL_SESSION_EVERY_MILLIS + SESSION_IDLE_EXPIRY_MILLIS;
    assert_eq!(sessions.current_user_id(1, horizon), Some(42));
    // An expired session is not rolled back to life.
    assert!(!sessions.roll_expiry(1, horizon + SESSION_IDLE_EXPIRY_MILLIS + 1));
    // An absent handle is not rolled.
    assert!(!sessions.roll_expiry(9, 1_000));
}

#[test]
fn signout_clears_session_and_pending_ceremonies() {
    let mut sessions = SessionMap::new();
    let mut cache = ChallengeCache::new();
    sessions.set_me_authenticated(3, 7, 0);
    assert_eq!(sessions.current_user_id(3, 0), Some(7));

    signout(&mut sessions, &mut cache, 3);
    assert!(sessions.current_user_id(3, 0).is_none());

    // Signing out an unknown handle is harmless.
    signout(&mut sessions, &mut cache, 99);
}

#[test]
fn me_requires_live_session_and_stored_identity() {
    let sessions_empty = SessionMap::new();
    let store = Store::new();
    assert!(get_me(&sessions_empty, &store, 1, 0).is_none());
    assert!(get_my_authenticators(&sessions_empty, &store, 1, 0).is_none());

    // A session pointing at an identity the store does not hold yields no
    // caller; the credential listing still answers for the live session.
    let mut sessions = SessionMap::new();
    sessions.set_me_authenticated(1, 555, 0);
    assert!(get_me(&sessions, &store, 1, 0).is_none());
    let creds = get_my_authenticators(&sessions, &store, 1, 0).unwrap();
    assert_eq!(creds.len(), 0);
}

#[test]
fn table_name_validation() {
    assert!(is_valid_table_name("tower_sessions"));
    assert!(is_valid_table_name("A-1_b"));
    assert!(!is_valid_table_name(""));
    assert!(!is_valid_table_name("bad name"));
    assert!(!is_valid_table_name("drop;table"));
    assert!(!is_valid_table_name("caf\u{e9}"));
}
