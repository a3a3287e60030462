use passkey_auth::error::WebauthnError;
use passkey_auth::useragent::{get_user_agent_string_short, user_agent_label};
use passkey_auth::username_is_valid;

use uaparser::UserAgentParser;

const REGEXES: &str = "user_agent_parsers:\n  - regex: 'Firefox/(\\d+)'\n    family_replacement: 'Firefox'\nos_parsers:\n  - regex: 'Linux'\n    os_replacement: 'Linux'\ndevice_parsers:\n  - regex: 'Pixel'\n    device_replacement: 'Pixel'\n    brand_replacement: 'Google'\n";

fn parser() -> UserAgentParser {
    UserAgentParser::builder()
        .with_unicode_support(false)
        .build_from_bytes(REGEXES.as_bytes())
        .unwrap()
}

#[test]
fn label_joins_all_three_parts() {
    assert_eq!(
        user_agent_label(
            &"Firefox".to_string(),
            &"Linux".to_string(),
            &"Google".to_string(),
            &"Pixel".to_string(),
        ),
        "Firefox - Linux - Google Pixel"
    );
    // Empty device parts are left out of the device slot, which may itself
    // end up empty.
    assert_eq!(
        user_agent_label(
            &"Firefox".to_string(),
            &"Linux".to_string(),
            &String::new(),
            &"Pixel".to_string(),
        ),
        "Firefox - Linux - Pixel"
    );
    assert_eq!(
        user_agent_label(
            &"Firefox".to_string(),
            &"Linux".to_string(),
            &"Google".to_string(),
            &String::new(),
        ),
        "Firefox - Linux - Google"
    );
    assert_eq!(
        user_agent_label(
            &"Firefox".to_string(),
            &"Linux".to_string(),
            &String::new(),
            &String::new(),
        ),
        "Firefox - Linux - "
    );
}

#[test]
fn label_from_parsed_user_agent() {
    let p = parser();
    let label = get_user_agent_string_short(
        "Mozilla/5.0 (X11; Linux x86_64) Gecko/20100101 Firefox/120.0 Pixel",
        &p,
    );
    assert_eq!(label, "Firefox - Linux - Google Pixel");

    // Nothing matches: the parser's fallbacks fill each slot.
    let label = get_user_agent_string_short("curl/8.0", &p);
    assert_eq!(label, "Other - Other - Other");
}

#[test]
fn display_name_length_rules() {
    assert!(!username_is_valid(&"ab".to_string()));
    assert!(username_is_valid(&"abc".to_string()));
    assert!(username_is_valid(&"a".repeat(24)));
    assert!(!username_is_valid(&"a".repeat(25)));
    // Character length, not byte length.
    assert!(username_is_valid(&"\u{e9}\u{e9}\u{e9}".to_string()));
}

#[test]
fn error_messages_are_stable() {
    assert_eq!(WebauthnError::CorruptSession.message(), "Corrupt Session");
    assert_eq!(WebauthnError::IdentityNotFound.message(), "User Not Found");
    assert_eq!(WebauthnError::VerificationFailed.message(), "Unknown Error");
    assert_eq!(
        WebauthnError::InvalidIdentity.message(),
        "Username must be between 3 and 24 characters"
    );
    assert_eq!(
        WebauthnError::CredentialMismatch.message(),
        "UserID and credentialID don't match"
    );
    assert_eq!(
        WebauthnError::IdentityAlreadyExists.message(),
        "Username already exists. Please sign in or choose a different username."
    );
    assert_eq!(
        WebauthnError::StoreUnavailable.message(),
        "Database error! Sorry! Please try again later."
    );
    assert_eq!(
        WebauthnError::RegisterForSelfOnly.message(),
        "You can only register new credentials for yourself."
    );
    assert_eq!(
        WebauthnError::AlreadySignedIn.message(),
        "You are already signed in."
    );
}
