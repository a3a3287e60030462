//! The WebAuthn ceremony engine, consumed as an external capability.
//!
//! The engine produces challenges and verifies signed responses against
//! stored public keys. Its request, response and state values are opaque
//! here: the orchestration layer binds them to session handles, consumes
//! them exactly once, and reads only the plain values the wrappers below
//! extract (identifiers, counters, flags).
//!
//! Challenge generation is random, so nothing is assumed of its outcome.
//! Verification, on the other hand, is a deterministic function of its
//! arguments — the engine's verify paths read no clock and draw no
//! randomness — so each verification outcome carries a name
//! (`spec_finish_registration` and friends) that the orchestration
//! contracts are exact over.

use vstd::prelude::*;

verus! {

/// The configured ceremony engine (relying-party identity, origin,
/// accepted algorithms).
#[verifier::external_type_specification]
#[verifier::external_body]
pub struct ExWebauthn(webauthn_rs::Webauthn);

/// The challenge a browser needs to create a new credential.
#[verifier::external_type_specification]
#[verifier::external_body]
pub struct ExCreationChallengeResponse(webauthn_rs::prelude::CreationChallengeResponse);

/// The engine's server-side state paired with a registration challenge.
#[verifier::external_type_specification]
#[verifier::external_body]
pub struct ExPasskeyRegistration(webauthn_rs::prelude::PasskeyRegistration);

/// The browser's signed answer to a registration challenge.
#[verifier::external_type_specification]
#[verifier::external_body]
pub struct ExRegisterPublicKeyCredential(webauthn_rs::prelude::RegisterPublicKeyCredential);

/// The challenge a browser needs to assert an existing credential.
#[verifier::external_type_specification]
#[verifier::external_body]
pub struct ExRequestChallengeResponse(webauthn_rs::prelude::RequestChallengeResponse);

/// The engine's server-side state paired with an authentication challenge.
#[verifier::external_type_specification]
#[verifier::external_body]
pub struct ExDiscoverableAuthentication(webauthn_rs::prelude::DiscoverableAuthentication);

/// The browser's signed assertion of an existing credential.
#[verifier::external_type_specification]
#[verifier::external_body]
pub struct ExPublicKeyCredential(webauthn_rs::prelude::PublicKeyCredential);

/// What the engine reports of a successful authentication: the fresh
/// counter, the backup flags, and whether the stored credential should be
/// updated.
#[verifier::external_type_specification]
#[verifier::external_body]
pub struct ExAuthenticationResult(webauthn_rs::prelude::AuthenticationResult);

/// What verifying a registration response against a challenge state
/// yields: the engine's verdict is a deterministic function of these
/// arguments alone.
pub uninterp spec fn spec_finish_registration(
    webauthn: webauthn_rs::Webauthn,
    reg: webauthn_rs::prelude::RegisterPublicKeyCredential,
    state: webauthn_rs::prelude::PasskeyRegistration,
) -> Option<webauthn_rs::prelude::Passkey>;

/// The credential id minted into a passkey, as raw bytes.
pub uninterp spec fn spec_passkey_cred_id(passkey: webauthn_rs::prelude::Passkey) -> Seq<u8>;

/// The signature counter carried inside a passkey's key material.
pub uninterp spec fn spec_passkey_counter(passkey: webauthn_rs::prelude::Passkey) -> u32;

/// The identity id and credential id an assertion claims, parsed before
/// any signature check; a deterministic function of the assertion alone.
pub uninterp spec fn spec_identify_discoverable_authentication(
    webauthn: webauthn_rs::Webauthn,
    cred: webauthn_rs::prelude::PublicKeyCredential,
) -> Option<(u128, Seq<u8>)>;

/// What verifying an assertion against a challenge state and a stored
/// passkey yields: the engine's report plus its plain fields
/// `(counter, backup_state, backup_eligible, needs_update)`; a
/// deterministic function of these arguments alone.
pub uninterp spec fn spec_finish_discoverable_authentication(
    webauthn: webauthn_rs::Webauthn,
    cred: webauthn_rs::prelude::PublicKeyCredential,
    state: webauthn_rs::prelude::DiscoverableAuthentication,
    passkey: webauthn_rs::prelude::Passkey,
) -> Option<(webauthn_rs::prelude::AuthenticationResult, u32, bool, bool, bool)>;

/// A passkey's key material after folding in an authentication report.
pub uninterp spec fn spec_passkey_updated(
    passkey: webauthn_rs::prelude::Passkey,
    res: webauthn_rs::prelude::AuthenticationResult,
) -> webauthn_rs::prelude::Passkey;

/// The ceremony engine under the configuration this library issues. The
/// constructor below is the only way to build one, so every value keeps
/// the engine's default authenticator timeout — the one configuration
/// knob under which the challenge-issuing calls are total.
pub struct CeremonyEngine {
    webauthn: webauthn_rs::Webauthn,
}

impl CeremonyEngine {
    /// The underlying engine value; contracts use it to say which engine a
    /// verification outcome belongs to.
    pub closed spec fn engine(&self) -> webauthn_rs::Webauthn {
        self.webauthn
    }

    /// Relies on webauthn_rs::WebauthnBuilder (new, rp_name, build): an
    /// engine for the given relying-party id, origin URL and display name.
    /// No timeout is set, so the engine keeps its default (300 s), whose
    /// millisecond count fits the u32 the challenge builders convert it
    /// into — the conversion that would otherwise panic. `None` reports an
    /// invalid relying-party configuration.
    #[verifier::external_body]
    pub fn new(rp_id: &str, rp_origin: &str, rp_name: &str) -> (r: Option<CeremonyEngine>) {
        let origin = webauthn_rs::prelude::Url::parse(rp_origin).ok()?;
        let builder = webauthn_rs::WebauthnBuilder::new(rp_id, &origin).ok()?;
        builder.rp_name(rp_name).build().ok().map(|webauthn| CeremonyEngine { webauthn })
    }
}

/// Relies on webauthn_rs::Webauthn::start_passkey_registration: asks the
/// engine for a fresh registration challenge bound to the given identity,
/// carrying `exclude` as the list of credential ids that may not take part
/// in this registration. The challenge is random, so nothing is assumed of
/// the returned values; `None` reports the engine's refusal. Total because
/// `CeremonyEngine` keeps the default timeout.
#[verifier::external_body]
pub(crate) fn engine_start_registration(
    engine: &CeremonyEngine,
    user_id: u128,
    username: &String,
    exclude: &Vec<Vec<u8>>,
) -> (r: Option<
    (webauthn_rs::prelude::CreationChallengeResponse, webauthn_rs::prelude::PasskeyRegistration),
>) {
    let excl: Vec<webauthn_rs::prelude::CredentialID> = exclude
        .iter()
        .map(|c| webauthn_rs::prelude::CredentialID::from(c.clone()))
        .collect();
    engine
        .webauthn
        .start_passkey_registration(uuid::Uuid::from_u128(user_id), username, username, Some(excl))
        .ok()
}

/// Relies on webauthn_rs::Webauthn::finish_passkey_registration: verifies
/// the signed registration response against the challenge state and, on
/// success, yields the credential to persist. The verify path is
/// deterministic in its arguments, so the outcome is exactly
/// `spec_finish_registration`.
#[verifier::external_body]
pub(crate) fn engine_finish_registration(
    engine: &CeremonyEngine,
    reg: &webauthn_rs::prelude::RegisterPublicKeyCredential,
    state: &webauthn_rs::prelude::PasskeyRegistration,
) -> (r: Option<webauthn_rs::prelude::Passkey>)
    ensures
        r == spec_finish_registration(engine.engine(), *reg, *state),
{
    engine.webauthn.finish_passkey_registration(reg, state).ok()
}

/// Relies on webauthn_rs::prelude::Passkey::cred_id: the credential id the
/// authenticator minted for this passkey, as raw bytes; a deterministic
/// read of the passkey, named `spec_passkey_cred_id`.
#[verifier::external_body]
pub(crate) fn passkey_cred_id(passkey: &webauthn_rs::prelude::Passkey) -> (r: Vec<u8>)
    ensures
        r@ == spec_passkey_cred_id(*passkey),
{
    passkey.cred_id().as_ref().to_vec()
}

/// Relies on webauthn_rs::prelude::Credential::from (over the
/// credential-internals surface): the signature counter carried inside the
/// passkey's key material; a deterministic read, named
/// `spec_passkey_counter`.
#[verifier::external_body]
pub(crate) fn passkey_counter(passkey: &webauthn_rs::prelude::Passkey) -> (r: u32)
    ensures
        r == spec_passkey_counter(*passkey),
{
    webauthn_rs::prelude::Credential::from(passkey.clone()).counter
}

/// Relies on webauthn_rs::Webauthn::start_discoverable_authentication:
/// asks the engine for a fresh discoverable ("conditional UI")
/// authentication challenge, with no identity hint. The challenge is
/// random, so nothing is assumed of the returned values. Total because
/// `CeremonyEngine` keeps the default timeout.
#[verifier::external_body]
pub(crate) fn engine_start_discoverable_authentication(engine: &CeremonyEngine) -> (r: Option<
    (
        webauthn_rs::prelude::RequestChallengeResponse,
        webauthn_rs::prelude::DiscoverableAuthentication,
    ),
>) {
    engine.webauthn.start_discoverable_authentication().ok()
}

/// Relies on webauthn_rs::Webauthn::identify_discoverable_authentication:
/// parses the assertion far enough to yield the identity id and credential
/// id the client claims, before any signature check; deterministic in the
/// assertion, so the outcome is exactly
/// `spec_identify_discoverable_authentication`.
#[verifier::external_body]
pub(crate) fn engine_identify_discoverable_authentication(
    engine: &CeremonyEngine,
    cred: &webauthn_rs::prelude::PublicKeyCredential,
) -> (r: Option<(u128, Vec<u8>)>)
    ensures
        match r {
            Some(p) => spec_identify_discoverable_authentication(engine.engine(), *cred) == Some(
                (p.0, p.1@),
            ),
            None => spec_identify_discoverable_authentication(engine.engine(), *cred) is None,
        },
{
    engine
        .webauthn
        .identify_discoverable_authentication(cred)
        .ok()
        .map(|(user_id, cred_id)| (user_id.as_u128(), cred_id.to_vec()))
}

/// Relies on webauthn_rs::Webauthn::finish_discoverable_authentication:
/// verifies the assertion's signature against the stored passkey and the
/// challenge state. On success the engine's report comes back together
/// with its plain fields
/// `(counter, backup_state, backup_eligible, needs_update)`. The verify
/// path is deterministic in its arguments, so the outcome is exactly
/// `spec_finish_discoverable_authentication`.
#[verifier::external_body]
pub(crate) fn engine_finish_discoverable_authentication(
    engine: &CeremonyEngine,
    cred: &webauthn_rs::prelude::PublicKeyCredential,
    state: webauthn_rs::prelude::DiscoverableAuthentication,
    passkey: &webauthn_rs::prelude::Passkey,
) -> (r: Option<(webauthn_rs::prelude::AuthenticationResult, u32, bool, bool, bool)>)
    ensures
        r == spec_finish_discoverable_authentication(engine.engine(), *cred, state, *passkey),
{
    let keys = [webauthn_rs::prelude::DiscoverableKey::from(passkey)];
    engine.webauthn.finish_discoverable_authentication(cred, state, &keys).ok().map(
        |ar| {
            let plain = (ar.counter(), ar.backup_state(), ar.backup_eligible(), ar.needs_update());
            (ar, plain.0, plain.1, plain.2, plain.3)
        },
    )
}

/// Relies on webauthn_rs::prelude::Passkey::update_credential: freshen the
/// stored key material with an engine report, so the engine's own
/// counter/backup checks keep working against current values;
/// deterministic in its arguments, named `spec_passkey_updated`.
#[verifier::external_body]
pub(crate) fn passkey_apply_update(
    passkey: &mut webauthn_rs::prelude::Passkey,
    res: &webauthn_rs::prelude::AuthenticationResult,
)
    ensures
        *final(passkey) == spec_passkey_updated(*old(passkey), *res),
{
    let _ = passkey.update_credential(res);
}

} // verus!
