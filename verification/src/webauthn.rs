//! The WebAuthn relying party: the configured `Webauthn` instance, the
//! single owner's stable user handle, and the ceremony steps, all carried
//! out by webauthn-rs.

use vstd::prelude::*;
use webauthn_rs::prelude::{
    AuthenticationResult,
    CreationChallengeResponse,
    Passkey,
    PasskeyAuthentication,
    PasskeyRegistration,
    PublicKeyCredential,
    RegisterPublicKeyCredential,
    RequestChallengeResponse,
    Uuid,
    Webauthn,
    WebauthnError,
};
use crate::client_metadata::ProfileUrl;
use crate::codec::{sha256, sha256_digest};

verus! {

#[verifier::external_type_specification]
#[verifier::external_body]
pub struct ExWebauthn(Webauthn);

#[verifier::external_type_specification]
#[verifier::external_body]
pub struct ExPasskey(Passkey);

#[verifier::external_type_specification]
#[verifier::external_body]
pub struct ExRegisterPublicKeyCredential(RegisterPublicKeyCredential);

#[verifier::external_type_specification]
#[verifier::external_body]
pub struct ExPublicKeyCredential(PublicKeyCredential);

#[verifier::external_type_specification]
#[verifier::external_body]
pub struct ExAuthenticationResult(AuthenticationResult);

#[verifier::external_type_specification]
#[verifier::external_body]
pub struct ExCreationChallengeResponse(CreationChallengeResponse);

#[verifier::external_type_specification]
#[verifier::external_body]
pub struct ExRequestChallengeResponse(RequestChallengeResponse);

#[verifier::external_type_specification]
#[verifier::external_body]
pub struct ExWebauthnError(WebauthnError);

/// The relying party and the owner's user handle. There is exactly one
/// owner, whose handle is derived from `rp_id`, so no bootstrap state
/// needs storing.
pub struct WebauthnState {
    pub webauthn: Webauthn,
    /// The bytes of the owner's user handle.
    pub owner_user_id: [u8; 16],
}

/// Why the relying party could not be set up.
pub enum WebauthnSetupError {
    /// `RP_ORIGIN` is not a URL.
    InvalidOrigin,
    /// `RP_ID` is not an effective domain of `RP_ORIGIN`.
    InvalidRpId,
    /// webauthn-rs refused the configuration.
    InvalidConfig,
}

/// `WebauthnBuilder::new`, `rp_name` and `build` from webauthn-rs: the
/// relying party `rp_id` (also its display name) at `origin`. The builder
/// refuses an `rp_id` that is not an effective domain of the origin.
#[verifier::external_body]
fn configure_webauthn(rp_id: &str, origin: &ProfileUrl) -> (r: Result<Webauthn, WebauthnSetupError>) {
    let builder = webauthn_rs::WebauthnBuilder::new(rp_id, origin.url())
        .map_err(|_| WebauthnSetupError::InvalidRpId)?;
    builder.rp_name(rp_id).build().map_err(|_| WebauthnSetupError::InvalidConfig)
}


/// The owner's user handle: the first 16 bytes of SHA-256 of `rp_id`.
pub open spec fn spec_owner_id_bytes(rp_id: Seq<char>) -> Seq<u8> {
    sha256(vstd::utf8::encode_utf8(rp_id)).take(16)
}

/// The bytes of the owner's user handle for `rp_id`: the same for the
/// same `rp_id`, across restarts, with nothing stored.
pub fn deterministic_owner_id(rp_id: &str) -> (r: [u8; 16])
    ensures
        r@ == spec_owner_id_bytes(rp_id@),
{
    let d = sha256_digest(rp_id.as_bytes());
    let r = [
        d[0], d[1], d[2], d[3], d[4], d[5], d[6], d[7], d[8], d[9], d[10], d[11], d[12], d[13], d[14], d[15],
    ];
    proof {
        assert(r@ =~= d@.take(16));
    }
    r
}

impl WebauthnState {
    /// Sets up the relying party for `rp_id` at `rp_origin`.
    pub fn new(rp_id: &str, rp_origin: &str) -> (r: Result<WebauthnState, WebauthnSetupError>)
        ensures
            r matches Err(WebauthnSetupError::InvalidOrigin) <==> crate::client_metadata::url_parse(rp_origin@) is None,
            r matches Ok(w) ==> w.owner_user_id@ == spec_owner_id_bytes(rp_id@),
    {
        let origin = match crate::client_metadata::parse_url(rp_origin) {
            Some(u) => u,
            None => {
                return Err(WebauthnSetupError::InvalidOrigin);
            },
        };
        let webauthn = match configure_webauthn(rp_id, &origin) {
            Ok(w) => w,
            Err(WebauthnSetupError::InvalidOrigin) => {
                return Err(WebauthnSetupError::InvalidConfig);
            },
            Err(e) => {
                return Err(e);
            },
        };
        Ok(WebauthnState { webauthn, owner_user_id: deterministic_owner_id(rp_id) })
    }
}

/// `Webauthn::start_passkey_registration` from webauthn-rs for the owner
/// (the user handle `Uuid::from_bytes` of the owner's bytes) under the
/// given user and display names, excluding the passkeys whose ids are
/// given. The challenge is random.
#[verifier::external_body]
pub(crate) fn start_registration(
    ws: &WebauthnState,
    user_name: &str,
    display_name: &str,
    exclude: Option<Vec<Vec<u8>>>,
) -> (r: Result<(CreationChallengeResponse, PasskeyRegistration), WebauthnError>) {
    let exclude = exclude.map(|ids| ids.into_iter().map(|id| id.into()).collect());
    ws.webauthn.start_passkey_registration(Uuid::from_bytes(ws.owner_user_id), user_name, display_name, exclude)
}

/// `serde_json::to_string` of the creation options (`public_key`).
#[verifier::external_body]
pub(crate) fn creation_options_json(ccr: &CreationChallengeResponse) -> (r: Option<String>) {
    serde_json::to_string(&ccr.public_key).ok()
}

/// `Webauthn::finish_passkey_registration` from webauthn-rs.
#[verifier::external_body]
pub(crate) fn finish_registration(
    ws: &WebauthnState,
    reg: &RegisterPublicKeyCredential,
    state: &PasskeyRegistration,
) -> (r: Result<Passkey, WebauthnError>) {
    ws.webauthn.finish_passkey_registration(reg, state)
}

/// `Passkey::cred_id` from webauthn-rs, as bytes.
#[verifier::external_body]
pub(crate) fn passkey_id(passkey: &Passkey) -> (r: Vec<u8>) {
    passkey.cred_id().as_ref().to_vec()
}

/// `serde_json::to_string` of a passkey, for storage.
#[verifier::external_body]
pub(crate) fn passkey_json(passkey: &Passkey) -> (r: Option<String>) {
    serde_json::to_string(passkey).ok()
}

/// Whether stored text reads back as a passkey.
pub uninterp spec fn passkey_json_parses(json: Seq<char>) -> bool;

/// `serde_json::from_str` of a stored passkey: whether it succeeds is a
/// function of the text alone.
#[verifier::external_body]
pub(crate) fn passkey_from_json(json: &str) -> (r: Option<Passkey>)
    ensures
        (r is Some) == passkey_json_parses(json@),
{
    serde_json::from_str(json).ok()
}

/// `Webauthn::start_passkey_authentication` from webauthn-rs over the
/// given passkeys. The challenge is random.
#[verifier::external_body]
pub(crate) fn start_authentication(
    ws: &WebauthnState,
    passkeys: &Vec<Passkey>,
) -> (r: Result<(RequestChallengeResponse, PasskeyAuthentication), WebauthnError>) {
    ws.webauthn.start_passkey_authentication(passkeys)
}

/// `serde_json::to_string` of the request options (`public_key`).
#[verifier::external_body]
pub(crate) fn request_options_json(rcr: &RequestChallengeResponse) -> (r: Option<String>) {
    serde_json::to_string(&rcr.public_key).ok()
}

/// `Webauthn::finish_passkey_authentication` from webauthn-rs.
#[verifier::external_body]
pub(crate) fn finish_authentication(
    ws: &WebauthnState,
    cred: &PublicKeyCredential,
    state: &PasskeyAuthentication,
) -> (r: Result<AuthenticationResult, WebauthnError>) {
    ws.webauthn.finish_passkey_authentication(cred, state)
}

/// `AuthenticationResult::cred_id` from webauthn-rs, as bytes.
#[verifier::external_body]
pub(crate) fn authenticated_id(result: &AuthenticationResult) -> (r: Vec<u8>) {
    result.cred_id().as_ref().to_vec()
}

/// `Passkey::update_credential` from webauthn-rs: folds a sign-in's
/// counter and backup state into the passkey; `Some(true)` when it
/// changed.
#[verifier::external_body]
pub(crate) fn update_passkey(passkey: &mut Passkey, result: &AuthenticationResult) -> (r: Option<bool>) {
    passkey.update_credential(result)
}

/// `serde_json::to_string` of a registration ceremony's state, for the
/// ceremony session.
#[verifier::external_body]
pub(crate) fn registration_state_json(state: &PasskeyRegistration) -> (r: Option<String>) {
    serde_json::to_string(state).ok()
}

/// `serde_json::to_string` of a sign-in ceremony's state, for the ceremony
/// session.
#[verifier::external_body]
pub(crate) fn authentication_state_json(state: &PasskeyAuthentication) -> (r: Option<String>) {
    serde_json::to_string(state).ok()
}

} // verus!
