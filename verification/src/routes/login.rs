//! Passkey registration and sign-in, and signing out. Registration is
//! open only to the signed-in owner once a passkey exists; before that it
//! needs the one-time bootstrap secret.

use vstd::prelude::*;
use crate::db::{SentStatement, Store, clock_failed, is_clock_reading};
use crate::db::credentials::{UPDATE_AFTER_AUTH_SQL, insert_credential_sent};
use crate::db::sessions::delete_session_sent;
use super::{
    CROSS_SITE,
    Fatal,
    Submitted,
    answers_html,
    append_cookie,
    is_html_with_cookie,
    is_redirect_with_cookie,
    owner_signed_in,
    signed_in,
};
use super::authorize::INVALID_BODY;
use super::credentials::CREDENTIALS_PATH;
use crate::codec::ct_eq_bytes;
use crate::csrf::{is_same_site, spec_is_same_site};
use crate::db::credentials::{
    CredentialRow,
    COUNT_CREDENTIALS_SQL,
    LIST_CREDENTIALS_SQL,
    count_credentials,
    count_or_none,
    shown_listing,
    insert_credential_at,
    is_listing,
    list_credentials,
    update_credential_after_auth,
};
use crate::db::{DbError, now_text};
use crate::error::{
    Reply,
    SET_COOKIE,
    STATUS_BAD_REQUEST,
    STATUS_FORBIDDEN,
    STATUS_OK,
    bad_request,
    forbidden,
    html,
    redirect,
    redirect_with_cookie,
};
use crate::headers::{HeaderList, HttpMethod};
use crate::html::{login_page, register_page, spec_error_page, spec_login_page, spec_register_page, text_or};
use crate::session::{
    CEREMONY_COOKIE,
    CLEAR_COOKIE_ATTRIBUTES,
    OWNER_COOKIE,
    SessionData,
    clear_cookie_header,
    end_session,
    get_cookie,
    is_ceremony_cookie,
    is_owner_cookie,
    lemma_session_cookie_kind,
    session_started,
    spec_get_cookie,
    start_session,
};
use crate::text::{opt_str_view, opt_text};
use crate::webauthn::{
    WebauthnState,
    authenticated_id,
    creation_options_json,
    finish_authentication,
    finish_registration,
    passkey_from_json,
    passkey_json_parses,
    passkey_id,
    passkey_json,
    request_options_json,
    start_authentication,
    start_registration,
    update_passkey,
};
use webauthn_rs::prelude::{Passkey, PublicKeyCredential, RegisterPublicKeyCredential};

verus! {

/// Whether two strings are equal, compared in time that does not depend
/// on where they differ.
pub fn constant_time_eq(a: &str, b: &str) -> (r: bool)
    ensures
        r == (a@ == b@),
{
    let r = ct_eq_bytes(a.as_bytes(), b.as_bytes());
    proof {
        vstd::utf8::encode_utf8_decode_utf8(a@);
        vstd::utf8::encode_utf8_decode_utf8(b@);
    }
    r
}

/// Where to go after signing in when nowhere was asked for.
pub fn default_return_to() -> (r: String)
    ensures
        r@ == CREDENTIALS_PATH@,
{
    CREDENTIALS_PATH.to_owned()
}

/// Who may register a passkey now.
#[derive(PartialEq, Eq, Structural, Clone, Copy)]
pub enum RegisterGate {
    /// Registration may start.
    Open,
    /// Passkeys exist and the request is not from the signed-in owner.
    SignIn,
    /// No passkey exists and the bootstrap secret was missing or wrong.
    Refused,
}

/// Once any passkey is registered, only the signed-in owner may register
/// another; before that, registration needs the configured bootstrap
/// secret, given exactly.
pub open spec fn spec_register_gate(
    count: int,
    signed_in: bool,
    secret: Option<Seq<char>>,
    given: Option<Seq<char>>,
) -> RegisterGate {
    if count > 0 {
        if signed_in {
            RegisterGate::Open
        } else {
            RegisterGate::SignIn
        }
    } else {
        match (secret, given) {
            (Some(e), Some(g)) => if e == g {
                RegisterGate::Open
            } else {
                RegisterGate::Refused
            },
            _ => RegisterGate::Refused,
        }
    }
}

/// Decides who may register, given how many passkeys exist.
pub fn register_gate(count: i64, signed_in: bool, secret: Option<&str>, given: Option<&str>) -> (r: RegisterGate)
    ensures
        r == spec_register_gate(
            count as int,
            signed_in,
            crate::text::opt_str_view(secret),
            crate::text::opt_str_view(given),
        ),
{
    if count > 0 {
        if signed_in {
            RegisterGate::Open
        } else {
            RegisterGate::SignIn
        }
    } else {
        match (secret, given) {
            (Some(e), Some(g)) => if constant_time_eq(e, g) {
                RegisterGate::Open
            } else {
                RegisterGate::Refused
            },
            _ => RegisterGate::Refused,
        }
    }
}

/// Once a passkey exists, registration never opens to a request that is
/// not from the signed-in owner, whatever secret it carries.
pub proof fn lemma_gate_closed_to_strangers(
    count: int,
    secret: Option<Seq<char>>,
    given: Option<Seq<char>>,
)
    requires
        count > 0,
    ensures
        spec_register_gate(count, false, secret, given) != RegisterGate::Open,
{
}

/// Before any passkey exists, registration opens only when a bootstrap
/// secret is configured and the request gives exactly that secret.
pub proof fn lemma_bootstrap_needs_secret(
    count: int,
    signed_in: bool,
    secret: Option<Seq<char>>,
    given: Option<Seq<char>>,
)
    requires
        count <= 0,
        spec_register_gate(count, signed_in, secret, given) == RegisterGate::Open,
    ensures
        secret is Some && given == secret,
{
}

/// The owner's user name in a passkey registration.
pub const OWNER_USER_NAME: &'static str = "owner";

/// The owner's display name in a passkey registration.
pub const OWNER_DISPLAY_NAME: &'static str = "Owner";

pub const REGISTER_LOGIN: &'static str = "/auth/login?return_to=%2Fauth%2Fregister";

pub const BOOTSTRAP_REFUSED: &'static str = "Bootstrap registration requires a valid one-time secret";

/// How a registration request is met for each gate decision, and what
/// it hands SQLite after `before`: the registration page with the
/// ceremony options and the cookie of a new registration ceremony
/// session, or, storing nothing, a redirect to sign in or a refusal.
/// Starting the ceremony or its session can fail, which abandons the
/// request.
pub open spec fn register_answer(
    gate: RegisterGate,
    before: Seq<SentStatement>,
    after: Seq<SentStatement>,
    r: Result<Reply, Fatal>,
) -> bool {
    match gate {
        RegisterGate::SignIn => (r matches Ok(reply) && reply.is_redirect(REGISTER_LOGIN@)) && after == before,
        RegisterGate::Refused => answers_html(r, STATUS_FORBIDDEN, spec_error_page(BOOTSTRAP_REFUSED@))
            && after == before,
        RegisterGate::Open => match r {
            Ok(reply) => exists|options: Seq<char>, cookie: Seq<char>|
                is_ceremony_cookie(cookie) && #[trigger] is_html_with_cookie(
                    reply,
                    STATUS_OK,
                    spec_register_page(options),
                    cookie,
                ) && ceremony_started(true, None, cookie, before, after),
            Err(e) => e == Fatal::StartRegistration || e == Fatal::Clock || e == Fatal::CreateSession
                || e == Fatal::SerializeSession || e == Fatal::Serialize,
        },
    }
}

/// Whether a new ceremony session, for a registration (`registering`) or
/// for a sign-in returning to `return_to`, was stored after `before` and
/// `cookie` carries it.
pub open spec fn ceremony_started(
    registering: bool,
    return_to: Option<Seq<char>>,
    cookie: Seq<char>,
    before: Seq<SentStatement>,
    after: Seq<SentStatement>,
) -> bool {
    exists|data: SessionData|
        #[trigger] session_started(data, cookie, before, after) && if registering {
            data is CeremonyRegistration
        } else {
            sign_in_return(Some(data)) == Some(return_to)
        }
}

fn page_with_cookie(page: String, cookie: &str) -> (r: Reply)
    ensures
        is_html_with_cookie(r, STATUS_OK, page@, cookie@),
{
    let r = append_cookie(html(STATUS_OK, page), cookie);
    proof {
        if super::is_header_value(cookie@) {
            assert(r.header_pairs() =~= seq![(crate::error::CONTENT_TYPE@, crate::error::HTML_TYPE@)]
                + super::cookie_headers(cookie@));
        } else {
            assert(r.header_pairs() =~= seq![(crate::error::CONTENT_TYPE@, crate::error::HTML_TYPE@)]
                + super::cookie_headers(cookie@));
        }
    }
    r
}

fn redirect_setting(location: &str, cookie: &str) -> (r: Reply)
    ensures
        is_redirect_with_cookie(r, location@, cookie@),
{
    let r = append_cookie(redirect(location), cookie);
    proof {
        assert(r.header_pairs() =~= seq![(crate::error::LOCATION@, location@)] + super::cookie_headers(cookie@));
    }
    r
}

fn credential_ids(creds: &Vec<CredentialRow>) -> (r: Vec<Vec<u8>>)
    ensures
        r@.len() == creds@.len(),
        forall|k: int| 0 <= k < creds@.len() ==> (#[trigger] r@[k])@ == creds@[k].credential_id@,
{
    let mut out: Vec<Vec<u8>> = Vec::new();
    let mut i: usize = 0;
    while i < creds.len()
        invariant
            i <= creds@.len(),
            out@.len() == i,
            forall|k: int| 0 <= k < i ==> (#[trigger] out@[k])@ == creds@[k].credential_id@,
        decreases creds@.len() - i,
    {
        out.push(vstd::slice::slice_to_vec(creds[i].credential_id.as_slice()));
        i = i + 1;
    }
    out
}

/// The query counting the stored passkeys.
pub open spec fn count_query() -> SentStatement {
    (COUNT_CREDENTIALS_SQL@, None::<Seq<u8>>, Seq::<Option<Seq<char>>>::empty())
}

/// The query listing the stored passkeys.
pub open spec fn list_query() -> SentStatement {
    (LIST_CREDENTIALS_SQL@, None::<Seq<u8>>, Seq::<Option<Seq<char>>>::empty())
}

/// `GET /auth/register`: starts a passkey registration for the owner,
/// excluding the passkeys already registered, behind the registration
/// gate (a passkey count that cannot be read counts as none).
pub fn register_page_handler(
    store: &mut Store,
    ws: &WebauthnState,
    headers: &HeaderList,
    owner: &Option<SessionData>,
    bootstrap_secret: Option<&str>,
    bootstrap: Option<&str>,
) -> (r: Result<Reply, Fatal>)
    ensures
        final(store).reads().len() > old(store).reads().len(),
        register_answer(
            spec_register_gate(
                count_or_none(final(store).reads()[old(store).reads().len() as int].1),
                owner_signed_in(*headers, *owner),
                crate::text::opt_str_view(bootstrap_secret),
                crate::text::opt_str_view(bootstrap),
            ),
            old(store).sent(),
            final(store).sent(),
            r,
        ),
        final(store).queried() == old(store).queried().push(count_query()) || final(store).queried() == old(
            store,
        ).queried().push(count_query()).push(list_query()),
{
    let count = match count_credentials(store) {
        Ok(n) => n,
        Err(_) => 0,
    };
    let ghost counted = store.reads();
    proof {
        assert(count as int == count_or_none(counted.last().1));
    }
    let gate = register_gate(count, signed_in(headers, owner), bootstrap_secret, bootstrap);
    let ghost n = count as int;
    match gate {
        RegisterGate::SignIn => {
            let r = Ok(redirect(REGISTER_LOGIN));
            proof {
                assert(register_answer(gate, old(store).sent(), store.sent(), r));
            }
            return r;
        },
        RegisterGate::Refused => {
            let r = Ok(forbidden(BOOTSTRAP_REFUSED));
            proof {
                assert(register_answer(gate, old(store).sent(), store.sent(), r));
            }
            return r;
        },
        RegisterGate::Open => {},
    }
    let existing = match list_credentials(store) {
        Ok(c) => c,
        Err(_) => Vec::new(),
    };
    let ids = credential_ids(&existing);
    let exclude = if ids.len() == 0 {
        None
    } else {
        Some(ids)
    };
    let (ccr, reg_state) = match start_registration(ws, OWNER_USER_NAME, OWNER_DISPLAY_NAME, exclude) {
        Ok(v) => v,
        Err(_) => {
            let r = Err(Fatal::StartRegistration);
            proof {
                assert(register_answer(gate, old(store).sent(), store.sent(), r));
            }
            return r;
        },
    };
    let data = SessionData::CeremonyRegistration { state: reg_state };
    let cookie = match start_session(store, &data) {
        Ok(c) => c,
        Err(e) => {
            let r = Err(e);
            proof {
                assert(register_answer(gate, old(store).sent(), store.sent(), r));
            }
            return r;
        },
    };
    let options_json = match creation_options_json(&ccr) {
        Some(j) => j,
        None => {
            let r = Err(Fatal::Serialize);
            proof {
                assert(register_answer(gate, old(store).sent(), store.sent(), r));
            }
            return r;
        },
    };
    let reply = page_with_cookie(register_page(options_json.as_str()), cookie.as_str());
    proof {
        lemma_session_cookie_kind(data, cookie@);
        assert(is_html_with_cookie(reply, STATUS_OK, spec_register_page(options_json@), cookie@));
        assert(ceremony_started(true, None, cookie@, old(store).sent(), store.sent()));
        assert(register_answer(gate, old(store).sent(), store.sent(), Ok(reply)));
    }
    Ok(reply)
}

/// What finishing a registration submits: the authenticator's response and
/// the label the owner typed, if any.
pub struct RegisterFinish {
    pub credential: RegisterPublicKeyCredential,
    pub label: Option<String>,
}

pub const NO_REGISTRATION: &'static str = "No registration in progress";

pub const INVALID_REGISTRATION: &'static str = "Invalid registration response";

pub const REGISTRATION_FAILED: &'static str = "Registration failed";

pub const ALREADY_REGISTERED: &'static str = "This passkey is already registered";

/// Whether the session stored under the ceremony cookie is a registration
/// in progress.
pub open spec fn is_registration(ceremony: Option<SessionData>) -> bool {
    ceremony matches Some(SessionData::CeremonyRegistration { .. })
}

/// The answer once the new passkey was stored (`stored`) or refused as
/// already registered, and what it hands SQLite after `before`: back to
/// the list, signing the owner in with a new owner session when the
/// request had no owner cookie (as after the bootstrap registration).
pub open spec fn stored_answer(
    stored: bool,
    has_owner_cookie: bool,
    before: Seq<SentStatement>,
    after: Seq<SentStatement>,
    r: Result<Reply, Fatal>,
) -> bool {
    if !stored {
        answers_html(r, STATUS_BAD_REQUEST, spec_error_page(ALREADY_REGISTERED@)) && after == before
    } else if has_owner_cookie {
        super::answers_redirect(r, CREDENTIALS_PATH@) && after == before
    } else {
        match r {
            Ok(reply) => exists|cookie: Seq<char>|
                is_owner_cookie(cookie) && #[trigger] is_redirect_with_cookie(reply, CREDENTIALS_PATH@, cookie)
                    && session_started(SessionData::Owner { pending_authorize: None }, cookie, before, after),
            Err(e) => e == Fatal::Clock || e == Fatal::CreateSession,
        }
    }
}

/// Answers a registration whose passkey was stored or not.
pub fn after_store(store: &mut Store, stored: bool, has_owner_cookie: bool) -> (r: Result<Reply, Fatal>)
    ensures
        stored_answer(stored, has_owner_cookie, old(store).sent(), final(store).sent(), r),
{
    if !stored {
        return Ok(bad_request(ALREADY_REGISTERED));
    }
    let back = default_return_to();
    if !has_owner_cookie {
        let data = SessionData::Owner { pending_authorize: None };
        let cookie = start_session(store, &data)?;
        let reply = redirect_setting(back.as_str(), cookie.as_str());
        proof {
            lemma_session_cookie_kind(data, cookie@);
            assert(is_redirect_with_cookie(reply, CREDENTIALS_PATH@, cookie@));
            assert(session_started(data, cookie@, old(store).sent(), store.sent()));
        }
        return Ok(reply);
    }
    Ok(redirect(back.as_str()))
}

/// What storing the passkey `id` (state `json`, label `label`) gives and
/// hands SQLite after `before`, given the clock's reading as RFC 3339
/// text (`None` when it could not be written): nothing and the clock
/// error without a reading; else the passkey's row, and the answer to
/// whether SQLite stored it.
pub open spec fn passkey_stored(
    id: Seq<u8>,
    json: Seq<char>,
    label: Option<Seq<char>>,
    now: Option<Seq<char>>,
    has_owner_cookie: bool,
    before: Seq<SentStatement>,
    after: Seq<SentStatement>,
    r: Result<Reply, Fatal>,
) -> bool {
    match now {
        None => r == Err::<Reply, Fatal>(Fatal::Clock) && after == before,
        Some(t) => {
            let inserted = before.push(insert_credential_sent(id, json, label, t));
            stored_answer(true, has_owner_cookie, inserted, after, r) || stored_answer(
                false,
                has_owner_cookie,
                inserted,
                after,
                r,
            )
        },
    }
}

/// The clock's reading as text, if it could be written.
pub open spec fn clock_text(now: Result<String, DbError>) -> Option<Seq<char>> {
    match now {
        Ok(t) => Some(t@),
        Err(_) => None,
    }
}

/// Stores the newly registered passkey `credential_id` with its state
/// `stored_json` and `label`, registered at `now` (the clock's reading),
/// and answers.
pub fn store_passkey(
    store: &mut Store,
    credential_id: &[u8],
    stored_json: &str,
    label: Option<&str>,
    now: Result<String, DbError>,
    has_owner_cookie: bool,
) -> (r: Result<Reply, Fatal>)
    ensures
        passkey_stored(
            credential_id@,
            stored_json@,
            opt_str_view(label),
            clock_text(now),
            has_owner_cookie,
            old(store).sent(),
            final(store).sent(),
            r,
        ),
{
    let ghost reading = clock_text(now);
    let now = match now {
        Ok(t) => t,
        Err(_) => {
            return Err(Fatal::Clock);
        },
    };
    proof {
        assert(reading == Some(now@));
    }
    let stored = insert_credential_at(store, credential_id, stored_json, label, now.as_str()).is_ok();
    let r = after_store(store, stored, has_owner_cookie);
    proof {
        assert(stored_answer(
            stored,
            has_owner_cookie,
            old(store).sent().push(insert_credential_sent(credential_id@, stored_json@, opt_str_view(label), now@)),
            store.sent(),
            r,
        ));
        assert(passkey_stored(
            credential_id@,
            stored_json@,
            opt_str_view(label),
            Some(now@),
            has_owner_cookie,
            old(store).sent(),
            store.sent(),
            r,
        ));
    }
    r
}

/// What finishing a registration gives and hands SQLite after `before`,
/// once webauthn-rs has judged the response (`checked`): a refusal
/// storing nothing when it failed; otherwise the ceremony session
/// `ceremony_id` is deleted and the new passkey stored with `label` and
/// a clock reading, where a passkey or clock that cannot be written
/// abandons the request.
pub open spec fn registration_answer(
    checked: bool,
    ceremony_id: Seq<char>,
    label: Option<Seq<char>>,
    has_owner_cookie: bool,
    before: Seq<SentStatement>,
    after: Seq<SentStatement>,
    r: Result<Reply, Fatal>,
) -> bool {
    if !checked {
        answers_html(r, STATUS_BAD_REQUEST, spec_error_page(REGISTRATION_FAILED@)) && after == before
    } else {
        (r == Err::<Reply, Fatal>(Fatal::Serialize) && after == before.push(delete_session_sent(ceremony_id)))
            || exists|id: Seq<u8>, json: Seq<char>, now: Option<Seq<char>>|
            (now matches Some(t) ==> is_clock_reading(t)) && #[trigger] passkey_stored(
                id,
                json,
                label,
                now,
                has_owner_cookie,
                before.push(delete_session_sent(ceremony_id)),
                after,
                r,
            )
    }
}

/// Finishes a registration given webauthn-rs's verdict on the response:
/// ends the ceremony and stores the passkey with its label.
pub fn complete_registration(
    store: &mut Store,
    checked: Result<Passkey, webauthn_rs::prelude::WebauthnError>,
    ceremony_id: &str,
    label: Option<&str>,
    has_owner_cookie: bool,
) -> (r: Result<Reply, Fatal>)
    ensures
        registration_answer(
            checked is Ok,
            ceremony_id@,
            opt_str_view(label),
            has_owner_cookie,
            old(store).sent(),
            final(store).sent(),
            r,
        ),
{
    let passkey = match checked {
        Ok(pk) => pk,
        Err(_) => {
            return Ok(bad_request(REGISTRATION_FAILED));
        },
    };
    end_session(store, ceremony_id);
    let ghost ended = store.sent();
    let credential_id = passkey_id(&passkey);
    let stored_json = match passkey_json(&passkey) {
        Some(j) => j,
        None => {
            return Err(Fatal::Serialize);
        },
    };
    let now = now_text();
    let ghost reading = clock_text(now);
    let r = store_passkey(store, credential_id.as_slice(), stored_json.as_str(), label, now, has_owner_cookie);
    proof {
        assert(reading matches Some(t) ==> is_clock_reading(t));
        assert(passkey_stored(
            credential_id@,
            stored_json@,
            opt_str_view(label),
            reading,
            has_owner_cookie,
            ended,
            store.sent(),
            r,
        ));
    }
    r
}

/// `POST /auth/register/finish`: checks the authenticator's response
/// against the registration in progress (the session stored under the
/// ceremony cookie), ends that ceremony and stores the new passkey.
pub fn register_finish(
    store: &mut Store,
    ws: &WebauthnState,
    method: HttpMethod,
    headers: &HeaderList,
    rp_origin: &str,
    ceremony: Option<SessionData>,
    body: Submitted<RegisterFinish>,
) -> (r: Result<Reply, Fatal>)
    ensures
        !spec_is_same_site(method, headers.pairs(), rp_origin@) ==> answers_html(
            r,
            STATUS_FORBIDDEN,
            spec_error_page(CROSS_SITE@),
        ) && final(store).sent() == old(store).sent(),
        spec_is_same_site(method, headers.pairs(), rp_origin@) ==> if spec_get_cookie(
            headers.pairs(),
            CEREMONY_COOKIE@,
        ) is None || !is_registration(ceremony) {
            answers_html(r, STATUS_BAD_REQUEST, spec_error_page(NO_REGISTRATION@)) && final(store).sent()
                == old(store).sent()
        } else {
            match body {
                Submitted::Unreadable => answers_html(r, STATUS_BAD_REQUEST, spec_error_page(INVALID_BODY@))
                    && final(store).sent() == old(store).sent(),
                Submitted::Malformed => answers_html(
                    r,
                    STATUS_BAD_REQUEST,
                    spec_error_page(INVALID_REGISTRATION@),
                ) && final(store).sent() == old(store).sent(),
                Submitted::Parsed(f) => exists|checked: bool|
                    #[trigger] registration_answer(
                        checked,
                        spec_get_cookie(headers.pairs(), CEREMONY_COOKIE@)->0,
                        opt_text(f.label),
                        spec_get_cookie(headers.pairs(), OWNER_COOKIE@) is Some,
                        old(store).sent(),
                        final(store).sent(),
                        r,
                    ),
            }
        },
{
    if !is_same_site(&method, headers, rp_origin) {
        return Ok(forbidden(CROSS_SITE));
    }
    let session_id = match get_cookie(headers, CEREMONY_COOKIE) {
        None => {
            return Ok(bad_request(NO_REGISTRATION));
        },
        Some(id) => id,
    };
    let reg_state = match ceremony {
        Some(SessionData::CeremonyRegistration { state }) => state,
        _ => {
            return Ok(bad_request(NO_REGISTRATION));
        },
    };
    let has_owner_cookie = get_cookie(headers, OWNER_COOKIE).is_some();
    let finish = match body {
        Submitted::Unreadable => {
            return Ok(bad_request(INVALID_BODY));
        },
        Submitted::Malformed => {
            return Ok(bad_request(INVALID_REGISTRATION));
        },
        Submitted::Parsed(f) => f,
    };
    let checked = finish_registration(ws, &finish.credential, &reg_state);
    let ghost ok = checked is Ok;
    let label = match &finish.label {
        Some(l) => Some(l.as_str()),
        None => None,
    };
    let r = complete_registration(store, checked, session_id.as_str(), label, has_owner_cookie);
    proof {
        assert(has_owner_cookie == (spec_get_cookie(headers.pairs(), OWNER_COOKIE@) is Some));
        assert(opt_str_view(label) == opt_text(finish.label));
        assert(registration_answer(
            ok,
            spec_get_cookie(headers.pairs(), CEREMONY_COOKIE@)->0,
            opt_text(finish.label),
            spec_get_cookie(headers.pairs(), OWNER_COOKIE@) is Some,
            old(store).sent(),
            store.sent(),
            r,
        ));
    }
    r
}

pub const NO_PASSKEYS: &'static str = "No passkeys are registered yet.";

pub const COULD_NOT_START: &'static str = "Could not start sign-in";

/// Where to go after signing in: where the request asked, else the
/// credentials page.
pub open spec fn return_target(return_to: Option<Seq<char>>) -> Seq<char> {
    text_or(return_to, CREDENTIALS_PATH@)
}

/// How many of the stored passkeys read back.
pub open spec fn parsing_count(creds: Seq<CredentialRow>) -> nat
    decreases creds.len(),
{
    if creds.len() == 0 {
        0
    } else {
        parsing_count(creds.drop_last()) + if passkey_json_parses(creds.last().passkey_json@) {
            1nat
        } else {
            0nat
        }
    }
}

/// The stored passkeys that read back, one for each.
fn parse_passkeys(creds: &Vec<CredentialRow>) -> (r: Vec<Passkey>)
    ensures
        r@.len() == parsing_count(creds@),
{
    let mut out: Vec<Passkey> = Vec::new();
    let mut i: usize = 0;
    while i < creds.len()
        invariant
            i <= creds@.len(),
            out@.len() == parsing_count(creds@.take(i as int)),
        decreases creds@.len() - i,
    {
        proof {
            assert(creds@.take(i + 1).drop_last() == creds@.take(i as int));
            assert(creds@.take(i + 1).last() == creds@[i as int]);
        }
        if let Some(pk) = passkey_from_json(creds[i].passkey_json.as_str()) {
            out.push(pk);
        }
        i = i + 1;
    }
    proof {
        assert(creds@.take(creds@.len() as int) == creds@);
    }
    out
}

/// The answer once webauthn-rs has (or has not, `started`) started a
/// sign-in ceremony, and what it hands SQLite after `before`: the
/// sign-in page carrying the request options and the cookie of a new
/// sign-in ceremony session returning to `return_to`, or a refusal that
/// stores nothing.
pub open spec fn sign_in_page_answer(
    started: bool,
    return_to: Option<Seq<char>>,
    before: Seq<SentStatement>,
    after: Seq<SentStatement>,
    r: Result<Reply, Fatal>,
) -> bool {
    if !started {
        answers_html(r, STATUS_BAD_REQUEST, spec_error_page(COULD_NOT_START@)) && after == before
    } else {
        match r {
            Ok(reply) => exists|options: Seq<char>, cookie: Seq<char>|
                is_ceremony_cookie(cookie) && #[trigger] is_html_with_cookie(
                    reply,
                    STATUS_OK,
                    spec_login_page(options),
                    cookie,
                ) && ceremony_started(false, return_to, cookie, before, after),
            Err(e) => e == Fatal::Clock || e == Fatal::CreateSession || e == Fatal::SerializeSession
                || e == Fatal::Serialize,
        }
    }
}

/// Shows the sign-in page given webauthn-rs's start of the ceremony,
/// holding its state (and where to go afterwards) in a new ceremony
/// session.
pub fn sign_in_page(
    store: &mut Store,
    started: Result<
        (webauthn_rs::prelude::RequestChallengeResponse, webauthn_rs::prelude::PasskeyAuthentication),
        webauthn_rs::prelude::WebauthnError,
    >,
    return_to: Option<String>,
) -> (r: Result<Reply, Fatal>)
    ensures
        sign_in_page_answer(started is Ok, opt_text(return_to), old(store).sent(), final(store).sent(), r),
        final(store).reads() == old(store).reads(),
{
    let (rcr, auth_state) = match started {
        Ok(v) => v,
        Err(_) => {
            return Ok(bad_request(COULD_NOT_START));
        },
    };
    let ghost back = opt_text(return_to);
    let data = SessionData::CeremonyAuthentication { state: auth_state, return_to };
    let cookie = start_session(store, &data)?;
    let options_json = match request_options_json(&rcr) {
        Some(j) => j,
        None => {
            return Err(Fatal::Serialize);
        },
    };
    let reply = page_with_cookie(login_page(options_json.as_str()), cookie.as_str());
    proof {
        lemma_session_cookie_kind(data, cookie@);
        assert(is_html_with_cookie(reply, STATUS_OK, spec_login_page(options_json@), cookie@));
        assert(sign_in_return(Some(data)) == Some(back));
        assert(ceremony_started(false, back, cookie@, old(store).sent(), store.sent()));
    }
    Ok(reply)
}

/// What someone not signed in gets, given the stored passkeys `creds`,
/// and what it hands SQLite after `before`: with none there is nothing to
/// sign in with and nothing is stored; otherwise a sign-in ceremony over
/// them starts.
pub open spec fn login_page_answer(
    creds: Seq<CredentialRow>,
    return_to: Option<Seq<char>>,
    before: Seq<SentStatement>,
    after: Seq<SentStatement>,
    r: Result<Reply, Fatal>,
) -> bool {
    if creds.len() == 0 {
        answers_html(r, STATUS_BAD_REQUEST, spec_error_page(NO_PASSKEYS@)) && after == before
    } else {
        exists|started: bool| #[trigger] sign_in_page_answer(started, return_to, before, after, r)
    }
}

/// Starts a sign-in over the stored passkeys `creds`: every one that
/// reads back is offered to the authenticator.
pub fn sign_in_over(
    store: &mut Store,
    ws: &WebauthnState,
    creds: &Vec<CredentialRow>,
    return_to: Option<String>,
) -> (r: Result<Reply, Fatal>)
    ensures
        login_page_answer(creds@, opt_text(return_to), old(store).sent(), final(store).sent(), r),
        final(store).reads() == old(store).reads(),
{
    if creds.len() == 0 {
        return Ok(bad_request(NO_PASSKEYS));
    }
    let passkeys = parse_passkeys(creds);
    let started = start_authentication(ws, &passkeys);
    let ghost ok = started is Ok;
    let ghost back = opt_text(return_to);
    let r = sign_in_page(store, started, return_to);
    proof {
        assert(sign_in_page_answer(ok, back, old(store).sent(), store.sent(), r));
    }
    r
}

/// `GET /auth/login`: the signed-in owner goes straight on, storing
/// nothing; otherwise a sign-in ceremony starts over every stored passkey
/// that reads back (a listing that cannot be read counts as none).
pub fn login_page_handler(
    store: &mut Store,
    ws: &WebauthnState,
    headers: &HeaderList,
    owner: &Option<SessionData>,
    return_to: Option<String>,
) -> (r: Result<Reply, Fatal>)
    ensures
        owner_signed_in(*headers, *owner) ==> super::answers_redirect(r, return_target(opt_text(return_to)))
            && final(store).sent() == old(store).sent(),
        !owner_signed_in(*headers, *owner) ==> exists|creds: Seq<CredentialRow>|
            shown_listing(final(store).reads().last().1, creds) && #[trigger] login_page_answer(
                creds,
                opt_text(return_to),
                old(store).sent(),
                final(store).sent(),
                r,
            ),
        final(store).queried() == if owner_signed_in(*headers, *owner) {
            old(store).queried()
        } else {
            old(store).queried().push(list_query())
        },
{
    if signed_in(headers, owner) {
        let target = match &return_to {
            Some(t) => t.clone(),
            None => default_return_to(),
        };
        return Ok(redirect(target.as_str()));
    }
    let creds = match list_credentials(store) {
        Ok(c) => c,
        Err(_) => Vec::new(),
    };
    let ghost back = opt_text(return_to);
    proof {
        assert(shown_listing(store.reads().last().1, creds@));
    }
    let r = sign_in_over(store, ws, &creds, return_to);
    proof {
        assert(login_page_answer(creds@, back, old(store).sent(), store.sent(), r));
    }
    r
}

pub const NO_SIGN_IN: &'static str = "No sign-in in progress";

pub const INVALID_SIGN_IN: &'static str = "Invalid sign-in response";

pub const SIGN_IN_FAILED: &'static str = "Sign-in failed";

/// Where a sign-in in progress (the session stored under the ceremony
/// cookie) goes afterwards, if it is one.
pub open spec fn sign_in_return(ceremony: Option<SessionData>) -> Option<Option<Seq<char>>> {
    match ceremony {
        Some(SessionData::CeremonyAuthentication { return_to, .. }) => Some(opt_text(return_to)),
        _ => None,
    }
}

fn same_bytes(a: &Vec<u8>, b: &Vec<u8>) -> (r: bool)
    ensures
        r == (a@ == b@),
{
    if a.len() != b.len() {
        return false;
    }
    let mut i: usize = 0;
    while i < a.len()
        invariant
            a@.len() == b@.len(),
            i <= a@.len(),
            forall|k: int| 0 <= k < i ==> a@[k] == b@[k],
        decreases a@.len() - i,
    {
        if a[i] != b[i] {
            return false;
        }
        i = i + 1;
    }
    proof {
        assert(a@ =~= b@);
    }
    true
}

/// Whether at most the update of the stored passkey `used`'s state after
/// a sign-in, stamped with a clock reading, was handed to SQLite.
pub open spec fn sign_in_recorded(before: Seq<SentStatement>, after: Seq<SentStatement>, used: Seq<u8>) -> bool {
    after == before || exists|json: Seq<char>, now: Seq<char>|
        is_clock_reading(now) && after == before.push(#[trigger] update_after_auth_sent(used, json, now))
}

/// The statement that stores passkey `id`'s state `json` after a sign-in
/// at the clock reading `now`.
pub open spec fn update_after_auth_sent(id: Seq<u8>, json: Seq<char>, now: Seq<char>) -> SentStatement {
    (UPDATE_AFTER_AUTH_SQL@, Some(id), seq![Some(json), Some(now)])
}

/// Folds a sign-in into the stored passkey `used` (the one webauthn-rs
/// authenticated), when it is among the passkeys read back, its state
/// reads back and webauthn-rs reports a change (a sign counter or backup
/// state), so counter-based replay detection stays accurate. Only that
/// passkey's row is updated.
fn record_sign_in(
    store: &mut Store,
    result: &webauthn_rs::prelude::AuthenticationResult,
    used: &Vec<u8>,
) -> (r: Result<(), Fatal>)
    ensures
        r matches Err(e) ==> e == Fatal::Serialize,
        sign_in_recorded(old(store).sent(), final(store).sent(), used@),
        final(store).queried() == old(store).queried().push(list_query()),
{
    let creds = match list_credentials(store) {
        Ok(c) => c,
        Err(_) => Vec::new(),
    };
    let ghost listed = store.queried();
    let mut i: usize = 0;
    while i < creds.len()
        invariant
            i <= creds@.len(),
            store.sent() == old(store).sent(),
            store.queried() == listed,
            listed == old(store).queried().push(list_query()),
        decreases creds@.len() - i,
    {
        if same_bytes(&creds[i].credential_id, used) {
            if let Some(mut pk) = passkey_from_json(creds[i].passkey_json.as_str()) {
                if let Some(true) = update_passkey(&mut pk, result) {
                    let stored = match passkey_json(&pk) {
                        Some(j) => j,
                        None => {
                            return Err(Fatal::Serialize);
                        },
                    };
                    let done = update_credential_after_auth(store, used.as_slice(), stored.as_str());
                    proof {
                        if !clock_failed(done) {
                            let now = choose|now: Seq<char>|
                                #[trigger] is_clock_reading(now) && store.sent() == old(store).sent().push(
                                    (UPDATE_AFTER_AUTH_SQL@, Some(used@), seq![Some(stored@), Some(now)]),
                                );
                            assert(store.sent() == old(store).sent().push(update_after_auth_sent(used@, stored@, now)));
                        }
                        assert(sign_in_recorded(old(store).sent(), store.sent(), used@));
                    }
                }
            }
            return Ok(());
        }
        i = i + 1;
    }
    Ok(())
}

/// What signing in gives and hands SQLite after `before`, once
/// webauthn-rs has judged the response (`checked`): a refusal storing
/// nothing when it failed; otherwise the ceremony session `ceremony_id` is
/// deleted, the sign-in recorded on its passkey, and a new owner session
/// started, with a redirect to `return_to` (else the credentials page)
/// setting its cookie.
pub open spec fn sign_in_answer(
    checked: bool,
    ceremony_id: Seq<char>,
    return_to: Option<Seq<char>>,
    before: Seq<SentStatement>,
    after: Seq<SentStatement>,
    r: Result<Reply, Fatal>,
) -> bool {
    if !checked {
        answers_html(r, STATUS_FORBIDDEN, spec_error_page(SIGN_IN_FAILED@)) && after == before
    } else {
        exists|used: Seq<u8>, recorded: Seq<SentStatement>|
            #[trigger] sign_in_recorded(before.push(delete_session_sent(ceremony_id)), recorded, used) && match r {
                Ok(reply) => exists|cookie: Seq<char>|
                    is_owner_cookie(cookie) && #[trigger] is_redirect_with_cookie(
                        reply,
                        return_target(return_to),
                        cookie,
                    ) && session_started(SessionData::Owner { pending_authorize: None }, cookie, recorded, after),
                Err(e) => e == Fatal::Serialize || e == Fatal::Clock || e == Fatal::CreateSession,
            }
    }
}

/// Finishes a sign-in given webauthn-rs's verdict on the response: ends
/// the ceremony, records the sign-in on its passkey and starts the owner
/// session.
pub fn complete_sign_in(
    store: &mut Store,
    checked: Result<webauthn_rs::prelude::AuthenticationResult, webauthn_rs::prelude::WebauthnError>,
    ceremony_id: &str,
    return_to: Option<String>,
) -> (r: Result<Reply, Fatal>)
    ensures
        sign_in_answer(checked is Ok, ceremony_id@, opt_text(return_to), old(store).sent(), final(store).sent(), r),
{
    let result = match checked {
        Ok(r) => r,
        Err(_) => {
            return Ok(forbidden(SIGN_IN_FAILED));
        },
    };
    end_session(store, ceremony_id);
    let ghost ended = store.sent();
    let used = authenticated_id(&result);
    let recorded = record_sign_in(store, &result, &used);
    let ghost rec = store.sent();
    proof {
        assert(sign_in_recorded(ended, rec, used@));
    }
    if let Err(e) = recorded {
        return Err(e);
    }
    let data = SessionData::Owner { pending_authorize: None };
    let cookie = start_session(store, &data)?;
    let target = match &return_to {
        Some(t) => t.clone(),
        None => default_return_to(),
    };
    let reply = redirect_setting(target.as_str(), cookie.as_str());
    proof {
        lemma_session_cookie_kind(data, cookie@);
        assert(is_redirect_with_cookie(reply, return_target(opt_text(return_to)), cookie@));
        assert(session_started(data, cookie@, rec, store.sent()));
    }
    Ok(reply)
}

/// `POST /auth/login/finish`: checks the authenticator's response against
/// the sign-in in progress, ends that ceremony, records the sign-in on the
/// passkey, and signs the owner in with a new owner session.
pub fn login_finish(
    store: &mut Store,
    ws: &WebauthnState,
    method: HttpMethod,
    headers: &HeaderList,
    rp_origin: &str,
    ceremony: Option<SessionData>,
    body: Submitted<PublicKeyCredential>,
) -> (r: Result<Reply, Fatal>)
    ensures
        !spec_is_same_site(method, headers.pairs(), rp_origin@) ==> answers_html(
            r,
            STATUS_FORBIDDEN,
            spec_error_page(CROSS_SITE@),
        ) && final(store).sent() == old(store).sent(),
        spec_is_same_site(method, headers.pairs(), rp_origin@) ==> if spec_get_cookie(
            headers.pairs(),
            CEREMONY_COOKIE@,
        ) is None || sign_in_return(ceremony) is None {
            answers_html(r, STATUS_BAD_REQUEST, spec_error_page(NO_SIGN_IN@)) && final(store).sent() == old(
                store,
            ).sent()
        } else {
            match body {
                Submitted::Unreadable => answers_html(r, STATUS_BAD_REQUEST, spec_error_page(INVALID_BODY@))
                    && final(store).sent() == old(store).sent(),
                Submitted::Malformed => answers_html(r, STATUS_BAD_REQUEST, spec_error_page(INVALID_SIGN_IN@))
                    && final(store).sent() == old(store).sent(),
                Submitted::Parsed(_) => exists|checked: bool|
                    #[trigger] sign_in_answer(
                        checked,
                        spec_get_cookie(headers.pairs(), CEREMONY_COOKIE@)->0,
                        sign_in_return(ceremony)->0,
                        old(store).sent(),
                        final(store).sent(),
                        r,
                    ),
            }
        },
{
    if !is_same_site(&method, headers, rp_origin) {
        return Ok(forbidden(CROSS_SITE));
    }
    let ceremony_id = match get_cookie(headers, CEREMONY_COOKIE) {
        None => {
            return Ok(bad_request(NO_SIGN_IN));
        },
        Some(id) => id,
    };
    let ghost back_to = sign_in_return(ceremony);
    let (auth_state, return_to) = match ceremony {
        Some(SessionData::CeremonyAuthentication { state, return_to }) => (state, return_to),
        _ => {
            return Ok(bad_request(NO_SIGN_IN));
        },
    };
    let credential = match body {
        Submitted::Unreadable => {
            return Ok(bad_request(INVALID_BODY));
        },
        Submitted::Malformed => {
            return Ok(bad_request(INVALID_SIGN_IN));
        },
        Submitted::Parsed(c) => c,
    };
    let checked = finish_authentication(ws, &credential, &auth_state);
    let ghost ok = checked is Ok;
    let r = complete_sign_in(store, checked, ceremony_id.as_str(), return_to);
    proof {
        assert(sign_in_return(ceremony)->0 == opt_text(return_to));
        assert(sign_in_answer(
            ok,
            spec_get_cookie(headers.pairs(), CEREMONY_COOKIE@)->0,
            sign_in_return(ceremony)->0,
            old(store).sent(),
            store.sent(),
            r,
        ));
    }
    r
}

pub const LOGIN_PATH: &'static str = "/auth/login";

/// `POST /auth/logout`: ends the owner session, if there is one, and
/// clears the owner cookie on the way to the sign-in page. A cross-site
/// request is refused and ends nothing.
pub fn logout(store: &mut Store, method: HttpMethod, headers: &HeaderList, rp_origin: &str) -> (r: Reply)
    ensures
        !spec_is_same_site(method, headers.pairs(), rp_origin@) ==> r.is_html(
            STATUS_FORBIDDEN,
            spec_error_page(CROSS_SITE@),
        ),
        spec_is_same_site(method, headers.pairs(), rp_origin@) ==> r.is_redirect_with(
            LOGIN_PATH@,
            seq![(SET_COOKIE@, OWNER_COOKIE@ + CLEAR_COOKIE_ATTRIBUTES@)],
        ),
        final(store).sent() == if spec_is_same_site(method, headers.pairs(), rp_origin@) {
            match spec_get_cookie(headers.pairs(), OWNER_COOKIE@) {
                Some(id) => old(store).sent().push(delete_session_sent(id)),
                None => old(store).sent(),
            }
        } else {
            old(store).sent()
        },
{
    if !is_same_site(&method, headers, rp_origin) {
        return forbidden(CROSS_SITE);
    }
    if let Some(session_id) = get_cookie(headers, OWNER_COOKIE) {
        end_session(store, session_id.as_str());
    }
    redirect_with_cookie(LOGIN_PATH, clear_cookie_header(OWNER_COOKIE).as_str())
}

} // verus!
