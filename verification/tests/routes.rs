use sha2::Digest;
use indieauth::client_metadata::{ClientMetadata, parse_profile_url};
use indieauth::db::codes::{NewCode, insert_code};
use indieauth::db::credentials::{count_credentials, insert_credential};
use indieauth::db::run_migrations;
use indieauth::db::sessions::get_session;
use indieauth::db::tokens::active_token;
use indieauth::error::{Reply, ReplyBody};
use indieauth::headers::{HeaderList, HttpMethod};
use indieauth::html::error_page;
use indieauth::json::JsonValue;
use indieauth::routes::authorize::{AuthorizeQuery, AuthorizeStart, Decision, redirect_to_login, start};
use indieauth::routes::credentials::{CredentialForm, RenameForm, normalize_label};
use indieauth::routes::introspection::IntrospectRequest;
use indieauth::routes::login::{RegisterGate, constant_time_eq, default_return_to, register_gate};
use indieauth::routes::revocation::RevokeRequest;
use indieauth::routes::token::{OwnerProfile, TokenRequest};
use indieauth::routes::{Fatal, Route, Submitted, append_cookie, dispatch, header_value_ok};
use indieauth::routes::{authorize, credentials, introspection, login, metadata, revocation, token};
use indieauth::session::{PendingAuthorize, SessionData, owner_json};
use indieauth::util::rfc3339_after;
use indieauth::webauthn::WebauthnState;

const VERIFIER: &str = "dBjftJeZ4CVP-mB92K27uhbUJU1p1r_wW1gFWFOEjXk";
const CHALLENGE: &str = "E9Melhoa2OwvFrEMTJguCHaoeK1t8URWbuGJSstw-cM";

fn open_db() -> indieauth::db::Store {
    let mut store = indieauth::db::Store::new(rusqlite::Connection::open_in_memory().unwrap());
    assert!(run_migrations(&mut store).is_ok());
    store
}

fn headers(pairs: &[(&str, &str)]) -> HeaderList {
    HeaderList { entries: pairs.iter().map(|(k, v)| (k.to_string(), v.as_bytes().to_vec())).collect() }
}

fn header<'a>(r: &'a Reply, name: &str) -> Option<&'a str> {
    r.headers.iter().find(|h| h.0 == name).map(|h| h.1.as_str())
}

fn text(r: &Reply) -> &str {
    match &r.body {
        ReplyBody::Text(t) => t.as_str(),
        _ => panic!("not a text body"),
    }
}

fn members(r: &Reply) -> Vec<(String, String)> {
    match &r.body {
        ReplyBody::Json(o) => o
            .members
            .iter()
            .map(|(k, v)| {
                let shown = match v {
                    JsonValue::Null => "null".to_string(),
                    JsonValue::Bool(b) => format!("{b}"),
                    JsonValue::Int(i) => format!("{i}"),
                    JsonValue::Str(s) => format!("\"{s}\""),
                    JsonValue::StrArray(a) => format!("{:?}", a),
                    JsonValue::StrObject(m) => format!("{:?}", m),
                };
                (k.clone(), shown)
            })
            .collect(),
        _ => panic!("not a json body"),
    }
}

fn member(r: &Reply, key: &str) -> Option<String> {
    members(r).into_iter().find(|m| m.0 == key).map(|m| m.1)
}

fn ok(r: Result<Reply, Fatal>) -> Reply {
    match r {
        Ok(r) => r,
        Err(f) => panic!("aborted: {}", f.message()),
    }
}

fn assert_error_page(r: &Reply, status: u16, msg: &str) {
    assert_eq!(r.status, status);
    assert_eq!(header(r, "content-type"), Some("text/html; charset=utf-8"));
    assert_eq!(text(r), error_page(msg));
}

#[test]
fn routing_table() {
    assert!(dispatch(HttpMethod::Get, "/.well-known/oauth-authorization-server") == Route::Metadata);
    assert!(dispatch(HttpMethod::Get, "/auth/authorize") == Route::AuthorizeGet);
    assert!(dispatch(HttpMethod::Post, "/auth/authorize") == Route::AuthorizePost);
    assert!(dispatch(HttpMethod::Post, "/auth/token") == Route::Token);
    assert!(dispatch(HttpMethod::Get, "/auth/token") == Route::NotFound);
    assert!(dispatch(HttpMethod::Head, "/auth/login") == Route::NotFound);
    assert!(dispatch(HttpMethod::Get, "/auth/static/redirect.js") == Route::RedirectScript);
    assert!(dispatch(HttpMethod::Post, "/auth/credentials/rename") == Route::CredentialsRename);
    assert!(dispatch(HttpMethod::Get, "/auth/credentials/") == Route::NotFound);
}

#[test]
fn fatal_messages() {
    assert_eq!(Fatal::StoreToken.message(), "failed to store access token");
    assert_eq!(Fatal::StoreCode.message(), "failed to store authorization code");
}

#[test]
fn metadata_document() {
    let r = metadata::get("https://auth.example");
    assert_eq!(r.status, 200);
    assert_eq!(header(&r, "content-type"), Some("application/json"));
    assert_eq!(header(&r, "cache-control"), Some("no-store"));
    assert_eq!(member(&r, "issuer").as_deref(), Some("\"https://auth.example\""));
    assert_eq!(member(&r, "authorization_endpoint").as_deref(), Some("\"https://auth.example/auth/authorize\""));
    assert_eq!(member(&r, "token_endpoint").as_deref(), Some("\"https://auth.example/auth/token\""));
    assert_eq!(member(&r, "introspection_endpoint").as_deref(), Some("\"https://auth.example/auth/introspection\""));
    assert_eq!(member(&r, "revocation_endpoint").as_deref(), Some("\"https://auth.example/auth/revocation\""));
    assert_eq!(member(&r, "code_challenge_methods_supported").as_deref(), Some("[\"S256\"]"));
    assert_eq!(
        member(&r, "scopes_supported").as_deref(),
        Some("[\"profile\", \"email\", \"create\", \"update\", \"delete\", \"media\"]")
    );
    assert_eq!(member(&r, "authorization_response_iss_parameter_supported").as_deref(), Some("true"));
}

fn store_code(conn: &mut indieauth::db::Store, code: &str, scope: &str) {
    let exp = rfc3339_after(600).unwrap();
    assert!(insert_code(
        conn,
        NewCode {
            code,
            client_id: "https://app.example/",
            redirect_uri: "https://app.example/cb",
            me: "https://me.example/",
            scope,
            code_challenge: CHALLENGE,
            code_challenge_method: "S256",
            state: None,
            expires_at: &exp,
        },
    )
    .is_ok());
}

fn no_profile() -> OwnerProfile {
    OwnerProfile { name: None, photo_url: None }
}

fn token_form(code: &str, verifier: &str) -> TokenRequest {
    TokenRequest {
        grant_type: "authorization_code".to_string(),
        code: code.to_string(),
        client_id: "https://app.example/".to_string(),
        redirect_uri: "https://app.example/cb".to_string(),
        code_verifier: verifier.to_string(),
    }
}

#[test]
fn token_request_issues_token_once() {
    let mut conn = open_db();
    store_code(&mut conn, "c1", "create update");
    let r = ok(token::post(&mut conn, Submitted::Parsed(token_form("c1", VERIFIER)), &no_profile()));
    assert_eq!(r.status, 200);
    assert_eq!(member(&r, "token_type").as_deref(), Some("\"Bearer\""));
    assert_eq!(member(&r, "scope").as_deref(), Some("\"create update\""));
    assert_eq!(member(&r, "me").as_deref(), Some("\"https://me.example/\""));
    assert_eq!(member(&r, "expires_in").as_deref(), Some("3600"));
    let tok = member(&r, "access_token").unwrap();
    let tok = tok.trim_matches('"');
    assert_eq!(tok.len(), 43);
    assert!(matches!(active_token(&mut conn, tok), Ok(Some(_))));
    let again = ok(token::post(&mut conn, Submitted::Parsed(token_form("c1", VERIFIER)), &no_profile()));
    assert_eq!(again.status, 400);
    assert_eq!(member(&again, "error").as_deref(), Some("\"invalid_grant\""));
}

#[test]
fn token_request_without_scope_gives_identity_only() {
    let mut conn = open_db();
    store_code(&mut conn, "c2", "  ");
    let r = ok(token::post(&mut conn, Submitted::Parsed(token_form("c2", VERIFIER)), &no_profile()));
    assert_eq!(r.status, 200);
    assert_eq!(members(&r), vec![("me".to_string(), "\"https://me.example/\"".to_string())]);
}

#[test]
fn token_request_wrong_verifier_or_client_is_invalid_grant() {
    let mut conn = open_db();
    store_code(&mut conn, "c3", "create");
    let r = ok(token::post(&mut conn, Submitted::Parsed(token_form("c3", "wrong-verifier")), &no_profile()));
    assert_eq!(member(&r, "error").as_deref(), Some("\"invalid_grant\""));
    store_code(&mut conn, "c4", "create");
    let mut f = token_form("c4", VERIFIER);
    f.client_id = "https://evil.example/".to_string();
    let r = ok(token::post(&mut conn, Submitted::Parsed(f), &no_profile()));
    assert_eq!(r.status, 400);
    assert_eq!(member(&r, "error").as_deref(), Some("\"invalid_grant\""));
}

#[test]
fn token_request_form_errors() {
    let mut conn = open_db();
    let r = ok(token::post(&mut conn, Submitted::Unreadable, &no_profile()));
    assert_eq!(r.status, 400);
    assert_eq!(member(&r, "error").as_deref(), Some("\"invalid_request\""));
    let r = ok(token::post(&mut conn, Submitted::Malformed, &no_profile()));
    assert_eq!(member(&r, "error").as_deref(), Some("\"invalid_request\""));
    let mut f = token_form("c", VERIFIER);
    f.grant_type = "refresh_token".to_string();
    let r = ok(token::post(&mut conn, Submitted::Parsed(f), &no_profile()));
    assert_eq!(member(&r, "error").as_deref(), Some("\"unsupported_grant_type\""));
}

#[test]
fn introspection_and_revocation() {
    let mut conn = open_db();
    store_code(&mut conn, "c5", "create");
    let r = ok(token::post(&mut conn, Submitted::Parsed(token_form("c5", VERIFIER)), &no_profile()));
    let tok = member(&r, "access_token").unwrap().trim_matches('"').to_string();
    let i = introspection::post(&mut conn, Submitted::Parsed(IntrospectRequest { token: tok.clone() }));
    assert_eq!(i.status, 200);
    assert_eq!(member(&i, "active").as_deref(), Some("true"));
    assert_eq!(member(&i, "scope").as_deref(), Some("\"create\""));
    assert_eq!(member(&i, "client_id").as_deref(), Some("\"https://app.example/\""));
    let exp: i64 = member(&i, "exp").unwrap().parse().unwrap();
    let iat: i64 = member(&i, "iat").unwrap().parse().unwrap();
    assert!(exp - iat >= 3599 && exp - iat <= 3601);
    let rv = revocation::post(&mut conn, Submitted::Parsed(RevokeRequest { token: tok.clone() }));
    assert_eq!(rv.status, 200);
    assert!(members(&rv).is_empty());
    let i = introspection::post(&mut conn, Submitted::Parsed(IntrospectRequest { token: tok }));
    assert_eq!(members(&i), vec![("active".to_string(), "false".to_string())]);
}

#[test]
fn introspection_inactive_answers_are_identical() {
    let mut conn = open_db();
    let unknown = introspection::post(&mut conn, Submitted::Parsed(IntrospectRequest { token: "nope".to_string() }));
    let malformed = introspection::post(&mut conn, Submitted::Malformed);
    assert_eq!(members(&unknown), members(&malformed));
    assert_eq!(members(&unknown), vec![("active".to_string(), "false".to_string())]);
    let unreadable = introspection::post(&mut conn, Submitted::Unreadable);
    assert_eq!(unreadable.status, 400);
    assert_eq!(member(&unreadable, "error").as_deref(), Some("\"invalid_request\""));
}

#[test]
fn revocation_always_succeeds() {
    let mut conn = open_db();
    for body in [
        Submitted::Unreadable,
        Submitted::Malformed,
        Submitted::Parsed(RevokeRequest { token: "unknown".to_string() }),
    ] {
        let r = revocation::post(&mut conn, body);
        assert_eq!(r.status, 200);
        assert!(members(&r).is_empty());
    }
}

fn query(client_id: &str, redirect_uri: &str) -> AuthorizeQuery {
    AuthorizeQuery {
        response_type: Some("code".to_string()),
        client_id: client_id.to_string(),
        redirect_uri: redirect_uri.to_string(),
        state: Some("st 1".to_string()),
        code_challenge: Some(CHALLENGE.to_string()),
        code_challenge_method: Some("S256".to_string()),
        scope: "profile create".to_string(),
    }
}

fn resolved(q: &AuthorizeQuery) -> (indieauth::client_metadata::ProfileUrl, indieauth::client_metadata::ProfileUrl, bool) {
    match start(&Some(clone_query(q))) {
        AuthorizeStart::Resolve { client_id, redirect_uri, fetch } => (client_id, redirect_uri, fetch),
        AuthorizeStart::Done(r) => panic!("refused: {}", text(&r)),
    }
}

fn clone_query(q: &AuthorizeQuery) -> AuthorizeQuery {
    AuthorizeQuery {
        response_type: q.response_type.clone(),
        client_id: q.client_id.clone(),
        redirect_uri: q.redirect_uri.clone(),
        state: q.state.clone(),
        code_challenge: q.code_challenge.clone(),
        code_challenge_method: q.code_challenge_method.clone(),
        scope: q.scope.clone(),
    }
}

#[test]
fn authorize_start_checks_urls() {
    match start(&None) {
        AuthorizeStart::Done(r) => {
            assert_error_page(&r, 400, "Invalid authorization request: missing required parameters")
        },
        _ => panic!("expected an answer"),
    }
    match start(&Some(query("ftp://app.example/", "https://app.example/cb"))) {
        AuthorizeStart::Done(r) => assert_error_page(&r, 400, "Invalid client_id"),
        _ => panic!("expected an answer"),
    }
    match start(&Some(query("https://app.example/", "https://app.example/cb#x"))) {
        AuthorizeStart::Done(r) => assert_error_page(&r, 400, "Invalid redirect_uri"),
        _ => panic!("expected an answer"),
    }
    let (_, _, fetch) = resolved(&query("http://127.0.0.1:9000/", "http://127.0.0.1:9000/cb"));
    assert!(!fetch);
    let (_, _, fetch) = resolved(&query("https://app.example/", "https://app.example/cb"));
    assert!(fetch);
}

fn owner_headers() -> HeaderList {
    headers(&[("cookie", "__Host-owner=sess1")])
}

fn owner_session(pending: Option<PendingAuthorize>) -> Option<SessionData> {
    Some(SessionData::Owner { pending_authorize: pending })
}

#[test]
fn authorize_get_refuses_unregistered_redirect() {
    let mut conn = open_db();
    let q = query("https://app.example/", "https://other.example/cb");
    let (c, u, _) = resolved(&q);
    let r = ok(authorize::get(&mut conn, &q, &c, &u, &ClientMetadata::default(), None, &owner_headers(), &owner_session(None), "https://me.example/"));
    assert_error_page(&r, 400, "redirect_uri is not registered for this client_id");
}

#[test]
fn authorize_get_redirects_errors_to_client() {
    let mut conn = open_db();
    let mut q = query("https://app.example/", "https://app.example/cb");
    q.response_type = Some("token".to_string());
    let (c, u, _) = resolved(&q);
    let r = ok(authorize::get(&mut conn, &q, &c, &u, &ClientMetadata::default(), None, &owner_headers(), &owner_session(None), "m"));
    assert_eq!(r.status, 302);
    assert_eq!(header(&r, "location"), Some("https://app.example/cb?error=unsupported_response_type&state=st+1"));
    let mut q = query("https://app.example/", "https://app.example/cb?x=1");
    q.code_challenge_method = Some("plain".to_string());
    q.state = None;
    let (c, u, _) = resolved(&q);
    let r = ok(authorize::get(&mut conn, &q, &c, &u, &ClientMetadata::default(), None, &owner_headers(), &owner_session(None), "m"));
    assert_eq!(header(&r, "location"), Some("https://app.example/cb?x=1&error=invalid_request"));
}

#[test]
fn authorize_get_sends_strangers_to_sign_in() {
    let mut conn = open_db();
    let q = query("https://app.example/", "https://app.example/cb");
    let (c, u, _) = resolved(&q);
    let r = ok(authorize::get(&mut conn, &q, &c, &u, &ClientMetadata::default(), Some("a=b c"), &headers(&[]), &None, "m"));
    assert_eq!(r.status, 302);
    assert_eq!(header(&r, "location"), Some("/auth/login?return_to=%2Fauth%2Fauthorize%3Fa%3Db+c"));
    let cr = redirect_to_login(None);
    assert_eq!(header(&cr, "location"), Some("/auth/login?return_to=%2Fauth%2Fauthorize%3F"));
}

#[test]
fn authorize_get_shows_consent_and_holds_request() {
    let mut conn = open_db();
    let exp = rfc3339_after(3600).unwrap();
    assert!(indieauth::db::sessions::upsert_session(&mut conn, "sess1", "owner", &owner_json(&None), &exp).is_ok());
    let q = query("https://app.example/", "https://app.example/cb");
    let (c, u, _) = resolved(&q);
    let md = ClientMetadata { client_name: Some("App".to_string()), redirect_uris: Vec::new() };
    let r = ok(authorize::get(&mut conn, &q, &c, &u, &md, None, &owner_headers(), &owner_session(None), "https://me.example/"));
    assert_eq!(r.status, 200);
    assert!(text(&r).contains("<h1>Sign in to App?</h1>"));
    assert!(text(&r).contains("<ul><li>profile</li>\n<li>create</li></ul>"));
    let row = match get_session(&mut conn, "sess1") {
        Ok(Some(row)) => row,
        _ => panic!("session missing"),
    };
    let held = PendingAuthorize {
        client_id: "https://app.example/".to_string(),
        redirect_uri: "https://app.example/cb".to_string(),
        state: Some("st 1".to_string()),
        scope: "profile create".to_string(),
        code_challenge: CHALLENGE.to_string(),
        code_challenge_method: "S256".to_string(),
        me: "https://me.example/".to_string(),
    };
    assert_eq!(row.data_json, owner_json(&Some(held)));
}

fn pending() -> PendingAuthorize {
    PendingAuthorize {
        client_id: "https://app.example/".to_string(),
        redirect_uri: "https://app.example/cb".to_string(),
        state: Some("xyz".to_string()),
        scope: "create".to_string(),
        code_challenge: CHALLENGE.to_string(),
        code_challenge_method: "S256".to_string(),
        me: "https://me.example/".to_string(),
    }
}

fn decision(d: &str) -> Submitted<Decision> {
    Submitted::Parsed(Decision { decision: d.to_string() })
}

#[test]
fn authorize_post_checks_request() {
    let mut conn = open_db();
    let cross = headers(&[("cookie", "__Host-owner=sess1"), ("origin", "https://evil.example")]);
    let r = ok(authorize::post(&mut conn, HttpMethod::Post, &cross, "https://auth.example", "iss", owner_session(Some(pending())), decision("approve")));
    assert_error_page(&r, 403, "Cross-site request rejected");
    let r = ok(authorize::post(&mut conn, HttpMethod::Post, &headers(&[]), "https://auth.example", "iss", None, decision("approve")));
    assert_error_page(&r, 403, "Not signed in");
    let r = ok(authorize::post(&mut conn, HttpMethod::Post, &owner_headers(), "https://auth.example", "iss", owner_session(None), decision("approve")));
    assert_error_page(&r, 400, "No pending authorization request");
    let r = ok(authorize::post(&mut conn, HttpMethod::Post, &owner_headers(), "https://auth.example", "iss", owner_session(Some(pending())), Submitted::Malformed));
    assert_error_page(&r, 400, "Invalid request body");
}

fn redirect_target(page: &str) -> String {
    let start = page.find("id=\"redirect-url\">").unwrap() + "id=\"redirect-url\">".len();
    let end = page[start..].find("</script>").unwrap() + start;
    serde_json::from_str::<String>(&page[start..end]).unwrap()
}

#[test]
fn authorize_post_deny_and_approve() {
    let mut conn = open_db();
    let r = ok(authorize::post(&mut conn, HttpMethod::Post, &owner_headers(), "https://auth.example", "https://auth.example", owner_session(Some(pending())), decision("deny")));
    assert_eq!(r.status, 200);
    assert_eq!(redirect_target(text(&r)), "https://app.example/cb?error=access_denied&state=xyz");
    let r = ok(authorize::post(&mut conn, HttpMethod::Post, &owner_headers(), "https://auth.example", "https://auth.example", owner_session(Some(pending())), decision("approve")));
    assert_eq!(r.status, 200);
    let target = redirect_target(text(&r));
    assert!(target.starts_with("https://app.example/cb?code="));
    assert!(target.ends_with("&state=xyz&iss=https%3A%2F%2Fauth.example"));
    let code = target["https://app.example/cb?code=".len()..target.find("&state").unwrap()].to_string();
    let t = ok(token::post(&mut conn, Submitted::Parsed(token_form(&code, VERIFIER)), &no_profile()));
    assert_eq!(t.status, 200);
    assert_eq!(member(&t, "scope").as_deref(), Some("\"create\""));
}

#[test]
fn credentials_require_owner() {
    let mut conn = open_db();
    let r = credentials::page(&mut conn, &headers(&[]), &None);
    assert_eq!(r.status, 302);
    assert_eq!(header(&r, "location"), Some("/auth/login?return_to=%2Fauth%2Fcredentials"));
    let r = credentials::delete(&mut conn, HttpMethod::Post, &headers(&[]), "https://auth.example", &None, Submitted::Parsed(CredentialForm { credential_id: "AQID".to_string() }));
    assert_error_page(&r, 403, "Not signed in");
}

#[test]
fn last_passkey_is_never_removed() {
    let mut conn = open_db();
    assert!(insert_credential(&mut conn, &[1, 2, 3], "{}", None).is_ok());
    let form = || Submitted::Parsed(CredentialForm { credential_id: "AQID".to_string() });
    let r = credentials::delete(&mut conn, HttpMethod::Post, &owner_headers(), "https://auth.example", &owner_session(None), form());
    assert_error_page(&r, 400, "Can't remove your last passkey -- register a replacement first");
    assert!(matches!(count_credentials(&mut conn), Ok(1)));
    assert!(insert_credential(&mut conn, &[9], "{}", None).is_ok());
    let r = credentials::delete(&mut conn, HttpMethod::Post, &owner_headers(), "https://auth.example", &owner_session(None), form());
    assert_eq!(header(&r, "location"), Some("/auth/credentials"));
    assert!(matches!(count_credentials(&mut conn), Ok(1)));
    let bad = credentials::delete(&mut conn, HttpMethod::Post, &owner_headers(), "https://auth.example", &owner_session(None), Submitted::Parsed(CredentialForm { credential_id: "***".to_string() }));
    assert_error_page(&bad, 400, "Invalid credential id");
}

#[test]
fn credentials_page_lists_and_renames() {
    let mut conn = open_db();
    assert!(insert_credential(&mut conn, &[1, 2, 3], "{}", Some("Old")).is_ok());
    let r = credentials::rename(&mut conn, HttpMethod::Post, &owner_headers(), "https://auth.example", &owner_session(None), Submitted::Parsed(RenameForm { credential_id: "AQID".to_string(), label: "  New key ".to_string() }));
    assert_eq!(header(&r, "location"), Some("/auth/credentials"));
    let page = credentials::page(&mut conn, &owner_headers(), &owner_session(None));
    assert_eq!(page.status, 200);
    assert!(text(&page).contains("<strong>New key</strong>"));
    assert!(text(&page).contains("value=\"AQID\""));
    assert!(text(&page).contains("disabled title=\"Can't remove your last passkey\""));
    let r = credentials::rename(&mut conn, HttpMethod::Post, &owner_headers(), "https://auth.example", &owner_session(None), Submitted::Unreadable);
    assert_error_page(&r, 400, "Invalid request");
}

#[test]
fn labels_are_trimmed() {
    assert_eq!(normalize_label("  Phone "), Some("Phone".to_string()));
    assert_eq!(normalize_label(" \t "), None);
}

#[test]
fn login_helpers() {
    assert!(constant_time_eq("secret", "secret"));
    assert!(!constant_time_eq("secret", "secreT"));
    assert!(!constant_time_eq("secret", "secret2"));
    assert_eq!(default_return_to(), "/auth/credentials");
    assert!(register_gate(0, false, Some("s3cret"), Some("s3cret")) == RegisterGate::Open);
    assert!(register_gate(0, false, Some("s3cret"), Some("wrong")) == RegisterGate::Refused);
    assert!(register_gate(0, true, None, Some("x")) == RegisterGate::Refused);
    assert!(register_gate(2, false, Some("s3cret"), Some("s3cret")) == RegisterGate::SignIn);
    assert!(register_gate(2, true, None, None) == RegisterGate::Open);
}

fn webauthn() -> WebauthnState {
    match WebauthnState::new("auth.example", "https://auth.example") {
        Ok(w) => w,
        Err(_) => panic!("relying party not set up"),
    }
}

#[test]
fn relying_party_needs_valid_origin() {
    assert!(matches!(
        WebauthnState::new("auth.example", "not a url"),
        Err(indieauth::webauthn::WebauthnSetupError::InvalidOrigin)
    ));
}

#[test]
fn registration_gate_and_page() {
    let mut conn = open_db();
    let ws = webauthn();
    let r = ok(login::register_page_handler(&mut conn, &ws, &headers(&[]), &None, Some("s3cret"), Some("nope")));
    assert_error_page(&r, 403, "Bootstrap registration requires a valid one-time secret");
    let r = ok(login::register_page_handler(&mut conn, &ws, &headers(&[]), &None, Some("s3cret"), Some("s3cret")));
    assert_eq!(r.status, 200);
    assert!(text(&r).contains("id=\"ceremony-options\">{"));
    let cookie = header(&r, "set-cookie").unwrap();
    assert!(cookie.starts_with("__Host-ceremony="));
    assert!(cookie.ends_with("Max-Age=300"));
    let id = &cookie["__Host-ceremony=".len()..cookie.find(';').unwrap()];
    let row = match get_session(&mut conn, id) {
        Ok(Some(row)) => row,
        _ => panic!("ceremony session missing"),
    };
    assert!(row.data_json.starts_with("{\"kind\":\"CeremonyRegistration\",\"state\":{"));
    let v: serde_json::Value = serde_json::from_str(&row.data_json).unwrap();
    assert_eq!(v["kind"], "CeremonyRegistration");
    assert!(insert_credential(&mut conn, &[1], "{}", None).is_ok());
    let r = ok(login::register_page_handler(&mut conn, &ws, &headers(&[]), &None, Some("s3cret"), Some("s3cret")));
    assert_eq!(header(&r, "location"), Some("/auth/login?return_to=%2Fauth%2Fregister"));
}

#[test]
fn sign_in_page() {
    let mut conn = open_db();
    let ws = webauthn();
    let r = ok(login::login_page_handler(&mut conn, &ws, &owner_headers(), &owner_session(None), Some("/next".to_string())));
    assert_eq!(header(&r, "location"), Some("/next"));
    let r = ok(login::login_page_handler(&mut conn, &ws, &owner_headers(), &owner_session(None), None));
    assert_eq!(header(&r, "location"), Some("/auth/credentials"));
    let r = ok(login::login_page_handler(&mut conn, &ws, &headers(&[]), &None, None));
    assert_error_page(&r, 400, "No passkeys are registered yet.");
}

#[test]
fn finishing_without_ceremony_is_refused() {
    let mut conn = open_db();
    let ws = webauthn();
    let r = ok(login::login_finish(&mut conn, &ws, HttpMethod::Post, &headers(&[]), "https://auth.example", None, Submitted::Unreadable));
    assert_error_page(&r, 400, "No sign-in in progress");
    let r = ok(login::register_finish(&mut conn, &ws, HttpMethod::Post, &headers(&[("cookie", "__Host-ceremony=x")]), "https://auth.example", None, Submitted::Unreadable));
    assert_error_page(&r, 400, "No registration in progress");
    let r = ok(login::register_finish(&mut conn, &ws, HttpMethod::Post, &headers(&[("origin", "https://evil.example")]), "https://auth.example", None, Submitted::Unreadable));
    assert_error_page(&r, 403, "Cross-site request rejected");
}

#[test]
fn logout_clears_owner_cookie() {
    let mut conn = open_db();
    let exp = rfc3339_after(3600).unwrap();
    assert!(indieauth::db::sessions::upsert_session(&mut conn, "sess1", "owner", &owner_json(&None), &exp).is_ok());
    let r = login::logout(&mut conn, HttpMethod::Post, &owner_headers(), "https://auth.example");
    assert_eq!(r.status, 302);
    assert_eq!(header(&r, "location"), Some("/auth/login"));
    assert_eq!(header(&r, "set-cookie"), Some("__Host-owner=; Path=/; HttpOnly; Secure; SameSite=Lax; Max-Age=0"));
    assert!(matches!(get_session(&mut conn, "sess1"), Ok(None)));
    let r = login::logout(&mut conn, HttpMethod::Post, &headers(&[("origin", "https://evil.example")]), "https://auth.example");
    assert_error_page(&r, 403, "Cross-site request rejected");
}

#[test]
fn cookies_are_appended_only_when_valid() {
    assert!(header_value_ok("a=b; Path=/"));
    assert!(!header_value_ok("a=b\nc"));
    let base = indieauth::error::redirect("/x");
    let r = append_cookie(base, "a=b");
    assert_eq!(header(&r, "set-cookie"), Some("a=b"));
    let r = append_cookie(indieauth::error::redirect("/x"), "a=\u{7f}");
    assert_eq!(header(&r, "set-cookie"), None);
}

#[test]
fn decision_clears_pending_request() {
    let mut conn = open_db();
    let exp = rfc3339_after(3600).unwrap();
    assert!(indieauth::db::sessions::upsert_session(&mut conn, "sess1", "owner", &owner_json(&Some(pending())), &exp).is_ok());
    let r = ok(authorize::post(&mut conn, HttpMethod::Post, &owner_headers(), "https://auth.example", "iss", owner_session(Some(pending())), decision("deny")));
    assert_eq!(r.status, 200);
    let row = match get_session(&mut conn, "sess1") {
        Ok(Some(row)) => row,
        _ => panic!("session missing"),
    };
    assert_eq!(row.data_json, owner_json(&None));
}

#[test]
fn storage_failures_abandon_the_request() {
    let c = indieauth::db::codes::RedeemedCode {
        client_id: "https://app.example/".to_string(),
        redirect_uri: "https://app.example/cb".to_string(),
        me: "https://me.example/".to_string(),
        scope: "create".to_string(),
        code_challenge: CHALLENGE.to_string(),
        code_challenge_method: "S256".to_string(),
    };
    assert!(matches!(token::issued_answer("tok", &c, &no_profile(), false), Err(Fatal::StoreToken)));
    let r = ok(token::issued_answer("tok", &c, &no_profile(), true));
    assert_eq!(member(&r, "access_token").as_deref(), Some("\"tok\""));
    let u = parse_profile_url("https://app.example/cb").unwrap();
    assert!(matches!(authorize::code_answer(&u, "abc", &None, "iss", false), Err(Fatal::StoreCode)));
    let r = ok(authorize::code_answer(&u, "abc", &None, "https://auth.example", true));
    assert_eq!(redirect_target(text(&r)), "https://app.example/cb?code=abc&iss=https%3A%2F%2Fauth.example");
}

#[test]
fn profile_scope_returns_owner_profile() {
    let mut conn = open_db();
    store_code(&mut conn, "p1", "profile create");
    let profile = OwnerProfile { name: Some("Owner Name".to_string()), photo_url: Some("https://me.example/p.jpg".to_string()) };
    let r = ok(token::post(&mut conn, Submitted::Parsed(token_form("p1", VERIFIER)), &profile));
    assert_eq!(
        member(&r, "profile").as_deref(),
        Some("[(\"name\", \"Owner Name\"), (\"photo\", \"https://me.example/p.jpg\")]")
    );
    store_code(&mut conn, "p2", "profile");
    let name_only = OwnerProfile { name: Some("N".to_string()), photo_url: None };
    let r = ok(token::post(&mut conn, Submitted::Parsed(token_form("p2", VERIFIER)), &name_only));
    assert_eq!(member(&r, "profile").as_deref(), Some("[(\"name\", \"N\")]"));
    store_code(&mut conn, "p3", "create");
    let r = ok(token::post(&mut conn, Submitted::Parsed(token_form("p3", VERIFIER)), &profile));
    assert_eq!(member(&r, "profile"), None);
    store_code(&mut conn, "p4", "profile");
    let r = ok(token::post(&mut conn, Submitted::Parsed(token_form("p4", VERIFIER)), &no_profile()));
    assert_eq!(member(&r, "profile"), None);
}

#[test]
fn removal_decided_by_count() {
    let mut conn = open_db();
    assert!(insert_credential(&mut conn, &[1, 2, 3], "{}", None).is_ok());
    let r = credentials::remove_passkey(&mut conn, &[1, 2, 3], 1);
    assert_error_page(&r, 400, "Can't remove your last passkey -- register a replacement first");
    assert!(matches!(count_credentials(&mut conn), Ok(1)));
    assert!(insert_credential(&mut conn, &[4], "{}", None).is_ok());
    let r = credentials::remove_passkey(&mut conn, &[1, 2, 3], 2);
    assert_eq!(r.status, 302);
    assert_eq!(header(&r, "location"), Some("/auth/credentials"));
    assert!(matches!(count_credentials(&mut conn), Ok(1)));
    let left = match indieauth::db::credentials::list_credentials(&mut conn) {
        Ok(l) => l,
        Err(_) => panic!("listing failed"),
    };
    assert_eq!(left[0].credential_id, vec![4]);
}

#[test]
fn unwritable_clock_stores_nothing() {
    let mut conn = open_db();
    let u = parse_profile_url("https://app.example/cb").unwrap();
    assert!(matches!(authorize::issue_code(&mut conn, &u, &pending(), "iss", "c1", None), Err(Fatal::Clock)));
    assert!(matches!(
        indieauth::session::save_owner_session(&mut conn, "s1", &None, None),
        Err(Fatal::Clock)
    ));
    assert!(matches!(get_session(&mut conn, "s1"), Ok(None)));
    let c = indieauth::db::codes::RedeemedCode {
        client_id: "https://app.example/".to_string(),
        redirect_uri: "https://app.example/cb".to_string(),
        me: "https://me.example/".to_string(),
        scope: "create".to_string(),
        code_challenge: CHALLENGE.to_string(),
        code_challenge_method: "S256".to_string(),
    };
    assert!(matches!(token::store_token(&mut conn, "t1", &c, &no_profile(), None), Err(Fatal::Clock)));
    assert!(matches!(active_token(&mut conn, "t1"), Ok(None)));
    assert!(matches!(
        login::store_passkey(&mut conn, &[7], "{}", None, Err(indieauth::db::DbError::Clock), true),
        Err(Fatal::Clock)
    ));
    assert!(matches!(count_credentials(&mut conn), Ok(0)));
}

#[test]
fn issued_code_carries_the_pending_request() {
    let mut conn = open_db();
    let u = parse_profile_url("https://app.example/cb").unwrap();
    let mut p = pending();
    p.scope = "profile create".to_string();
    let r = ok(authorize::issue_code(&mut conn, &u, &p, "https://auth.example", "c2", rfc3339_after(600)));
    assert_eq!(redirect_target(text(&r)), "https://app.example/cb?code=c2&state=xyz&iss=https%3A%2F%2Fauth.example");
    let r = ok(token::post(&mut conn, Submitted::Parsed(token_form("c2", VERIFIER)), &no_profile()));
    assert_eq!(r.status, 200);
    assert_eq!(member(&r, "scope").as_deref(), Some("\"profile create\""));
    assert_eq!(member(&r, "me").as_deref(), Some("\"https://me.example/\""));
    let again = ok(token::post(&mut conn, Submitted::Parsed(token_form("c2", VERIFIER)), &no_profile()));
    assert_eq!(again.status, 400);
}

#[test]
fn stored_passkey_keeps_its_label() {
    let mut conn = open_db();
    let now = indieauth::db::now_text();
    let r = ok(login::store_passkey(&mut conn, &[5, 6], "{}", Some("Desk key"), now, true));
    assert_eq!(header(&r, "location"), Some("/auth/credentials"));
    let list = match indieauth::db::credentials::list_credentials(&mut conn) {
        Ok(l) => l,
        Err(_) => panic!("listing failed"),
    };
    assert_eq!(list.len(), 1);
    assert_eq!(list[0].credential_id, vec![5, 6]);
    assert_eq!(list[0].label.as_deref(), Some("Desk key"));
    let again = ok(login::store_passkey(&mut conn, &[5, 6], "{}", None, indieauth::db::now_text(), true));
    assert_error_page(&again, 400, "This passkey is already registered");
}

#[test]
fn sign_in_needs_a_stored_passkey() {
    let mut conn = open_db();
    let r = ok(login::sign_in_over(&mut conn, &webauthn(), &Vec::new(), None));
    assert_error_page(&r, 400, "No passkeys are registered yet.");
}

fn tags(page: &str) -> Vec<String> {
    let mut out = Vec::new();
    let mut current: Option<String> = None;
    for c in page.chars() {
        if c == '<' {
            current = Some(String::new());
        }
        if let Some(t) = current.as_mut() {
            t.push(c);
        }
        if c == '>' {
            if let Some(t) = current.take() {
                out.push(t);
            }
        }
    }
    out
}

#[test]
fn consent_markup_ignores_hostile_values() {
    let scopes_a = ["profile", "create"];
    let scopes_b = ["<b>x</b>", "\"'>"];
    let plain = indieauth::html::consent_page(&indieauth::html::ConsentClient {
        client_id: "https://app.example/",
        client_name: Some("App"),
        redirect_uri: "https://app.example/cb",
        scopes: &scopes_a,
        me: "https://me.example/",
    });
    let hostile = indieauth::html::consent_page(&indieauth::html::ConsentClient {
        client_id: "https://x.example/\"><script>",
        client_name: Some("</h1><img src=x onerror='a'>"),
        redirect_uri: "https://x.example/'cb\"",
        scopes: &scopes_b,
        me: "<me>",
    });
    assert_eq!(tags(&plain), tags(&hostile));
    assert!(!hostile.contains("<script>"));
}

#[test]
fn owner_handle_depends_on_rp_id_alone() {
    let a = indieauth::webauthn::deterministic_owner_id("auth.example");
    let b = indieauth::webauthn::deterministic_owner_id("auth.example");
    assert_eq!(a, b);
    let digest = sha2::Sha256::digest("auth.example".as_bytes());
    assert_eq!(&a[..], &digest[..16]);
    assert_ne!(a, indieauth::webauthn::deterministic_owner_id("other.example"));
    assert_eq!(webauthn().owner_user_id, a);
}
