use indieauth::html::{
    ConsentClient, CredentialSummary, consent_page, credentials_page, error_page, escape, login_page, redirect_page,
    register_page,
};

fn expected_page(title: &str, body: &str) -> String {
    format!(
        "<!doctype html>\n<html lang=\"en\">\n<head>\n<meta charset=\"utf-8\">\n<meta name=\"viewport\" content=\"width=device-width, initial-scale=1\">\n<title>{title}</title>\n<link rel=\"stylesheet\" href=\"/auth/static/style.css\">\n</head>\n<body>\n{body}\n</body>\n</html>"
    )
}

fn expected_scripts(options_json: &str, script: &str) -> String {
    format!(
        "<script type=\"application/json\" id=\"ceremony-options\">{options_json}</script>\n<script src=\"/auth/static/webauthn-common.js\"></script>\n<script src=\"{script}\"></script>"
    )
}

#[test]
fn escape_replaces_markup_characters() {
    assert_eq!(escape("<a href=\"x\">Tom & Jerry's</a>"), "&lt;a href=&quot;x&quot;&gt;Tom &amp; Jerry&#39;s&lt;/a&gt;");
    assert_eq!(escape("plain text"), "plain text");
    assert_eq!(escape(""), "");
    assert_eq!(escape("&amp;"), "&amp;amp;");
}

#[test]
fn escaped_text_has_no_markup() {
    let e = escape("<script>alert('x')</script>\"&");
    assert!(!e.contains('<'));
    assert!(!e.contains('>'));
    assert!(!e.contains('"'));
    assert!(!e.contains('\''));
}

#[test]
fn error_page_escapes_message() {
    assert_eq!(error_page("bad <input>"), expected_page("Error", "<h1>Error</h1><p>bad &lt;input&gt;</p>"));
}

#[test]
fn redirect_page_embeds_url_as_json() {
    let url = "https://app.example/cb?code=a&state=\"x\"";
    let body = format!(
        "<p>Redirecting...</p>\n<script type=\"application/json\" id=\"redirect-url\">{}</script>\n<script src=\"/auth/static/redirect.js\"></script>",
        "\"https://app.example/cb?code=a&state=\\\"x\\\"\""
    );
    assert_eq!(redirect_page(url), expected_page("Redirecting...", &body));
}

#[test]
fn register_page_layout() {
    let scripts = expected_scripts("{\"a\":1}", "/auth/static/register.js");
    let body = format!(
        "<h1>Register a passkey</h1>\n<p>Give this passkey a label so you can tell it apart later (e.g. \"YubiKey 5\", \"iPhone\").</p>\n<p><input type=\"text\" id=\"label\" placeholder=\"e.g. YubiKey 5\" autofocus></p>\n<p><button id=\"start\">Register passkey</button></p>\n<p id=\"status\"></p>\n{scripts}"
    );
    assert_eq!(register_page("{\"a\":1}"), expected_page("Register a passkey", &body));
}

#[test]
fn login_page_layout() {
    let scripts = expected_scripts("{}", "/auth/static/login.js");
    let body = format!("<h1>Sign in with your passkey</h1>\n<p id=\"status\">Waiting for your passkey...</p>\n{scripts}");
    assert_eq!(login_page("{}"), expected_page("Sign in", &body));
}

fn expected_consent(name: &str, client_id: &str, redirect_uri: &str, me: &str, scope_list: &str) -> String {
    let body = format!(
        "<h1>Sign in to {name}?</h1>\n<div class=\"client\">\n  <p><strong>{name}</strong></p>\n  <p><code>{client_id}</code></p>\n  <p>Redirecting to: <code>{redirect_uri}</code></p>\n</div>\n<p>This will share your identity (<code>{me}</code>) and grant:</p>\n<ul>{scope_list}</ul>\n<form method=\"post\" class=\"actions\">\n  <button type=\"submit\" name=\"decision\" value=\"approve\">Approve</button>\n  <button type=\"submit\" name=\"decision\" value=\"deny\" class=\"deny\">Deny</button>\n</form>"
    );
    expected_page("Sign in?", &body)
}

#[test]
fn consent_page_lists_scopes_escaped() {
    let scopes = ["profile", "<b>create</b>"];
    let page = consent_page(&ConsentClient {
        client_id: "https://app.example/",
        client_name: Some("App & Co"),
        redirect_uri: "https://app.example/cb",
        scopes: &scopes,
        me: "https://me.example/",
    });
    let expected = expected_consent(
        "App &amp; Co",
        "https://app.example/",
        "https://app.example/cb",
        "https://me.example/",
        "<li>profile</li>\n<li>&lt;b&gt;create&lt;/b&gt;</li>",
    );
    assert_eq!(page, expected);
}

#[test]
fn consent_page_without_scopes_or_name() {
    let scopes: [&str; 0] = [];
    let page = consent_page(&ConsentClient {
        client_id: "https://app.example/",
        client_name: None,
        redirect_uri: "https://app.example/cb",
        scopes: &scopes,
        me: "https://me.example/",
    });
    let expected = expected_consent(
        "https://app.example/",
        "https://app.example/",
        "https://app.example/cb",
        "https://me.example/",
        "<li><em>No specific permissions (identity only)</em></li>",
    );
    assert_eq!(page, expected);
}

fn expected_row(label: &str, label_attr: &str, created: &str, last_used: &str, id: &str, disabled: &str) -> String {
    format!(
        "<li>\n  <strong>{label}</strong> -- registered {created}, last used {last_used}\n  <form method=\"post\" action=\"/auth/credentials/rename\" class=\"inline-form\">\n    <input type=\"hidden\" name=\"credential_id\" value=\"{id}\">\n    <input type=\"text\" name=\"label\" value=\"{label_attr}\" placeholder=\"e.g. YubiKey 5\">\n    <button type=\"submit\">Rename</button>\n  </form>\n  <form method=\"post\" action=\"/auth/credentials/delete\" class=\"inline-form\">\n    <input type=\"hidden\" name=\"credential_id\" value=\"{id}\">\n    <button type=\"submit\" {disabled}>Remove</button>\n  </form>\n</li>"
    )
}

fn expected_credentials(rows: &str) -> String {
    let body = format!(
        "<h1>Your passkeys</h1>\n<ul>{rows}</ul>\n<p><a href=\"/auth/register\">Register another passkey</a></p>\n<form method=\"post\" action=\"/auth/logout\"><button type=\"submit\">Sign out</button></form>"
    );
    expected_page("Your passkeys", &body)
}

#[test]
fn credentials_page_single_passkey_cannot_be_removed() {
    let creds = [CredentialSummary {
        id_b64: "AQID",
        label: None,
        created_at: "2024-01-01T00:00:00Z",
        last_used_at: None,
    }];
    let row = expected_row(
        "(unlabeled passkey)",
        "",
        "2024-01-01T00:00:00Z",
        "never",
        "AQID",
        "disabled title=\"Can't remove your last passkey\"",
    );
    assert_eq!(credentials_page(&creds), expected_credentials(&row));
}

#[test]
fn credentials_page_two_passkeys() {
    let creds = [
        CredentialSummary { id_b64: "AQ", label: Some("Key <1>"), created_at: "c1", last_used_at: Some("u1") },
        CredentialSummary { id_b64: "Ag", label: Some("Phone"), created_at: "c2", last_used_at: None },
    ];
    let rows = format!(
        "{}\n{}",
        expected_row("Key &lt;1&gt;", "Key &lt;1&gt;", "c1", "u1", "AQ", ""),
        expected_row("Phone", "Phone", "c2", "never", "Ag", "")
    );
    assert_eq!(credentials_page(&creds), expected_credentials(&rows));
}

#[test]
fn credentials_page_empty() {
    let creds: [CredentialSummary; 0] = [];
    assert_eq!(credentials_page(&creds), expected_credentials(""));
}
