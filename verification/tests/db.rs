use indieauth::db::codes::{NewCode, claimed, insert_code, redeem_code};
use indieauth::db::credentials::{
    count_credentials, delete_credential, insert_credential, list_credentials, rename_credential,
    update_credential_after_auth,
};
use indieauth::db::sessions::{cleanup_expired_sessions, delete_session, get_session, upsert_session};
use indieauth::db::tokens::{active_token, insert_token, revoke_token};
use indieauth::db::{configure_connection, run_migrations, set_version_sql};
use indieauth::util::rfc3339_after;

fn open_db() -> indieauth::db::Store {
    let mut store = indieauth::db::Store::new(rusqlite::Connection::open_in_memory().unwrap());
    assert!(configure_connection(&mut store).is_ok());
    assert!(run_migrations(&mut store).is_ok());
    store
}

fn store_code(conn: &mut indieauth::db::Store, code: &str, expires_at: &str) {
    let stored = insert_code(
        conn,
        NewCode {
            code,
            client_id: "https://app.example/",
            redirect_uri: "https://app.example/cb",
            me: "https://me.example/",
            scope: "profile",
            code_challenge: "abc",
            code_challenge_method: "S256",
            state: Some("xyz"),
            expires_at,
        },
    );
    assert!(stored.is_ok());
}

#[test]
fn migrations_are_idempotent() {
    let mut conn = open_db();
    assert!(run_migrations(&mut conn).is_ok());
    let v: i64 = conn.connection().query_row("PRAGMA user_version", [], |r| r.get(0)).unwrap();
    assert_eq!(v, 1);
    assert_eq!(set_version_sql(1), "PRAGMA user_version = 1");
}

#[test]
fn code_redeems_once() {
    let mut conn = open_db();
    let exp = rfc3339_after(600).unwrap();
    store_code(&mut conn, "code-1", &exp);
    let first = match redeem_code(&mut conn, "code-1") {
        Ok(r) => r,
        Err(_) => panic!("lookup failed"),
    };
    let c = first.expect("first redemption succeeds");
    assert_eq!(c.client_id, "https://app.example/");
    assert_eq!(c.redirect_uri, "https://app.example/cb");
    assert_eq!(c.me, "https://me.example/");
    assert_eq!(c.scope, "profile");
    assert_eq!(c.code_challenge, "abc");
    assert_eq!(c.code_challenge_method, "S256");
    match redeem_code(&mut conn, "code-1") {
        Ok(None) => {},
        _ => panic!("a code is single-use"),
    }
}

#[test]
fn expired_or_unknown_code_is_not_redeemed() {
    let mut conn = open_db();
    store_code(&mut conn, "old", "2000-01-01T00:00:00Z");
    store_code(&mut conn, "corrupt", "not a timestamp");
    assert!(matches!(redeem_code(&mut conn, "old"), Ok(None)));
    assert!(matches!(redeem_code(&mut conn, "corrupt"), Ok(None)));
    assert!(matches!(redeem_code(&mut conn, "missing"), Ok(None)));
}

#[test]
fn tokens_are_active_until_revoked() {
    let mut conn = open_db();
    let exp = rfc3339_after(3600).unwrap();
    assert!(insert_token(&mut conn, "tok", "https://app.example/", "https://me.example/", "create", Some(&exp)).is_ok());
    let t = match active_token(&mut conn, "tok") {
        Ok(Some(t)) => t,
        _ => panic!("token should be active"),
    };
    assert_eq!(t.client_id, "https://app.example/");
    assert_eq!(t.me, "https://me.example/");
    assert_eq!(t.scope, "create");
    assert_eq!(t.expires_at.as_deref(), Some(exp.as_str()));
    assert!(revoke_token(&mut conn, "tok").is_ok());
    assert!(matches!(active_token(&mut conn, "tok"), Ok(None)));
    assert!(revoke_token(&mut conn, "never-existed").is_ok());
}

#[test]
fn expired_token_is_inactive_and_no_expiry_is_active() {
    let mut conn = open_db();
    assert!(insert_token(&mut conn, "old", "c", "m", "s", Some("2000-01-01T00:00:00Z")).is_ok());
    assert!(matches!(active_token(&mut conn, "old"), Ok(None)));
    assert!(insert_token(&mut conn, "forever", "c", "m", "s", None).is_ok());
    assert!(matches!(active_token(&mut conn, "forever"), Ok(Some(_))));
}

#[test]
fn sessions_expire_and_delete() {
    let mut conn = open_db();
    let exp = rfc3339_after(300).unwrap();
    assert!(upsert_session(&mut conn, "s1", "ceremony", "{}", &exp).is_ok());
    assert!(upsert_session(&mut conn, "s2", "owner", "{\"a\":1}", "2000-01-01T00:00:00Z").is_ok());
    assert!(matches!(get_session(&mut conn, "s1"), Ok(Some(ref r)) if r.data_json == "{}"));
    assert!(matches!(get_session(&mut conn, "s2"), Ok(None)));
    match cleanup_expired_sessions(&mut conn) {
        Ok(n) => assert_eq!(n, 1),
        Err(_) => panic!("cleanup failed"),
    }
    assert!(upsert_session(&mut conn, "s1", "ceremony", "{\"b\":2}", &exp).is_ok());
    assert!(matches!(get_session(&mut conn, "s1"), Ok(Some(ref r)) if r.data_json == "{\"b\":2}"));
    assert!(delete_session(&mut conn, "s1").is_ok());
    assert!(matches!(get_session(&mut conn, "s1"), Ok(None)));
}

#[test]
fn credentials_lifecycle() {
    let mut conn = open_db();
    assert!(matches!(count_credentials(&mut conn), Ok(0)));
    assert!(insert_credential(&mut conn, &[1, 2, 3], "{\"pk\":1}", Some("Key")).is_ok());
    assert!(insert_credential(&mut conn, &[1, 2, 3], "{\"pk\":2}", None).is_err());
    assert!(insert_credential(&mut conn, &[4], "{\"pk\":3}", None).is_ok());
    assert!(matches!(count_credentials(&mut conn), Ok(2)));
    let list = match list_credentials(&mut conn) {
        Ok(l) => l,
        Err(_) => panic!("list failed"),
    };
    assert_eq!(list.len(), 2);
    let first = list.iter().find(|c| c.credential_id == vec![1, 2, 3]).unwrap();
    assert_eq!(first.passkey_json, "{\"pk\":1}");
    assert_eq!(first.label.as_deref(), Some("Key"));
    assert!(first.last_used_at.is_none());
    assert!(matches!(rename_credential(&mut conn, &[4], Some("Phone")), Ok(1)));
    assert!(update_credential_after_auth(&mut conn, &[4], "{\"pk\":4}").is_ok());
    let list = match list_credentials(&mut conn) {
        Ok(l) => l,
        Err(_) => panic!("list failed"),
    };
    let second = list.iter().find(|c| c.credential_id == vec![4]).unwrap();
    assert_eq!(second.label.as_deref(), Some("Phone"));
    assert_eq!(second.passkey_json, "{\"pk\":4}");
    assert!(second.last_used_at.is_some());
    assert!(matches!(delete_credential(&mut conn, &[1, 2, 3]), Ok(1)));
    assert!(matches!(count_credentials(&mut conn), Ok(1)));
}

fn code_row(expires_at: &str, used_at: Option<&str>) -> indieauth::db::codes::CodeRow {
    indieauth::db::codes::CodeRow {
        redeemed: indieauth::db::codes::RedeemedCode {
            client_id: "c".to_string(),
            redirect_uri: "r".to_string(),
            me: "m".to_string(),
            scope: "s".to_string(),
            code_challenge: "x".to_string(),
            code_challenge_method: "S256".to_string(),
        },
        expires_at: expires_at.to_string(),
        used_at: used_at.map(|u| u.to_string()),
    }
}

#[test]
fn claim_needs_redeemable_row_and_one_change() {
    let now: i128 = 1_700_000_000 * 1_000_000_000;
    let fresh = "2030-01-01T00:00:00Z";
    let got = claimed(code_row(fresh, None), now, 1);
    assert_eq!(got.map(|c| c.scope), Some("s".to_string()));
    assert!(claimed(code_row(fresh, None), now, 0).is_none());
    assert!(claimed(code_row(fresh, Some("2023-01-01T00:00:00Z")), now, 1).is_none());
    assert!(claimed(code_row("2020-01-01T00:00:00Z", None), now, 1).is_none());
    assert!(claimed(code_row("not a time", None), now, 1).is_none());
}
