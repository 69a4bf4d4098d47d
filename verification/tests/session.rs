use indieauth::db::run_migrations;
use indieauth::db::sessions::get_session;
use indieauth::headers::HeaderList;
use indieauth::session::{
    CEREMONY_COOKIE, OWNER_COOKIE, PendingAuthorize, SessionData, clear_cookie_header, get_cookie, owner_json,
    pending_json, session_json, set_cookie_header, start_session, update_owner_session,
};

fn cookies(values: &[&str]) -> HeaderList {
    HeaderList { entries: values.iter().map(|v| ("cookie".to_string(), v.as_bytes().to_vec())).collect() }
}

fn open_db() -> indieauth::db::Store {
    let mut store = indieauth::db::Store::new(rusqlite::Connection::open_in_memory().unwrap());
    assert!(run_migrations(&mut store).is_ok());
    store
}

#[test]
fn get_cookie_finds_named_pair() {
    let h = cookies(&["a=1; __Host-owner=abc ; b=2"]);
    assert_eq!(get_cookie(&h, "__Host-owner").as_deref(), Some("abc"));
    assert_eq!(get_cookie(&h, "b").as_deref(), Some("2"));
    assert_eq!(get_cookie(&h, "c"), None);
}

#[test]
fn get_cookie_splits_at_first_equals() {
    let h = cookies(&["k=v=w"]);
    assert_eq!(get_cookie(&h, "k").as_deref(), Some("v=w"));
}

#[test]
fn get_cookie_searches_every_cookie_header() {
    let h = cookies(&["a=1", "b=2"]);
    assert_eq!(get_cookie(&h, "b").as_deref(), Some("2"));
    let other = HeaderList { entries: vec![("x-cookie".to_string(), b"b=3".to_vec())] };
    assert_eq!(get_cookie(&other, "b"), None);
}

#[test]
fn get_cookie_stops_at_unreadable_header() {
    let h = HeaderList {
        entries: vec![("cookie".to_string(), vec![0xff]), ("cookie".to_string(), b"b=2".to_vec())],
    };
    assert_eq!(get_cookie(&h, "b"), None);
}

#[test]
fn set_and_clear_cookie_headers() {
    assert_eq!(
        set_cookie_header("__Host-owner", "xyz", 2592000),
        "__Host-owner=xyz; Path=/; HttpOnly; Secure; SameSite=Lax; Max-Age=2592000"
    );
    assert_eq!(clear_cookie_header("__Host-owner"), "__Host-owner=; Path=/; HttpOnly; Secure; SameSite=Lax; Max-Age=0");
}

#[test]
fn set_cookie_round_trips_through_get_cookie() {
    let set = set_cookie_header(OWNER_COOKIE, "tok_EN-123", 30);
    let sent = set.split(';').next().unwrap().to_string();
    let h = cookies(&[&sent]);
    assert_eq!(get_cookie(&h, OWNER_COOKIE).as_deref(), Some("tok_EN-123"));
}

fn pending() -> PendingAuthorize {
    PendingAuthorize {
        client_id: "https://app.example/".to_string(),
        redirect_uri: "https://app.example/cb".to_string(),
        state: Some("s\"1".to_string()),
        scope: "profile create".to_string(),
        code_challenge: "abc".to_string(),
        code_challenge_method: "S256".to_string(),
        me: "https://me.example/".to_string(),
    }
}

#[test]
fn owner_session_json_matches_serde_layout() {
    assert_eq!(owner_json(&None), "{\"kind\":\"Owner\",\"pending_authorize\":null}");
    let p = pending();
    assert_eq!(
        pending_json(&p),
        "{\"client_id\":\"https://app.example/\",\"redirect_uri\":\"https://app.example/cb\",\"state\":\"s\\\"1\",\"scope\":\"profile create\",\"code_challenge\":\"abc\",\"code_challenge_method\":\"S256\",\"me\":\"https://me.example/\"}"
    );
    let data = SessionData::Owner { pending_authorize: Some(p) };
    let json = session_json(&data).unwrap();
    assert!(json.starts_with("{\"kind\":\"Owner\",\"pending_authorize\":{\"client_id\":"));
    assert!(json.ends_with("\"me\":\"https://me.example/\"}}"));
}

#[test]
fn start_session_stores_owner_session() {
    let mut conn = open_db();
    let data = SessionData::Owner { pending_authorize: None };
    let cookie = match start_session(&mut conn, &data) {
        Ok(c) => c,
        Err(_) => panic!("session not stored"),
    };
    assert!(cookie.starts_with("__Host-owner="));
    assert!(cookie.ends_with("; Path=/; HttpOnly; Secure; SameSite=Lax; Max-Age=2592000"));
    let id = cookie["__Host-owner=".len()..cookie.find(';').unwrap()].to_string();
    assert_eq!(id.len(), 43);
    let row = match get_session(&mut conn, &id) {
        Ok(Some(r)) => r,
        _ => panic!("session missing"),
    };
    assert_eq!(row.data_json, "{\"kind\":\"Owner\",\"pending_authorize\":null}");
    assert!(update_owner_session(&mut conn, &id, &Some(pending())).is_ok());
    let row = match get_session(&mut conn, &id) {
        Ok(Some(r)) => r,
        _ => panic!("session missing"),
    };
    assert_eq!(row.data_json, owner_json(&Some(pending())));
    assert_eq!(CEREMONY_COOKIE, "__Host-ceremony");
}

#[test]
fn owner_session_json_is_valid_json() {
    let text = owner_json(&Some(pending()));
    let v: serde_json::Value = serde_json::from_str(&text).unwrap();
    assert_eq!(v["kind"], "Owner");
    assert_eq!(v["pending_authorize"]["state"], "s\"1");
    assert_eq!(v["pending_authorize"]["scope"], "profile create");
    let none: serde_json::Value = serde_json::from_str(&owner_json(&None)).unwrap();
    assert!(none["pending_authorize"].is_null());
}

#[test]
fn new_session_cookie_reads_back_its_id() {
    let mut conn = open_db();
    let cookie = match start_session(&mut conn, &SessionData::Owner { pending_authorize: None }) {
        Ok(c) => c,
        Err(_) => panic!("session not stored"),
    };
    let sent = cookie.split(';').next().unwrap().to_string();
    let id = get_cookie(&cookies(&[&sent]), OWNER_COOKIE).unwrap();
    assert!(id.chars().all(|c| c.is_ascii_alphanumeric() || c == '-' || c == '_'));
    assert!(matches!(get_session(&mut conn, &id), Ok(Some(_))));
}

#[test]
fn owner_json_is_serde_tagged_form() {
    let v: serde_json::Value = serde_json::from_str(&owner_json(&Some(pending()))).unwrap();
    assert_eq!(v["kind"], "Owner");
    let p = &v["pending_authorize"];
    assert_eq!(p["client_id"], "https://app.example/");
    assert_eq!(p["state"], "s\"1");
    assert_eq!(p.as_object().map(|o| o.len()), Some(7));
    let none: serde_json::Value = serde_json::from_str(&owner_json(&None)).unwrap();
    assert_eq!(none["pending_authorize"], serde_json::Value::Null);
    assert_eq!(none.as_object().map(|o| o.len()), Some(2));
}
