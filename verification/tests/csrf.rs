use indieauth::csrf::is_same_site;
use indieauth::headers::{HeaderList, HttpMethod};

fn headers_with(name: &str, value: &str) -> HeaderList {
    HeaderList { entries: vec![(name.to_string(), value.as_bytes().to_vec())] }
}

fn no_headers() -> HeaderList {
    HeaderList { entries: Vec::new() }
}

#[test]
fn safe_methods_always_pass() {
    assert!(is_same_site(&HttpMethod::Get, &no_headers(), "https://example.com"));
}

#[test]
fn matching_origin_passes() {
    let h = headers_with("origin", "https://example.com");
    assert!(is_same_site(&HttpMethod::Post, &h, "https://example.com"));
}

#[test]
fn cross_origin_rejected() {
    let h = headers_with("origin", "https://evil.example");
    assert!(!is_same_site(&HttpMethod::Post, &h, "https://example.com"));
}

#[test]
fn sec_fetch_site_same_origin_passes() {
    let h = headers_with("sec-fetch-site", "same-origin");
    assert!(is_same_site(&HttpMethod::Post, &h, "https://example.com"));
}

#[test]
fn sec_fetch_site_cross_site_rejected() {
    let h = headers_with("sec-fetch-site", "cross-site");
    assert!(!is_same_site(&HttpMethod::Post, &h, "https://example.com"));
}

#[test]
fn no_headers_passes_as_legacy_fallback() {
    assert!(is_same_site(&HttpMethod::Post, &no_headers(), "https://example.com"));
}

#[test]
fn safe_methods_pass_even_cross_origin() {
    let h = headers_with("origin", "https://evil.example");
    assert!(is_same_site(&HttpMethod::Get, &h, "https://example.com"));
    assert!(is_same_site(&HttpMethod::Head, &h, "https://example.com"));
    assert!(is_same_site(&HttpMethod::Options, &h, "https://example.com"));
    assert!(!is_same_site(&HttpMethod::Other, &h, "https://example.com"));
}

#[test]
fn origin_wins_over_sec_fetch_site() {
    let h = HeaderList {
        entries: vec![
            ("sec-fetch-site".to_string(), b"same-origin".to_vec()),
            ("origin".to_string(), b"https://evil.example".to_vec()),
        ],
    };
    assert!(!is_same_site(&HttpMethod::Post, &h, "https://example.com"));
}

#[test]
fn sec_fetch_site_none_passes() {
    let h = headers_with("sec-fetch-site", "none");
    assert!(is_same_site(&HttpMethod::Post, &h, "https://example.com"));
}

#[test]
fn unreadable_origin_falls_back_to_sec_fetch_site() {
    let h = HeaderList {
        entries: vec![
            ("origin".to_string(), vec![0xff, 0xfe]),
            ("sec-fetch-site".to_string(), b"cross-site".to_vec()),
        ],
    };
    assert!(!is_same_site(&HttpMethod::Post, &h, "https://example.com"));
}
