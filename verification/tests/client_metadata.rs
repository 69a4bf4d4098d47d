use indieauth::client_metadata::{
    ClientIdDocument, ClientMetadata, FetchOutcome, IpAddress, addresses_permit_fetch, fetch_target,
    is_loopback_client_id, metadata_from_fetch, parse_profile_url, validate_redirect_uri,
};

#[test]
fn profile_url_rules() {
    assert!(parse_profile_url("https://app.example/").is_some());
    assert!(parse_profile_url("http://app.example/cb?x=1").is_some());
    assert!(parse_profile_url("ftp://app.example/").is_none());
    assert!(parse_profile_url("https://user@app.example/").is_none());
    assert!(parse_profile_url("https://user:pw@app.example/").is_none());
    assert!(parse_profile_url("https://app.example/#frag").is_none());
    assert!(parse_profile_url("https://app.example/a/../b").is_none());
    assert!(parse_profile_url("https://app.example/./b").is_none());
    assert!(parse_profile_url("https://app.example/%2E%2E/b").is_none());
    assert!(parse_profile_url("https://app.example/a/.%2e").is_none());
    assert!(parse_profile_url("https://app.example/a\\..\\b").is_none());
    assert!(parse_profile_url("https://app.example/cb?next=../x").is_some());
    assert!(parse_profile_url("https://app.example/a.b/..c").is_some());
    assert!(parse_profile_url("not a url").is_none());
}

#[test]
fn parsed_url_text_is_normalised() {
    let u = parse_profile_url("HTTPS://App.Example").unwrap();
    assert_eq!(u.as_str(), "https://app.example/");
}

#[test]
fn loopback_client_ids() {
    assert!(is_loopback_client_id(&parse_profile_url("http://127.0.0.1:8080/").unwrap()));
    assert!(is_loopback_client_id(&parse_profile_url("http://[::1]/").unwrap()));
    assert!(!is_loopback_client_id(&parse_profile_url("https://app.example/").unwrap()));
    assert!(fetch_target(&parse_profile_url("http://127.0.0.1/").unwrap()).is_none());
}

#[test]
fn fetch_target_uses_port() {
    assert_eq!(
        fetch_target(&parse_profile_url("https://app.example/").unwrap()),
        Some(("app.example".to_string(), 443))
    );
    assert_eq!(
        fetch_target(&parse_profile_url("https://app.example:8443/").unwrap()),
        Some(("app.example".to_string(), 8443))
    );
    assert_eq!(
        fetch_target(&parse_profile_url("http://app.example/").unwrap()),
        Some(("app.example".to_string(), 80))
    );
}

#[test]
fn same_origin_redirect_is_valid() {
    let client = parse_profile_url("https://app.example/").unwrap();
    let cb = parse_profile_url("https://app.example/callback").unwrap();
    assert!(validate_redirect_uri(&client, &cb, &ClientMetadata::default()));
}

#[test]
fn other_origin_needs_registration() {
    let client = parse_profile_url("https://app.example/").unwrap();
    let cb = parse_profile_url("https://other.example/callback").unwrap();
    assert!(!validate_redirect_uri(&client, &cb, &ClientMetadata::default()));
    let md = ClientMetadata {
        client_name: None,
        redirect_uris: vec!["https://other.example/callback".to_string()],
    };
    assert!(validate_redirect_uri(&client, &cb, &md));
    let port = parse_profile_url("https://app.example:444/callback").unwrap();
    assert!(!validate_redirect_uri(&client, &port, &md));
}

#[test]
fn disallowed_addresses() {
    assert!(!addresses_permit_fetch(&vec![]));
    assert!(addresses_permit_fetch(&vec![IpAddress::V4([93, 184, 216, 34])]));
    for bad in [
        [127, 0, 0, 1],
        [10, 1, 2, 3],
        [172, 16, 0, 1],
        [172, 31, 255, 255],
        [192, 168, 1, 1],
        [169, 254, 0, 1],
        [255, 255, 255, 255],
        [0, 0, 0, 0],
        [192, 0, 2, 1],
        [198, 51, 100, 1],
        [203, 0, 113, 1],
    ] {
        assert!(!addresses_permit_fetch(&vec![IpAddress::V4([93, 184, 216, 34]), IpAddress::V4(bad)]));
    }
    assert!(addresses_permit_fetch(&vec![IpAddress::V4([172, 32, 0, 1])]));
    assert!(!addresses_permit_fetch(&vec![IpAddress::V6([0, 0, 0, 0, 0, 0, 0, 1])]));
    assert!(!addresses_permit_fetch(&vec![IpAddress::V6([0, 0, 0, 0, 0, 0, 0, 0])]));
    assert!(!addresses_permit_fetch(&vec![IpAddress::V6([0xfd00, 0, 0, 0, 0, 0, 0, 1])]));
    assert!(addresses_permit_fetch(&vec![IpAddress::V6([0x2001, 0xdb8, 0, 0, 0, 0, 0, 1])]));
}

fn doc(client_id: Option<&str>) -> ClientIdDocument {
    ClientIdDocument {
        client_id: client_id.map(|s| s.to_string()),
        client_name: Some("App".to_string()),
        redirect_uris: vec!["https://other.example/cb".to_string()],
    }
}

#[test]
fn metadata_accepted_only_when_it_names_itself() {
    let client = parse_profile_url("https://app.example/").unwrap();
    let ok = metadata_from_fetch(
        &client,
        FetchOutcome::Fetched { success: true, body_len: 100, document: Some(doc(Some("https://app.example/"))) },
    );
    assert_eq!(ok.client_name.as_deref(), Some("App"));
    assert_eq!(ok.redirect_uris, vec!["https://other.example/cb".to_string()]);
    let wrong = metadata_from_fetch(
        &client,
        FetchOutcome::Fetched { success: true, body_len: 100, document: Some(doc(Some("https://evil.example/"))) },
    );
    assert!(wrong.client_name.is_none() && wrong.redirect_uris.is_empty());
    let failed = metadata_from_fetch(
        &client,
        FetchOutcome::Fetched { success: false, body_len: 100, document: Some(doc(Some("https://app.example/"))) },
    );
    assert!(failed.client_name.is_none() && failed.redirect_uris.is_empty());
    let too_big = metadata_from_fetch(
        &client,
        FetchOutcome::Fetched { success: true, body_len: 1024 * 1024 + 1, document: Some(doc(Some("https://app.example/"))) },
    );
    assert!(too_big.redirect_uris.is_empty());
    let none = metadata_from_fetch(&client, FetchOutcome::Failed);
    assert!(none.client_name.is_none() && none.redirect_uris.is_empty());
}
