use indieauth::util::{is_past, is_past_at, now_rfc3339, parse_rfc3339, rfc3339_after, rfc3339_of, to_rfc3339, unix_timestamp};

#[test]
fn formats_and_parses_rfc3339() {
    assert_eq!(to_rfc3339(0), "1970-01-01T00:00:00Z");
    assert_eq!(to_rfc3339(1_700_000_000_000_000_000), "2023-11-14T22:13:20Z");
    assert_eq!(parse_rfc3339("2023-11-14T22:13:20Z"), Some(1_700_000_000_000_000_000));
    assert_eq!(parse_rfc3339("2023-11-14T23:13:20+01:00"), Some(1_700_000_000_000_000_000));
    assert_eq!(parse_rfc3339("not a time"), None);
}

#[test]
fn rfc3339_range() {
    assert!(rfc3339_of(0).is_some());
    // Year 10000 cannot be written.
    assert!(rfc3339_of(253_402_300_800 * 1_000_000_000).is_none());
    assert!(rfc3339_of(-62_167_219_201 * 1_000_000_000).is_none());
}

#[test]
fn unix_seconds_round_down() {
    assert_eq!(unix_timestamp(1_500_000_000), 1);
    assert_eq!(unix_timestamp(-1), -1);
    assert_eq!(unix_timestamp(-1_000_000_000), -1);
    assert_eq!(unix_timestamp(-1_000_000_001), -2);
}

#[test]
fn past_and_future() {
    assert!(is_past("2000-01-01T00:00:00Z"));
    assert!(is_past("garbage"));
    assert!(!is_past(&rfc3339_after(3600).unwrap()));
    assert!(is_past_at(Some(5), 5));
    assert!(!is_past_at(Some(6), 5));
    assert!(is_past_at(None, 5));
}

#[test]
fn now_is_formatted() {
    let now = now_rfc3339().unwrap();
    assert!(parse_rfc3339(&now).is_some());
    assert!(now.ends_with('Z'));
}
