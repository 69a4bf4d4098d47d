use indieauth::config::{BindAddr, parse_bind_addr};
use indieauth::text::{is_blank, push_decimal, push_signed_decimal, split_whitespace, trim_string};

#[test]
fn split_whitespace_splits_on_runs() {
    assert_eq!(split_whitespace("  profile\tcreate\n update  "), vec!["profile", "create", "update"]);
    assert!(split_whitespace("   ").is_empty());
    assert!(split_whitespace("").is_empty());
    assert_eq!(split_whitespace("one"), vec!["one"]);
}

#[test]
fn trim_and_blank() {
    assert_eq!(trim_string("  YubiKey 5 \n"), "YubiKey 5");
    assert_eq!(trim_string("\u{3000}wide\u{a0}"), "wide");
    assert!(is_blank(" \t\n"));
    assert!(is_blank(""));
    assert!(!is_blank(" x "));
}

#[test]
fn decimals() {
    let mut s = String::new();
    push_decimal(&mut s, 0);
    s.push(' ');
    push_decimal(&mut s, 2592000);
    s.push(' ');
    push_signed_decimal(&mut s, -300);
    s.push(' ');
    push_signed_decimal(&mut s, i64::MIN);
    assert_eq!(s, "0 2592000 -300 -9223372036854775808");
}

#[test]
fn bind_addr_unix_prefix() {
    match parse_bind_addr("unix:/run/indieauth.sock".to_string()) {
        BindAddr::Unix(p) => assert_eq!(p, "/run/indieauth.sock"),
        BindAddr::Tcp(_) => panic!("expected a unix socket"),
    }
}

#[test]
fn bind_addr_tcp() {
    match parse_bind_addr("127.0.0.1:8080".to_string()) {
        BindAddr::Tcp(a) => assert_eq!(a, "127.0.0.1:8080"),
        BindAddr::Unix(_) => panic!("expected a tcp address"),
    }
    match parse_bind_addr("unix".to_string()) {
        BindAddr::Tcp(a) => assert_eq!(a, "unix"),
        BindAddr::Unix(_) => panic!("expected a tcp address"),
    }
}
