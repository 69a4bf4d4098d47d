use indieauth::pkce::{s256_challenge, verify_s256};

#[test]
fn verifies_known_pair() {
    // A published example verifier and its S256 challenge.
    let verifier = "dBjftJeZ4CVP-mB92K27uhbUJU1p1r_wW1gFWFOEjXk";
    let challenge = "E9Melhoa2OwvFrEMTJguCHaoeK1t8URWbuGJSstw-cM";
    assert!(verify_s256(verifier, challenge));
}

#[test]
fn rejects_mismatch() {
    assert!(!verify_s256("wrong-verifier", "E9Melhoa2OwvFrEMTJguCHaoeK1t8URWbuGJSstw-cM"));
}

#[test]
fn s256_challenge_of_known_verifier() {
    assert_eq!(
        s256_challenge("dBjftJeZ4CVP-mB92K27uhbUJU1p1r_wW1gFWFOEjXk"),
        "E9Melhoa2OwvFrEMTJguCHaoeK1t8URWbuGJSstw-cM"
    );
}

#[test]
fn challenge_compared_exactly() {
    // A challenge differing in length or in one character is refused.
    let verifier = "dBjftJeZ4CVP-mB92K27uhbUJU1p1r_wW1gFWFOEjXk";
    assert!(!verify_s256(verifier, "E9Melhoa2OwvFrEMTJguCHaoeK1t8URWbuGJSstw-c"));
    assert!(!verify_s256(verifier, "E9Melhoa2OwvFrEMTJguCHaoeK1t8URWbuGJSstw-cN"));
    assert!(!verify_s256(verifier, ""));
}
