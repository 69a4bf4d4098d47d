//! PKCE verification. Only `S256` exists in this server: `plain` is
//! refused before a code is ever issued. The comparison runs in constant
//! time.

use vstd::prelude::*;
use crate::codec::{b64url_encode, base64url_encode, ct_eq_bytes, sha256, sha256_digest};

verus! {

/// The `S256` challenge for a verifier: base64url of the SHA-256 of its
/// UTF-8 bytes.
pub open spec fn spec_s256_challenge(code_verifier: Seq<char>) -> Seq<char> {
    b64url_encode(sha256(vstd::utf8::encode_utf8(code_verifier)))
}

/// Computes the `S256` challenge that `code_verifier` answers.
pub fn s256_challenge(code_verifier: &str) -> (r: String)
    ensures
        r@ == spec_s256_challenge(code_verifier@),
{
    let digest = sha256_digest(code_verifier.as_bytes());
    base64url_encode(digest.as_slice())
}

/// Whether `code_verifier` answers the stored `S256` `code_challenge`.
pub fn verify_s256(code_verifier: &str, code_challenge: &str) -> (r: bool)
    ensures
        r == (spec_s256_challenge(code_verifier@) == code_challenge@),
{
    let computed = s256_challenge(code_verifier);
    let r = ct_eq_bytes(computed.as_str().as_bytes(), code_challenge.as_bytes());
    proof {
        vstd::utf8::encode_utf8_decode_utf8(computed@);
        vstd::utf8::encode_utf8_decode_utf8(code_challenge@);
    }
    r
}

} // verus!
