//! Byte-level primitives the server gets from outside crates: base64url
//! without padding, SHA-256, constant-time comparison, random bytes and
//! UTF-8 decoding.

use vstd::prelude::*;
use base64::Engine;
use rand::RngCore;
use sha2::Digest;
use subtle::ConstantTimeEq;

verus! {

/// The URL-safe, unpadded base64 text of `bytes`.
pub uninterp spec fn b64url_encode(bytes: Seq<u8>) -> Seq<char>;

/// The bytes that URL-safe, unpadded base64 text decodes to, if it is
/// valid such text.
pub uninterp spec fn b64url_decode(text: Seq<char>) -> Option<Seq<u8>>;

/// The SHA-256 digest of `data`.
pub uninterp spec fn sha256(data: Seq<u8>) -> Seq<u8>;

/// A character of the URL-safe base64 alphabet.
pub open spec fn is_b64url_char(c: char) -> bool {
    ('A' <= c && c <= 'Z') || ('a' <= c && c <= 'z') || ('0' <= c && c <= '9') || c == '-' || c == '_'
}

/// Text made only of URL-safe base64 characters.
pub open spec fn is_b64url_text(s: Seq<char>) -> bool {
    forall|k: int| 0 <= k < s.len() ==> is_b64url_char(#[trigger] s[k])
}

/// `URL_SAFE_NO_PAD.encode` from the base64 crate: a function of the
/// bytes alone, written with the URL-safe alphabet (`A`-`Z`, `a`-`z`,
/// `0`-`9`, `-`, `_`) and no padding: four characters for every three
/// bytes, the last group cut to what its bytes need.
#[verifier::external_body]
pub(crate) fn base64url_encode(bytes: &[u8]) -> (r: String)
    ensures
        r@ == b64url_encode(bytes@),
        is_b64url_text(r@),
        r@.len() == (4 * bytes@.len() + 2) / 3,
{
    base64::engine::general_purpose::URL_SAFE_NO_PAD.encode(bytes)
}

/// `URL_SAFE_NO_PAD.decode` from the base64 crate on the text's bytes:
/// the decoded bytes, or nothing when the text is not valid unpadded
/// base64url.
#[verifier::external_body]
pub(crate) fn base64url_decode(text: &str) -> (r: Option<Vec<u8>>)
    ensures
        r matches Some(b) ==> b64url_decode(text@) == Some(b@),
        r is None ==> b64url_decode(text@) is None,
{
    base64::engine::general_purpose::URL_SAFE_NO_PAD.decode(text).ok()
}

/// `Sha256::digest` from the sha2 crate: a function of the input alone,
/// always 32 bytes long (its output type is a 32-byte array).
#[verifier::external_body]
pub(crate) fn sha256_digest(data: &[u8]) -> (r: Vec<u8>)
    ensures
        r@ == sha256(data@),
        r@.len() == 32,
{
    sha2::Sha256::digest(data).to_vec()
}

/// `ConstantTimeEq::ct_eq` on byte slices from the subtle crate, turned
/// into a `bool`: true exactly when the slices have the same length and
/// the same bytes.
#[verifier::external_body]
pub(crate) fn ct_eq_bytes(a: &[u8], b: &[u8]) -> (r: bool)
    ensures
        r == (a@ == b@),
{
    a.ct_eq(b).into()
}

/// `RngCore::fill_bytes` on the thread-local generator of the rand crate,
/// over `n` zero bytes: `n` bytes whose values are left unsaid.
#[verifier::external_body]
pub(crate) fn random_bytes(n: usize) -> (r: Vec<u8>)
    ensures
        r@.len() == n,
{
    let mut bytes = vec![0u8; n];
    rand::rng().fill_bytes(&mut bytes);
    bytes
}

/// `String::from_utf8`: the text when the bytes are valid UTF-8.
#[verifier::external_body]
pub(crate) fn utf8_text(bytes: Vec<u8>) -> (r: Option<String>)
    ensures
        r matches Some(s) ==> vstd::utf8::valid_utf8(bytes@) && s@ == vstd::utf8::decode_utf8(bytes@),
        r is None ==> !vstd::utf8::valid_utf8(bytes@),
{
    String::from_utf8(bytes).ok()
}

} // verus!
