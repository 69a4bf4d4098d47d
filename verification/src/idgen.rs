//! Opaque random identifiers: authorization codes, access tokens and
//! session ids.

use vstd::prelude::*;
use crate::codec::{b64url_encode, base64url_encode, is_b64url_text, random_bytes};

verus! {

/// A random, URL-safe, unpadded base64 token carrying `num_bytes` random
/// bytes: whatever bytes the generator gave, the token is their encoding.
pub fn random_token(num_bytes: usize) -> (r: String)
    ensures
        exists|b: Seq<u8>| b.len() == num_bytes && r@ == #[trigger] b64url_encode(b),
        is_b64url_text(r@),
        r@.len() == (4 * num_bytes + 2) / 3,
{
    let bytes = random_bytes(num_bytes);
    let r = base64url_encode(bytes.as_slice());
    proof {
        assert(r@ == b64url_encode(bytes@));
    }
    r
}

} // verus!
