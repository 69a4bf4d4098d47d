//! `GET /.well-known/oauth-authorization-server`: the server metadata
//! document.

use vstd::prelude::*;
use crate::error::{Reply, STATUS_OK, json};
use crate::json::{JsonObject, JsonValue, JsonView, json_str};

verus! {

pub const AUTHORIZE_PATH: &'static str = "/auth/authorize";

pub const TOKEN_PATH: &'static str = "/auth/token";

pub const INTROSPECTION_PATH: &'static str = "/auth/introspection";

pub const REVOCATION_PATH: &'static str = "/auth/revocation";

/// The scopes a client may ask for.
pub open spec fn supported_scopes() -> Seq<Seq<char>> {
    seq!["profile"@, "email"@, "create"@, "update"@, "delete"@, "media"@]
}

/// The metadata members for `issuer`.
pub open spec fn spec_metadata_members(issuer: Seq<char>) -> Seq<(Seq<char>, JsonView)> {
    seq![
        ("issuer"@, JsonView::Str(issuer)),
        ("authorization_endpoint"@, JsonView::Str(issuer + AUTHORIZE_PATH@)),
        ("token_endpoint"@, JsonView::Str(issuer + TOKEN_PATH@)),
        ("introspection_endpoint"@, JsonView::Str(issuer + INTROSPECTION_PATH@)),
        ("revocation_endpoint"@, JsonView::Str(issuer + REVOCATION_PATH@)),
        ("code_challenge_methods_supported"@, JsonView::StrArray(seq!["S256"@])),
        ("response_types_supported"@, JsonView::StrArray(seq!["code"@])),
        ("grant_types_supported"@, JsonView::StrArray(seq!["authorization_code"@])),
        ("scopes_supported"@, JsonView::StrArray(supported_scopes())),
        ("authorization_response_iss_parameter_supported"@, JsonView::Bool(true)),
    ]
}

fn joined(a: &str, b: &str) -> (r: String)
    ensures
        r@ == a@ + b@,
{
    let mut s = a.to_owned();
    s.append(b);
    s
}

fn str_array(items: &[&str]) -> (r: JsonValue)
    ensures
        r.view() == JsonView::StrArray(items@.map_values(|s: &str| s@)),
{
    let mut v: Vec<String> = Vec::new();
    let mut i: usize = 0;
    while i < items.len()
        invariant
            i <= items@.len(),
            v@.map_values(|x: String| x@) == items@.take(i as int).map_values(|s: &str| s@),
        decreases items@.len() - i,
    {
        let item = items[i].to_owned();
        let ghost before = v@;
        v.push(item);
        proof {
            assert(items@.take(i + 1) == items@.take(i as int).push(items@[i as int]));
            assert(v@ == before.push(item));
            assert(v@.map_values(|x: String| x@) =~= before.map_values(|x: String| x@).push(item@));
            assert(items@.take(i + 1).map_values(|s: &str| s@) =~= items@.take(i as int).map_values(
                |s: &str| s@,
            ).push(items@[i as int]@));
        }
        i = i + 1;
    }
    proof {
        assert(items@.take(i as int) == items@);
    }
    JsonValue::StrArray(v)
}

/// The server metadata: endpoints under `issuer`, PKCE with `S256` only,
/// the code flow only, the supported scopes, and the `iss` response
/// parameter.
pub fn get(issuer: &str) -> (r: Reply)
    ensures
        r.is_json(STATUS_OK, spec_metadata_members(issuer@)),
{
    let mut o = JsonObject::new();
    o.put("issuer", json_str(issuer));
    o.put("authorization_endpoint", JsonValue::Str(joined(issuer, AUTHORIZE_PATH)));
    o.put("token_endpoint", JsonValue::Str(joined(issuer, TOKEN_PATH)));
    o.put("introspection_endpoint", JsonValue::Str(joined(issuer, INTROSPECTION_PATH)));
    o.put("revocation_endpoint", JsonValue::Str(joined(issuer, REVOCATION_PATH)));
    let methods = ["S256"];
    o.put("code_challenge_methods_supported", str_array(&methods));
    let responses = ["code"];
    o.put("response_types_supported", str_array(&responses));
    let grants = ["authorization_code"];
    o.put("grant_types_supported", str_array(&grants));
    let scopes = ["profile", "email", "create", "update", "delete", "media"];
    o.put("scopes_supported", str_array(&scopes));
    o.put("authorization_response_iss_parameter_supported", JsonValue::Bool(true));
    proof {
        assert(methods@.map_values(|s: &str| s@) =~= seq!["S256"@]);
        assert(responses@.map_values(|s: &str| s@) =~= seq!["code"@]);
        assert(grants@.map_values(|s: &str| s@) =~= seq!["authorization_code"@]);
        assert(scopes@.map_values(|s: &str| s@) =~= supported_scopes());
        assert(o.view() =~= spec_metadata_members(issuer@));
    }
    json(STATUS_OK, o)
}

} // verus!
