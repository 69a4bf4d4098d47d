//! `POST /auth/introspection`: tells a resource server whether a token is
//! active. Anything invalid, expired or revoked gets `{"active": false}`
//! and nothing else, so the caller cannot tell which applied.

use vstd::prelude::*;
use crate::db::Store;
use super::Submitted;
use super::token::error_members;
use crate::db::tokens::{ActiveToken, SELECT_TOKEN_SQL, active_token, answered_token, token_view, was_active};
use crate::util::is_instant;
use crate::error::{Reply, STATUS_BAD_REQUEST, STATUS_OK, json, json_error};
use crate::json::{JsonObject, JsonValue, JsonView, json_str};
use crate::text::opt_text;
use crate::util::{parse_rfc3339, rfc3339_instant, unix_seconds, unix_timestamp};

verus! {

/// The form of an introspection request.
pub struct IntrospectRequest {
    pub token: String,
}

/// A stored timestamp as JSON: its Unix seconds, or null when absent or
/// unparsable.
pub open spec fn timestamp_view(text: Option<Seq<char>>) -> JsonView {
    match text {
        Some(s) => match rfc3339_instant(s) {
            Some(n) => JsonView::Int(unix_seconds(n)),
            None => JsonView::Null,
        },
        None => JsonView::Null,
    }
}

/// The answer for an inactive token.
pub open spec fn inactive_members() -> Seq<(Seq<char>, JsonView)> {
    seq![("active"@, JsonView::Bool(false))]
}

/// The members of the answer about a token: its details when active, else
/// only that it is not.
pub open spec fn spec_introspection_members(active: Option<ActiveToken>) -> Seq<(Seq<char>, JsonView)> {
    match active {
        Some(t) => seq![
            ("active"@, JsonView::Bool(true)),
            ("me"@, JsonView::Str(t.me@)),
            ("client_id"@, JsonView::Str(t.client_id@)),
            ("scope"@, JsonView::Str(t.scope@)),
            ("exp"@, timestamp_view(opt_text(t.expires_at))),
            ("iat"@, timestamp_view(Some(t.created_at@))),
        ],
        None => inactive_members(),
    }
}

fn timestamp_json(text: Option<&str>) -> (r: JsonValue)
    ensures
        r.view() == timestamp_view(
            match text {
                Some(s) => Some(s@),
                None => None,
            },
        ),
{
    match text {
        Some(s) => match parse_rfc3339(s) {
            Some(t) => JsonValue::Int(unix_timestamp(t)),
            None => JsonValue::Null,
        },
        None => JsonValue::Null,
    }
}

/// The answer about a token given what the lookup found.
pub fn introspection_reply(active: Option<ActiveToken>) -> (r: Reply)
    ensures
        r.is_json(STATUS_OK, spec_introspection_members(active)),
{
    let mut o = JsonObject::new();
    match active {
        Some(t) => {
            o.put("active", JsonValue::Bool(true));
            o.put("me", json_str(t.me.as_str()));
            o.put("client_id", json_str(t.client_id.as_str()));
            o.put("scope", json_str(t.scope.as_str()));
            let exp = match &t.expires_at {
                Some(e) => timestamp_json(Some(e.as_str())),
                None => timestamp_json(None),
            };
            o.put("exp", exp);
            o.put("iat", timestamp_json(Some(t.created_at.as_str())));
            proof {
                assert(o.view() =~= spec_introspection_members(Some(t)));
            }
        },
        None => {
            o.put("active", JsonValue::Bool(false));
            proof {
                assert(o.view() =~= inactive_members());
            }
        },
    }
    json(STATUS_OK, o)
}

/// What the lookup found: nothing, or a token that was active when read.
pub open spec fn found_active(active: Option<ActiveToken>) -> bool {
    match active {
        Some(t) => was_active(t),
        None => true,
    }
}

/// The introspection endpoint: an unreadable body is an
/// `invalid_request`; a body without a token, and any token that is not
/// active (or could not be looked up), gets the inactive answer. Only
/// the lookup of the presented token is handed to SQLite.
pub fn post(store: &mut Store, body: Submitted<IntrospectRequest>) -> (r: Reply)
    ensures
        match body {
            Submitted::Unreadable => r.is_json(STATUS_BAD_REQUEST, error_members("invalid_request"@)),
            Submitted::Malformed => r.is_json(STATUS_OK, inactive_members()),
            Submitted::Parsed(_) => exists|active: Option<ActiveToken>|
                found_active(active) && #[trigger] r.is_json(STATUS_OK, spec_introspection_members(active))
                    && exists|now: int|
                    is_instant(now) && #[trigger] answered_token(final(store).reads().last().1, now) == token_view(
                        active,
                    ),
        },
        final(store).sent() == old(store).sent(),
        final(store).queried() == match body {
            Submitted::Parsed(f) => old(store).queried().push(
                (SELECT_TOKEN_SQL@, None::<Seq<u8>>, seq![Some(f.token@)]),
            ),
            _ => old(store).queried(),
        },
{
    let f = match body {
        Submitted::Unreadable => {
            return json_error(STATUS_BAD_REQUEST, "invalid_request");
        },
        Submitted::Malformed => {
            return introspection_reply(None);
        },
        Submitted::Parsed(f) => f,
    };
    let looked_up = active_token(store, f.token.as_str());
    let ghost ans = store.reads().last().1;
    let active = match looked_up {
        Ok(Some(t)) => Some(t),
        _ => None,
    };
    proof {
        assert(found_active(active));
        if looked_up is Err {
            assert(answered_token(ans, 0) == token_view(active));
            assert(is_instant(0));
        }
    }
    let r = introspection_reply(active);
    proof {
        let now = choose|now: int| is_instant(now) && answered_token(ans, now) == token_view(active);
        assert(r.is_json(STATUS_OK, spec_introspection_members(active)));
    }
    r
}

/// Whether every member of `members` named `key` carries `value`, and
/// one does.
pub open spec fn member_is(members: Seq<(Seq<char>, JsonView)>, key: Seq<char>, value: JsonView) -> bool {
    &&& exists|i: int| 0 <= i < members.len() && #[trigger] members[i] == (key, value)
    &&& forall|i: int| 0 <= i < members.len() && (#[trigger] members[i]).0 == key ==> members[i].1 == value
}

/// The answer about an active token says it is active and names, as
/// stored with the token (its columns `v`, in the lookup's order: client,
/// user, scope), the user it belongs to as `me`, the client it was issued
/// to as `client_id`, and its scope.
pub proof fn lemma_active_answer_reports_stored_token(
    t: ActiveToken,
    v: (Seq<char>, Seq<char>, Seq<char>, Seq<char>, Option<Seq<char>>),
)
    requires
        token_view(Some(t)) == Some(v),
    ensures
        member_is(spec_introspection_members(Some(t)), "active"@, JsonView::Bool(true)),
        member_is(spec_introspection_members(Some(t)), "me"@, JsonView::Str(v.1)),
        member_is(spec_introspection_members(Some(t)), "client_id"@, JsonView::Str(v.0)),
        member_is(spec_introspection_members(Some(t)), "scope"@, JsonView::Str(v.2)),
{
    reveal_strlit("active");
    reveal_strlit("me");
    reveal_strlit("client_id");
    reveal_strlit("scope");
    reveal_strlit("exp");
    reveal_strlit("iat");
    let m = spec_introspection_members(Some(t));
    assert(m[0] == ("active"@, JsonView::Bool(true)));
    assert(m[1] == ("me"@, JsonView::Str(v.1)));
    assert(m[2] == ("client_id"@, JsonView::Str(v.0)));
    assert(m[3] == ("scope"@, JsonView::Str(v.2)));
    assert("active"@.len() == 6 && "me"@.len() == 2 && "client_id"@.len() == 9);
    assert("scope"@.len() == 5 && "exp"@.len() == 3 && "iat"@.len() == 3);
    assert("exp"@ != "scope"@ && "iat"@ != "scope"@);
    assert("exp"@[0] != "iat"@[0]);
}

/// However a token fails to be active, the answer is the same single
/// member: the inactive answer reveals nothing else.
pub proof fn lemma_inactive_answer_is_uniform()
    ensures
        spec_introspection_members(None) == seq![("active"@, JsonView::Bool(false))],
        spec_introspection_members(None).len() == 1,
{
}

} // verus!
