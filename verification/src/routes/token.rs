//! `POST /auth/token`: redeems an authorization code. A code whose request
//! asked for no scope only confirms who the owner is; otherwise an access
//! token is issued.

use vstd::prelude::*;
use crate::db::{Answer, SentStatement, Store, is_clock_reading};
use super::{Fatal, Submitted};
use crate::codec::b64url_encode;
use crate::db::codes::{
    CodeRow,
    RedeemedCode,
    SELECT_CODE_SQL,
    claim_answered,
    found_in,
    mark_used_sent,
    redeem_code,
    redeem_record,
    redeemed_from,
    redemption,
};
use crate::util::is_instant;
use crate::db::tokens::{insert_token, insert_token_sent};
use crate::session::is_expiry;
use crate::text::opt_text;
use crate::error::{Reply, STATUS_BAD_REQUEST, STATUS_OK, json, json_error};
use crate::idgen::random_token;
use crate::json::{JsonObject, JsonValue, JsonView, json_str};
use crate::pkce::{spec_s256_challenge, verify_s256};
use crate::text::{is_blank, split_whitespace, str_eq, string_views, trim, words};
use crate::util::rfc3339_after;

verus! {

/// The form of a token request.
pub struct TokenRequest {
    pub grant_type: String,
    pub code: String,
    pub client_id: String,
    pub redirect_uri: String,
    pub code_verifier: String,
}

/// Lifetime of an access token, in seconds: one hour.
pub const ACCESS_TOKEN_TTL_SECONDS: i64 = 3600;

/// What a token request earns.
#[derive(PartialEq, Eq, Structural, Clone, Copy)]
pub enum Grant {
    /// No code, or the request does not match the code's.
    Denied,
    /// The code was for identity only: the answer names the owner and
    /// carries no token.
    ProfileOnly,
    /// An access token is issued.
    AccessToken,
}

/// The grant for request `f` given what redeeming its code gave: the code
/// must exist, be issued to the same client and redirect URI, use `S256`,
/// and the verifier must answer its challenge. An empty (or blank) scope
/// earns no token.
pub open spec fn spec_grant(f: TokenRequest, redeemed: Option<RedeemedCode>) -> Grant {
    match redeemed {
        None => Grant::Denied,
        Some(c) => if c.client_id@ != f.client_id@ || c.redirect_uri@ != f.redirect_uri@ {
            Grant::Denied
        } else if c.code_challenge_method@ != "S256"@ || spec_s256_challenge(f.code_verifier@)
            != c.code_challenge@ {
            Grant::Denied
        } else if trim(c.scope@).len() == 0 {
            Grant::ProfileOnly
        } else {
            Grant::AccessToken
        },
    }
}

/// Decides the grant for `f` given the redeemed code.
pub fn grant(f: &TokenRequest, redeemed: &Option<RedeemedCode>) -> (g: Grant)
    ensures
        g == spec_grant(*f, *redeemed),
{
    match redeemed {
        None => Grant::Denied,
        Some(c) => {
            if !str_eq(c.client_id.as_str(), f.client_id.as_str()) || !str_eq(
                c.redirect_uri.as_str(),
                f.redirect_uri.as_str(),
            ) {
                Grant::Denied
            } else if !str_eq(c.code_challenge_method.as_str(), "S256") || !verify_s256(
                f.code_verifier.as_str(),
                c.code_challenge.as_str(),
            ) {
                Grant::Denied
            } else if is_blank(c.scope.as_str()) {
                Grant::ProfileOnly
            } else {
                Grant::AccessToken
            }
        },
    }
}

/// The members of a JSON error answer.
pub open spec fn error_members(error: Seq<char>) -> Seq<(Seq<char>, JsonView)> {
    seq![("error"@, JsonView::Str(error))]
}

/// Text that encodes 32 random bytes as an opaque token.
pub open spec fn is_random_token(t: Seq<char>) -> bool {
    exists|b: Seq<u8>| b.len() == 32 && t == #[trigger] b64url_encode(b)
}

/// The owner's display name and photo URL, as configured.
pub struct OwnerProfile {
    pub name: Option<String>,
    pub photo_url: Option<String>,
}

/// The members of the `profile` object: the name and the photo, each only
/// when configured.
pub open spec fn profile_members(p: OwnerProfile) -> Seq<(Seq<char>, Seq<char>)> {
    (match p.name {
        Some(n) => seq![("name"@, n@)],
        None => Seq::empty(),
    }) + (match p.photo_url {
        Some(u) => seq![("photo"@, u@)],
        None => Seq::empty(),
    })
}

/// The `profile` member of a token answer: present when the granted scope
/// includes `profile` and a name or photo is configured.
pub open spec fn profile_part(scope: Seq<char>, p: OwnerProfile) -> Seq<(Seq<char>, JsonView)> {
    if words(scope).contains("profile"@) && profile_members(p).len() > 0 {
        seq![("profile"@, JsonView::StrObject(profile_members(p)))]
    } else {
        Seq::empty()
    }
}

/// The members of an access token answer.
pub open spec fn spec_token_members(token: Seq<char>, c: RedeemedCode, p: OwnerProfile) -> Seq<
    (Seq<char>, JsonView),
> {
    seq![
        ("access_token"@, JsonView::Str(token)),
        ("token_type"@, JsonView::Str("Bearer"@)),
        ("scope"@, JsonView::Str(c.scope@)),
        ("me"@, JsonView::Str(c.me@)),
        ("expires_in"@, JsonView::Int(ACCESS_TOKEN_TTL_SECONDS as int)),
    ] + profile_part(c.scope@, p)
}

/// Whether the whitespace-separated `scope` includes `wanted`.
pub fn has_scope(scope: &str, wanted: &str) -> (r: bool)
    ensures
        r == words(scope@).contains(wanted@),
{
    let ws = split_whitespace(scope);
    let ghost w = words(scope@);
    let mut i: usize = 0;
    while i < ws.len()
        invariant
            i <= ws@.len(),
            string_views(ws@) == w,
            w == words(scope@),
            forall|k: int| 0 <= k < i ==> w[k] != wanted@,
        decreases ws@.len() - i,
    {
        if str_eq(ws[i].as_str(), wanted) {
            proof {
                assert(w.len() == ws@.len());
                assert(w[i as int] == wanted@);
                assert(w.contains(wanted@));
            }
            return true;
        }
        i = i + 1;
    }
    proof {
        assert(w.len() == ws@.len());
    }
    false
}

/// The `profile` object's members for `p`.
pub fn profile_object(p: &OwnerProfile) -> (r: Vec<(String, String)>)
    ensures
        r@.map_values(|m: (String, String)| (m.0@, m.1@)) == profile_members(*p),
{
    let mut v: Vec<(String, String)> = Vec::new();
    if let Some(n) = &p.name {
        v.push(("name".to_owned(), n.as_str().to_owned()));
    }
    if let Some(u) = &p.photo_url {
        v.push(("photo".to_owned(), u.as_str().to_owned()));
    }
    proof {
        assert(v@.map_values(|m: (String, String)| (m.0@, m.1@)) =~= profile_members(*p));
    }
    v
}

/// The answer once token `t` was stored for code `c`, or could not be
/// (`stored`), which abandons the request.
pub open spec fn issued_outcome(
    t: Seq<char>,
    c: RedeemedCode,
    p: OwnerProfile,
    stored: bool,
    r: Result<Reply, Fatal>,
) -> bool {
    if stored {
        r matches Ok(reply) && reply.is_json(STATUS_OK, spec_token_members(t, c, p))
    } else {
        r matches Err(e) && e == Fatal::StoreToken
    }
}

/// Answers with the access token `token` issued for code `c`, once storing
/// it succeeded or failed.
pub fn issued_answer(token: &str, c: &RedeemedCode, profile: &OwnerProfile, stored: bool) -> (r: Result<
    Reply,
    Fatal,
>)
    ensures
        issued_outcome(token@, *c, *profile, stored, r),
{
    if !stored {
        return Err(Fatal::StoreToken);
    }
    let mut o = JsonObject::new();
    o.put("access_token", json_str(token));
    o.put("token_type", json_str("Bearer"));
    o.put("scope", json_str(c.scope.as_str()));
    o.put("me", json_str(c.me.as_str()));
    o.put("expires_in", JsonValue::Int(ACCESS_TOKEN_TTL_SECONDS));
    let members = profile_object(profile);
    if members.len() > 0 && has_scope(c.scope.as_str(), "profile") {
        o.put("profile", JsonValue::StrObject(members));
    }
    proof {
        assert(o.view() =~= spec_token_members(token@, *c, *profile));
    }
    Ok(json(STATUS_OK, o))
}

/// What granting code `c` the token `t`, expiring at `exp`, gives and
/// hands SQLite after `before`: nothing and the clock error when the
/// expiry could not be written; else the token's row for `c`, and the
/// token reply when it was stored.
pub open spec fn token_issued(
    t: Seq<char>,
    c: RedeemedCode,
    p: OwnerProfile,
    exp: Option<Seq<char>>,
    before: Seq<SentStatement>,
    after: Seq<SentStatement>,
    r: Result<Reply, Fatal>,
) -> bool {
    match exp {
        None => r == Err::<Reply, Fatal>(Fatal::Clock) && after == before,
        Some(e) => {
            &&& issued_outcome(t, c, p, r is Ok, r)
            &&& if r is Ok {
                exists|now: Seq<char>|
                    #[trigger] is_clock_reading(now) && after == before.push(
                        insert_token_sent(t, c.client_id@, c.me@, c.scope@, Some(e), now),
                    )
            } else {
                after == before || exists|now: Seq<char>|
                    #[trigger] is_clock_reading(now) && after == before.push(
                        insert_token_sent(t, c.client_id@, c.me@, c.scope@, Some(e), now),
                    )
            }
        },
    }
}

/// Stores the access token `token` for code `c`, expiring at
/// `expires_at` (the clock's reading an hour from now, `None` when RFC
/// 3339 could not write it), and answers with it.
pub fn store_token(
    store: &mut Store,
    token: &str,
    c: &RedeemedCode,
    profile: &OwnerProfile,
    expires_at: Option<String>,
) -> (r: Result<Reply, Fatal>)
    ensures
        token_issued(token@, *c, *profile, opt_text(expires_at), old(store).sent(), final(store).sent(), r),
        final(store).reads() == old(store).reads(),
{
    let expires_at = match expires_at {
        Some(t) => t,
        None => {
            return Err(Fatal::Clock);
        },
    };
    let stored = insert_token(
        store,
        token,
        c.client_id.as_str(),
        c.me.as_str(),
        c.scope.as_str(),
        Some(expires_at.as_str()),
    ).is_ok();
    issued_answer(token, c, profile, stored)
}

/// What answering request `f` with the redeemed code gives and hands
/// SQLite after `before`: a refusal as `invalid_grant` or the owner's
/// identity alone, storing nothing; or a fresh random token for the
/// code's scope, stored with its expiry, where a failure to store
/// abandons the request.
pub open spec fn spec_token_outcome(
    f: TokenRequest,
    redeemed: Option<RedeemedCode>,
    p: OwnerProfile,
    before: Seq<SentStatement>,
    after: Seq<SentStatement>,
    r: Result<Reply, Fatal>,
) -> bool {
    match redeemed {
        None => (r matches Ok(reply) && reply.is_json(STATUS_BAD_REQUEST, error_members("invalid_grant"@)))
            && after == before,
        Some(c) => match spec_grant(f, redeemed) {
            Grant::Denied => (r matches Ok(reply) && reply.is_json(
                STATUS_BAD_REQUEST,
                error_members("invalid_grant"@),
            )) && after == before,
            Grant::ProfileOnly => (r matches Ok(reply) && reply.is_json(
                STATUS_OK,
                seq![("me"@, JsonView::Str(c.me@))],
            )) && after == before,
            Grant::AccessToken => exists|t: Seq<char>, exp: Option<Seq<char>>|
                is_random_token(t) && is_expiry(ACCESS_TOKEN_TTL_SECONDS as int, exp) && #[trigger] token_issued(
                    t,
                    c,
                    p,
                    exp,
                    before,
                    after,
                    r,
                ),
        },
    }
}

/// Answers token request `f` given what redeeming its code gave, storing
/// a new access token (expiring in an hour) when one is granted.
pub fn respond(
    store: &mut Store,
    f: &TokenRequest,
    redeemed: Option<RedeemedCode>,
    profile: &OwnerProfile,
) -> (r: Result<Reply, Fatal>)
    ensures
        spec_token_outcome(*f, redeemed, *profile, old(store).sent(), final(store).sent(), r),
        final(store).reads() == old(store).reads(),
{
    let g = grant(f, &redeemed);
    let c = match redeemed {
        None => {
            return Ok(json_error(STATUS_BAD_REQUEST, "invalid_grant"));
        },
        Some(c) => c,
    };
    match g {
        Grant::Denied => Ok(json_error(STATUS_BAD_REQUEST, "invalid_grant")),
        Grant::ProfileOnly => {
            let mut o = JsonObject::new();
            o.put("me", json_str(c.me.as_str()));
            proof {
                assert(o.view() =~= seq![("me"@, JsonView::Str(c.me@))]);
            }
            Ok(json(STATUS_OK, o))
        },
        Grant::AccessToken => {
            let token = random_token(32);
            let expires_at = rfc3339_after(ACCESS_TOKEN_TTL_SECONDS);
            proof {
                assert(is_random_token(token@));
                assert(is_expiry(ACCESS_TOKEN_TTL_SECONDS as int, opt_text(expires_at)));
            }
            let ghost before = store.sent();
            let r = store_token(store, token.as_str(), &c, profile, expires_at);
            proof {
                assert(token_issued(token@, c, *profile, opt_text(expires_at), before, store.sent(), r));
            }
            r
        },
    }
}

/// What redeeming `code` handed SQLite after `before`: the claim of the
/// code at a clock reading when a request came back (so the code stays
/// used whatever the answer), the claim or nothing otherwise.
pub open spec fn redeem_sent(
    code: Seq<char>,
    redeemed: Option<RedeemedCode>,
    before: Seq<SentStatement>,
    mid: Seq<SentStatement>,
) -> bool {
    if redeemed is Some {
        exists|now: Seq<char>| #[trigger] is_clock_reading(now) && mid == before.push(mark_used_sent(code, now))
    } else {
        mid == before || exists|now: Seq<char>|
            #[trigger] is_clock_reading(now) && mid == before.push(mark_used_sent(code, now))
    }
}

/// What redeeming a code gave: nothing, or the request of the row that
/// SQLite answered the code lookup `ans` with, which was unused and
/// unexpired when read.
pub open spec fn redeemed_fresh(redeemed: Option<RedeemedCode>, ans: Answer) -> bool {
    match redeemed {
        Some(c) => exists|row: CodeRow, now: int| #[trigger] redeemed_from(row, now, c) && found_in(Some(row), ans),
        None => true,
    }
}

/// The token endpoint: a body that cannot be read or parsed is an
/// `invalid_request`, a grant type other than `authorization_code` is
/// refused, and otherwise the code is redeemed (once only) and the
/// request answered from it.
pub fn post(store: &mut Store, body: Submitted<TokenRequest>, profile: &OwnerProfile) -> (r: Result<
    Reply,
    Fatal,
>)
    ensures
        match body {
            Submitted::Parsed(f) => if f.grant_type@ != "authorization_code"@ {
                (r matches Ok(reply) && reply.is_json(
                    STATUS_BAD_REQUEST,
                    error_members("unsupported_grant_type"@),
                )) && final(store).sent() == old(store).sent()
            } else {
                exists|redeemed: Option<RedeemedCode>, mid: Seq<SentStatement>|
                    redeemed_fresh(redeemed, final(store).reads().last().1) && redeem_sent(f.code@, redeemed, old(store).sent(), mid)
                        && #[trigger] spec_token_outcome(f, redeemed, *profile, mid, final(store).sent(), r)
            },
            _ => (r matches Ok(reply) && reply.is_json(STATUS_BAD_REQUEST, error_members("invalid_request"@)))
                && final(store).sent() == old(store).sent(),
        },
        final(store).queried() == match body {
            Submitted::Parsed(f) => if f.grant_type@ != "authorization_code"@ {
                old(store).queried()
            } else {
                old(store).queried().push((SELECT_CODE_SQL@, None::<Seq<u8>>, seq![Some(f.code@)]))
            },
            _ => old(store).queried(),
        },
{
    let f = match body {
        Submitted::Parsed(f) => f,
        _ => {
            return Ok(json_error(STATUS_BAD_REQUEST, "invalid_request"));
        },
    };
    if !str_eq(f.grant_type.as_str(), "authorization_code") {
        return Ok(json_error(STATUS_BAD_REQUEST, "unsupported_grant_type"));
    }
    let redeemed = match redeem_code(store, f.code.as_str()) {
        Ok(Some(c)) => Some(c),
        _ => None,
    };
    let ghost g = redeemed;
    let ghost mid = store.sent();
    let ghost ans = store.reads().last().1;
    proof {
        if g is Some {
            let (found, now, updated) = choose|found: Option<CodeRow>, now: int, updated: Option<usize>|
                #![trigger redemption(found, now, updated)]
                is_instant(now) && g == redemption(found, now, updated) && redeem_record(
                    old(store).sent(),
                    mid,
                    f.code@,
                    found,
                    now,
                    updated,
                ) && found_in(found, ans) && claim_answered(old(store).changed(), store.changed(), updated);
            let row = found->0;
            assert(redeemed_from(row, now, g->0));
        }
    }
    proof {
        assert(redeem_sent(f.code@, g, old(store).sent(), mid));
    }
    let r = respond(store, &f, redeemed, profile);
    proof {
        assert(redeemed_fresh(g, store.reads().last().1));
        assert(spec_token_outcome(f, g, *profile, mid, store.sent(), r));
    }
    r
}

/// A code issued for no scope never earns an access token, whatever the
/// request.
pub proof fn lemma_blank_scope_earns_no_token(f: TokenRequest, c: RedeemedCode)
    requires
        trim(c.scope@).len() == 0,
    ensures
        spec_grant(f, Some(c)) != Grant::AccessToken,
{
}

/// A token is granted only when the verifier answers the code's `S256`
/// challenge and the client and redirect URI match the code's.
pub proof fn lemma_token_needs_pkce(f: TokenRequest, redeemed: Option<RedeemedCode>)
    requires
        spec_grant(f, redeemed) != Grant::Denied,
    ensures
        redeemed matches Some(c) && c.code_challenge_method@ == "S256"@ && spec_s256_challenge(
            f.code_verifier@,
        ) == c.code_challenge@ && c.client_id@ == f.client_id@ && c.redirect_uri@ == f.redirect_uri@,
{
}

} // verus!
