//! Sessions: the owner's sign-in session and the short-lived WebAuthn
//! ceremony sessions. The cookie carries only an opaque session id; all
//! session state stays server side.

use vstd::prelude::*;
use crate::db::{SentStatement, Store};
use crate::db::sessions::{delete_session_sent, upsert_sent};
use crate::util::{after, is_instant, spec_rfc3339_of};
use crate::json::{json_quote, json_string_literal};
use crate::codec::{b64url_encode, is_b64url_text};
use crate::routes::{Fatal, is_header_value, is_header_value_char};
use crate::text::decimal;
use crate::text::opt_text;
use crate::webauthn::{authentication_state_json, registration_state_json};
use crate::headers::{HeaderList, header_value_text, values_named, header_text};
use crate::text::{
    chars_of,
    find_char,
    first_index,
    lemma_first_index_bound,
    push_signed_decimal,
    range_eq,
    signed_decimal,
    str_eq,
    string_from_range,
    trim,
    trim_bounds,
};

verus! {

/// Cookie holding the owner session id. The `__Host-` prefix makes
/// browsers insist on `Secure`, `Path=/` and no `Domain`.
pub const OWNER_COOKIE: &'static str = "__Host-owner";

/// Cookie holding a WebAuthn ceremony session id.
pub const CEREMONY_COOKIE: &'static str = "__Host-ceremony";

/// Lifetime of an owner session, in days.
pub const OWNER_TTL_DAYS: i64 = 30;

/// Lifetime of a ceremony session, in minutes.
pub const CEREMONY_TTL_MINUTES: i64 = 5;

/// The value of the pair `name=value` in one `;`-separated cookie part,
/// after trimming; `split_once('=')` splits at the first `=`.
pub open spec fn cookie_pair_value(part: Seq<char>, name: Seq<char>) -> Option<Seq<char>> {
    let e = first_index(part, '=');
    if e < part.len() && part.take(e as int) == name {
        Some(part.skip(e as int + 1))
    } else {
        None
    }
}

/// The value of the first pair named `name` in one cookie header's text.
pub open spec fn cookie_in(text: Seq<char>, name: Seq<char>) -> Option<Seq<char>>
    decreases text.len(),
{
    let j = first_index(text, ';');
    proof {
        lemma_first_index_bound(text, ';');
    }
    match cookie_pair_value(trim(text.take(j as int)), name) {
        Some(v) => Some(v),
        None => if j < text.len() {
            cookie_in(text.skip(j as int + 1), name)
        } else {
            None
        },
    }
}

/// Looks through the `Cookie` header values in order. The first value that
/// is not text ends the search with nothing, as the `?` on `to_str` does.
pub open spec fn cookie_lookup(values: Seq<Seq<u8>>, name: Seq<char>) -> Option<Seq<char>>
    decreases values.len(),
{
    if values.len() == 0 {
        None
    } else {
        match header_text(values[0]) {
            None => None,
            Some(text) => match cookie_in(text, name) {
                Some(v) => Some(v),
                None => cookie_lookup(values.drop_first(), name),
            },
        }
    }
}

/// The cookie `name` as the request carries it.
pub open spec fn spec_get_cookie(headers: Seq<(Seq<char>, Seq<u8>)>, name: Seq<char>) -> Option<
    Seq<char>,
> {
    cookie_lookup(values_named(headers, "cookie"@), name)
}

fn find_cookie(text: &Vec<char>, name: &Vec<char>) -> (r: Option<String>)
    ensures
        r matches Some(v) ==> cookie_in(text@, name@) == Some(v@),
        r is None ==> cookie_in(text@, name@) is None,
{
    let n = text.len();
    let mut start: usize = 0;
    proof {
        assert(text@.skip(0) == text@);
    }
    loop
        invariant
            start <= n == text@.len(),
            cookie_in(text@, name@) == cookie_in(text@.skip(start as int), name@),
        decreases n - start,
    {
        let ghost rest = text@.skip(start as int);
        let j = find_char(text, start, n, ';');
        let (lo, hi) = trim_bounds(text, start, j);
        let e = find_char(text, lo, hi, '=');
        proof {
            assert(text@.subrange(start as int, n as int) == rest);
            assert(rest.take(j - start) == text@.subrange(start as int, j as int));
            let part = text@.subrange(lo as int, hi as int);
            assert(part.take(e - lo) == text@.subrange(lo as int, e as int));
            if e < hi {
                assert(part.skip(e - lo + 1) == text@.subrange(e + 1, hi as int));
            }
        }
        if e < hi && range_eq(text, lo, e, name) {
            return Some(string_from_range(text, e + 1, hi));
        }
        if j == n {
            return None;
        }
        proof {
            assert(rest.skip(j - start + 1) == text@.skip(j + 1));
        }
        start = j + 1;
    }
}

/// The value of the cookie `name` on the request, if present. Only `Cookie`
/// headers are consulted, in order, splitting each on `;` and each part
/// at its first `=`, after trimming whitespace.
pub fn get_cookie(headers: &HeaderList, name: &str) -> (r: Option<String>)
    ensures
        r matches Some(v) ==> spec_get_cookie(headers.pairs(), name@) == Some(v@),
        r is None ==> spec_get_cookie(headers.pairs(), name@) is None,
{
    let ghost ps = headers.pairs();
    let name_chars = chars_of(name);
    let mut i: usize = 0;
    proof {
        assert(ps.skip(0) == ps);
    }
    while i < headers.entries.len()
        invariant
            ps == headers.pairs(),
            name_chars@ == name@,
            i <= headers.entries@.len(),
            spec_get_cookie(ps, name@) == cookie_lookup(
                values_named(ps.skip(i as int), "cookie"@),
                name@,
            ),
        decreases headers.entries@.len() - i,
    {
        let ghost rest = ps.skip(i as int);
        proof {
            assert(rest[0] == ps[i as int]);
            assert(rest.drop_first() == ps.skip(i + 1));
        }
        if str_eq(headers.entries[i].0.as_str(), "cookie") {
            let raw = match header_value_text(&headers.entries[i].1) {
                Some(t) => t,
                None => {
                    return None;
                },
            };
            let raw_chars = chars_of(raw.as_str());
            if let Some(v) = find_cookie(&raw_chars, &name_chars) {
                return Some(v);
            }
            proof {
                let vs = values_named(rest, "cookie"@);
                assert(vs == seq![rest[0].1] + values_named(rest.drop_first(), "cookie"@));
                assert(vs.drop_first() == values_named(rest.drop_first(), "cookie"@));
            }
        } else {
            proof {
                assert(values_named(rest, "cookie"@) == values_named(rest.drop_first(), "cookie"@));
            }
        }
        i = i + 1;
    }
    proof {
        assert(ps.skip(i as int).len() == 0);
    }
    None
}

pub const COOKIE_ATTRIBUTES: &'static str = "; Path=/; HttpOnly; Secure; SameSite=Lax; Max-Age=";

/// The `Set-Cookie` value for a session cookie.
pub open spec fn spec_set_cookie_header(name: Seq<char>, value: Seq<char>, max_age_secs: int) -> Seq<
    char,
> {
    name + seq!['='] + value + COOKIE_ATTRIBUTES@ + signed_decimal(max_age_secs)
}

/// `Set-Cookie` for a session cookie: host-only, script-inaccessible,
/// HTTPS-only, `SameSite=Lax`, expiring after `max_age_secs`.
pub fn set_cookie_header(name: &str, value: &str, max_age_secs: i64) -> (r: String)
    ensures
        r@ == spec_set_cookie_header(name@, value@, max_age_secs as int),
{
    let mut out = String::new();
    out.append(name);
    crate::text::push_char(&mut out, '=');
    out.append(value);
    out.append(COOKIE_ATTRIBUTES);
    push_signed_decimal(&mut out, max_age_secs);
    out
}

pub const CLEAR_COOKIE_ATTRIBUTES: &'static str = "=; Path=/; HttpOnly; Secure; SameSite=Lax; Max-Age=0";

/// `Set-Cookie` that removes the cookie `name`.
pub fn clear_cookie_header(name: &str) -> (r: String)
    ensures
        r@ == name@ + CLEAR_COOKIE_ATTRIBUTES@,
{
    let mut out = String::new();
    out.append(name);
    out.append(CLEAR_COOKIE_ATTRIBUTES);
    out
}

/// What a browser sends back for a cookie that `set_cookie_header` set:
/// its first attribute, the text before the first `;`, is the pair
/// `name=value`, and `get_cookie` finds `value` under `name` in a `Cookie`
/// header holding it. Holds when the name is non-empty, holds no `=` and
/// does not start with whitespace, and the value holds no `;` and does not
/// end with whitespace (session ids are base64url text).
pub proof fn lemma_cookie_round_trip(name: Seq<char>, value: Seq<char>, max_age_secs: int)
    requires
        name.len() > 0,
        !crate::text::is_ws(name[0]),
        forall|k: int| 0 <= k < name.len() ==> #[trigger] name[k] != '=' && name[k] != ';',
        forall|k: int| 0 <= k < value.len() ==> #[trigger] value[k] != ';',
        value.len() > 0 ==> !crate::text::is_ws(value.last()),
    ensures
        ({
            let set = spec_set_cookie_header(name, value, max_age_secs);
            let sent = set.take(first_index(set, ';') as int);
            &&& sent == name + seq!['='] + value
            &&& cookie_in(sent, name) == Some(value)
        }),
{
    let set = spec_set_cookie_header(name, value, max_age_secs);
    let pair = name + seq!['='] + value;
    reveal_strlit("; Path=/; HttpOnly; Secure; SameSite=Lax; Max-Age=");
    assert(set == pair + (COOKIE_ATTRIBUTES@ + signed_decimal(max_age_secs)));
    assert(set[pair.len() as int] == ';');
    assert forall|k: int| 0 <= k < pair.len() implies #[trigger] set[k] != ';' by {
        assert(set[k] == pair[k]);
        if k < name.len() {
            assert(pair[k] == name[k]);
        } else if k > name.len() {
            assert(pair[k] == value[k - name.len() - 1]);
        }
    }
    crate::text::lemma_first_index(set, ';', pair.len() as int);
    assert(set.take(pair.len() as int) == pair);
    // The pair holds no ';', so the whole header is one part.
    assert forall|k: int| 0 <= k < pair.len() implies #[trigger] pair[k] != ';' by {
        assert(set[k] == pair[k]);
    }
    crate::text::lemma_first_index(pair, ';', pair.len() as int);
    assert(pair.take(pair.len() as int) == pair);
    // Trimming leaves the pair as it is.
    assert(pair[0] == name[0]);
    if value.len() > 0 {
        assert(pair.last() == value.last());
    } else {
        assert(pair.last() == '=');
    }
    crate::text::lemma_trim_unchanged(pair);
    // The first '=' ends the name.
    assert forall|k: int| 0 <= k < name.len() implies #[trigger] pair[k] != '=' by {
        assert(pair[k] == name[k]);
    }
    crate::text::lemma_first_index(pair, '=', name.len() as int);
    assert(pair.take(name.len() as int) == name);
    assert(pair.skip(name.len() as int + 1) == value);
}

#[verifier::external_type_specification]
#[verifier::external_body]
pub struct ExPasskeyRegistration(webauthn_rs::prelude::PasskeyRegistration);

#[verifier::external_type_specification]
#[verifier::external_body]
pub struct ExPasskeyAuthentication(webauthn_rs::prelude::PasskeyAuthentication);

/// An authorization request held server side between showing the consent
/// page and the owner's decision, so the decision never trusts
/// client-supplied form fields.
#[derive(Clone)]
pub struct PendingAuthorize {
    pub client_id: String,
    pub redirect_uri: String,
    pub state: Option<String>,
    pub scope: String,
    pub code_challenge: String,
    pub code_challenge_method: String,
    pub me: String,
}

/// What a session holds.
pub enum SessionData {
    /// The signed-in owner, with the latest authorization request awaiting
    /// a decision, if any.
    Owner { pending_authorize: Option<PendingAuthorize> },
    /// A passkey registration in progress.
    CeremonyRegistration { state: webauthn_rs::prelude::PasskeyRegistration },
    /// A passkey sign-in in progress, and where to go afterwards.
    CeremonyAuthentication {
        state: webauthn_rs::prelude::PasskeyAuthentication,
        return_to: Option<String>,
    },
}

pub const OWNER_KIND: &'static str = "owner";

pub const CEREMONY_KIND: &'static str = "ceremony";

/// Seconds an owner session lives: 30 days.
pub const OWNER_TTL_SECONDS: i64 = 2592000;

/// Seconds a ceremony session lives: 5 minutes.
pub const CEREMONY_TTL_SECONDS: i64 = 300;

impl SessionData {
    /// Whether this is an owner session.
    pub open spec fn is_owner(&self) -> bool {
        self is Owner
    }

    /// The cookie that carries a session of this kind.
    pub open spec fn spec_cookie_name(&self) -> Seq<char> {
        if self is Owner {
            OWNER_COOKIE@
        } else {
            CEREMONY_COOKIE@
        }
    }

    /// The kind recorded in the session row.
    pub open spec fn spec_kind(&self) -> Seq<char> {
        if self is Owner {
            OWNER_KIND@
        } else {
            CEREMONY_KIND@
        }
    }

    /// How long a session of this kind lives, in seconds.
    pub open spec fn spec_ttl(&self) -> int {
        if self is Owner {
            OWNER_TTL_SECONDS as int
        } else {
            CEREMONY_TTL_SECONDS as int
        }
    }

    /// The cookie for this kind of session.
    pub fn cookie_name(&self) -> (r: &'static str)
        ensures
            r@ == self.spec_cookie_name(),
    {
        match self {
            SessionData::Owner { .. } => OWNER_COOKIE,
            _ => CEREMONY_COOKIE,
        }
    }

    /// The kind recorded in the session row: `owner` or `ceremony`.
    pub fn kind_str(&self) -> (r: &'static str)
        ensures
            r@ == self.spec_kind(),
    {
        match self {
            SessionData::Owner { .. } => OWNER_KIND,
            _ => CEREMONY_KIND,
        }
    }

    /// Lifetime of this kind of session in seconds: 30 days for the owner,
    /// 5 minutes for a ceremony.
    pub fn ttl_seconds(&self) -> (r: i64)
        ensures
            r == self.spec_ttl(),
    {
        match self {
            SessionData::Owner { .. } => OWNER_TTL_SECONDS,
            _ => CEREMONY_TTL_SECONDS,
        }
    }
}

/// The JSON text of an optional string: `null` or a string literal.
pub open spec fn opt_literal(o: Option<Seq<char>>) -> Seq<char> {
    match o {
        Some(s) => json_string_literal(s),
        None => "null"@,
    }
}

/// A pending request as JSON, members in declaration order, as serde_json
/// writes the struct.
pub open spec fn spec_pending_json(p: PendingAuthorize) -> Seq<char> {
    "{\"client_id\":"@ + json_string_literal(p.client_id@) + ",\"redirect_uri\":"@
        + json_string_literal(p.redirect_uri@) + ",\"state\":"@ + opt_literal(opt_text(p.state))
        + ",\"scope\":"@ + json_string_literal(p.scope@) + ",\"code_challenge\":"@
        + json_string_literal(p.code_challenge@) + ",\"code_challenge_method\":"@
        + json_string_literal(p.code_challenge_method@) + ",\"me\":"@ + json_string_literal(p.me@)
        + "}"@
}

/// An owner session's data as JSON: tagged with its kind, as serde_json
/// writes an internally tagged enum.
pub open spec fn spec_owner_json(pending: Option<PendingAuthorize>) -> Seq<char> {
    "{\"kind\":\"Owner\",\"pending_authorize\":"@ + match pending {
        Some(p) => spec_pending_json(p),
        None => "null"@,
    } + "}"@
}

/// How a session's data is stored: the owner's exactly as
/// `spec_owner_json`; a ceremony's as its kind tag and the JSON that
/// serde_json made of the ceremony state (and, for sign-in, where to go
/// afterwards).
pub open spec fn is_session_json(data: SessionData, json: Seq<char>) -> bool {
    match data {
        SessionData::Owner { pending_authorize } => json == spec_owner_json(pending_authorize),
        SessionData::CeremonyRegistration { .. } => exists|state: Seq<char>|
            json == "{\"kind\":\"CeremonyRegistration\",\"state\":"@ + state + "}"@,
        SessionData::CeremonyAuthentication { return_to, .. } => exists|state: Seq<char>|
            json == "{\"kind\":\"CeremonyAuthentication\",\"state\":"@ + state
                + ",\"return_to\":"@ + opt_literal(opt_text(return_to)) + "}"@,
    }
}

fn push_literal(out: &mut String, s: &str)
    ensures
        final(out)@ == old(out)@ + json_string_literal(s@),
{
    let q = json_quote(s);
    out.append(q.as_str());
}

fn push_opt_literal(out: &mut String, s: &Option<String>)
    ensures
        final(out)@ == old(out)@ + opt_literal(opt_text(*s)),
{
    match s {
        Some(t) => push_literal(out, t.as_str()),
        None => out.append("null"),
    }
}

/// `p` as JSON.
pub fn pending_json(p: &PendingAuthorize) -> (r: String)
    ensures
        r@ == spec_pending_json(*p),
{
    let mut out = String::new();
    out.append("{\"client_id\":");
    push_literal(&mut out, p.client_id.as_str());
    out.append(",\"redirect_uri\":");
    push_literal(&mut out, p.redirect_uri.as_str());
    out.append(",\"state\":");
    push_opt_literal(&mut out, &p.state);
    out.append(",\"scope\":");
    push_literal(&mut out, p.scope.as_str());
    out.append(",\"code_challenge\":");
    push_literal(&mut out, p.code_challenge.as_str());
    out.append(",\"code_challenge_method\":");
    push_literal(&mut out, p.code_challenge_method.as_str());
    out.append(",\"me\":");
    push_literal(&mut out, p.me.as_str());
    out.append("}");
    out
}

/// An owner session's data as JSON.
pub fn owner_json(pending: &Option<PendingAuthorize>) -> (r: String)
    ensures
        r@ == spec_owner_json(*pending),
{
    let mut out = String::new();
    out.append("{\"kind\":\"Owner\",\"pending_authorize\":");
    match pending {
        Some(p) => {
            let j = pending_json(p);
            out.append(j.as_str());
        },
        None => out.append("null"),
    }
    out.append("}");
    out
}

/// A session's data as JSON for storage; nothing when serde_json could not
/// write a ceremony state.
pub fn session_json(data: &SessionData) -> (r: Option<String>)
    ensures
        data is Owner ==> r is Some,
        r matches Some(j) ==> is_session_json(*data, j@),
{
    match data {
        SessionData::Owner { pending_authorize } => Some(owner_json(pending_authorize)),
        SessionData::CeremonyRegistration { state } => {
            let st = registration_state_json(state)?;
            let mut out = String::new();
            out.append("{\"kind\":\"CeremonyRegistration\",\"state\":");
            out.append(st.as_str());
            out.append("}");
            proof {
                assert(out@ == "{\"kind\":\"CeremonyRegistration\",\"state\":"@ + st@ + "}"@);
            }
            Some(out)
        },
        SessionData::CeremonyAuthentication { state, return_to } => {
            let st = authentication_state_json(state)?;
            let mut out = String::new();
            out.append("{\"kind\":\"CeremonyAuthentication\",\"state\":");
            out.append(st.as_str());
            out.append(",\"return_to\":");
            push_opt_literal(&mut out, return_to);
            out.append("}");
            proof {
                assert(out@ == "{\"kind\":\"CeremonyAuthentication\",\"state\":"@ + st@
                    + ",\"return_to\":"@ + opt_literal(opt_text(*return_to)) + "}"@);
            }
            Some(out)
        },
    }
}

/// A `Set-Cookie` value for the cookie `name` carrying a fresh session id
/// (32 random bytes in base64url) for `ttl` seconds.
pub open spec fn is_cookie_for(name: Seq<char>, ttl: int, cookie: Seq<char>) -> bool {
    exists|b: Seq<u8>|
        b.len() == 32 && is_b64url_text(b64url_encode(b)) && cookie == spec_set_cookie_header(
            name,
            #[trigger] b64url_encode(b),
            ttl,
        )
}

/// The `Set-Cookie` value for a new session of `data`'s kind.
pub open spec fn is_session_cookie(data: SessionData, cookie: Seq<char>) -> bool {
    is_cookie_for(data.spec_cookie_name(), data.spec_ttl(), cookie)
}

/// A `Set-Cookie` value for a new ceremony session.
pub open spec fn is_ceremony_cookie(cookie: Seq<char>) -> bool {
    is_cookie_for(CEREMONY_COOKIE@, CEREMONY_TTL_SECONDS as int, cookie)
}

/// A `Set-Cookie` value for a new owner session.
pub open spec fn is_owner_cookie(cookie: Seq<char>) -> bool {
    is_cookie_for(OWNER_COOKIE@, OWNER_TTL_SECONDS as int, cookie)
}

/// A new session's cookie is the one for its kind.
pub proof fn lemma_session_cookie_kind(data: SessionData, cookie: Seq<char>)
    requires
        is_session_cookie(data, cookie),
    ensures
        data is Owner ==> is_owner_cookie(cookie),
        !(data is Owner) ==> is_ceremony_cookie(cookie),
{
}

proof fn lemma_decimal_digits(n: nat)
    ensures
        forall|k: int| 0 <= k < decimal(n).len() ==> '0' <= #[trigger] decimal(n)[k] <= '9',
    decreases n,
{
    if n >= 10 {
        lemma_decimal_digits(n / 10);
        let d = decimal(n / 10);
        assert forall|k: int| 0 <= k < decimal(n).len() implies '0' <= #[trigger] decimal(n)[k] <= '9' by {
            if k < d.len() {
                assert(decimal(n)[k] == d[k]);
            }
        }
    }
}

proof fn lemma_concat_header_value(a: Seq<char>, b: Seq<char>)
    requires
        is_header_value(a),
        is_header_value(b),
    ensures
        is_header_value(a + b),
{
    assert forall|k: int| 0 <= k < (a + b).len() implies is_header_value_char(#[trigger] (a + b)[k]) by {
        if k < a.len() {
            assert((a + b)[k] == a[k]);
        } else {
            assert((a + b)[k] == b[k - a.len()]);
        }
    }
}

/// A session cookie can always be sent: its name, id, attributes and
/// lifetime are all plain ASCII.
pub proof fn lemma_session_cookie_is_header_value(data: SessionData, cookie: Seq<char>)
    requires
        is_session_cookie(data, cookie),
    ensures
        is_header_value(cookie),
{
    let b = choose|b: Seq<u8>|
        b.len() == 32 && is_b64url_text(b64url_encode(b)) && cookie == spec_set_cookie_header(
            data.spec_cookie_name(),
            #[trigger] b64url_encode(b),
            data.spec_ttl(),
        );
    let id = b64url_encode(b);
    let name = data.spec_cookie_name();
    reveal_strlit("__Host-owner");
    reveal_strlit("__Host-ceremony");
    reveal_strlit("; Path=/; HttpOnly; Secure; SameSite=Lax; Max-Age=");
    assert(is_header_value(name));
    assert(is_header_value(seq!['=']));
    assert(is_header_value(id)) by {
        assert forall|k: int| 0 <= k < id.len() implies is_header_value_char(#[trigger] id[k]) by {
            assert(crate::codec::is_b64url_char(id[k]));
        }
    }
    assert(is_header_value(COOKIE_ATTRIBUTES@));
    let ttl = data.spec_ttl();
    lemma_decimal_digits(ttl as nat);
    assert(ttl >= 0);
    assert(signed_decimal(ttl) == crate::text::decimal(ttl as nat));
    assert(is_header_value(signed_decimal(ttl)));
    lemma_concat_header_value(name, seq!['=']);
    lemma_concat_header_value(name + seq!['='], id);
    lemma_concat_header_value(name + seq!['='] + id, COOKIE_ATTRIBUTES@);
    lemma_concat_header_value(name + seq!['='] + id + COOKIE_ATTRIBUTES@, signed_decimal(ttl));
}

/// What the browser returns for a new session's cookie is the pair
/// `name=id`, and reading the cookie `name` from it gives back exactly
/// the session id, a base64url token.
pub proof fn lemma_session_cookie_round_trip(data: SessionData, cookie: Seq<char>)
    requires
        is_session_cookie(data, cookie),
    ensures
        exists|id: Seq<char>|
            #[trigger] is_b64url_text(id) && cookie.take(first_index(cookie, ';') as int)
                == data.spec_cookie_name() + seq!['='] + id && cookie_in(
                cookie.take(first_index(cookie, ';') as int),
                data.spec_cookie_name(),
            ) == Some(id),
{
    let b = choose|b: Seq<u8>|
        b.len() == 32 && is_b64url_text(b64url_encode(b)) && cookie == spec_set_cookie_header(
            data.spec_cookie_name(),
            #[trigger] b64url_encode(b),
            data.spec_ttl(),
        );
    let id = b64url_encode(b);
    let name = data.spec_cookie_name();
    reveal_strlit("__Host-owner");
    reveal_strlit("__Host-ceremony");
    assert(name.len() > 0 && name[0] == '_');
    assert forall|k: int| 0 <= k < name.len() implies #[trigger] name[k] != '=' && name[k] != ';' by {}
    assert forall|k: int| 0 <= k < id.len() implies #[trigger] id[k] != ';' by {
        assert(crate::codec::is_b64url_char(id[k]));
    }
    if id.len() > 0 {
        assert(crate::codec::is_b64url_char(id[id.len() - 1]));
    }
    lemma_cookie_round_trip(name, id, data.spec_ttl());
    assert(is_b64url_text(id));
}

/// Whether `exp` is what the clock gives for the instant `seconds` from
/// now: its RFC 3339 text, or nothing when RFC 3339 cannot write it.
pub open spec fn is_expiry(seconds: int, exp: Option<Seq<char>>) -> bool {
    exists|t: int| is_instant(t) && #[trigger] spec_rfc3339_of(after(t, seconds)) == exp
}

/// Whether the session `id` holding `data` was handed to SQLite, after
/// `before`, as a row of `data`'s kind stored as `is_session_json` has it
/// and expiring after the kind's lifetime.
pub open spec fn session_stored(
    data: SessionData,
    id: Seq<char>,
    before: Seq<SentStatement>,
    after: Seq<SentStatement>,
) -> bool {
    exists|exp: Seq<char>, json: Seq<char>|
        #![trigger is_expiry(data.spec_ttl(), Some(exp)), is_session_json(data, json)]
        is_expiry(data.spec_ttl(), Some(exp)) && is_session_json(data, json) && after == before.push(
            upsert_sent(id, data.spec_kind(), json, exp),
        )
}

/// Whether a new session of `data` was stored under a fresh id (32 random
/// bytes in base64url) and `cookie` is the `Set-Cookie` value carrying it.
pub open spec fn session_started(
    data: SessionData,
    cookie: Seq<char>,
    before: Seq<SentStatement>,
    after: Seq<SentStatement>,
) -> bool {
    exists|b: Seq<u8>|
        b.len() == 32 && is_b64url_text(b64url_encode(b)) && cookie == spec_set_cookie_header(
            data.spec_cookie_name(),
            #[trigger] b64url_encode(b),
            data.spec_ttl(),
        ) && session_stored(data, b64url_encode(b), before, after)
}

/// Persists a new session holding `data` under a fresh random id for the
/// kind's lifetime, and gives the `Set-Cookie` value to send: the cookie
/// for the session's kind, carrying only the id. A session that cannot be
/// written or stored abandons the request.
pub fn start_session(store: &mut Store, data: &SessionData) -> (r: Result<String, Fatal>)
    ensures
        r matches Ok(c) ==> is_session_cookie(*data, c@),
        r matches Ok(c) ==> session_started(*data, c@, old(store).sent(), final(store).sent()),
        r matches Err(e) ==> (e == Fatal::Clock && is_expiry(data.spec_ttl(), None)
            && final(store).sent() == old(store).sent()) || (e == Fatal::SerializeSession && !(data is Owner)
            && final(store).sent() == old(store).sent()) || (e == Fatal::CreateSession && exists|b: Seq<u8>|
            b.len() == 32 && #[trigger] session_stored(
                *data,
                b64url_encode(b),
                old(store).sent(),
                final(store).sent(),
            )),
        final(store).reads() == old(store).reads(),
{
    let id = crate::idgen::random_token(32);
    let ghost b = choose|b: Seq<u8>| b.len() == 32 && id@ == #[trigger] b64url_encode(b);
    let cookie_name = data.cookie_name();
    let kind = data.kind_str();
    let ttl = data.ttl_seconds();
    let expires_at = match crate::util::rfc3339_after(ttl) {
        Some(t) => t,
        None => {
            return Err(Fatal::Clock);
        },
    };
    let data_json = match session_json(data) {
        Some(j) => j,
        None => {
            return Err(Fatal::SerializeSession);
        },
    };
    let stored = crate::db::sessions::upsert_session(store, id.as_str(), kind, data_json.as_str(), expires_at.as_str());
    proof {
        assert(is_expiry(data.spec_ttl(), Some(expires_at@)));
        assert(session_stored(*data, b64url_encode(b), old(store).sent(), store.sent()));
    }
    if stored.is_err() {
        return Err(Fatal::CreateSession);
    }
    let c = set_cookie_header(cookie_name, id.as_str(), ttl);
    proof {
        assert(session_started(*data, c@, old(store).sent(), store.sent()));
    }
    Ok(c)
}

/// Whether the owner session `id` was overwritten in place, after
/// `before`, with `pending` and a fresh owner lifetime.
pub open spec fn owner_saved(
    id: Seq<char>,
    pending: Option<PendingAuthorize>,
    before: Seq<SentStatement>,
    after: Seq<SentStatement>,
) -> bool {
    exists|exp: Seq<char>|
        #[trigger] is_expiry(OWNER_TTL_SECONDS as int, Some(exp)) && after == before.push(
            upsert_sent(id, OWNER_KIND@, spec_owner_json(pending), exp),
        )
}

/// Overwrites the owner session `session_id` in place with `pending`,
/// to expire at `expires_at`, the clock's reading for the owner lifetime
/// from now. A failure to store is ignored; a reading that RFC 3339 could
/// not write (`None`) abandons the request and stores nothing.
pub fn save_owner_session(
    store: &mut Store,
    session_id: &str,
    pending: &Option<PendingAuthorize>,
    expires_at: Option<String>,
) -> (r: Result<(), Fatal>)
    ensures
        match expires_at {
            Some(e) => r is Ok && final(store).sent() == old(store).sent().push(
                upsert_sent(session_id@, OWNER_KIND@, spec_owner_json(*pending), e@),
            ),
            None => r == Err::<(), Fatal>(Fatal::Clock) && final(store).sent() == old(store).sent(),
        },
        final(store).reads() == old(store).reads(),
{
    let expires_at = match expires_at {
        Some(t) => t,
        None => {
            return Err(Fatal::Clock);
        },
    };
    let data_json = owner_json(pending);
    let _ = crate::db::sessions::upsert_session(
        store,
        session_id,
        OWNER_KIND,
        data_json.as_str(),
        expires_at.as_str(),
    );
    Ok(())
}

/// Overwrites an owner session's data in place with `pending`, extending it
/// by the owner lifetime. A failure to store is ignored; a clock that
/// cannot be written abandons the request.
pub fn update_owner_session(
    store: &mut Store,
    session_id: &str,
    pending: &Option<PendingAuthorize>,
) -> (r: Result<(), Fatal>)
    ensures
        r is Ok ==> owner_saved(session_id@, *pending, old(store).sent(), final(store).sent()),
        r is Err ==> r == Err::<(), Fatal>(Fatal::Clock) && is_expiry(OWNER_TTL_SECONDS as int, None)
            && final(store).sent() == old(store).sent(),
        final(store).reads() == old(store).reads(),
{
    let expires_at = crate::util::rfc3339_after(OWNER_TTL_SECONDS);
    proof {
        assert(is_expiry(OWNER_TTL_SECONDS as int, opt_text(expires_at)));
    }
    save_owner_session(store, session_id, pending, expires_at)
}

/// Ends a session; a failure to delete it is ignored.
pub fn end_session(store: &mut Store, id: &str)
    ensures
        final(store).sent() == old(store).sent().push(delete_session_sent(id@)),
        final(store).reads() == old(store).reads(),
{
    let _ = crate::db::sessions::delete_session(store, id);
}

} // verus!
