//! `/auth/authorize`: the authorization endpoint. `GET` validates the
//! request and shows the consent page to the signed-in owner, holding the
//! request server side; `POST` carries out the owner's decision on it.

use vstd::prelude::*;
use crate::db::{SentStatement, Store};
use super::{CROSS_SITE, Fatal, NOT_SIGNED_IN, Submitted, answers_html, answers_redirect, owner_signed_in};
use super::token::is_random_token;
use crate::client_metadata::{
    ClientMetadata,
    ProfileUrl,
    UrlView,
    append_query_pairs,
    is_loopback_client_id,
    pair_views,
    parse_profile_url,
    query_growth,
    spec_is_loopback,
    spec_parse_profile_url,
    spec_validate_redirect_uri,
    url_with_query_pairs,
    validate_redirect_uri,
};
use crate::csrf::{is_same_site, spec_is_same_site};
use crate::db::codes::{INSERT_CODE_SQL, NewCode, insert_code, insert_code_params};
use crate::db::is_clock_reading;
use crate::text::opt_str_view;
use crate::error::{
    Reply,
    STATUS_BAD_REQUEST,
    STATUS_FORBIDDEN,
    STATUS_OK,
    bad_request,
    forbidden,
    html,
    redirect,
    redirect_via_js,
};
use crate::headers::HeaderList;
use crate::html::{ConsentClient, consent_page, spec_consent_text, spec_error_page, spec_redirect_page};
use crate::idgen::random_token;
use crate::session::{
    OWNER_COOKIE,
    OWNER_TTL_SECONDS,
    PendingAuthorize,
    SessionData,
    get_cookie,
    is_expiry,
    owner_saved,
    spec_get_cookie,
    update_owner_session,
};
use crate::text::{has_prefix, opt_text, split_whitespace, str_eq, words};
use crate::util::rfc3339_after;

verus! {

/// The query of an authorization request.
pub struct AuthorizeQuery {
    pub response_type: Option<String>,
    pub client_id: String,
    pub redirect_uri: String,
    pub state: Option<String>,
    pub code_challenge: Option<String>,
    pub code_challenge_method: Option<String>,
    pub scope: String,
}

pub const MISSING_PARAMETERS: &'static str = "Invalid authorization request: missing required parameters";

pub const INVALID_CLIENT_ID: &'static str = "Invalid client_id";

pub const INVALID_REDIRECT_URI: &'static str = "Invalid redirect_uri";

pub const UNREGISTERED_REDIRECT_URI: &'static str = "redirect_uri is not registered for this client_id";

/// A byte that the form serializer writes as it is.
pub open spec fn is_form_unchanged(b: u8) -> bool {
    b == 42 || b == 45 || b == 46 || (48 <= b <= 57) || (65 <= b <= 90) || b == 95 || (97 <= b
        <= 122)
}

/// Upper-case hexadecimal digit for `d < 16`.
pub open spec fn hex_upper(d: int) -> char {
    if d < 10 {
        ((d + 48) as u32) as char
    } else {
        ((d + 55) as u32) as char
    }
}

/// How the form serializer writes one byte: unreserved bytes as they are,
/// a space as `+`, anything else as `%XX` in upper-case hexadecimal.
pub open spec fn form_byte(b: u8) -> Seq<char> {
    if is_form_unchanged(b) {
        seq![((b as int) as u32) as char]
    } else if b == 32 {
        seq!['+']
    } else {
        seq!['%', hex_upper(b as int / 16), hex_upper(b as int % 16)]
    }
}

/// The `application/x-www-form-urlencoded` serialization of bytes.
pub open spec fn form_serialize(bytes: Seq<u8>) -> Seq<char>
    decreases bytes.len(),
{
    if bytes.len() == 0 {
        Seq::empty()
    } else {
        form_serialize(bytes.drop_last()) + form_byte(bytes.last())
    }
}

/// `form_urlencoded::byte_serialize` (through the url crate) on the UTF-8
/// bytes of `s`, collected into a string.
#[verifier::external_body]
fn form_urlencode(s: &str) -> (r: String)
    ensures
        r@ == form_serialize(vstd::utf8::encode_utf8(s@)),
{
    url::form_urlencoded::byte_serialize(s.as_bytes()).collect()
}

pub const LOGIN_RETURN_PREFIX: &'static str = "/auth/login?return_to=";

pub const AUTHORIZE_QUERY_PREFIX: &'static str = "/auth/authorize?";

/// Where an authorization request from someone not signed in is sent: the
/// sign-in page, returning to the same request afterwards.
pub open spec fn spec_login_redirect(raw_query: Option<Seq<char>>) -> Seq<char> {
    LOGIN_RETURN_PREFIX@ + form_serialize(
        vstd::utf8::encode_utf8(
            AUTHORIZE_QUERY_PREFIX@ + match raw_query {
                Some(q) => q,
                None => Seq::empty(),
            },
        ),
    )
}

/// Sends the browser to sign in first, coming back to this request.
pub fn redirect_to_login(raw_query: Option<&str>) -> (r: Reply)
    ensures
        r.is_redirect(spec_login_redirect(opt_str_view(raw_query))),
{
    let mut back = AUTHORIZE_QUERY_PREFIX.to_owned();
    match raw_query {
        Some(q) => back.append(q),
        None => {},
    }
    proof {
        assert(back@ == AUTHORIZE_QUERY_PREFIX@ + match opt_str_view(raw_query) {
            Some(q) => q,
            None => Seq::empty(),
        });
    }
    let mut target = LOGIN_RETURN_PREFIX.to_owned();
    let encoded = form_urlencode(back.as_str());
    target.append(encoded.as_str());
    redirect(target.as_str())
}

/// Whether `pairs` can be appended to `u` within the positions the url
/// crate can index.
pub open spec fn fits_query(u: UrlView, pairs: Seq<(Seq<char>, Seq<char>)>) -> bool {
    4 * u.href.len() + query_growth(pairs) < 0xffff_ffff
}

/// The text of `u` with `pairs` appended to its query, when they fit.
pub open spec fn spec_with_pairs(u: UrlView, pairs: Seq<(Seq<char>, Seq<char>)>) -> Option<Seq<char>> {
    if fits_query(u, pairs) {
        Some(url_with_query_pairs(u, pairs))
    } else {
        None
    }
}

fn with_query_pairs(u: &ProfileUrl, pairs: &Vec<(String, String)>) -> (r: Option<String>)
    ensures
        r matches Some(s) ==> spec_with_pairs(u.view(), pair_views(pairs@)) == Some(s@) && has_prefix(
            s@,
            u.view().before_query,
        ),
        r is None ==> spec_with_pairs(u.view(), pair_views(pairs@)) is None,
{
    let ghost ps = pair_views(pairs@);
    let limit: u64 = 0xffff_ffff;
    let href_len = u.as_str().unicode_len();
    if href_len as u64 >= limit || 4 * (href_len as u64) >= limit {
        proof {
            lemma_query_growth_nonneg(ps);
        }
        return None;
    }
    let mut total: u64 = 4 * (href_len as u64);
    let mut i: usize = 0;
    while i < pairs.len()
        invariant
            ps == pair_views(pairs@),
            i <= pairs@.len(),
            total == 4 * u.view().href.len() + query_growth(ps.take(i as int)),
            total < limit,
            limit == 0xffff_ffff,
        decreases pairs@.len() - i,
    {
        let a = pairs[i].0.as_str().unicode_len() as u64;
        let b = pairs[i].1.as_str().unicode_len() as u64;
        proof {
            assert(ps.take(i + 1).drop_last() == ps.take(i as int));
            assert(ps.take(i + 1).last() == ps[i as int]);
            lemma_query_growth_prefix(ps, i + 1);
        }
        if a >= limit || b >= limit || total + 12 * (a + b) + 2 >= limit {
            return None;
        }
        total = total + 12 * (a + b) + 2;
        i = i + 1;
    }
    proof {
        assert(ps.take(i as int) == ps);
    }
    Some(append_query_pairs(u, pairs))
}

/// Query growth never shrinks as pairs are added.
proof fn lemma_query_growth_nonneg(ps: Seq<(Seq<char>, Seq<char>)>)
    ensures
        query_growth(ps) >= 0,
    decreases ps.len(),
{
    if ps.len() > 0 {
        lemma_query_growth_nonneg(ps.drop_last());
    }
}

/// The growth of a prefix is at most the growth of the whole.
proof fn lemma_query_growth_prefix(ps: Seq<(Seq<char>, Seq<char>)>, n: int)
    requires
        0 <= n <= ps.len(),
    ensures
        query_growth(ps.take(n)) <= query_growth(ps),
    decreases ps.len(),
{
    if n < ps.len() {
        assert(ps.drop_last().take(n) == ps.take(n));
        lemma_query_growth_prefix(ps.drop_last(), n);
    } else {
        assert(ps.take(n) == ps);
    }
}

/// The pairs of an error response: the error, and the client's `state`
/// when it sent one.
pub open spec fn error_pairs(error: Seq<char>, state: Option<Seq<char>>) -> Seq<(Seq<char>, Seq<char>)> {
    match state {
        Some(s) => seq![("error"@, error), ("state"@, s)],
        None => seq![("error"@, error)],
    }
}

fn pair(a: &str, b: &str) -> (r: (String, String))
    ensures
        r.0@ == a@,
        r.1@ == b@,
{
    (a.to_owned(), b.to_owned())
}

/// The error response URL: `redirect_uri` with `error` and `state`
/// appended to its query.
fn error_redirect_url(redirect_uri: &ProfileUrl, error: &str, state: Option<&str>) -> (r: Option<String>)
    ensures
        r matches Some(s) ==> spec_with_pairs(redirect_uri.view(), error_pairs(error@, opt_str_view(state))) == Some(s@)
            && has_prefix(s@, redirect_uri.view().before_query),
        r is None ==> spec_with_pairs(redirect_uri.view(), error_pairs(error@, opt_str_view(state))) is None,
{
    let mut pairs: Vec<(String, String)> = Vec::new();
    pairs.push(pair("error", error));
    if let Some(s) = state {
        pairs.push(pair("state", s));
    }
    proof {
        assert(pair_views(pairs@) =~= error_pairs(error@, opt_str_view(state)));
    }
    with_query_pairs(redirect_uri, &pairs)
}

/// A `302` to the error response URL, or, when it does not fit, the
/// invalid redirect_uri page.
pub open spec fn is_error_redirect(r: Reply, u: UrlView, error: Seq<char>, state: Option<Seq<char>>) -> bool {
    match spec_with_pairs(u, error_pairs(error, state)) {
        Some(url) => r.is_redirect(url) && has_prefix(url, u.before_query),
        None => r.is_html(STATUS_BAD_REQUEST, spec_error_page(INVALID_REDIRECT_URI@)),
    }
}

fn error_redirect(redirect_uri: &ProfileUrl, error: &str, state: &Option<String>) -> (r: Reply)
    ensures
        is_error_redirect(r, redirect_uri.view(), error@, opt_text(*state)),
{
    let st = match state {
        Some(s) => Some(s.as_str()),
        None => None,
    };
    match error_redirect_url(redirect_uri, error, st) {
        Some(url) => redirect(url.as_str()),
        None => bad_request(INVALID_REDIRECT_URI),
    }
}

/// The first step of `GET`: the query must parse and both URLs must meet
/// the URL profile.
pub enum AuthorizeStart {
    /// The request is answered already.
    Done(Reply),
    /// The client's metadata is needed next; it is fetched only when
    /// `fetch` holds, which is never for a loopback client_id.
    Resolve { client_id: ProfileUrl, redirect_uri: ProfileUrl, fetch: bool },
}

/// Checks the query of `GET /auth/authorize` (nothing when it did not
/// parse) and says whether the client's metadata must be fetched.
pub fn start(query: &Option<AuthorizeQuery>) -> (r: AuthorizeStart)
    ensures
        match query {
            None => r matches AuthorizeStart::Done(reply) && reply.is_html(
                STATUS_BAD_REQUEST,
                spec_error_page(MISSING_PARAMETERS@),
            ),
            Some(q) => match spec_parse_profile_url(q.client_id@) {
                None => r matches AuthorizeStart::Done(reply) && reply.is_html(
                    STATUS_BAD_REQUEST,
                    spec_error_page(INVALID_CLIENT_ID@),
                ),
                Some(c) => match spec_parse_profile_url(q.redirect_uri@) {
                    None => r matches AuthorizeStart::Done(reply) && reply.is_html(
                        STATUS_BAD_REQUEST,
                        spec_error_page(INVALID_REDIRECT_URI@),
                    ),
                    Some(u) => r matches AuthorizeStart::Resolve { client_id, redirect_uri, fetch }
                        && client_id.view() == c && redirect_uri.view() == u && fetch == !spec_is_loopback(c),
                },
            },
        },
{
    let q = match query {
        None => {
            return AuthorizeStart::Done(bad_request(MISSING_PARAMETERS));
        },
        Some(q) => q,
    };
    let client_id = match parse_profile_url(q.client_id.as_str()) {
        None => {
            return AuthorizeStart::Done(bad_request(INVALID_CLIENT_ID));
        },
        Some(c) => c,
    };
    let redirect_uri = match parse_profile_url(q.redirect_uri.as_str()) {
        None => {
            return AuthorizeStart::Done(bad_request(INVALID_REDIRECT_URI));
        },
        Some(u) => u,
    };
    let fetch = !is_loopback_client_id(&client_id);
    AuthorizeStart::Resolve { client_id, redirect_uri, fetch }
}

/// The error, if any, that the request's own parameters earn once its
/// redirect_uri is trusted: only the code flow, and only with an `S256`
/// PKCE challenge.
pub open spec fn spec_request_error(q: AuthorizeQuery) -> Option<Seq<char>> {
    if opt_text(q.response_type) != Some("code"@) {
        Some("unsupported_response_type"@)
    } else if q.code_challenge is None || q.code_challenge_method is None {
        Some("invalid_request"@)
    } else if opt_text(q.code_challenge_method) != Some("S256"@) {
        Some("invalid_request"@)
    } else {
        None
    }
}

/// PKCE is mandatory and S256 only: a request for a code passes its own
/// checks exactly when it carries a challenge and names the S256 method
/// explicitly; a code request without a challenge, without a method, or
/// with any other method (such as `plain`) is an `invalid_request`.
pub proof fn lemma_pkce_s256_required(q: AuthorizeQuery)
    ensures
        spec_request_error(q) is None <==> (opt_text(q.response_type) == Some("code"@) && q.code_challenge is Some
            && opt_text(q.code_challenge_method) == Some("S256"@)),
        opt_text(q.response_type) == Some("code"@) && q.code_challenge_method is None ==> spec_request_error(q)
            == Some("invalid_request"@),
        opt_text(q.response_type) == Some("code"@) && q.code_challenge is None ==> spec_request_error(q) == Some(
            "invalid_request"@,
        ),
        opt_text(q.response_type) == Some("code"@) && opt_text(q.code_challenge_method) != Some("S256"@)
            ==> spec_request_error(q) == Some("invalid_request"@),
        opt_text(q.response_type) != Some("code"@) ==> spec_request_error(q) == Some(
            "unsupported_response_type"@,
        ),
{
}

fn opt_str_eq(a: &Option<String>, b: &str) -> (r: bool)
    ensures
        r == (opt_text(*a) == Some(b@)),
{
    match a {
        Some(x) => str_eq(x.as_str(), b),
        None => false,
    }
}

fn str_refs(v: &Vec<String>) -> (r: Vec<&str>)
    ensures
        crate::html::str_views(r@) == crate::text::string_views(v@),
{
    let mut out: Vec<&str> = Vec::new();
    let mut i: usize = 0;
    while i < v.len()
        invariant
            i <= v@.len(),
            crate::html::str_views(out@) == crate::text::string_views(v@.take(i as int)),
        decreases v@.len() - i,
    {
        let ghost before = out@;
        out.push(v[i].as_str());
        proof {
            assert(v@.take(i + 1) == v@.take(i as int).push(v@[i as int]));
            assert(crate::html::str_views(out@) =~= crate::html::str_views(before).push(v@[i as int]@));
            assert(crate::text::string_views(v@.take(i + 1)) =~= crate::text::string_views(
                v@.take(i as int),
            ).push(v@[i as int]@));
        }
        i = i + 1;
    }
    proof {
        assert(v@.take(i as int) == v@);
    }
    out
}

/// Whether `p` holds the authorization request `q` for the owner `me`:
/// the client, redirect_uri, state, scope and PKCE challenge as the
/// client sent them, with the S256 method.
pub open spec fn held_request(p: PendingAuthorize, q: AuthorizeQuery, me: Seq<char>) -> bool {
    &&& p.client_id@ == q.client_id@
    &&& p.redirect_uri@ == q.redirect_uri@
    &&& opt_text(p.state) == opt_text(q.state)
    &&& p.scope@ == q.scope@
    &&& opt_text(q.code_challenge) == Some(p.code_challenge@)
    &&& p.code_challenge_method@ == "S256"@
    &&& p.me@ == me
}

/// Whether the owner session named by the request's owner cookie now
/// holds the request `q` as pending, with a fresh owner lifetime.
pub open spec fn request_held(
    headers: HeaderList,
    q: AuthorizeQuery,
    me: Seq<char>,
    before: Seq<SentStatement>,
    after: Seq<SentStatement>,
) -> bool {
    exists|p: PendingAuthorize|
        #[trigger] held_request(p, q, me) && owner_saved(
            spec_get_cookie(headers.pairs(), OWNER_COOKIE@)->0,
            Some(p),
            before,
            after,
        )
}

/// The second step of `GET`, once the client's metadata is known (empty
/// when it was not fetched or not accepted): the redirect_uri must be
/// registered for the client, else the request is refused without
/// redirecting, since redirecting to an unvalidated URI would be an open
/// redirect. Errors in the request's own parameters are then sent to the
/// redirect_uri; someone not signed in is sent to sign in first; and the
/// owner sees the consent page, the request being held in the owner's
/// session for the decision. Only that last answer stores anything.
pub fn get(
    store: &mut Store,
    q: &AuthorizeQuery,
    client_id: &ProfileUrl,
    redirect_uri: &ProfileUrl,
    metadata: &ClientMetadata,
    raw_query: Option<&str>,
    headers: &HeaderList,
    owner: &Option<SessionData>,
    owner_me: &str,
) -> (r: Result<Reply, Fatal>)
    ensures
        !spec_validate_redirect_uri(client_id.view(), redirect_uri.view(), metadata.uris()) ==> answers_html(
            r,
            STATUS_BAD_REQUEST,
            spec_error_page(UNREGISTERED_REDIRECT_URI@),
        ) && final(store).sent() == old(store).sent(),
        spec_validate_redirect_uri(client_id.view(), redirect_uri.view(), metadata.uris()) ==> match spec_request_error(*q) {
            Some(e) => (r matches Ok(reply) && is_error_redirect(reply, redirect_uri.view(), e, opt_text(q.state)))
                && final(store).sent() == old(store).sent(),
            None => if !owner_signed_in(*headers, *owner) {
                answers_redirect(r, spec_login_redirect(opt_str_view(raw_query)))
                    && final(store).sent() == old(store).sent()
            } else {
                match r {
                    Ok(reply) => reply.is_html(
                        STATUS_OK,
                        spec_consent_text(
                            q.client_id@,
                            opt_text(metadata.client_name),
                            q.redirect_uri@,
                            words(q.scope@),
                            owner_me@,
                        ),
                    ) && request_held(*headers, *q, owner_me@, old(store).sent(), final(store).sent()),
                    Err(e) => e == Fatal::Clock && is_expiry(OWNER_TTL_SECONDS as int, None)
                        && final(store).sent() == old(store).sent(),
                }
            },
        },
{
    if !validate_redirect_uri(client_id, redirect_uri, metadata) {
        return Ok(bad_request(UNREGISTERED_REDIRECT_URI));
    }
    if !opt_str_eq(&q.response_type, "code") {
        return Ok(error_redirect(redirect_uri, "unsupported_response_type", &q.state));
    }
    let (code_challenge, method) = match (&q.code_challenge, &q.code_challenge_method) {
        (Some(c), Some(m)) => (c, m),
        _ => {
            return Ok(error_redirect(redirect_uri, "invalid_request", &q.state));
        },
    };
    if !str_eq(method.as_str(), "S256") {
        return Ok(error_redirect(redirect_uri, "invalid_request", &q.state));
    }
    let session_id = match get_cookie(headers, OWNER_COOKIE) {
        None => {
            return Ok(redirect_to_login(raw_query));
        },
        Some(id) => id,
    };
    match owner {
        Some(SessionData::Owner { .. }) => {},
        _ => {
            return Ok(redirect_to_login(raw_query));
        },
    }
    let pending = PendingAuthorize {
        client_id: q.client_id.clone(),
        redirect_uri: q.redirect_uri.clone(),
        state: q.state.clone(),
        scope: q.scope.clone(),
        code_challenge: code_challenge.clone(),
        code_challenge_method: method.clone(),
        me: owner_me.to_owned(),
    };
    let ghost held = pending;
    proof {
        assert(held_request(held, *q, owner_me@));
    }
    update_owner_session(store, session_id.as_str(), &Some(pending))?;
    let scopes = split_whitespace(q.scope.as_str());
    let scope_refs = str_refs(&scopes);
    let client_name = match &metadata.client_name {
        Some(n) => Some(n.as_str()),
        None => None,
    };
    let page = consent_page(
        &ConsentClient {
            client_id: q.client_id.as_str(),
            client_name,
            redirect_uri: q.redirect_uri.as_str(),
            scopes: scope_refs.as_slice(),
            me: owner_me,
        },
    );
    Ok(html(STATUS_OK, page))
}

/// The owner's decision on the consent page.
pub struct Decision {
    pub decision: String,
}

/// The request held in an owner session, if any.
pub open spec fn pending_of(owner: Option<SessionData>) -> Option<PendingAuthorize> {
    match owner {
        Some(SessionData::Owner { pending_authorize }) => pending_authorize,
        _ => None,
    }
}

/// The pairs of a successful authorization response: the code, the
/// client's `state` when it sent one, and the issuer.
pub open spec fn code_pairs(code: Seq<char>, state: Option<Seq<char>>, issuer: Seq<char>) -> Seq<
    (Seq<char>, Seq<char>),
> {
    match state {
        Some(s) => seq![("code"@, code), ("state"@, s), ("iss"@, issuer)],
        None => seq![("code"@, code), ("iss"@, issuer)],
    }
}

/// A navigation (through the redirect page) to `u` with `pairs` appended,
/// or, when they do not fit, the invalid redirect_uri page.
pub open spec fn is_page_redirect(r: Reply, u: UrlView, pairs: Seq<(Seq<char>, Seq<char>)>) -> bool {
    match spec_with_pairs(u, pairs) {
        Some(url) => r.is_html(STATUS_OK, spec_redirect_page(url)) && has_prefix(url, u.before_query),
        None => r.is_html(STATUS_BAD_REQUEST, spec_error_page(INVALID_REDIRECT_URI@)),
    }
}

pub const NO_PENDING: &'static str = "No pending authorization request";

/// The answer once a new code was stored (`stored`) or could not be,
/// which abandons the request: the navigation to the client with the
/// code's response pairs.
pub open spec fn code_outcome(
    u: UrlView,
    pairs: Seq<(Seq<char>, Seq<char>)>,
    stored: bool,
    r: Result<Reply, Fatal>,
) -> bool {
    if stored {
        r matches Ok(reply) && is_page_redirect(reply, u, pairs)
    } else {
        r matches Err(e) && e == Fatal::StoreCode
    }
}

/// Sends the client the stored code `code` with the `state` it sent and
/// our issuer; nothing when the code could not be stored.
pub fn code_answer(
    redirect_uri: &ProfileUrl,
    code: &str,
    state: &Option<String>,
    issuer: &str,
    stored: bool,
) -> (r: Result<Reply, Fatal>)
    ensures
        code_outcome(redirect_uri.view(), code_pairs(code@, opt_text(*state), issuer@), stored, r),
{
    if !stored {
        return Err(Fatal::StoreCode);
    }
    let mut pairs: Vec<(String, String)> = Vec::new();
    pairs.push(pair("code", code));
    if let Some(s) = state {
        pairs.push(pair("state", s.as_str()));
    }
    pairs.push(pair("iss", issuer));
    proof {
        assert(pair_views(pairs@) =~= code_pairs(code@, opt_text(*state), issuer@));
    }
    Ok(
        match with_query_pairs(redirect_uri, &pairs) {
            Some(url) => redirect_via_js(url.as_str()),
            None => bad_request(INVALID_REDIRECT_URI),
        },
    )
}

pub const INVALID_BODY: &'static str = "Invalid request body";

/// Lifetime of an authorization code, in seconds: ten minutes.
pub const CODE_TTL_SECONDS: i64 = 600;

/// The row stored for the request `p` under `code`, expiring at `exp`
/// and created at the clock reading `now`.
pub open spec fn code_row_sent(p: PendingAuthorize, code: Seq<char>, exp: Seq<char>, now: Seq<char>) -> SentStatement {
    (
        INSERT_CODE_SQL@,
        None::<Seq<u8>>,
        seq![
            Some(code),
            Some(p.client_id@),
            Some(p.redirect_uri@),
            Some(p.me@),
            Some(p.scope@),
            Some(p.code_challenge@),
            Some(p.code_challenge_method@),
            opt_text(p.state),
            Some(now),
            Some(exp),
        ],
    )
}

/// What approving `p` with the code `code` and the code expiry `exp`
/// gives and hands SQLite after `before`: nothing and the clock error
/// when the expiry could not be written; else the code's row for `p`,
/// and the navigation to the client with the code when it was stored.
pub open spec fn code_issued(
    u: UrlView,
    p: PendingAuthorize,
    code: Seq<char>,
    issuer: Seq<char>,
    exp: Option<Seq<char>>,
    before: Seq<SentStatement>,
    after: Seq<SentStatement>,
    r: Result<Reply, Fatal>,
) -> bool {
    match exp {
        None => r == Err::<Reply, Fatal>(Fatal::Clock) && after == before,
        Some(e) => {
            &&& code_outcome(u, code_pairs(code, opt_text(p.state), issuer), r is Ok, r)
            &&& if r is Ok {
                exists|now: Seq<char>|
                    #[trigger] is_clock_reading(now) && after == before.push(code_row_sent(p, code, e, now))
            } else {
                after == before || exists|now: Seq<char>|
                    #[trigger] is_clock_reading(now) && after == before.push(code_row_sent(p, code, e, now))
            }
        },
    }
}

/// Approves the pending request `p`: stores the code `code` for it,
/// expiring at `expires_at` (the clock's reading ten minutes from now,
/// `None` when RFC 3339 could not write it), and sends the client to `u`
/// with the code, the state it sent and our issuer.
pub fn issue_code(
    store: &mut Store,
    u: &ProfileUrl,
    p: &PendingAuthorize,
    issuer: &str,
    code: &str,
    expires_at: Option<String>,
) -> (r: Result<Reply, Fatal>)
    ensures
        code_issued(u.view(), *p, code@, issuer@, opt_text(expires_at), old(store).sent(), final(store).sent(), r),
{
    let expires_at = match expires_at {
        Some(t) => t,
        None => {
            return Err(Fatal::Clock);
        },
    };
    let state = match &p.state {
        Some(s) => Some(s.as_str()),
        None => None,
    };
    let c = NewCode {
        code,
        client_id: p.client_id.as_str(),
        redirect_uri: p.redirect_uri.as_str(),
        me: p.me.as_str(),
        scope: p.scope.as_str(),
        code_challenge: p.code_challenge.as_str(),
        code_challenge_method: p.code_challenge_method.as_str(),
        state,
        expires_at: expires_at.as_str(),
    };
    proof {
        assert forall|now: Seq<char>| insert_code_params(c, now) == #[trigger] code_row_sent(
            *p,
            code@,
            expires_at@,
            now,
        ).2 by {
            assert(insert_code_params(c, now) =~= code_row_sent(*p, code@, expires_at@, now).2);
        }
    }
    let stored = insert_code(store, c);
    code_answer(u, code, &p.state, issuer, stored.is_ok())
}

/// What the owner's decision `decision` on the pending request `p` gives
/// and hands SQLite, once the pending request was cleared (`before`): an
/// unusable redirect_uri is refused; a denial sends `access_denied` to
/// the client and stores nothing more; an approval issues a fresh random
/// code for `p`.
pub open spec fn decided(
    p: PendingAuthorize,
    decision: Seq<char>,
    issuer: Seq<char>,
    before: Seq<SentStatement>,
    after: Seq<SentStatement>,
    r: Result<Reply, Fatal>,
) -> bool {
    match spec_parse_profile_url(p.redirect_uri@) {
        None => answers_html(r, STATUS_BAD_REQUEST, spec_error_page(INVALID_REDIRECT_URI@)) && after == before,
        Some(u) => if decision != "approve"@ {
            (r matches Ok(reply) && is_page_redirect(reply, u, error_pairs("access_denied"@, opt_text(p.state))))
                && after == before
        } else {
            exists|code: Seq<char>, exp: Option<Seq<char>>|
                is_random_token(code) && is_expiry(CODE_TTL_SECONDS as int, exp) && #[trigger] code_issued(
                    u,
                    p,
                    code,
                    issuer,
                    exp,
                    before,
                    after,
                    r,
                )
        },
    }
}

/// The code issued on approval carries exactly the request that `GET`
/// held: the client, redirect_uri, scope, S256 challenge and state the
/// client sent, for the owner.
pub proof fn lemma_code_answers_held_request(
    p: PendingAuthorize,
    q: AuthorizeQuery,
    me: Seq<char>,
    code: Seq<char>,
    exp: Seq<char>,
    now: Seq<char>,
)
    requires
        held_request(p, q, me),
    ensures
        code_row_sent(p, code, exp, now) == (
            INSERT_CODE_SQL@,
            None::<Seq<u8>>,
            seq![
                Some(code),
                Some(q.client_id@),
                Some(q.redirect_uri@),
                Some(me),
                Some(q.scope@),
                opt_text(q.code_challenge),
                Some("S256"@),
                opt_text(q.state),
                Some(now),
                Some(exp),
            ],
        ),
{
    assert(code_row_sent(p, code, exp, now).2 =~= seq![
        Some(code),
        Some(q.client_id@),
        Some(q.redirect_uri@),
        Some(me),
        Some(q.scope@),
        opt_text(q.code_challenge),
        Some("S256"@),
        opt_text(q.state),
        Some(now),
        Some(exp),
    ]);
}

/// `POST /auth/authorize`: the owner's decision on the request held in
/// their session. The request must be same-site and signed in, with a
/// request pending, else nothing is stored; the pending request is then
/// cleared whatever the decision (it is single-use). A denial sends
/// `access_denied` to the client; an approval stores a fresh random code
/// (valid ten minutes) for the request and sends it with the state and
/// issuer. Both navigate through the redirect page, since the site's
/// `form-action` policy forbids a cross-origin redirect from the form
/// post.
pub fn post(
    store: &mut Store,
    method: crate::headers::HttpMethod,
    headers: &HeaderList,
    rp_origin: &str,
    issuer: &str,
    owner: Option<SessionData>,
    body: Submitted<Decision>,
) -> (r: Result<Reply, Fatal>)
    ensures
        !spec_is_same_site(method, headers.pairs(), rp_origin@) ==> answers_html(
            r,
            STATUS_FORBIDDEN,
            spec_error_page(CROSS_SITE@),
        ) && final(store).sent() == old(store).sent(),
        spec_is_same_site(method, headers.pairs(), rp_origin@) ==> if spec_get_cookie(
            headers.pairs(),
            OWNER_COOKIE@,
        ) is None {
            answers_html(r, STATUS_FORBIDDEN, spec_error_page(NOT_SIGNED_IN@)) && final(store).sent() == old(
                store,
            ).sent()
        } else {
            match pending_of(owner) {
                None => answers_html(r, STATUS_BAD_REQUEST, spec_error_page(NO_PENDING@)) && final(store).sent()
                    == old(store).sent(),
                Some(p) => match body {
                    Submitted::Parsed(d) => (r == Err::<Reply, Fatal>(Fatal::Clock) && is_expiry(
                        OWNER_TTL_SECONDS as int,
                        None,
                    ) && final(store).sent() == old(store).sent()) || exists|mid: Seq<SentStatement>|
                        #[trigger] owner_saved(
                            spec_get_cookie(headers.pairs(), OWNER_COOKIE@)->0,
                            None,
                            old(store).sent(),
                            mid,
                        ) && decided(p, d.decision@, issuer@, mid, final(store).sent(), r),
                    _ => answers_html(r, STATUS_BAD_REQUEST, spec_error_page(INVALID_BODY@)) && final(store).sent()
                        == old(store).sent(),
                },
            }
        },
{
    if !is_same_site(&method, headers, rp_origin) {
        return Ok(forbidden(CROSS_SITE));
    }
    let session_id = match get_cookie(headers, OWNER_COOKIE) {
        None => {
            return Ok(forbidden(NOT_SIGNED_IN));
        },
        Some(id) => id,
    };
    let pending = match owner {
        Some(SessionData::Owner { pending_authorize: Some(p) }) => p,
        _ => {
            return Ok(bad_request(NO_PENDING));
        },
    };
    let decision = match body {
        Submitted::Parsed(d) => d,
        _ => {
            return Ok(bad_request(INVALID_BODY));
        },
    };
    update_owner_session(store, session_id.as_str(), &None)?;
    let ghost mid = store.sent();
    proof {
        assert(owner_saved(spec_get_cookie(headers.pairs(), OWNER_COOKIE@)->0, None, old(store).sent(), mid));
    }
    let redirect_uri = match parse_profile_url(pending.redirect_uri.as_str()) {
        None => {
            let r = Ok(bad_request(INVALID_REDIRECT_URI));
            proof {
                assert(decided(pending, decision.decision@, issuer@, mid, store.sent(), r));
            }
            return r;
        },
        Some(u) => u,
    };
    if !str_eq(decision.decision.as_str(), "approve") {
        let st = match &pending.state {
            Some(s) => Some(s.as_str()),
            None => None,
        };
        let r = Ok(
            match error_redirect_url(&redirect_uri, "access_denied", st) {
                Some(url) => redirect_via_js(url.as_str()),
                None => bad_request(INVALID_REDIRECT_URI),
            },
        );
        proof {
            assert(decided(pending, decision.decision@, issuer@, mid, store.sent(), r));
        }
        return r;
    }
    let code = random_token(32);
    let expires_at = rfc3339_after(CODE_TTL_SECONDS);
    proof {
        assert(is_random_token(code@));
        assert(is_expiry(CODE_TTL_SECONDS as int, opt_text(expires_at)));
    }
    let r = issue_code(store, &redirect_uri, &pending, issuer, code.as_str(), expires_at);
    proof {
        assert(code_issued(
            redirect_uri.view(),
            pending,
            code@,
            issuer@,
            opt_text(expires_at),
            mid,
            store.sent(),
            r,
        ));
    }
    r
}

} // verus!
