//! Replies. Routing is a hand-written match, so handlers build their reply
//! with these helpers; the serving layer turns a `Reply` into an HTTP
//! response.

use vstd::prelude::*;
use crate::html::{error_page, redirect_page, spec_error_page, spec_redirect_page};
use crate::json::{JsonObject, JsonView, json_str};

verus! {

/// The body of a reply.
pub enum ReplyBody {
    Empty,
    Text(String),
    Json(JsonObject),
}

/// An HTTP reply: status code, headers (lower-case names, in order) and
/// body.
pub struct Reply {
    pub status: u16,
    pub headers: Vec<(String, String)>,
    pub body: ReplyBody,
}

pub const STATUS_OK: u16 = 200;

pub const STATUS_FOUND: u16 = 302;

pub const STATUS_BAD_REQUEST: u16 = 400;

pub const STATUS_FORBIDDEN: u16 = 403;

pub const STATUS_NOT_FOUND: u16 = 404;

pub const CONTENT_TYPE: &'static str = "content-type";

pub const CACHE_CONTROL: &'static str = "cache-control";

pub const LOCATION: &'static str = "location";

pub const SET_COOKIE: &'static str = "set-cookie";

pub const HTML_TYPE: &'static str = "text/html; charset=utf-8";

pub const JAVASCRIPT_TYPE: &'static str = "text/javascript; charset=utf-8";

pub const JSON_TYPE: &'static str = "application/json";

pub const PUBLIC_CACHE: &'static str = "public, max-age=3600";

pub const NO_STORE: &'static str = "no-store";

impl Reply {
    /// The headers as plain values.
    pub open spec fn header_pairs(&self) -> Seq<(Seq<char>, Seq<char>)> {
        self.headers@.map_values(|h: (String, String)| (h.0@, h.1@))
    }

    /// The text body, if the body is text.
    pub open spec fn text(&self) -> Option<Seq<char>> {
        match self.body {
            ReplyBody::Text(s) => Some(s@),
            _ => None,
        }
    }

    /// Whether this is an HTML reply with the given status and page.
    pub open spec fn is_html(&self, status: u16, page: Seq<char>) -> bool {
        &&& self.status == status
        &&& self.header_pairs() == seq![(CONTENT_TYPE@, HTML_TYPE@)]
        &&& self.text() == Some(page)
    }

    /// Whether this is a `302 Found` to `location` with the given extra
    /// headers after the location.
    pub open spec fn is_redirect_with(&self, location: Seq<char>, extra: Seq<(Seq<char>, Seq<char>)>) -> bool {
        &&& self.status == STATUS_FOUND
        &&& self.header_pairs() == seq![(LOCATION@, location)] + extra
        &&& self.body is Empty
    }

    /// Whether this is a plain `302 Found` to `location`.
    pub open spec fn is_redirect(&self, location: Seq<char>) -> bool {
        self.is_redirect_with(location, Seq::empty())
    }

    /// The JSON body's members, if the body is JSON.
    pub open spec fn json_members(&self) -> Option<Seq<(Seq<char>, JsonView)>> {
        match self.body {
            ReplyBody::Json(o) => Some(o.view()),
            _ => None,
        }
    }

    /// Whether this is an uncached JSON reply with the given status and
    /// members.
    pub open spec fn is_json(&self, status: u16, members: Seq<(Seq<char>, JsonView)>) -> bool {
        &&& self.status == status
        &&& self.header_pairs() == seq![(CONTENT_TYPE@, JSON_TYPE@), (CACHE_CONTROL@, NO_STORE@)]
        &&& self.json_members() == Some(members)
    }
}

fn header(name: &str, value: &str) -> (r: (String, String))
    ensures
        r.0@ == name@,
        r.1@ == value@,
{
    (name.to_owned(), value.to_owned())
}

/// An HTML reply.
pub fn html(status: u16, body: String) -> (r: Reply)
    ensures
        r.is_html(status, body@),
{
    let mut headers = Vec::new();
    headers.push(header(CONTENT_TYPE, HTML_TYPE));
    let r = Reply { status, headers, body: ReplyBody::Text(body) };
    proof {
        assert(r.header_pairs() =~= seq![(CONTENT_TYPE@, HTML_TYPE@)]);
    }
    r
}

/// A compiled-in script, served with a JavaScript MIME type (required by
/// sites that send `X-Content-Type-Options: nosniff`) and cacheable.
pub fn javascript(body: &'static str) -> (r: Reply)
    ensures
        r.status == STATUS_OK,
        r.header_pairs() == seq![(CONTENT_TYPE@, JAVASCRIPT_TYPE@), (CACHE_CONTROL@, PUBLIC_CACHE@)],
        r.text() == Some(body@),
{
    let mut headers = Vec::new();
    headers.push(header(CONTENT_TYPE, JAVASCRIPT_TYPE));
    headers.push(header(CACHE_CONTROL, PUBLIC_CACHE));
    let r = Reply { status: STATUS_OK, headers, body: ReplyBody::Text(body.to_owned()) };
    proof {
        assert(r.header_pairs() =~= seq![(CONTENT_TYPE@, JAVASCRIPT_TYPE@), (CACHE_CONTROL@, PUBLIC_CACHE@)]);
    }
    r
}

/// A JSON reply, never cached.
pub fn json(status: u16, value: JsonObject) -> (r: Reply)
    ensures
        r.is_json(status, value.view()),
{
    let mut headers = Vec::new();
    headers.push(header(CONTENT_TYPE, JSON_TYPE));
    headers.push(header(CACHE_CONTROL, NO_STORE));
    let r = Reply { status, headers, body: ReplyBody::Json(value) };
    proof {
        assert(r.header_pairs() =~= seq![(CONTENT_TYPE@, JSON_TYPE@), (CACHE_CONTROL@, NO_STORE@)]);
    }
    r
}

/// Navigates to `location` through a same-origin page and script rather
/// than a 3xx, for replies to the consent form.
pub fn redirect_via_js(location: &str) -> (r: Reply)
    ensures
        r.is_html(STATUS_OK, spec_redirect_page(location@)),
{
    html(STATUS_OK, redirect_page(location))
}

/// `302 Found` to `location`. Callers pass only a redirect target that was
/// already validated; this function does not itself guard against open
/// redirects.
pub fn redirect(location: &str) -> (r: Reply)
    ensures
        r.is_redirect(location@),
{
    let mut headers = Vec::new();
    headers.push(header(LOCATION, location));
    let r = Reply { status: STATUS_FOUND, headers, body: ReplyBody::Empty };
    proof {
        assert(r.header_pairs() =~= seq![(LOCATION@, location@)] + Seq::empty());
    }
    r
}

/// `302 Found` to `location`, setting a cookie.
pub fn redirect_with_cookie(location: &str, set_cookie: &str) -> (r: Reply)
    ensures
        r.is_redirect_with(location@, seq![(SET_COOKIE@, set_cookie@)]),
{
    let mut headers = Vec::new();
    headers.push(header(LOCATION, location));
    headers.push(header(SET_COOKIE, set_cookie));
    let r = Reply { status: STATUS_FOUND, headers, body: ReplyBody::Empty };
    proof {
        assert(r.header_pairs() =~= seq![(LOCATION@, location@)] + seq![(SET_COOKIE@, set_cookie@)]);
    }
    r
}

pub const NOT_FOUND_MESSAGE: &'static str = "Not found";

/// `404` with an error page.
pub fn not_found() -> (r: Reply)
    ensures
        r.is_html(STATUS_NOT_FOUND, spec_error_page(NOT_FOUND_MESSAGE@)),
{
    html(STATUS_NOT_FOUND, error_page(NOT_FOUND_MESSAGE))
}

/// `400` with an error page showing `msg`.
pub fn bad_request(msg: &str) -> (r: Reply)
    ensures
        r.is_html(STATUS_BAD_REQUEST, spec_error_page(msg@)),
{
    html(STATUS_BAD_REQUEST, error_page(msg))
}

/// `403` with an error page showing `msg`.
pub fn forbidden(msg: &str) -> (r: Reply)
    ensures
        r.is_html(STATUS_FORBIDDEN, spec_error_page(msg@)),
{
    html(STATUS_FORBIDDEN, error_page(msg))
}

/// A JSON error reply `{"error": error}`.
pub fn json_error(status: u16, error: &str) -> (r: Reply)
    ensures
        r.is_json(status, seq![("error"@, JsonView::Str(error@))]),
{
    let mut o = JsonObject::new();
    o.put("error", json_str(error));
    json(status, o)
}

} // verus!
