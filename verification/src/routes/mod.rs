//! The endpoints. Routing is a hand-written match on method and path; each
//! handler takes what the serving layer read from the request (method,
//! headers, the parsed form, the session stored under the request's
//! cookie) and runs its decisions and database work here.

pub mod authorize;
pub mod credentials;
pub mod introspection;
pub mod login;
pub mod metadata;
pub mod revocation;
pub mod token;

use vstd::prelude::*;
use crate::error::Reply;
use crate::headers::{HeaderList, HttpMethod};
use crate::session::{OWNER_COOKIE, SessionData, get_cookie, spec_get_cookie};
use crate::text::str_eq;

verus! {

/// Where a request goes.
#[derive(PartialEq, Eq, Structural, Clone, Copy)]
pub enum Route {
    Metadata,
    CommonScript,
    RegisterScript,
    LoginScript,
    RedirectScript,
    RegisterPage,
    RegisterFinish,
    LoginPage,
    LoginFinish,
    Logout,
    CredentialsPage,
    CredentialsDelete,
    CredentialsRename,
    AuthorizeGet,
    AuthorizePost,
    Token,
    Introspection,
    Revocation,
    NotFound,
}

/// The routing table.
pub open spec fn spec_route(method: HttpMethod, path: Seq<char>) -> Route {
    if method == HttpMethod::Get {
        if path == "/.well-known/oauth-authorization-server"@ {
            Route::Metadata
        } else if path == "/auth/static/webauthn-common.js"@ {
            Route::CommonScript
        } else if path == "/auth/static/register.js"@ {
            Route::RegisterScript
        } else if path == "/auth/static/login.js"@ {
            Route::LoginScript
        } else if path == "/auth/static/redirect.js"@ {
            Route::RedirectScript
        } else if path == "/auth/register"@ {
            Route::RegisterPage
        } else if path == "/auth/login"@ {
            Route::LoginPage
        } else if path == "/auth/credentials"@ {
            Route::CredentialsPage
        } else if path == "/auth/authorize"@ {
            Route::AuthorizeGet
        } else {
            Route::NotFound
        }
    } else if method == HttpMethod::Post {
        if path == "/auth/register/finish"@ {
            Route::RegisterFinish
        } else if path == "/auth/login/finish"@ {
            Route::LoginFinish
        } else if path == "/auth/logout"@ {
            Route::Logout
        } else if path == "/auth/credentials/delete"@ {
            Route::CredentialsDelete
        } else if path == "/auth/credentials/rename"@ {
            Route::CredentialsRename
        } else if path == "/auth/authorize"@ {
            Route::AuthorizePost
        } else if path == "/auth/token"@ {
            Route::Token
        } else if path == "/auth/introspection"@ {
            Route::Introspection
        } else if path == "/auth/revocation"@ {
            Route::Revocation
        } else {
            Route::NotFound
        }
    } else {
        Route::NotFound
    }
}

/// The method and path each endpoint serves, as the endpoint table lists
/// them: the token endpoint on `POST /auth/token`, introspection on `POST
/// /auth/introspection`, revocation on `POST /auth/revocation`, and so on.
pub open spec fn endpoint(route: Route) -> (HttpMethod, Seq<char>) {
    match route {
        Route::Metadata => (HttpMethod::Get, "/.well-known/oauth-authorization-server"@),
        Route::CommonScript => (HttpMethod::Get, "/auth/static/webauthn-common.js"@),
        Route::RegisterScript => (HttpMethod::Get, "/auth/static/register.js"@),
        Route::LoginScript => (HttpMethod::Get, "/auth/static/login.js"@),
        Route::RedirectScript => (HttpMethod::Get, "/auth/static/redirect.js"@),
        Route::RegisterPage => (HttpMethod::Get, "/auth/register"@),
        Route::LoginPage => (HttpMethod::Get, "/auth/login"@),
        Route::CredentialsPage => (HttpMethod::Get, "/auth/credentials"@),
        Route::AuthorizeGet => (HttpMethod::Get, "/auth/authorize"@),
        Route::RegisterFinish => (HttpMethod::Post, "/auth/register/finish"@),
        Route::LoginFinish => (HttpMethod::Post, "/auth/login/finish"@),
        Route::Logout => (HttpMethod::Post, "/auth/logout"@),
        Route::CredentialsDelete => (HttpMethod::Post, "/auth/credentials/delete"@),
        Route::CredentialsRename => (HttpMethod::Post, "/auth/credentials/rename"@),
        Route::AuthorizePost => (HttpMethod::Post, "/auth/authorize"@),
        Route::Token => (HttpMethod::Post, "/auth/token"@),
        Route::Introspection => (HttpMethod::Post, "/auth/introspection"@),
        Route::Revocation => (HttpMethod::Post, "/auth/revocation"@),
        Route::NotFound => (HttpMethod::Other, Seq::<char>::empty()),
    }
}

/// Routing sends a request only to the endpoint that serves its method and
/// path: whatever it finds for (`method`, `path`) is listed under exactly
/// that method and path, so no two requests that differ in either reach
/// the same endpoint.
pub proof fn lemma_route_serves_its_endpoint(method: HttpMethod, path: Seq<char>)
    ensures
        spec_route(method, path) != Route::NotFound ==> endpoint(spec_route(method, path)) == (method, path),
{
}

/// Every endpoint is reached by its own method and path.
pub proof fn lemma_endpoint_is_routed(route: Route)
    requires
        route != Route::NotFound,
    ensures
        spec_route(endpoint(route).0, endpoint(route).1) == route,
{
    reveal_strlit("/.well-known/oauth-authorization-server");
    reveal_strlit("/auth/authorize");
    reveal_strlit("/auth/credentials");
    reveal_strlit("/auth/credentials/delete");
    reveal_strlit("/auth/credentials/rename");
    reveal_strlit("/auth/introspection");
    reveal_strlit("/auth/login");
    reveal_strlit("/auth/login/finish");
    reveal_strlit("/auth/logout");
    reveal_strlit("/auth/register");
    reveal_strlit("/auth/register/finish");
    reveal_strlit("/auth/revocation");
    reveal_strlit("/auth/static/login.js");
    reveal_strlit("/auth/static/redirect.js");
    reveal_strlit("/auth/static/register.js");
    reveal_strlit("/auth/static/webauthn-common.js");
    reveal_strlit("/auth/token");
    assert("/auth/static/webauthn-common.js"@.len() != "/.well-known/oauth-authorization-server"@.len());
    assert("/auth/static/register.js"@.len() != "/.well-known/oauth-authorization-server"@.len());
    assert("/auth/static/register.js"@.len() != "/auth/static/webauthn-common.js"@.len());
    assert("/auth/static/login.js"@.len() != "/.well-known/oauth-authorization-server"@.len());
    assert("/auth/static/login.js"@.len() != "/auth/static/webauthn-common.js"@.len());
    assert("/auth/static/login.js"@.len() != "/auth/static/register.js"@.len());
    assert("/auth/static/redirect.js"@.len() != "/.well-known/oauth-authorization-server"@.len());
    assert("/auth/static/redirect.js"@.len() != "/auth/static/webauthn-common.js"@.len());
    assert("/auth/static/redirect.js"@[15] != "/auth/static/register.js"@[15]);
    assert("/auth/static/redirect.js"@.len() != "/auth/static/login.js"@.len());
    assert("/auth/register"@.len() != "/.well-known/oauth-authorization-server"@.len());
    assert("/auth/register"@.len() != "/auth/static/webauthn-common.js"@.len());
    assert("/auth/register"@.len() != "/auth/static/register.js"@.len());
    assert("/auth/register"@.len() != "/auth/static/login.js"@.len());
    assert("/auth/register"@.len() != "/auth/static/redirect.js"@.len());
    assert("/auth/login"@.len() != "/.well-known/oauth-authorization-server"@.len());
    assert("/auth/login"@.len() != "/auth/static/webauthn-common.js"@.len());
    assert("/auth/login"@.len() != "/auth/static/register.js"@.len());
    assert("/auth/login"@.len() != "/auth/static/login.js"@.len());
    assert("/auth/login"@.len() != "/auth/static/redirect.js"@.len());
    assert("/auth/login"@.len() != "/auth/register"@.len());
    assert("/auth/credentials"@.len() != "/.well-known/oauth-authorization-server"@.len());
    assert("/auth/credentials"@.len() != "/auth/static/webauthn-common.js"@.len());
    assert("/auth/credentials"@.len() != "/auth/static/register.js"@.len());
    assert("/auth/credentials"@.len() != "/auth/static/login.js"@.len());
    assert("/auth/credentials"@.len() != "/auth/static/redirect.js"@.len());
    assert("/auth/credentials"@.len() != "/auth/register"@.len());
    assert("/auth/credentials"@.len() != "/auth/login"@.len());
    assert("/auth/authorize"@.len() != "/.well-known/oauth-authorization-server"@.len());
    assert("/auth/authorize"@.len() != "/auth/static/webauthn-common.js"@.len());
    assert("/auth/authorize"@.len() != "/auth/static/register.js"@.len());
    assert("/auth/authorize"@.len() != "/auth/static/login.js"@.len());
    assert("/auth/authorize"@.len() != "/auth/static/redirect.js"@.len());
    assert("/auth/authorize"@.len() != "/auth/register"@.len());
    assert("/auth/authorize"@.len() != "/auth/login"@.len());
    assert("/auth/authorize"@.len() != "/auth/credentials"@.len());
    assert("/auth/login/finish"@.len() != "/auth/register/finish"@.len());
    assert("/auth/logout"@.len() != "/auth/register/finish"@.len());
    assert("/auth/logout"@.len() != "/auth/login/finish"@.len());
    assert("/auth/credentials/delete"@.len() != "/auth/register/finish"@.len());
    assert("/auth/credentials/delete"@.len() != "/auth/login/finish"@.len());
    assert("/auth/credentials/delete"@.len() != "/auth/logout"@.len());
    assert("/auth/credentials/rename"@.len() != "/auth/register/finish"@.len());
    assert("/auth/credentials/rename"@.len() != "/auth/login/finish"@.len());
    assert("/auth/credentials/rename"@.len() != "/auth/logout"@.len());
    assert("/auth/credentials/rename"@[18] != "/auth/credentials/delete"@[18]);
    assert("/auth/authorize"@.len() != "/auth/register/finish"@.len());
    assert("/auth/authorize"@.len() != "/auth/login/finish"@.len());
    assert("/auth/authorize"@.len() != "/auth/logout"@.len());
    assert("/auth/authorize"@.len() != "/auth/credentials/delete"@.len());
    assert("/auth/authorize"@.len() != "/auth/credentials/rename"@.len());
    assert("/auth/token"@.len() != "/auth/register/finish"@.len());
    assert("/auth/token"@.len() != "/auth/login/finish"@.len());
    assert("/auth/token"@.len() != "/auth/logout"@.len());
    assert("/auth/token"@.len() != "/auth/credentials/delete"@.len());
    assert("/auth/token"@.len() != "/auth/credentials/rename"@.len());
    assert("/auth/token"@.len() != "/auth/authorize"@.len());
    assert("/auth/introspection"@.len() != "/auth/register/finish"@.len());
    assert("/auth/introspection"@.len() != "/auth/login/finish"@.len());
    assert("/auth/introspection"@.len() != "/auth/logout"@.len());
    assert("/auth/introspection"@.len() != "/auth/credentials/delete"@.len());
    assert("/auth/introspection"@.len() != "/auth/credentials/rename"@.len());
    assert("/auth/introspection"@.len() != "/auth/authorize"@.len());
    assert("/auth/introspection"@.len() != "/auth/token"@.len());
    assert("/auth/revocation"@.len() != "/auth/register/finish"@.len());
    assert("/auth/revocation"@.len() != "/auth/login/finish"@.len());
    assert("/auth/revocation"@.len() != "/auth/logout"@.len());
    assert("/auth/revocation"@.len() != "/auth/credentials/delete"@.len());
    assert("/auth/revocation"@.len() != "/auth/credentials/rename"@.len());
    assert("/auth/revocation"@.len() != "/auth/authorize"@.len());
    assert("/auth/revocation"@.len() != "/auth/token"@.len());
    assert("/auth/revocation"@.len() != "/auth/introspection"@.len());
}

/// The endpoint for a request's method and path; anything else is not
/// found.
pub fn dispatch(method: HttpMethod, path: &str) -> (r: Route)
    ensures
        r == spec_route(method, path@),
{
    if method == HttpMethod::Get {
        if str_eq(path, "/.well-known/oauth-authorization-server") {
            Route::Metadata
        } else if str_eq(path, "/auth/static/webauthn-common.js") {
            Route::CommonScript
        } else if str_eq(path, "/auth/static/register.js") {
            Route::RegisterScript
        } else if str_eq(path, "/auth/static/login.js") {
            Route::LoginScript
        } else if str_eq(path, "/auth/static/redirect.js") {
            Route::RedirectScript
        } else if str_eq(path, "/auth/register") {
            Route::RegisterPage
        } else if str_eq(path, "/auth/login") {
            Route::LoginPage
        } else if str_eq(path, "/auth/credentials") {
            Route::CredentialsPage
        } else if str_eq(path, "/auth/authorize") {
            Route::AuthorizeGet
        } else {
            Route::NotFound
        }
    } else if method == HttpMethod::Post {
        if str_eq(path, "/auth/register/finish") {
            Route::RegisterFinish
        } else if str_eq(path, "/auth/login/finish") {
            Route::LoginFinish
        } else if str_eq(path, "/auth/logout") {
            Route::Logout
        } else if str_eq(path, "/auth/credentials/delete") {
            Route::CredentialsDelete
        } else if str_eq(path, "/auth/credentials/rename") {
            Route::CredentialsRename
        } else if str_eq(path, "/auth/authorize") {
            Route::AuthorizePost
        } else if str_eq(path, "/auth/token") {
            Route::Token
        } else if str_eq(path, "/auth/introspection") {
            Route::Introspection
        } else if str_eq(path, "/auth/revocation") {
            Route::Revocation
        } else {
            Route::NotFound
        }
    } else {
        Route::NotFound
    }
}

/// A request body as the serving layer read it: too large or broken off,
/// present but not the expected form, or parsed.
pub enum Submitted<T> {
    Unreadable,
    Malformed,
    Parsed(T),
}

/// Why a request is abandoned without a reply: a step the server cannot
/// go on without failed. The serving layer aborts the request with the
/// message.
#[derive(PartialEq, Eq, Structural, Clone, Copy)]
pub enum Fatal {
    /// The clock read a year outside 0 to 9999.
    Clock,
    /// A new session could not be stored.
    CreateSession,
    /// A new authorization code could not be stored.
    StoreCode,
    /// A new access token could not be stored.
    StoreToken,
    /// webauthn-rs could not start a registration.
    StartRegistration,
    /// A value that always serialises did not.
    Serialize,
    /// Session data that always serialises did not.
    SerializeSession,
}

impl Fatal {
    /// The message the request is aborted with.
    pub fn message(&self) -> (r: &'static str)
        ensures
            *self == Fatal::Clock ==> r@ == "valid timestamp"@,
            *self == Fatal::CreateSession ==> r@ == "failed to create session"@,
            *self == Fatal::StoreCode ==> r@ == "failed to store authorization code"@,
            *self == Fatal::StoreToken ==> r@ == "failed to store access token"@,
            *self == Fatal::StartRegistration ==> r@ == "failed to start webauthn registration"@,
            *self == Fatal::Serialize ==> r@ == "always serializes"@,
            *self == Fatal::SerializeSession ==> r@ == "session data always serializes"@,
    {
        match self {
            Fatal::Clock => "valid timestamp",
            Fatal::CreateSession => "failed to create session",
            Fatal::StoreCode => "failed to store authorization code",
            Fatal::StoreToken => "failed to store access token",
            Fatal::StartRegistration => "failed to start webauthn registration",
            Fatal::Serialize => "always serializes",
            Fatal::SerializeSession => "session data always serializes",
        }
    }
}

pub const CROSS_SITE: &'static str = "Cross-site request rejected";

pub const NOT_SIGNED_IN: &'static str = "Not signed in";

/// Whether the request comes from the signed-in owner: it carries the
/// owner cookie and the session stored under it is an owner session.
pub open spec fn owner_signed_in(headers: HeaderList, owner: Option<SessionData>) -> bool {
    spec_get_cookie(headers.pairs(), OWNER_COOKIE@) is Some && owner matches Some(SessionData::Owner { .. })
}

/// Whether the request comes from the signed-in owner, given the session
/// stored under its owner cookie.
pub fn signed_in(headers: &HeaderList, owner: &Option<SessionData>) -> (r: bool)
    ensures
        r == owner_signed_in(*headers, *owner),
{
    if get_cookie(headers, OWNER_COOKIE).is_none() {
        return false;
    }
    match owner {
        Some(SessionData::Owner { .. }) => true,
        _ => false,
    }
}

/// Whether a handler answered with the HTML page `page` and `status`.
pub open spec fn answers_html(r: Result<Reply, Fatal>, status: u16, page: Seq<char>) -> bool {
    r matches Ok(reply) && reply.is_html(status, page)
}

/// Whether a handler answered with a plain `302 Found` to `location`.
pub open spec fn answers_redirect(r: Result<Reply, Fatal>, location: Seq<char>) -> bool {
    r matches Ok(reply) && reply.is_redirect(location)
}

/// The `Set-Cookie` header that `append_cookie` adds for `cookie`: one,
/// when the value is a valid header value.
pub open spec fn cookie_headers(cookie: Seq<char>) -> Seq<(Seq<char>, Seq<char>)> {
    if is_header_value(cookie) {
        seq![(crate::error::SET_COOKIE@, cookie)]
    } else {
        Seq::empty()
    }
}

/// An HTML page with `status` that also sets `cookie`.
pub open spec fn is_html_with_cookie(reply: Reply, status: u16, page: Seq<char>, cookie: Seq<char>) -> bool {
    &&& reply.status == status
    &&& reply.header_pairs() == seq![(crate::error::CONTENT_TYPE@, crate::error::HTML_TYPE@)] + cookie_headers(cookie)
    &&& reply.text() == Some(page)
}

/// A `302 Found` to `location` that also sets `cookie`.
pub open spec fn is_redirect_with_cookie(reply: Reply, location: Seq<char>, cookie: Seq<char>) -> bool {
    reply.is_redirect_with(location, cookie_headers(cookie))
}

/// A character that `HeaderValue::from_str` accepts in a header value:
/// every UTF-8 byte of it is a tab or at least a space and not DEL, which
/// for a character means exactly this.
pub open spec fn is_header_value_char(c: char) -> bool {
    c == '\t' || (' ' <= c && c != '\u{7f}')
}

/// Whether text parses as an `http::HeaderValue`.
pub open spec fn is_header_value(s: Seq<char>) -> bool {
    forall|k: int| 0 <= k < s.len() ==> is_header_value_char(#[trigger] s[k])
}

/// Whether `s` may be sent as a header value.
pub fn header_value_ok(s: &str) -> (r: bool)
    ensures
        r == is_header_value(s@),
{
    let v = crate::text::chars_of(s);
    let mut i: usize = 0;
    while i < v.len()
        invariant
            v@ == s@,
            i <= v@.len(),
            forall|k: int| 0 <= k < i ==> is_header_value_char(#[trigger] s@[k]),
        decreases v@.len() - i,
    {
        let c = v[i];
        if !(c == '\t' || (' ' <= c && c != '\u{7f}')) {
            return false;
        }
        i = i + 1;
    }
    true
}

/// Adds `Set-Cookie: set_cookie` to a reply when the value is a valid
/// header value; otherwise the reply goes out as it is.
pub fn append_cookie(resp: Reply, set_cookie: &str) -> (r: Reply)
    ensures
        r.status == resp.status,
        r.body == resp.body,
        is_header_value(set_cookie@) ==> r.header_pairs() == resp.header_pairs().push(
            (crate::error::SET_COOKIE@, set_cookie@),
        ),
        !is_header_value(set_cookie@) ==> r.header_pairs() == resp.header_pairs(),
{
    let ghost before = resp.header_pairs();
    let mut resp = resp;
    if header_value_ok(set_cookie) {
        resp.headers.push((crate::error::SET_COOKIE.to_owned(), set_cookie.to_owned()));
        proof {
            assert(resp.header_pairs() =~= before.push((crate::error::SET_COOKIE@, set_cookie@)));
        }
    }
    resp
}

} // verus!
