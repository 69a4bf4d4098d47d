//! CSRF protection for cookie-authenticated, state-changing requests, by
//! the Fetch Metadata strategy: a request is accepted when its `Origin`
//! is ours, or, lacking `Origin`, when `Sec-Fetch-Site` says it came from
//! the same origin or from the user directly. Requests with neither header
//! come from browsers old enough that the `SameSite=Lax` session cookie
//! already covers them.

use vstd::prelude::*;
use crate::headers::{HeaderList, HttpMethod, first_text};
use crate::text::str_eq;

verus! {

/// Methods that never change state.
pub open spec fn is_safe_method(method: HttpMethod) -> bool {
    method == HttpMethod::Get || method == HttpMethod::Head || method == HttpMethod::Options
}

/// When a request counts as same-site.
pub open spec fn spec_is_same_site(
    method: HttpMethod,
    headers: Seq<(Seq<char>, Seq<u8>)>,
    our_origin: Seq<char>,
) -> bool {
    if is_safe_method(method) {
        true
    } else {
        match first_text(headers, "origin"@) {
            Some(origin) => origin == our_origin,
            None => match first_text(headers, "sec-fetch-site"@) {
                Some(site) => site == "same-origin"@ || site == "none"@,
                None => true,
            },
        }
    }
}

/// A state-changing request whose `Origin` is readable and not ours is
/// always refused, whatever else it carries.
pub proof fn lemma_foreign_origin_refused(
    method: HttpMethod,
    headers: Seq<(Seq<char>, Seq<u8>)>,
    our_origin: Seq<char>,
)
    requires
        !is_safe_method(method),
        first_text(headers, "origin"@) matches Some(o) && o != our_origin,
    ensures
        !spec_is_same_site(method, headers, our_origin),
{
}

/// Safe methods always count as same-site.
pub proof fn lemma_safe_methods_pass(
    method: HttpMethod,
    headers: Seq<(Seq<char>, Seq<u8>)>,
    our_origin: Seq<char>,
)
    requires
        is_safe_method(method),
    ensures
        spec_is_same_site(method, headers, our_origin),
{
}

/// Whether a request may go ahead as coming from our own site.
pub fn is_same_site(method: &HttpMethod, headers: &HeaderList, our_origin: &str) -> (r: bool)
    ensures
        r == spec_is_same_site(*method, headers.pairs(), our_origin@),
{
    if *method == HttpMethod::Get || *method == HttpMethod::Head || *method
        == HttpMethod::Options {
        return true;
    }
    if let Some(origin) = headers.get_text("origin") {
        return str_eq(origin.as_str(), our_origin);
    }
    if let Some(site) = headers.get_text("sec-fetch-site") {
        return str_eq(site.as_str(), "same-origin") || str_eq(site.as_str(), "none");
    }
    true
}

} // verus!
