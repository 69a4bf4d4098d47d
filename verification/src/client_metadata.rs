//! Validating a `client_id` and its `redirect_uri`. The client's metadata
//! is a JSON "Client ID Metadata Document" served at the client_id URL;
//! fetching it is the serving layer's job, while every decision about
//! what to fetch and what to accept stands here.

use vstd::prelude::*;
use crate::text::str_eq;

verus! {

#[verifier::external_type_specification]
#[verifier::external_body]
pub struct ExUrl(url::Url);

/// The parts of a parsed URL that the checks read.
pub struct UrlView {
    /// The whole URL as the url crate serialises it.
    pub href: Seq<char>,
    pub scheme: Seq<char>,
    pub username: Seq<char>,
    pub password: Option<Seq<char>>,
    pub host: Option<Seq<char>>,
    /// The explicit port, else the scheme's default.
    pub port: Option<u16>,
    pub fragment: Option<Seq<char>>,
    /// The `/`-separated path segments; none for a URL without a base.
    pub path_segments: Option<Seq<Seq<char>>>,
    /// The text up to the end of the path: scheme, authority and path.
    pub before_query: Seq<char>,
}

/// What `Url::parse` makes of `raw`, if it parses.
pub uninterp spec fn url_parse(raw: Seq<char>) -> Option<UrlView>;

/// The text of the URL that appending the query pairs `pairs` to `u`
/// gives.
pub uninterp spec fn url_with_query_pairs(u: UrlView, pairs: Seq<(Seq<char>, Seq<char>)>) -> Seq<char>;

/// A parsed URL: the url crate's value, and the parts read from it.
pub struct ProfileUrl {
    url: url::Url,
    href: String,
    scheme: String,
    username: String,
    password: Option<String>,
    host: Option<String>,
    port: Option<u16>,
    fragment: Option<String>,
    path_segments: Option<Vec<String>>,
    before_query: String,
}

/// Views of optional path segments.
pub open spec fn segments_view(segments: Option<Vec<String>>) -> Option<Seq<Seq<char>>> {
    match segments {
        Some(v) => Some(v@.map_values(|s: String| s@)),
        None => None,
    }
}

/// Views of optional strings.
pub open spec fn opt_view(o: Option<String>) -> Option<Seq<char>> {
    match o {
        Some(s) => Some(s@),
        None => None,
    }
}

impl ProfileUrl {
    /// The parts as plain values.
    pub closed spec fn view(&self) -> UrlView {
        UrlView {
            href: self.href@,
            scheme: self.scheme@,
            username: self.username@,
            password: opt_view(self.password),
            host: opt_view(self.host),
            port: self.port,
            fragment: opt_view(self.fragment),
            path_segments: segments_view(self.path_segments),
            before_query: self.before_query@,
        }
    }

    /// The url crate's value this URL was read from.
    pub closed spec fn parsed(&self) -> url::Url {
        self.url
    }

    /// The url crate's value.
    pub(crate) fn url(&self) -> (r: &url::Url)
        ensures
            *r == self.parsed(),
    {
        &self.url
    }

    /// The URL's text, as `Url::as_str` gives it.
    pub fn as_str(&self) -> (r: &str)
        ensures
            r@ == self.view().href,
    {
        self.href.as_str()
    }
}

/// `Url::parse` from the url crate, read into its parts: a function of the
/// text alone.
#[verifier::external_body]
pub(crate) fn parse_url(raw: &str) -> (r: Option<ProfileUrl>)
    ensures
        r matches Some(u) ==> url_parse(raw@) == Some(u.view()),
        r is None ==> url_parse(raw@) is None,
{
    let url = url::Url::parse(raw).ok()?;
    Some(ProfileUrl {
        href: url.as_str().to_string(),
        scheme: url.scheme().to_string(),
        username: url.username().to_string(),
        password: url.password().map(|p| p.to_string()),
        host: url.host_str().map(|h| h.to_string()),
        port: url.port_or_known_default(),
        fragment: url.fragment().map(|f| f.to_string()),
        path_segments: url.path_segments().map(|s| s.map(|p| p.to_string()).collect()),
        before_query: url[..url::Position::AfterPath].to_string(),
        url,
    })
}

/// Space that appending `pairs` to a query can take: percent-encoding
/// at most triples a byte, a character is at most four bytes, and each
/// pair adds `=` and `&`.
pub open spec fn query_growth(pairs: Seq<(Seq<char>, Seq<char>)>) -> int
    decreases pairs.len(),
{
    if pairs.len() == 0 {
        0
    } else {
        query_growth(pairs.drop_last()) + 12 * (pairs.last().0.len() + pairs.last().1.len()) + 2
    }
}

/// Plain views of string pairs.
pub open spec fn pair_views(pairs: Seq<(String, String)>) -> Seq<(Seq<char>, Seq<char>)> {
    pairs.map_values(|p: (String, String)| (p.0@, p.1@))
}

/// `Url::query_pairs_mut` from the url crate, appending each pair with
/// `append_pair`, on a copy of `u`: the text of the result. Only the query
/// changes, so the text still begins with the scheme, authority and path
/// of `u`. The url crate keeps positions as `u32`, which `requires` keeps
/// the result within.
#[verifier::external_body]
pub(crate) fn append_query_pairs(u: &ProfileUrl, pairs: &Vec<(String, String)>) -> (r: String)
    requires
        4 * u.view().href.len() + query_growth(pair_views(pairs@)) < 0xffff_ffff,
    ensures
        r@ == url_with_query_pairs(u.view(), pair_views(pairs@)),
        crate::text::has_prefix(r@, u.view().before_query),
{
    let mut url = u.url.clone();
    url.query_pairs_mut().extend_pairs(pairs.iter().map(|p| (p.0.as_str(), p.1.as_str())));
    url.as_str().to_string()
}

/// A `.` or `..` path segment.
pub open spec fn is_dot_segment(seg: Seq<char>) -> bool {
    seg == "."@ || seg == ".."@
}

/// Whether a segment list holds a `.` or `..` segment.
pub open spec fn has_dot_segment(segs: Seq<Seq<char>>) -> bool {
    exists|k: int| 0 <= k < segs.len() && is_dot_segment(#[trigger] segs[k])
}

/// Whether optional path segments hold a `.` or `..` segment.
pub open spec fn has_dot_in(segments: Option<Seq<Seq<char>>>) -> bool {
    match segments {
        Some(segs) => has_dot_segment(segs),
        None => false,
    }
}

/// The URL profile for `client_id`, `redirect_uri` and `me`: http(s) only,
/// no user or password, no fragment, a host, no dot segments in the path.
pub open spec fn is_profile_url(u: UrlView) -> bool {
    &&& (u.scheme == "http"@ || u.scheme == "https"@)
    &&& u.username.len() == 0
    &&& u.password is None
    &&& u.fragment is None
    &&& u.host is Some
    &&& !has_dot_in(u.path_segments)
}

/// Position of the first `a` or `b` in `s`, or its length.
pub open spec fn first_of(s: Seq<char>, a: char, b: char) -> nat
    decreases s.len(),
{
    if s.len() == 0 || s[0] == a || s[0] == b {
        0
    } else {
        1 + first_of(s.drop_first(), a, b)
    }
}

proof fn lemma_first_of(s: Seq<char>, a: char, b: char, m: int)
    requires
        0 <= m <= s.len(),
        forall|k: int| 0 <= k < m ==> #[trigger] s[k] != a && s[k] != b,
        m == s.len() || s[m] == a || s[m] == b,
    ensures
        first_of(s, a, b) == m,
    decreases m,
{
    if m > 0 {
        assert forall|k: int| 0 <= k < m - 1 implies #[trigger] s.drop_first()[k] != a && s.drop_first()[k]
            != b by {
            assert(s.drop_first()[k] == s[k + 1]);
        }
        if m < s.len() {
            assert(s.drop_first()[m - 1] == s[m]);
        }
        lemma_first_of(s.drop_first(), a, b, m - 1);
    }
}

/// `first_of` never exceeds the length.
pub proof fn lemma_first_of_bound(s: Seq<char>, a: char, b: char)
    ensures
        first_of(s, a, b) <= s.len(),
    decreases s.len(),
{
    if s.len() > 0 && s[0] != a && s[0] != b {
        lemma_first_of_bound(s.drop_first(), a, b);
    }
}

fn find_either(v: &Vec<char>, from: usize, to: usize, a: char, b: char) -> (r: usize)
    requires
        from <= to <= v@.len(),
    ensures
        from <= r <= to,
        r - from == first_of(v@.subrange(from as int, to as int), a, b),
{
    let mut i = from;
    while i < to && v[i] != a && v[i] != b
        invariant
            from <= i <= to <= v@.len(),
            forall|k: int| from <= k < i ==> v@[k] != a && v@[k] != b,
        decreases to - i,
    {
        i = i + 1;
    }
    proof {
        let t = v@.subrange(from as int, to as int);
        assert forall|k: int| 0 <= k < i - from implies #[trigger] t[k] != a && t[k] != b by {
            assert(t[k] == v@[k + from]);
        }
        if i < to {
            assert(t[i - from] == v@[i as int]);
        }
        lemma_first_of(t, a, b, i - from);
    }
    i
}

/// A single dot, written as `.` or percent-encoded as `%2e` (either case).
pub open spec fn is_dot_unit(s: Seq<char>) -> bool {
    ||| (s.len() == 1 && s[0] == '.')
    ||| (s.len() == 3 && s[0] == '%' && s[1] == '2' && (s[2] == 'e' || s[2] == 'E'))
}

/// A single-dot or double-dot path segment, plainly or percent-encoded.
pub open spec fn is_dot_segment_text(s: Seq<char>) -> bool {
    ||| is_dot_unit(s)
    ||| (s.len() >= 1 && is_dot_unit(s.take(1)) && is_dot_unit(s.skip(1)))
    ||| (s.len() >= 3 && is_dot_unit(s.take(3)) && is_dot_unit(s.skip(3)))
}

/// Whether some piece of `p` between separators (`/`, or `\\` which URLs
/// read as `/`) is a dot segment.
pub open spec fn dot_in_pieces(p: Seq<char>) -> bool
    decreases p.len(),
{
    let j = first_of(p, '/', '\\');
    proof {
        lemma_first_of_bound(p, '/', '\\');
    }
    is_dot_segment_text(p.take(j as int)) || (j < p.len() && dot_in_pieces(p.skip(j as int + 1)))
}

/// Whether the raw text, up to its query or fragment, holds a single-dot
/// or double-dot path segment. Parsing would resolve such segments away,
/// so the text itself is checked.
pub open spec fn raw_has_dot_segment(raw: Seq<char>) -> bool {
    dot_in_pieces(raw.take(first_of(raw, '?', '#') as int))
}

fn dot_unit_at(v: &Vec<char>, lo: usize, hi: usize) -> (r: bool)
    requires
        lo <= hi <= v@.len(),
    ensures
        r == is_dot_unit(v@.subrange(lo as int, hi as int)),
{
    if hi - lo == 1 {
        v[lo] == '.'
    } else if hi - lo == 3 {
        v[lo] == '%' && v[lo + 1] == '2' && (v[lo + 2] == 'e' || v[lo + 2] == 'E')
    } else {
        false
    }
}

fn dot_segment_at(v: &Vec<char>, lo: usize, hi: usize) -> (r: bool)
    requires
        lo <= hi <= v@.len(),
    ensures
        r == is_dot_segment_text(v@.subrange(lo as int, hi as int)),
{
    let ghost s = v@.subrange(lo as int, hi as int);
    proof {
        if hi - lo >= 1 {
            assert(s.take(1) == v@.subrange(lo as int, lo + 1));
            assert(s.skip(1) == v@.subrange(lo + 1, hi as int));
        }
        if hi - lo >= 3 {
            assert(s.take(3) == v@.subrange(lo as int, lo + 3));
            assert(s.skip(3) == v@.subrange(lo + 3, hi as int));
        }
    }
    dot_unit_at(v, lo, hi) || (hi - lo >= 1 && dot_unit_at(v, lo, lo + 1) && dot_unit_at(v, lo + 1, hi))
        || (hi - lo >= 3 && dot_unit_at(v, lo, lo + 3) && dot_unit_at(v, lo + 3, hi))
}

/// Whether the raw text of a URL holds a dot segment in its path.
pub fn has_raw_dot_segment(raw: &str) -> (r: bool)
    ensures
        r == raw_has_dot_segment(raw@),
{
    let v = crate::text::chars_of(raw);
    let n = v.len();
    let end = find_either(&v, 0, n, '?', '#');
    proof {
        assert(v@.subrange(0, n as int) == v@);
        assert(raw@.take(end as int) == v@.subrange(0, end as int));
        assert(v@.subrange(0, end as int).skip(0) == v@.subrange(0, end as int));
    }
    let mut start: usize = 0;
    loop
        invariant
            start <= end <= n == v@.len(),
            v@ == raw@,
            end == first_of(raw@, '?', '#'),
            raw_has_dot_segment(raw@) == dot_in_pieces(v@.subrange(start as int, end as int)),
        decreases end - start,
    {
        let ghost p = v@.subrange(start as int, end as int);
        let j = find_either(&v, start, end, '/', '\\');
        proof {
            assert(p.take(j - start) == v@.subrange(start as int, j as int));
            if j < end {
                assert(p.skip(j - start + 1) == v@.subrange(j + 1, end as int));
            }
        }
        if dot_segment_at(&v, start, j) {
            return true;
        }
        if j == end {
            return false;
        }
        start = j + 1;
    }
}

/// `raw` parsed, when it meets the URL profile: http(s) only, no user
/// info, no fragment, a host, and no single-dot or double-dot path segment
/// in the text as given.
pub open spec fn spec_parse_profile_url(raw: Seq<char>) -> Option<UrlView> {
    if raw_has_dot_segment(raw) {
        None
    } else {
        match url_parse(raw) {
            Some(u) => if is_profile_url(u) {
                Some(u)
            } else {
                None
            },
            None => None,
        }
    }
}

fn has_dot(segments: &Option<Vec<String>>) -> (r: bool)
    ensures
        r == has_dot_in(segments_view(*segments)),
{
    match segments {
        None => false,
        Some(v) => {
            let ghost segs = v@.map_values(|s: String| s@);
            let mut i: usize = 0;
            proof {
                assert(segments_view(*segments) == Some(segs));
            }
            while i < v.len()
                invariant
                    segments_view(*segments) == Some(segs),
                    i <= v@.len(),
                    segs == v@.map_values(|s: String| s@),
                    forall|k: int| 0 <= k < i ==> !(segs[k] == "."@ || segs[k] == ".."@),
                decreases v@.len() - i,
            {
                if str_eq(v[i].as_str(), ".") || str_eq(v[i].as_str(), "..") {
                    proof {
                        assert(segs[i as int] == v@[i as int]@);
                        assert(segs[i as int] == "."@ || segs[i as int] == ".."@);
                        assert(segments_view(*segments) == Some(segs));
                        assert(0 <= i < segs.len());
                        assert(is_dot_segment(segs[i as int]));
                    }
                    return true;
                }
                i = i + 1;
            }
            proof {
                assert(segments_view(*segments) == Some(segs));
            }
            false
        },
    }
}

/// Parses `raw` and checks it against the URL profile.
pub fn parse_profile_url(raw: &str) -> (r: Option<ProfileUrl>)
    ensures
        r matches Some(u) ==> spec_parse_profile_url(raw@) == Some(u.view()),
        r is None ==> spec_parse_profile_url(raw@) is None,
{
    if has_raw_dot_segment(raw) {
        return None;
    }
    let url = match parse_url(raw) {
        Some(u) => u,
        None => {
            return None;
        },
    };
    if !str_eq(url.scheme.as_str(), "http") && !str_eq(url.scheme.as_str(), "https") {
        return None;
    }
    if !url.username.as_str().is_empty() || url.password.is_some() {
        return None;
    }
    if url.fragment.is_some() {
        return None;
    }
    if url.host.is_none() {
        return None;
    }
    if has_dot(&url.path_segments) {
        return None;
    }
    Some(url)
}

/// A `client_id` on a loopback address: it may be used, but must never be
/// fetched, so its `redirect_uri` must share its origin.
pub open spec fn spec_is_loopback(u: UrlView) -> bool {
    match u.host {
        Some(h) => h == "127.0.0.1"@ || h == "[::1]"@ || h == "::1"@,
        None => false,
    }
}

/// Whether `url` names a loopback host.
pub fn is_loopback_client_id(url: &ProfileUrl) -> (r: bool)
    ensures
        r == spec_is_loopback(url.view()),
{
    match &url.host {
        Some(h) => str_eq(h.as_str(), "127.0.0.1") || str_eq(h.as_str(), "[::1]") || str_eq(
            h.as_str(),
            "::1",
        ),
        None => false,
    }
}

/// Same scheme, host and port (explicit or default).
pub open spec fn spec_same_origin(a: UrlView, b: UrlView) -> bool {
    a.scheme == b.scheme && a.host == b.host && a.port == b.port
}

fn opt_str_eq(a: &Option<String>, b: &Option<String>) -> (r: bool)
    ensures
        r == (opt_view(*a) == opt_view(*b)),
{
    match (a, b) {
        (Some(x), Some(y)) => str_eq(x.as_str(), y.as_str()),
        (None, None) => true,
        _ => false,
    }
}

fn same_origin(a: &ProfileUrl, b: &ProfileUrl) -> (r: bool)
    ensures
        r == spec_same_origin(a.view(), b.view()),
{
    str_eq(a.scheme.as_str(), b.scheme.as_str()) && opt_str_eq(&a.host, &b.host) && a.port
        == b.port
}

/// What the client published about itself: its name and the redirect URIs
/// it allows. Empty when nothing could be fetched.
#[derive(Clone)]
pub struct ClientMetadata {
    pub client_name: Option<String>,
    pub redirect_uris: Vec<String>,
}

impl ClientMetadata {
    /// The published redirect URIs as text.
    pub open spec fn uris(&self) -> Seq<Seq<char>> {
        self.redirect_uris@.map_values(|s: String| s@)
    }

    /// Whether this is the empty metadata.
    pub open spec fn is_empty(&self) -> bool {
        self.client_name is None && self.redirect_uris@.len() == 0
    }
}

impl Default for ClientMetadata {
    fn default() -> (r: ClientMetadata)
        ensures
            r.is_empty(),
    {
        ClientMetadata { client_name: None, redirect_uris: Vec::new() }
    }
}

/// A `redirect_uri` is accepted when it shares the client's origin or is
/// exactly one of the URIs the client published.
pub open spec fn spec_validate_redirect_uri(
    client_id: UrlView,
    redirect_uri: UrlView,
    registered: Seq<Seq<char>>,
) -> bool {
    spec_same_origin(client_id, redirect_uri) || registered.contains(redirect_uri.href)
}

/// A redirect_uri that the client published, at whatever place in its
/// list, is accepted.
pub proof fn lemma_published_redirect_uri_accepted(
    client_id: UrlView,
    redirect_uri: UrlView,
    registered: Seq<Seq<char>>,
    k: int,
)
    requires
        0 <= k < registered.len(),
        registered[k] == redirect_uri.href,
    ensures
        spec_validate_redirect_uri(client_id, redirect_uri, registered),
{
    assert(registered.contains(registered[k]));
}

/// A redirect_uri on the client's own origin is accepted, whatever the
/// client published.
pub proof fn lemma_same_origin_redirect_uri_accepted(
    client_id: UrlView,
    redirect_uri: UrlView,
    registered: Seq<Seq<char>>,
)
    requires
        client_id.scheme == redirect_uri.scheme,
        client_id.host == redirect_uri.host,
        client_id.port == redirect_uri.port,
    ensures
        spec_validate_redirect_uri(client_id, redirect_uri, registered),
{
}

/// A redirect_uri on another origin that the client did not publish is
/// refused.
pub proof fn lemma_unpublished_redirect_uri_refused(
    client_id: UrlView,
    redirect_uri: UrlView,
    registered: Seq<Seq<char>>,
)
    requires
        !(client_id.scheme == redirect_uri.scheme && client_id.host == redirect_uri.host && client_id.port
            == redirect_uri.port),
        forall|k: int| 0 <= k < registered.len() ==> registered[k] != redirect_uri.href,
    ensures
        !spec_validate_redirect_uri(client_id, redirect_uri, registered),
{
}

/// Whether `redirect_uri` may receive the authorization response for
/// `client_id`.
pub fn validate_redirect_uri(
    client_id: &ProfileUrl,
    redirect_uri: &ProfileUrl,
    metadata: &ClientMetadata,
) -> (r: bool)
    ensures
        r == spec_validate_redirect_uri(client_id.view(), redirect_uri.view(), metadata.uris()),
{
    if same_origin(client_id, redirect_uri) {
        return true;
    }
    let ghost uris = metadata.uris();
    let mut i: usize = 0;
    while i < metadata.redirect_uris.len()
        invariant
            i <= metadata.redirect_uris@.len(),
            uris == metadata.uris(),
            forall|k: int| 0 <= k < i ==> uris[k] != redirect_uri.view().href,
        decreases metadata.redirect_uris@.len() - i,
    {
        if str_eq(metadata.redirect_uris[i].as_str(), redirect_uri.href.as_str()) {
            proof {
                assert(uris[i as int] == redirect_uri.view().href);
            }
            return true;
        }
        i = i + 1;
    }
    false
}

/// An IP address a client_id host resolved to.
pub enum IpAddress {
    V4([u8; 4]),
    V6([u16; 8]),
}

/// Addresses the server refuses to fetch from: loopback, private,
/// link-local, broadcast, unspecified and documentation IPv4 ranges, and
/// loopback, unspecified and unique-local IPv6 addresses (the ranges the
/// standard library's `Ipv4Addr`/`Ipv6Addr` predicates name).
pub open spec fn spec_is_disallowed_ip(ip: IpAddress) -> bool {
    match ip {
        IpAddress::V4(o) => {
            ||| o[0] == 127
            ||| o[0] == 10
            ||| (o[0] == 172 && 16 <= o[1] && o[1] <= 31)
            ||| (o[0] == 192 && o[1] == 168)
            ||| (o[0] == 169 && o[1] == 254)
            ||| (o[0] == 255 && o[1] == 255 && o[2] == 255 && o[3] == 255)
            ||| (o[0] == 0 && o[1] == 0 && o[2] == 0 && o[3] == 0)
            ||| (o[0] == 192 && o[1] == 0 && o[2] == 2)
            ||| (o[0] == 198 && o[1] == 51 && o[2] == 100)
            ||| (o[0] == 203 && o[1] == 0 && o[2] == 113)
        },
        IpAddress::V6(s) => {
            let zero_prefix = s[0] == 0 && s[1] == 0 && s[2] == 0 && s[3] == 0 && s[4] == 0
                && s[5] == 0 && s[6] == 0;
            ||| (zero_prefix && s[7] == 1)
            ||| (zero_prefix && s[7] == 0)
            ||| (0xfc00 <= s[0] && s[0] <= 0xfdff)
        },
    }
}

fn is_disallowed_ip(ip: &IpAddress) -> (r: bool)
    ensures
        r == spec_is_disallowed_ip(*ip),
{
    match ip {
        IpAddress::V4(o) => {
            o[0] == 127 || o[0] == 10 || (o[0] == 172 && 16 <= o[1] && o[1] <= 31) || (o[0] == 192
                && o[1] == 168) || (o[0] == 169 && o[1] == 254) || (o[0] == 255 && o[1] == 255
                && o[2] == 255 && o[3] == 255) || (o[0] == 0 && o[1] == 0 && o[2] == 0 && o[3]
                == 0) || (o[0] == 192 && o[1] == 0 && o[2] == 2) || (o[0] == 198 && o[1] == 51
                && o[2] == 100) || (o[0] == 203 && o[1] == 0 && o[2] == 113)
        },
        IpAddress::V6(s) => {
            let zero_prefix = s[0] == 0 && s[1] == 0 && s[2] == 0 && s[3] == 0 && s[4] == 0
                && s[5] == 0 && s[6] == 0;
            (zero_prefix && s[7] == 1) || (zero_prefix && s[7] == 0) || (0xfc00 <= s[0] && s[0]
                <= 0xfdff)
        },
    }
}

/// Where to fetch the metadata document from: the client_id's host and
/// port (443 when the URL has none), never for a loopback client_id.
pub open spec fn spec_fetch_target(client_id: UrlView) -> Option<(Seq<char>, u16)> {
    if spec_is_loopback(client_id) {
        None
    } else {
        match client_id.host {
            Some(h) => Some(
                (
                    h,
                    match client_id.port {
                        Some(p) => p,
                        None => 443,
                    },
                ),
            ),
            None => None,
        }
    }
}

/// A loopback client_id is never fetched.
pub proof fn lemma_loopback_never_fetched(client_id: UrlView)
    requires
        spec_is_loopback(client_id),
    ensures
        spec_fetch_target(client_id) is None,
{
}

/// The host and port to resolve before fetching the metadata document.
pub fn fetch_target(client_id: &ProfileUrl) -> (r: Option<(String, u16)>)
    ensures
        r matches Some(t) ==> spec_fetch_target(client_id.view()) == Some((t.0@, t.1)),
        r is None ==> spec_fetch_target(client_id.view()) is None,
{
    if is_loopback_client_id(client_id) {
        return None;
    }
    match &client_id.host {
        Some(h) => {
            let port = match client_id.port {
                Some(p) => p,
                None => 443,
            };
            Some((h.clone(), port))
        },
        None => None,
    }
}

/// The fetch may go ahead only when the host resolved to at least one
/// address and none of them is disallowed, so a client_id cannot point the
/// server at its own network.
pub open spec fn spec_addresses_permit_fetch(addrs: Seq<IpAddress>) -> bool {
    addrs.len() > 0 && forall|k: int| 0 <= k < addrs.len() ==> !spec_is_disallowed_ip(#[trigger] addrs[k])
}

/// Whether the resolved addresses permit fetching.
pub fn addresses_permit_fetch(addrs: &Vec<IpAddress>) -> (r: bool)
    ensures
        r == spec_addresses_permit_fetch(addrs@),
{
    if addrs.len() == 0 {
        return false;
    }
    let mut i: usize = 0;
    while i < addrs.len()
        invariant
            i <= addrs@.len(),
            forall|k: int| 0 <= k < i ==> !spec_is_disallowed_ip(#[trigger] addrs@[k]),
        decreases addrs@.len() - i,
    {
        if is_disallowed_ip(&addrs[i]) {
            return false;
        }
        i = i + 1;
    }
    true
}

/// Largest metadata document accepted, in bytes.
pub const MAX_BODY_BYTES: usize = 1024 * 1024;

/// The metadata document as the client serves it.
pub struct ClientIdDocument {
    pub client_id: Option<String>,
    pub client_name: Option<String>,
    pub redirect_uris: Vec<String>,
}

/// What the fetch of the metadata document brought back.
pub enum FetchOutcome {
    /// The request failed, timed out or could not be built.
    Failed,
    /// A response arrived: whether its status was a success, how long its
    /// body was, and the body read as a metadata document, if it was one.
    Fetched { success: bool, body_len: usize, document: Option<ClientIdDocument> },
}

/// The metadata accepted from a fetch: a successful response of at most
/// `MAX_BODY_BYTES` bytes holding a document whose declared client_id is
/// exactly the URL it was fetched from. Anything else gives the empty
/// metadata, which is not an error by itself.
pub open spec fn accepted_document(client_id: UrlView, outcome: FetchOutcome) -> Option<ClientIdDocument> {
    match outcome {
        FetchOutcome::Fetched { success, body_len, document } => {
            if success && body_len <= MAX_BODY_BYTES {
                match document {
                    Some(doc) => if opt_view(doc.client_id) == Some(client_id.href) {
                        Some(doc)
                    } else {
                        None
                    },
                    None => None,
                }
            } else {
                None
            }
        },
        FetchOutcome::Failed => None,
    }
}

/// The client metadata a fetch yields.
pub fn metadata_from_fetch(client_id: &ProfileUrl, outcome: FetchOutcome) -> (r: ClientMetadata)
    ensures
        match accepted_document(client_id.view(), outcome) {
            Some(doc) => r.client_name == doc.client_name && r.redirect_uris == doc.redirect_uris,
            None => r.is_empty(),
        },
{
    match outcome {
        FetchOutcome::Fetched { success, body_len, document } => {
            if !success || body_len > MAX_BODY_BYTES {
                return ClientMetadata::default();
            }
            match document {
                Some(doc) => {
                    let declared_matches = match &doc.client_id {
                        Some(c) => str_eq(c.as_str(), client_id.href.as_str()),
                        None => false,
                    };
                    if declared_matches {
                        ClientMetadata { client_name: doc.client_name, redirect_uris: doc.redirect_uris }
                    } else {
                        ClientMetadata::default()
                    }
                },
                None => ClientMetadata::default(),
            }
        },
        FetchOutcome::Failed => ClientMetadata::default(),
    }
}

} // verus!
