//! Hand-written HTML page builders. `escape` is applied to every value that
//! an outsider can influence (client name and URLs from the client_id
//! document, passkey labels) before it is placed in a page.

use vstd::prelude::*;
use crate::json::{json_quote, json_string_literal};
use crate::text::{opt_str_view, push_char};

verus! {

/// What `escape` writes for one character.
pub open spec fn escape_char(c: char) -> Seq<char> {
    if c == '&' {
        seq!['&', 'a', 'm', 'p', ';']
    } else if c == '<' {
        seq!['&', 'l', 't', ';']
    } else if c == '>' {
        seq!['&', 'g', 't', ';']
    } else if c == '"' {
        seq!['&', 'q', 'u', 'o', 't', ';']
    } else if c == '\'' {
        seq!['&', '#', '3', '9', ';']
    } else {
        seq![c]
    }
}

/// HTML escaping of a whole string, character by character.
pub open spec fn spec_escape(s: Seq<char>) -> Seq<char>
    decreases s.len(),
{
    if s.len() == 0 {
        Seq::empty()
    } else {
        spec_escape(s.drop_last()) + escape_char(s.last())
    }
}

/// The characters that carry meaning in HTML text and attribute values.
pub open spec fn is_markup_char(c: char) -> bool {
    c == '&' || c == '<' || c == '>' || c == '"' || c == '\''
}

/// Escapes `&`, `<`, `>`, `"` and `'` as HTML character references.
pub fn escape(s: &str) -> (r: String)
    ensures
        r@ == spec_escape(s@),
{
    let mut out = String::new();
    let ghost text = s@;
    for c in it: s.chars()
        invariant
            it.seq() == text,
            out@ == spec_escape(text.take(it.index() as int)),
    {
        proof {
            assert(text.take(it.index() + 1).drop_last() == text.take(it.index() as int));
        }
        if c == '&' {
            out.append("&amp;");
            proof {
                reveal_strlit("&amp;");
            }
        } else if c == '<' {
            out.append("&lt;");
            proof {
                reveal_strlit("&lt;");
            }
        } else if c == '>' {
            out.append("&gt;");
            proof {
                reveal_strlit("&gt;");
            }
        } else if c == '"' {
            out.append("&quot;");
            proof {
                reveal_strlit("&quot;");
            }
        } else if c == '\'' {
            out.append("&#39;");
            proof {
                reveal_strlit("&#39;");
            }
        } else {
            push_char(&mut out, c);
        }
    }
    proof {
        assert(text.take(text.len() as int) == text);
    }
    out
}

/// Escaping distributes over concatenation.
pub proof fn lemma_escape_concat(a: Seq<char>, b: Seq<char>)
    ensures
        spec_escape(a + b) == spec_escape(a) + spec_escape(b),
    decreases b.len(),
{
    if b.len() == 0 {
        assert(a + b == a);
    } else {
        assert((a + b).drop_last() == a + b.drop_last());
        assert((a + b).last() == b.last());
        lemma_escape_concat(a, b.drop_last());
    }
}

/// Escaped text never holds `<`, `>`, `"` or `'`: whatever an outsider
/// supplies cannot open a tag or leave an attribute value.
pub proof fn lemma_escape_no_markup(s: Seq<char>)
    ensures
        forall|k: int|
            0 <= k < spec_escape(s).len() ==> {
                let c = #[trigger] spec_escape(s)[k];
                c != '<' && c != '>' && c != '"' && c != '\''
            },
    decreases s.len(),
{
    if s.len() > 0 {
        lemma_escape_no_markup(s.drop_last());
        let p = spec_escape(s.drop_last());
        let e = escape_char(s.last());
        assert(spec_escape(s) == p + e);
        assert forall|k: int| 0 <= k < spec_escape(s).len() implies {
            let c = #[trigger] spec_escape(s)[k];
            c != '<' && c != '>' && c != '"' && c != '\''
        } by {
            if k >= p.len() {
                assert(spec_escape(s)[k] == e[k - p.len()]);
            } else {
                assert(spec_escape(s)[k] == p[k]);
            }
        }
    }
}

/// Text without any of the five special characters comes out unchanged.
pub proof fn lemma_escape_plain_text(s: Seq<char>)
    requires
        forall|k: int| 0 <= k < s.len() ==> !is_markup_char(#[trigger] s[k]),
    ensures
        spec_escape(s) == s,
    decreases s.len(),
{
    if s.len() > 0 {
        assert forall|k: int| 0 <= k < s.drop_last().len() implies !is_markup_char(
            #[trigger] s.drop_last()[k],
        ) by {
            assert(s.drop_last()[k] == s[k]);
        }
        lemma_escape_plain_text(s.drop_last());
        assert(!is_markup_char(s[s.len() - 1]));
        assert(s.drop_last().push(s.last()) == s);
    }
}

pub const PAGE_HEAD: &'static str = "<!doctype html>\n<html lang=\"en\">\n<head>\n<meta charset=\"utf-8\">\n<meta name=\"viewport\" content=\"width=device-width, initial-scale=1\">\n<title>";

pub const PAGE_AFTER_TITLE: &'static str = "</title>\n<link rel=\"stylesheet\" href=\"/auth/static/style.css\">\n</head>\n<body>\n";

pub const PAGE_TAIL: &'static str = "\n</body>\n</html>";

/// The document frame around a page body. No inline `<style>`: the one
/// stylesheet is an external same-origin file, which a plain `'self'`
/// content security policy allows.
pub open spec fn spec_page(title: Seq<char>, body: Seq<char>) -> Seq<char> {
    PAGE_HEAD@ + title + PAGE_AFTER_TITLE@ + body + PAGE_TAIL@
}

fn page(title: &str, body: &str) -> (r: String)
    ensures
        r@ == spec_page(title@, body@),
{
    let mut out = String::new();
    out.append(PAGE_HEAD);
    out.append(title);
    out.append(PAGE_AFTER_TITLE);
    out.append(body);
    out.append(PAGE_TAIL);
    out
}

pub const CEREMONY_OPTIONS_OPEN: &'static str = "<script type=\"application/json\" id=\"ceremony-options\">";

pub const CEREMONY_OPTIONS_CLOSE: &'static str = "</script>\n<script src=\"/auth/static/webauthn-common.js\"></script>\n<script src=\"";

pub const SCRIPT_TAG_CLOSE: &'static str = "\"></script>";

/// The ceremony data as an inert JSON data island followed by external,
/// same-origin scripts: no inline executable script, so a strict
/// `script-src` policy does not block the ceremony.
pub open spec fn spec_ceremony_scripts(options_json: Seq<char>, ceremony_script: Seq<char>) -> Seq<
    char,
> {
    CEREMONY_OPTIONS_OPEN@ + options_json + CEREMONY_OPTIONS_CLOSE@ + ceremony_script
        + SCRIPT_TAG_CLOSE@
}

fn ceremony_scripts(options_json: &str, ceremony_script: &str) -> (r: String)
    ensures
        r@ == spec_ceremony_scripts(options_json@, ceremony_script@),
{
    let mut out = String::new();
    out.append(CEREMONY_OPTIONS_OPEN);
    out.append(options_json);
    out.append(CEREMONY_OPTIONS_CLOSE);
    out.append(ceremony_script);
    out.append(SCRIPT_TAG_CLOSE);
    out
}

pub const REGISTER_SCRIPT: &'static str = "/auth/static/register.js";

pub const LOGIN_SCRIPT: &'static str = "/auth/static/login.js";

pub const REGISTER_TITLE: &'static str = "Register a passkey";

pub const REGISTER_BODY: &'static str = "<h1>Register a passkey</h1>\n<p>Give this passkey a label so you can tell it apart later (e.g. \"YubiKey 5\", \"iPhone\").</p>\n<p><input type=\"text\" id=\"label\" placeholder=\"e.g. YubiKey 5\" autofocus></p>\n<p><button id=\"start\">Register passkey</button></p>\n<p id=\"status\"></p>\n";

/// The registration page: a label field, a start button, and the ceremony
/// options produced by the server.
pub open spec fn spec_register_page(creation_options_json: Seq<char>) -> Seq<char> {
    spec_page(
        REGISTER_TITLE@,
        REGISTER_BODY@ + spec_ceremony_scripts(creation_options_json, REGISTER_SCRIPT@),
    )
}

/// `creation_options_json` is the server's own creation options, embedded
/// verbatim; registration starts only when the button is pressed, so the
/// label can be typed first.
pub fn register_page(creation_options_json: &str) -> (r: String)
    ensures
        r@ == spec_register_page(creation_options_json@),
{
    let scripts = ceremony_scripts(creation_options_json, REGISTER_SCRIPT);
    let mut body = String::new();
    body.append(REGISTER_BODY);
    body.append(scripts.as_str());
    page(REGISTER_TITLE, body.as_str())
}

pub const LOGIN_TITLE: &'static str = "Sign in";

pub const LOGIN_BODY: &'static str = "<h1>Sign in with your passkey</h1>\n<p id=\"status\">Waiting for your passkey...</p>\n";

/// The sign-in page, which starts the ceremony as soon as it loads.
pub open spec fn spec_login_page(request_options_json: Seq<char>) -> Seq<char> {
    spec_page(
        LOGIN_TITLE@,
        LOGIN_BODY@ + spec_ceremony_scripts(request_options_json, LOGIN_SCRIPT@),
    )
}

/// `request_options_json` is the server's own request options, embedded
/// verbatim.
pub fn login_page(request_options_json: &str) -> (r: String)
    ensures
        r@ == spec_login_page(request_options_json@),
{
    let scripts = ceremony_scripts(request_options_json, LOGIN_SCRIPT);
    let mut body = String::new();
    body.append(LOGIN_BODY);
    body.append(scripts.as_str());
    page(LOGIN_TITLE, body.as_str())
}

/// `parts` joined with a newline between neighbours.
pub open spec fn join_lines(parts: Seq<Seq<char>>) -> Seq<char>
    decreases parts.len(),
{
    if parts.len() == 0 {
        Seq::empty()
    } else if parts.len() == 1 {
        parts[0]
    } else {
        join_lines(parts.drop_last()) + seq!['\n'] + parts.last()
    }
}

/// What the consent page needs to know about the requesting client.
pub struct ConsentClient<'a> {
    pub client_id: &'a str,
    pub client_name: Option<&'a str>,
    pub redirect_uri: &'a str,
    pub scopes: &'a [&'a str],
    pub me: &'a str,
}

pub const NO_SCOPES_ITEM: &'static str = "<li><em>No specific permissions (identity only)</em></li>";

pub const LI_OPEN: &'static str = "<li>";

pub const LI_CLOSE: &'static str = "</li>";

/// One list item per requested scope, each escaped.
pub open spec fn scope_items(scopes: Seq<Seq<char>>) -> Seq<Seq<char>> {
    Seq::new(scopes.len(), |i: int| LI_OPEN@ + spec_escape(scopes[i]) + LI_CLOSE@)
}

/// The text of string slices.
pub open spec fn str_views(v: Seq<&str>) -> Seq<Seq<char>> {
    v.map_values(|s: &str| s@)
}

/// The list of requested permissions on the consent page.
pub open spec fn spec_scope_list(scopes: Seq<Seq<char>>) -> Seq<char> {
    if scopes.len() == 0 {
        NO_SCOPES_ITEM@
    } else {
        join_lines(scope_items(scopes))
    }
}

pub const CONSENT_TITLE: &'static str = "Sign in?";

pub const CONSENT_1: &'static str = "<h1>Sign in to ";

pub const CONSENT_2: &'static str = "?</h1>\n<div class=\"client\">\n  <p><strong>";

pub const CONSENT_3: &'static str = "</strong></p>\n  <p><code>";

pub const CONSENT_4: &'static str = "</code></p>\n  <p>Redirecting to: <code>";

pub const CONSENT_5: &'static str = "</code></p>\n</div>\n<p>This will share your identity (<code>";

pub const CONSENT_6: &'static str = "</code>) and grant:</p>\n<ul>";

pub const CONSENT_7: &'static str = "</ul>\n<form method=\"post\" class=\"actions\">\n  <button type=\"submit\" name=\"decision\" value=\"approve\">Approve</button>\n  <button type=\"submit\" name=\"decision\" value=\"deny\" class=\"deny\">Deny</button>\n</form>";

/// The name shown for the client: its declared name, else its client_id.
pub open spec fn display_name(client_id: Seq<char>, client_name: Option<Seq<char>>) -> Seq<char> {
    match client_name {
        Some(n) => n,
        None => client_id,
    }
}

/// The consent page for a client, the redirect target, the requested
/// scopes and the owner's profile URL. Every client-supplied value (name,
/// client_id, redirect_uri, scopes) and the profile URL are escaped.
pub open spec fn spec_consent_text(
    client_id: Seq<char>,
    client_name: Option<Seq<char>>,
    redirect_uri: Seq<char>,
    scopes: Seq<Seq<char>>,
    me: Seq<char>,
) -> Seq<char> {
    let name = spec_escape(display_name(client_id, client_name));
    spec_page(
        CONSENT_TITLE@,
        CONSENT_1@ + name + CONSENT_2@ + name + CONSENT_3@ + spec_escape(client_id) + CONSENT_4@
            + spec_escape(redirect_uri) + CONSENT_5@ + spec_escape(me) + CONSENT_6@
            + spec_scope_list(scopes) + CONSENT_7@,
    )
}

/// The consent page for `c`.
pub open spec fn spec_consent_page(c: ConsentClient) -> Seq<char> {
    spec_consent_text(
        c.client_id@,
        match c.client_name {
            Some(n) => Some(n@),
            None => None,
        },
        c.redirect_uri@,
        str_views(c.scopes@),
        c.me@,
    )
}

fn scope_list(scopes: &[&str]) -> (r: String)
    ensures
        r@ == spec_scope_list(str_views(scopes@)),
{
    if scopes.len() == 0 {
        let mut out = String::new();
        out.append(NO_SCOPES_ITEM);
        return out;
    }
    let ghost items = scope_items(str_views(scopes@));
    let mut out = String::new();
    let mut i: usize = 0;
    while i < scopes.len()
        invariant
            i <= scopes@.len(),
            items == scope_items(str_views(scopes@)),
            out@ == join_lines(items.take(i as int)),
        decreases scopes@.len() - i,
    {
        if i > 0 {
            push_char(&mut out, '\n');
        }
        out.append(LI_OPEN);
        let e = escape(scopes[i]);
        out.append(e.as_str());
        out.append(LI_CLOSE);
        proof {
            let t = items.take(i + 1);
            assert(t.drop_last() == items.take(i as int));
            assert(t.last() == items[i as int]);
            if i == 0 {
                assert(t.len() == 1);
            }
        }
        i = i + 1;
    }
    proof {
        assert(items.take(scopes@.len() as int) == items);
    }
    out
}

/// Renders the consent page for an authorization request.
pub fn consent_page(c: &ConsentClient) -> (r: String)
    ensures
        r@ == spec_consent_page(*c),
{
    let name_raw = match c.client_name {
        Some(n) => n,
        None => c.client_id,
    };
    let name = escape(name_raw);
    let list = scope_list(c.scopes);
    let client_id = escape(c.client_id);
    let redirect_uri = escape(c.redirect_uri);
    let me = escape(c.me);
    let mut body = String::new();
    body.append(CONSENT_1);
    body.append(name.as_str());
    body.append(CONSENT_2);
    body.append(name.as_str());
    body.append(CONSENT_3);
    body.append(client_id.as_str());
    body.append(CONSENT_4);
    body.append(redirect_uri.as_str());
    body.append(CONSENT_5);
    body.append(me.as_str());
    body.append(CONSENT_6);
    body.append(list.as_str());
    body.append(CONSENT_7);
    page(CONSENT_TITLE, body.as_str())
}

/// Whether text that follows `s`, read from the state `inside` (within a
/// tag or not), is within a tag: decided by the last `<` or `>` of `s`.
pub open spec fn ends_inside(s: Seq<char>, inside: bool) -> bool
    decreases s.len(),
{
    if s.len() == 0 {
        inside
    } else if s.last() == '>' {
        false
    } else if s.last() == '<' {
        true
    } else {
        ends_inside(s.drop_last(), inside)
    }
}

/// The markup of `s` read from the state `inside`: every character that
/// lies within a tag, its `<` and `>` included, in order. Its `<`...`>`
/// runs are the tags of `s`.
pub open spec fn markup(s: Seq<char>, inside: bool) -> Seq<char>
    decreases s.len(),
{
    if s.len() == 0 {
        Seq::empty()
    } else {
        let c = s.last();
        markup(s.drop_last(), inside) + if c == '<' || c == '>' || ends_inside(s.drop_last(), inside) {
            seq![c]
        } else {
            Seq::<char>::empty()
        }
    }
}

proof fn lemma_markup_concat(a: Seq<char>, b: Seq<char>, inside: bool)
    ensures
        markup(a + b, inside) == markup(a, inside) + markup(b, ends_inside(a, inside)),
        ends_inside(a + b, inside) == ends_inside(b, ends_inside(a, inside)),
    decreases b.len(),
{
    if b.len() == 0 {
        assert(a + b == a);
    } else {
        assert((a + b).drop_last() == a + b.drop_last());
        assert((a + b).last() == b.last());
        lemma_markup_concat(a, b.drop_last(), inside);
    }
}

proof fn lemma_plain_text_no_markup(s: Seq<char>)
    requires
        forall|k: int| 0 <= k < s.len() ==> #[trigger] s[k] != '<' && s[k] != '>',
    ensures
        markup(s, false) == Seq::<char>::empty(),
        !ends_inside(s, false),
    decreases s.len(),
{
    if s.len() > 0 {
        assert forall|k: int| 0 <= k < s.drop_last().len() implies #[trigger] s.drop_last()[k] != '<'
            && s.drop_last()[k] != '>' by {
            assert(s.drop_last()[k] == s[k]);
        }
        lemma_plain_text_no_markup(s.drop_last());
        assert(s[s.len() - 1] != '<' && s[s.len() - 1] != '>');
    }
}

/// Escaped text read outside a tag adds no markup and opens no tag.
pub proof fn lemma_escape_adds_no_markup(s: Seq<char>)
    ensures
        markup(spec_escape(s), false) == Seq::<char>::empty(),
        !ends_inside(spec_escape(s), false),
{
    lemma_escape_no_markup(s);
    let e = spec_escape(s);
    assert forall|k: int| 0 <= k < e.len() implies #[trigger] e[k] != '<' && e[k] != '>' by {
        let c = spec_escape(s)[k];
        assert(c != '<' && c != '>');
    }
    lemma_plain_text_no_markup(e);
}

/// The consent page's fixed texts all end outside a tag.
proof fn lemma_consent_texts_close_tags()
    ensures
        !ends_inside(PAGE_HEAD@, false),
        !ends_inside(CONSENT_TITLE@, false),
        !ends_inside(PAGE_AFTER_TITLE@, false),
        !ends_inside(CONSENT_1@, false),
        !ends_inside(CONSENT_2@, false),
        !ends_inside(CONSENT_3@, false),
        !ends_inside(CONSENT_4@, false),
        !ends_inside(CONSENT_5@, false),
        !ends_inside(CONSENT_6@, false),
        !ends_inside(CONSENT_7@, false),
        !ends_inside(NO_SCOPES_ITEM@, false),
        !ends_inside(LI_OPEN@, false),
        !ends_inside(LI_CLOSE@, false),
        !ends_inside(seq!['\n'], false),
{
    reveal_strlit("<!doctype html>\n<html lang=\"en\">\n<head>\n<meta charset=\"utf-8\">\n<meta name=\"viewport\" content=\"width=device-width, initial-scale=1\">\n<title>");
    reveal_strlit("Sign in?");
    reveal_strlit("</title>\n<link rel=\"stylesheet\" href=\"/auth/static/style.css\">\n</head>\n<body>\n");
    reveal_strlit("<h1>Sign in to ");
    reveal_strlit("?</h1>\n<div class=\"client\">\n  <p><strong>");
    reveal_strlit("</strong></p>\n  <p><code>");
    reveal_strlit("</code></p>\n  <p>Redirecting to: <code>");
    reveal_strlit("</code></p>\n</div>\n<p>This will share your identity (<code>");
    reveal_strlit("</code>) and grant:</p>\n<ul>");
    reveal_strlit("</ul>\n<form method=\"post\" class=\"actions\">\n  <button type=\"submit\" name=\"decision\" value=\"approve\">Approve</button>\n  <button type=\"submit\" name=\"decision\" value=\"deny\" class=\"deny\">Deny</button>\n</form>");
    reveal_strlit("<li><em>No specific permissions (identity only)</em></li>");
    reveal_strlit("<li>");
    reveal_strlit("</li>");
    let t = CONSENT_TITLE@;
    assert forall|k: int| 0 <= k < t.len() implies #[trigger] t[k] != '<' && t[k] != '>' by {}
    lemma_plain_text_no_markup(t);
    let a = PAGE_AFTER_TITLE@;
    assert(a.last() == '\n');
    assert(a.drop_last().last() == '>');
    assert(!ends_inside(a.drop_last(), false));
    assert(ends_inside(a, false) == ends_inside(a.drop_last(), false));
    let nl = seq!['\n'];
    assert(nl.drop_last() =~= Seq::<char>::empty());
    assert(ends_inside(nl, false) == ends_inside(nl.drop_last(), false));
    let c = CONSENT_1@;
    assert(c == seq!['<', 'h', '1', '>'] + seq!['S', 'i', 'g', 'n', ' ', 'i', 'n', ' ', 't', 'o', ' ']);
    lemma_markup_concat(seq!['<', 'h', '1', '>'], seq!['S', 'i', 'g', 'n', ' ', 'i', 'n', ' ', 't', 'o', ' '], false);
    let rest = seq!['S', 'i', 'g', 'n', ' ', 'i', 'n', ' ', 't', 'o', ' '];
    assert forall|k: int| 0 <= k < rest.len() implies #[trigger] rest[k] != '<' && rest[k] != '>' by {}
    assert(!ends_inside(seq!['<', 'h', '1', '>'], false));
    lemma_plain_text_no_markup(rest);
}

/// The markup of one scope's list item.
pub open spec fn item_markup() -> Seq<char> {
    markup(LI_OPEN@, false) + markup(LI_CLOSE@, false)
}

/// The markup of a list of `n` scope items, one per line.
pub open spec fn join_markup(n: nat) -> Seq<char>
    decreases n,
{
    if n <= 1 {
        item_markup()
    } else {
        join_markup((n - 1) as nat) + markup(seq!['\n'], false) + item_markup()
    }
}

/// The markup of the permissions list for `n` scopes.
pub open spec fn list_markup(n: nat) -> Seq<char> {
    if n == 0 {
        markup(NO_SCOPES_ITEM@, false)
    } else {
        join_markup(n)
    }
}

proof fn lemma_join_markup(scopes: Seq<Seq<char>>)
    requires
        scopes.len() >= 1,
    ensures
        markup(join_lines(scope_items(scopes)), false) == join_markup(scopes.len()),
        !ends_inside(join_lines(scope_items(scopes)), false),
    decreases scopes.len(),
{
    lemma_consent_texts_close_tags();
    let items = scope_items(scopes);
    let last = scopes.last();
    lemma_escape_adds_no_markup(last);
    lemma_markup_concat(LI_OPEN@, spec_escape(last), false);
    lemma_markup_concat(LI_OPEN@ + spec_escape(last), LI_CLOSE@, false);
    assert(items.last() == LI_OPEN@ + spec_escape(last) + LI_CLOSE@);
    assert(markup(items.last(), false) == item_markup());
    assert(!ends_inside(items.last(), false));
    if scopes.len() > 1 {
        assert(items.drop_last() =~= scope_items(scopes.drop_last()));
        lemma_join_markup(scopes.drop_last());
        let front = join_lines(items.drop_last());
        lemma_markup_concat(front, seq!['\n'], false);
        lemma_markup_concat(front + seq!['\n'], items.last(), false);
    } else {
        assert(join_lines(items) == items[0]);
    }
}

/// The markup of the consent page around a permissions list whose
/// markup is `list`.
pub open spec fn consent_frame_markup(list: Seq<char>) -> Seq<char> {
    markup(PAGE_HEAD@, false) + markup(CONSENT_TITLE@, false) + markup(PAGE_AFTER_TITLE@, false) + markup(
        CONSENT_1@,
        false,
    ) + markup(CONSENT_2@, false) + markup(CONSENT_3@, false) + markup(CONSENT_4@, false) + markup(
        CONSENT_5@,
        false,
    ) + markup(CONSENT_6@, false) + list + markup(CONSENT_7@, false) + markup(PAGE_TAIL@, false)
}

#[verifier::rlimit(60)]
proof fn lemma_consent_markup(
    client_id: Seq<char>,
    client_name: Option<Seq<char>>,
    redirect_uri: Seq<char>,
    scopes: Seq<Seq<char>>,
    me: Seq<char>,
)
    ensures
        markup(spec_consent_text(client_id, client_name, redirect_uri, scopes, me), false) == consent_frame_markup(
            list_markup(scopes.len()),
        ),
{
    lemma_consent_texts_close_tags();
    let name = spec_escape(display_name(client_id, client_name));
    let cid = spec_escape(client_id);
    let ru = spec_escape(redirect_uri);
    let m = spec_escape(me);
    let list = spec_scope_list(scopes);
    lemma_escape_adds_no_markup(display_name(client_id, client_name));
    lemma_escape_adds_no_markup(client_id);
    lemma_escape_adds_no_markup(redirect_uri);
    lemma_escape_adds_no_markup(me);
    if scopes.len() > 0 {
        lemma_join_markup(scopes);
    }
    assert(markup(list, false) == list_markup(scopes.len()));
    assert(!ends_inside(list, false));
    let b1 = CONSENT_1@ + name;
    let b2 = b1 + CONSENT_2@;
    let b3 = b2 + name;
    let b4 = b3 + CONSENT_3@;
    let b5 = b4 + cid;
    let b6 = b5 + CONSENT_4@;
    let b7 = b6 + ru;
    let b8 = b7 + CONSENT_5@;
    let b9 = b8 + m;
    let b10 = b9 + CONSENT_6@;
    let b11 = b10 + list;
    let body = b11 + CONSENT_7@;
    lemma_markup_concat(CONSENT_1@, name, false);
    lemma_markup_concat(b1, CONSENT_2@, false);
    lemma_markup_concat(b2, name, false);
    lemma_markup_concat(b3, CONSENT_3@, false);
    lemma_markup_concat(b4, cid, false);
    lemma_markup_concat(b5, CONSENT_4@, false);
    lemma_markup_concat(b6, ru, false);
    lemma_markup_concat(b7, CONSENT_5@, false);
    lemma_markup_concat(b8, m, false);
    lemma_markup_concat(b9, CONSENT_6@, false);
    lemma_markup_concat(b10, list, false);
    lemma_markup_concat(b11, CONSENT_7@, false);
    let p1 = PAGE_HEAD@ + CONSENT_TITLE@;
    let p2 = p1 + PAGE_AFTER_TITLE@;
    let p3 = p2 + body;
    lemma_markup_concat(PAGE_HEAD@, CONSENT_TITLE@, false);
    lemma_markup_concat(p1, PAGE_AFTER_TITLE@, false);
    lemma_markup_concat(p2, body, false);
    lemma_markup_concat(p3, PAGE_TAIL@, false);
    assert(spec_consent_text(client_id, client_name, redirect_uri, scopes, me) == p3 + PAGE_TAIL@);
    assert(markup(body, false) =~= markup(CONSENT_1@, false) + markup(CONSENT_2@, false) + markup(
        CONSENT_3@,
        false,
    ) + markup(CONSENT_4@, false) + markup(CONSENT_5@, false) + markup(CONSENT_6@, false) + list_markup(
        scopes.len(),
    ) + markup(CONSENT_7@, false));
    assert(markup(p3 + PAGE_TAIL@, false) =~= consent_frame_markup(list_markup(scopes.len())));
}

/// No value that reaches the consent page, whether the client's name,
/// client_id, redirect_uri or scopes or the owner's profile URL, can add,
/// remove or alter a tag or an attribute: two requests asking for as many
/// scopes give pages whose tags, every `<`...`>` run with what lies
/// within it, are the same, in the same order.
pub proof fn lemma_consent_markup_fixed(
    client_id: Seq<char>,
    client_name: Option<Seq<char>>,
    redirect_uri: Seq<char>,
    scopes: Seq<Seq<char>>,
    me: Seq<char>,
    other_client_id: Seq<char>,
    other_client_name: Option<Seq<char>>,
    other_redirect_uri: Seq<char>,
    other_scopes: Seq<Seq<char>>,
    other_me: Seq<char>,
)
    requires
        scopes.len() == other_scopes.len(),
    ensures
        markup(spec_consent_text(client_id, client_name, redirect_uri, scopes, me), false) == markup(
            spec_consent_text(other_client_id, other_client_name, other_redirect_uri, other_scopes, other_me),
            false,
        ),
{
    lemma_consent_markup(client_id, client_name, redirect_uri, scopes, me);
    lemma_consent_markup(other_client_id, other_client_name, other_redirect_uri, other_scopes, other_me);
}

/// One registered passkey as the credentials page lists it.
pub struct CredentialSummary<'a> {
    pub id_b64: &'a str,
    pub label: Option<&'a str>,
    pub created_at: &'a str,
    pub last_used_at: Option<&'a str>,
}

pub const UNLABELED: &'static str = "(unlabeled passkey)";

pub const NEVER_USED: &'static str = "never";

pub const EMPTY_TEXT: &'static str = "";

pub const ROW_1: &'static str = "<li>\n  <strong>";

pub const ROW_2: &'static str = "</strong> -- registered ";

pub const ROW_3: &'static str = ", last used ";

pub const ROW_4: &'static str = "\n  <form method=\"post\" action=\"/auth/credentials/rename\" class=\"inline-form\">\n    <input type=\"hidden\" name=\"credential_id\" value=\"";

pub const ROW_5: &'static str = "\">\n    <input type=\"text\" name=\"label\" value=\"";

pub const ROW_6: &'static str = "\" placeholder=\"e.g. YubiKey 5\">\n    <button type=\"submit\">Rename</button>\n  </form>\n  <form method=\"post\" action=\"/auth/credentials/delete\" class=\"inline-form\">\n    <input type=\"hidden\" name=\"credential_id\" value=\"";

pub const ROW_7: &'static str = "\">\n    <button type=\"submit\" ";

pub const ROW_8: &'static str = ">Remove</button>\n  </form>\n</li>";

pub const LAST_PASSKEY_DISABLED: &'static str = "disabled title=\"Can't remove your last passkey\"";

/// `opt`'s text, or `default` when absent.
pub open spec fn text_or(opt: Option<Seq<char>>, default: Seq<char>) -> Seq<char> {
    match opt {
        Some(s) => s,
        None => default,
    }
}

/// A listed passkey as plain text: its id in base64url, its label, when it
/// was registered and when it was last used.
pub type SummaryText = (Seq<char>, Option<Seq<char>>, Seq<char>, Option<Seq<char>>);

/// The text of a summary.
pub open spec fn summary_text(c: CredentialSummary) -> SummaryText {
    (c.id_b64@, opt_str_view(c.label), c.created_at@, opt_str_view(c.last_used_at))
}

/// The remove button is disabled when only one passkey is left, so the
/// owner cannot lock themselves out from this page.
pub open spec fn disabled_attr(count: nat) -> Seq<char> {
    if count <= 1 {
        LAST_PASSKEY_DISABLED@
    } else {
        EMPTY_TEXT@
    }
}

/// One list entry of the credentials page, with rename and remove forms.
pub open spec fn spec_credential_row(c: SummaryText, count: nat) -> Seq<char> {
    let id = spec_escape(c.0);
    ROW_1@ + spec_escape(text_or(c.1, UNLABELED@)) + ROW_2@ + spec_escape(c.2) + ROW_3@
        + spec_escape(text_or(c.3, NEVER_USED@)) + ROW_4@ + id + ROW_5@ + spec_escape(
        text_or(c.1, EMPTY_TEXT@),
    ) + ROW_6@ + id + ROW_7@ + disabled_attr(count) + ROW_8@
}

pub const CREDENTIALS_TITLE: &'static str = "Your passkeys";

pub const CREDENTIALS_1: &'static str = "<h1>Your passkeys</h1>\n<ul>";

pub const CREDENTIALS_2: &'static str = "</ul>\n<p><a href=\"/auth/register\">Register another passkey</a></p>\n<form method=\"post\" action=\"/auth/logout\"><button type=\"submit\">Sign out</button></form>";

/// All rows of the credentials page.
pub open spec fn credential_rows(creds: Seq<SummaryText>) -> Seq<Seq<char>> {
    Seq::new(creds.len(), |i: int| spec_credential_row(creds[i], creds.len()))
}

/// The credentials management page for the listed passkeys.
pub open spec fn spec_credentials_text(creds: Seq<SummaryText>) -> Seq<char> {
    spec_page(
        CREDENTIALS_TITLE@,
        CREDENTIALS_1@ + join_lines(credential_rows(creds)) + CREDENTIALS_2@,
    )
}

/// The credentials management page for `creds`.
pub open spec fn spec_credentials_page(creds: Seq<CredentialSummary>) -> Seq<char> {
    spec_credentials_text(creds.map_values(|c: CredentialSummary| summary_text(c)))
}

fn str_or<'a>(opt: Option<&'a str>, default: &'a str) -> (r: &'a str)
    ensures
        r@ == text_or(opt_str_view(opt), default@),
{
    match opt {
        Some(s) => s,
        None => default,
    }
}

fn credential_row(c: &CredentialSummary, count: usize) -> (r: String)
    ensures
        r@ == spec_credential_row(summary_text(*c), count as nat),
{
    let id = escape(c.id_b64);
    let label = escape(str_or(c.label, UNLABELED));
    let label_attr = escape(str_or(c.label, EMPTY_TEXT));
    let created = escape(c.created_at);
    let last_used = escape(str_or(c.last_used_at, NEVER_USED));
    let disabled = if count <= 1 {
        LAST_PASSKEY_DISABLED
    } else {
        EMPTY_TEXT
    };
    let mut out = String::new();
    out.append(ROW_1);
    out.append(label.as_str());
    out.append(ROW_2);
    out.append(created.as_str());
    out.append(ROW_3);
    out.append(last_used.as_str());
    out.append(ROW_4);
    out.append(id.as_str());
    out.append(ROW_5);
    out.append(label_attr.as_str());
    out.append(ROW_6);
    out.append(id.as_str());
    out.append(ROW_7);
    out.append(disabled);
    out.append(ROW_8);
    out
}

/// Renders the list of registered passkeys with rename and remove forms.
pub fn credentials_page(creds: &[CredentialSummary]) -> (r: String)
    ensures
        r@ == spec_credentials_page(creds@),
{
    let ghost rows = credential_rows(creds@.map_values(|c: CredentialSummary| summary_text(c)));
    let mut list = String::new();
    let mut i: usize = 0;
    while i < creds.len()
        invariant
            i <= creds@.len(),
            rows == credential_rows(creds@.map_values(|c: CredentialSummary| summary_text(c))),
            list@ == join_lines(rows.take(i as int)),
        decreases creds@.len() - i,
    {
        if i > 0 {
            push_char(&mut list, '\n');
        }
        let row = credential_row(&creds[i], creds.len());
        list.append(row.as_str());
        proof {
            let t = rows.take(i + 1);
            assert(t.drop_last() == rows.take(i as int));
            assert(t.last() == rows[i as int]);
            if i == 0 {
                assert(t.len() == 1);
            }
        }
        i = i + 1;
    }
    proof {
        assert(rows.take(creds@.len() as int) == rows);
    }
    let mut body = String::new();
    body.append(CREDENTIALS_1);
    body.append(list.as_str());
    body.append(CREDENTIALS_2);
    page(CREDENTIALS_TITLE, body.as_str())
}

pub const ERROR_TITLE: &'static str = "Error";

pub const ERROR_OPEN: &'static str = "<h1>Error</h1><p>";

pub const ERROR_CLOSE: &'static str = "</p>";

/// The error page, with the message escaped.
pub open spec fn spec_error_page(message: Seq<char>) -> Seq<char> {
    spec_page(ERROR_TITLE@, ERROR_OPEN@ + spec_escape(message) + ERROR_CLOSE@)
}

/// Renders an error page showing `message`.
pub fn error_page(message: &str) -> (r: String)
    ensures
        r@ == spec_error_page(message@),
{
    let e = escape(message);
    let mut body = String::new();
    body.append(ERROR_OPEN);
    body.append(e.as_str());
    body.append(ERROR_CLOSE);
    page(ERROR_TITLE, body.as_str())
}

pub const REDIRECT_TITLE: &'static str = "Redirecting...";

pub const REDIRECT_OPEN: &'static str = "<p>Redirecting...</p>\n<script type=\"application/json\" id=\"redirect-url\">";

pub const REDIRECT_CLOSE: &'static str = "</script>\n<script src=\"/auth/static/redirect.js\"></script>";

/// A same-origin page that navigates to `url` from script; the target is
/// carried as a JSON string literal in an inert data island.
pub open spec fn spec_redirect_page(url: Seq<char>) -> Seq<char> {
    spec_page(REDIRECT_TITLE@, REDIRECT_OPEN@ + json_string_literal(url) + REDIRECT_CLOSE@)
}

/// Navigates to `url` via script rather than an HTTP redirect, so that a
/// `form-action` policy restricted to the same origin does not block the
/// cross-origin hop after the consent form is submitted.
pub fn redirect_page(url: &str) -> (r: String)
    ensures
        r@ == spec_redirect_page(url@),
{
    let url_json = json_quote(url);
    let mut body = String::new();
    body.append(REDIRECT_OPEN);
    body.append(url_json.as_str());
    body.append(REDIRECT_CLOSE);
    page(REDIRECT_TITLE, body.as_str())
}

} // verus!
