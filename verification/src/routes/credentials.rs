//! `/auth/credentials`: the owner's registered passkeys, with renaming and
//! removal. The last passkey can never be removed, so the owner cannot
//! lock themselves out.

use vstd::prelude::*;
use crate::db::{SentStatement, Store};
use super::{CROSS_SITE, NOT_SIGNED_IN, Submitted, owner_signed_in, signed_in};
use crate::codec::{b64url_decode, b64url_encode, base64url_decode, base64url_encode};
use crate::csrf::{is_same_site, spec_is_same_site};
use crate::db::credentials::{
    CredentialRow,
    COUNT_CREDENTIALS_SQL,
    DELETE_CREDENTIAL_SQL,
    LIST_CREDENTIALS_SQL,
    RENAME_CREDENTIAL_SQL,
    count_credentials,
    count_or_none,
    delete_credential,
    shown_listing,
    is_listing,
    list_credentials,
    read_from_rows,
    rename_credential,
};
use crate::error::{Reply, STATUS_BAD_REQUEST, STATUS_FORBIDDEN, STATUS_OK, bad_request, forbidden, html, redirect};
use crate::headers::{HeaderList, HttpMethod};
use crate::html::{CredentialSummary, SummaryText, credentials_page, spec_credentials_text, spec_error_page, summary_text};
use crate::session::SessionData;
use crate::text::{opt_text, trim, trim_string};

verus! {

/// The form naming a passkey to remove.
pub struct CredentialForm {
    pub credential_id: String,
}

/// The form renaming a passkey.
pub struct RenameForm {
    pub credential_id: String,
    pub label: String,
}

pub const CREDENTIALS_PATH: &'static str = "/auth/credentials";

pub const CREDENTIALS_LOGIN: &'static str = "/auth/login?return_to=%2Fauth%2Fcredentials";

pub const INVALID_REQUEST: &'static str = "Invalid request";

pub const INVALID_CREDENTIAL_ID: &'static str = "Invalid credential id";

pub const LAST_PASSKEY: &'static str = "Can't remove your last passkey -- register a replacement first";

/// A stored passkey as the page lists it, its id in base64url.
pub open spec fn listing_text(c: CredentialRow) -> SummaryText {
    (b64url_encode(c.credential_id@), opt_text(c.label), c.created_at@, opt_text(c.last_used_at))
}

/// The listed passkeys as text.
pub open spec fn listing_texts(rows: Seq<CredentialRow>) -> Seq<SummaryText> {
    rows.map_values(|c: CredentialRow| listing_text(c))
}

/// The page listing `creds`.
pub fn listing_page(creds: &Vec<CredentialRow>) -> (r: String)
    ensures
        r@ == spec_credentials_text(listing_texts(creds@)),
{
    let mut ids: Vec<String> = Vec::new();
    let mut i: usize = 0;
    while i < creds.len()
        invariant
            i <= creds@.len(),
            ids@.len() == i,
            forall|k: int| 0 <= k < i ==> (#[trigger] ids@[k])@ == b64url_encode(creds@[k].credential_id@),
        decreases creds@.len() - i,
    {
        ids.push(base64url_encode(creds[i].credential_id.as_slice()));
        i = i + 1;
    }
    let mut summaries: Vec<CredentialSummary> = Vec::new();
    let mut j: usize = 0;
    while j < creds.len()
        invariant
            j <= creds@.len(),
            ids@.len() == creds@.len(),
            forall|k: int| 0 <= k < creds@.len() ==> (#[trigger] ids@[k])@ == b64url_encode(creds@[k].credential_id@),
            summaries@.len() == j,
            forall|k: int| 0 <= k < j ==> summary_text(#[trigger] summaries@[k]) == listing_text(creds@[k]),
        decreases creds@.len() - j,
    {
        let c = &creds[j];
        let label = match &c.label {
            Some(l) => Some(l.as_str()),
            None => None,
        };
        let last_used = match &c.last_used_at {
            Some(l) => Some(l.as_str()),
            None => None,
        };
        summaries.push(CredentialSummary { id_b64: ids[j].as_str(), label, created_at: c.created_at.as_str(), last_used_at: last_used });
        j = j + 1;
    }
    proof {
        assert(summaries@.map_values(|c: CredentialSummary| summary_text(c)) =~= listing_texts(creds@));
    }
    credentials_page(summaries.as_slice())
}

/// `GET /auth/credentials`: the signed-in owner sees their passkeys (none
/// listed when they could not be read); anyone else is sent to sign in.
pub fn page(store: &mut Store, headers: &HeaderList, owner: &Option<SessionData>) -> (r: Reply)
    ensures
        !owner_signed_in(*headers, *owner) ==> r.is_redirect(CREDENTIALS_LOGIN@),
        owner_signed_in(*headers, *owner) ==> exists|rows: Seq<CredentialRow>|
            shown_listing(final(store).reads().last().1, rows) && r.is_html(
                STATUS_OK,
                spec_credentials_text(#[trigger] listing_texts(rows)),
            ),
        final(store).sent() == old(store).sent(),
        final(store).queried() == if owner_signed_in(*headers, *owner) {
            old(store).queried().push(
                (LIST_CREDENTIALS_SQL@, None::<Seq<u8>>, Seq::<Option<Seq<char>>>::empty()),
            )
        } else {
            old(store).queried()
        },
{
    if !signed_in(headers, owner) {
        return redirect(CREDENTIALS_LOGIN);
    }
    let creds = match list_credentials(store) {
        Ok(c) => c,
        Err(_) => Vec::new(),
    };
    let r = html(STATUS_OK, listing_page(&creds));
    proof {
        assert(shown_listing(store.reads().last().1, creds@));
        assert(r.is_html(STATUS_OK, spec_credentials_text(listing_texts(creds@))));
    }
    r
}

/// The checks that removing and renaming share: same-site, signed in, a
/// readable form and a valid base64url id.
pub open spec fn spec_form_refusal(
    method: HttpMethod,
    headers: HeaderList,
    rp_origin: Seq<char>,
    owner: Option<SessionData>,
    parsed_id: Option<Seq<char>>,
) -> Option<(u16, Seq<char>)> {
    if !spec_is_same_site(method, headers.pairs(), rp_origin) {
        Some((STATUS_FORBIDDEN, CROSS_SITE@))
    } else if !owner_signed_in(headers, owner) {
        Some((STATUS_FORBIDDEN, NOT_SIGNED_IN@))
    } else {
        match parsed_id {
            None => Some((STATUS_BAD_REQUEST, INVALID_REQUEST@)),
            Some(id) => if b64url_decode(id) is None {
                Some((STATUS_BAD_REQUEST, INVALID_CREDENTIAL_ID@))
            } else {
                None
            },
        }
    }
}

/// The text of the id a submitted form names, if it parsed.
pub open spec fn submitted_id(body: Submitted<CredentialForm>) -> Option<Seq<char>> {
    match body {
        Submitted::Parsed(f) => Some(f.credential_id@),
        _ => None,
    }
}

/// What removing the passkey `id` when `count` passkeys are registered
/// gives and hands SQLite after `before`: the last one is refused and
/// nothing is deleted; otherwise its deletion, and back to the list.
pub open spec fn removal(
    count: int,
    id: Seq<u8>,
    before: Seq<SentStatement>,
    after: Seq<SentStatement>,
    r: Reply,
) -> bool {
    if count <= 1 {
        r.is_html(STATUS_BAD_REQUEST, spec_error_page(LAST_PASSKEY@)) && after == before
    } else {
        r.is_redirect(CREDENTIALS_PATH@) && after == before.push(
            (DELETE_CREDENTIAL_SQL@, Some(id), Seq::<Option<Seq<char>>>::empty()),
        )
    }
}

/// Removes the passkey `credential_id` given the number of registered
/// passkeys `count`: never the last one.
pub fn remove_passkey(store: &mut Store, credential_id: &[u8], count: i64) -> (r: Reply)
    ensures
        removal(count as int, credential_id@, old(store).sent(), final(store).sent(), r),
        final(store).reads() == old(store).reads(),
{
    if count <= 1 {
        return bad_request(LAST_PASSKEY);
    }
    let _ = delete_credential(store, credential_id);
    redirect(CREDENTIALS_PATH)
}

/// `POST /auth/credentials/delete`: removes a passkey, refusing when at
/// most one is registered (a count that cannot be read counts as none).
/// The count is the answer to the count query; a refused request hands
/// SQLite nothing.
pub fn delete(
    store: &mut Store,
    method: HttpMethod,
    headers: &HeaderList,
    rp_origin: &str,
    owner: &Option<SessionData>,
    body: Submitted<CredentialForm>,
) -> (r: Reply)
    ensures
        match spec_form_refusal(method, *headers, rp_origin@, *owner, submitted_id(body)) {
            Some((status, msg)) => r.is_html(status, spec_error_page(msg)) && final(store).sent() == old(
                store,
            ).sent(),
            None => removal(
                count_or_none(final(store).reads().last().1),
                b64url_decode(submitted_id(body)->0)->0,
                old(store).sent(),
                final(store).sent(),
                r,
            ),
        },
        final(store).queried() == if spec_form_refusal(method, *headers, rp_origin@, *owner, submitted_id(body)) is Some {
            old(store).queried()
        } else {
            old(store).queried().push(
                (COUNT_CREDENTIALS_SQL@, None::<Seq<u8>>, Seq::<Option<Seq<char>>>::empty()),
            )
        },
{
    if !is_same_site(&method, headers, rp_origin) {
        return forbidden(CROSS_SITE);
    }
    if !signed_in(headers, owner) {
        return forbidden(NOT_SIGNED_IN);
    }
    let form = match body {
        Submitted::Parsed(f) => f,
        _ => {
            return bad_request(INVALID_REQUEST);
        },
    };
    let credential_id = match base64url_decode(form.credential_id.as_str()) {
        Some(id) => id,
        None => {
            return bad_request(INVALID_CREDENTIAL_ID);
        },
    };
    let count = match count_credentials(store) {
        Ok(n) => n,
        Err(_) => 0,
    };
    let r = remove_passkey(store, credential_id.as_slice(), count);
    proof {
        assert(submitted_id(body) == Some(form.credential_id@));
        assert(b64url_decode(submitted_id(body)->0)->0 == credential_id@);
        assert(count as int == count_or_none(store.reads().last().1));
        assert(removal(count as int, credential_id@, old(store).sent(), store.sent(), r));
    }
    r
}

/// A label as stored: trimmed, and none when nothing is left.
pub open spec fn spec_label(label: Seq<char>) -> Option<Seq<char>> {
    if trim(label).len() == 0 {
        None
    } else {
        Some(trim(label))
    }
}

/// Trims a submitted label; an empty one clears the label.
pub fn normalize_label(label: &str) -> (r: Option<String>)
    ensures
        opt_text(r) == spec_label(label@),
{
    let t = trim_string(label);
    if t.as_str().unicode_len() == 0 {
        None
    } else {
        Some(t)
    }
}

/// `POST /auth/credentials/rename`: sets a passkey's label (trimmed; an
/// empty label clears it) and returns to the list. A refused request
/// hands SQLite nothing.
pub fn rename(
    store: &mut Store,
    method: HttpMethod,
    headers: &HeaderList,
    rp_origin: &str,
    owner: &Option<SessionData>,
    body: Submitted<RenameForm>,
) -> (r: Reply)
    ensures
        match spec_form_refusal(
            method,
            *headers,
            rp_origin@,
            *owner,
            match body {
                Submitted::Parsed(f) => Some(f.credential_id@),
                _ => None,
            },
        ) {
            Some((status, msg)) => r.is_html(status, spec_error_page(msg)) && final(store).sent() == old(
                store,
            ).sent(),
            None => r.is_redirect(CREDENTIALS_PATH@) && match body {
                Submitted::Parsed(f) => final(store).sent() == old(store).sent().push(
                    (
                        RENAME_CREDENTIAL_SQL@,
                        b64url_decode(f.credential_id@),
                        seq![spec_label(f.label@)],
                    ),
                ),
                _ => false,
            },
        },
{
    if !is_same_site(&method, headers, rp_origin) {
        return forbidden(CROSS_SITE);
    }
    if !signed_in(headers, owner) {
        return forbidden(NOT_SIGNED_IN);
    }
    let form = match body {
        Submitted::Parsed(f) => f,
        _ => {
            return bad_request(INVALID_REQUEST);
        },
    };
    let credential_id = match base64url_decode(form.credential_id.as_str()) {
        Some(id) => id,
        None => {
            return bad_request(INVALID_CREDENTIAL_ID);
        },
    };
    let label = normalize_label(form.label.as_str());
    let label_ref = match &label {
        Some(l) => Some(l.as_str()),
        None => None,
    };
    let _ = rename_credential(store, credential_id.as_slice(), label_ref);
    redirect(CREDENTIALS_PATH)
}

} // verus!
