//! `POST /auth/revocation`: withdraws a token. No authentication is needed
//! to give up a token one holds.

use vstd::prelude::*;
use crate::db::{DbError, SentStatement, Store, is_clock_text, now_text};
use crate::util::is_instant;
use super::Submitted;
use crate::db::tokens::{revoke_sent, revoke_token_at};
use crate::error::{Reply, STATUS_OK, json};
use crate::json::{JsonObject, JsonView};

verus! {

/// The form of a revocation request.
pub struct RevokeRequest {
    pub token: String,
}

/// Whether `now` is what reading the clock as RFC 3339 text gives: the
/// text of some instant it may read, or the clock error when RFC 3339
/// cannot write that instant.
pub open spec fn clock_outcome(now: Result<String, DbError>) -> bool {
    exists|t: int| is_instant(t) && #[trigger] is_clock_text(t, now)
}

/// What revoking `token` hands SQLite after `before`, given the clock's
/// reading `now`: its revocation stamped with the reading, or nothing
/// when the reading could not be written.
pub open spec fn revocation_sent(
    token: Seq<char>,
    now: Result<String, DbError>,
    before: Seq<SentStatement>,
    after: Seq<SentStatement>,
) -> bool {
    match now {
        Ok(t) => after == before.push(revoke_sent(token, t@)),
        Err(_) => after == before,
    }
}

/// Revokes `token` at the clock reading `now`, a reading that could not
/// be written revoking nothing.
pub fn revoke_at_reading(store: &mut Store, token: &str, now: Result<String, DbError>)
    ensures
        revocation_sent(token@, now, old(store).sent(), final(store).sent()),
{
    if let Ok(t) = now {
        let _ = revoke_token_at(store, token, t.as_str());
    }
}

/// Revokes the token in the form, if there is one, and always answers
/// `200 {}`, whether or not the token existed or the form parsed, so the
/// endpoint cannot be used to probe for tokens. Only a parsed form hands
/// SQLite anything: the revocation of its token, stamped with the clock's
/// reading, unless RFC 3339 cannot write that reading.
pub fn post(store: &mut Store, body: Submitted<RevokeRequest>) -> (r: Reply)
    ensures
        r.is_json(STATUS_OK, Seq::<(Seq<char>, JsonView)>::empty()),
        match body {
            Submitted::Parsed(f) => exists|now: Result<String, DbError>|
                clock_outcome(now) && #[trigger] revocation_sent(f.token@, now, old(store).sent(), final(store).sent()),
            _ => final(store).sent() == old(store).sent(),
        },
{
    if let Submitted::Parsed(f) = body {
        let now = now_text();
        let ghost reading = now;
        proof {
            assert(clock_outcome(reading));
        }
        revoke_at_reading(store, f.token.as_str(), now);
        proof {
            assert(revocation_sent(f.token@, reading, old(store).sent(), store.sent()));
        }
    }
    json(STATUS_OK, JsonObject::new())
}

} // verus!
