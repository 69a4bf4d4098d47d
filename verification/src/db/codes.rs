//! Authorization codes: issued on consent, redeemed once at the token
//! endpoint.

use vstd::prelude::*;
use super::{
    Answer,
    SentStatement,
    clock_failed,
    is_clock_reading,
    wrote_at_now,
    Store,
    is_write_failure,
    DbError,
    SqlValue,
    Statement,
    column_opt_text,
    column_text,
    now_text,
    opt_text_param,
    read_opt_text,
    read_text,
    statement,
    text_param,
    texts_view,
};
use crate::text::{opt_str_view, opt_text};
use crate::util::{is_instant, is_past_at, parse_rfc3339, rfc3339_instant, spec_is_past_at};

verus! {

/// A code to store, with the authorization request it answers.
pub struct NewCode<'a> {
    pub code: &'a str,
    pub client_id: &'a str,
    pub redirect_uri: &'a str,
    pub me: &'a str,
    pub scope: &'a str,
    pub code_challenge: &'a str,
    pub code_challenge_method: &'a str,
    pub state: Option<&'a str>,
    pub expires_at: &'a str,
}

pub const INSERT_CODE_SQL: &'static str = "INSERT INTO authorization_codes\n            (code, client_id, redirect_uri, me, scope, code_challenge,\n             code_challenge_method, state, created_at, expires_at)\n         VALUES (?1, ?2, ?3, ?4, ?5, ?6, ?7, ?8, ?9, ?10)";

/// The parameters of the insert: the request's fields, the creation time
/// `now` and the expiry.
pub open spec fn insert_code_params(c: NewCode, now: Seq<char>) -> Seq<Option<Seq<char>>> {
    seq![
        Some(c.code@),
        Some(c.client_id@),
        Some(c.redirect_uri@),
        Some(c.me@),
        Some(c.scope@),
        Some(c.code_challenge@),
        Some(c.code_challenge_method@),
        opt_str_view(c.state),
        Some(now),
        Some(c.expires_at@),
    ]
}

/// The statement that stores `c`, created at `now`.
pub fn insert_code_statement(c: &NewCode, now: &str) -> (r: Statement)
    ensures
        r.view() == (INSERT_CODE_SQL@, None::<Seq<u8>>, insert_code_params(*c, now@)),
{
    let mut p: Vec<Option<String>> = Vec::new();
    p.push(text_param(c.code));
    p.push(text_param(c.client_id));
    p.push(text_param(c.redirect_uri));
    p.push(text_param(c.me));
    p.push(text_param(c.scope));
    p.push(text_param(c.code_challenge));
    p.push(text_param(c.code_challenge_method));
    p.push(opt_text_param(c.state));
    p.push(text_param(now));
    p.push(text_param(c.expires_at));
    proof {
        assert(texts_view(p@) =~= insert_code_params(*c, now@));
    }
    statement(INSERT_CODE_SQL, None, p)
}

/// Stores a new authorization code, stamped with the current time.
pub fn insert_code(store: &mut Store, c: NewCode) -> (r: Result<(), DbError>)
    ensures
        r matches Err(e) ==> is_write_failure(e),
        wrote_at_now(
            old(store).sent(),
            final(store).sent(),
            clock_failed(r),
            |now: Seq<char>| (INSERT_CODE_SQL@, None::<Seq<u8>>, insert_code_params(c, now)),
        ),
        final(store).reads() == old(store).reads(),
{
    let now = match now_text() {
        Ok(t) => t,
        Err(e) => {
            return Err(e);
        },
    };
    let stmt = insert_code_statement(&c, now.as_str());
    let r = match store.execute(&stmt) {
        Ok(_) => Ok(()),
        Err(e) => Err(DbError::Sqlite(e)),
    };
    proof {
        assert(is_clock_reading(now@));
    }
    r
}

/// The request a redeemed code was issued for.
pub struct RedeemedCode {
    pub client_id: String,
    pub redirect_uri: String,
    pub me: String,
    pub scope: String,
    pub code_challenge: String,
    pub code_challenge_method: String,
}

/// A stored code as read back.
pub struct CodeRow {
    pub redeemed: RedeemedCode,
    pub expires_at: String,
    pub used_at: Option<String>,
}

pub const SELECT_CODE_SQL: &'static str = "SELECT client_id, redirect_uri, me, scope, code_challenge,\n                    code_challenge_method, expires_at, used_at\n             FROM authorization_codes WHERE code = ?1";

pub const MARK_CODE_USED_SQL: &'static str = "UPDATE authorization_codes SET used_at = ?2 WHERE code = ?1 AND used_at IS NULL";

/// The lookup of `code`.
pub fn select_code_statement(code: &str) -> (r: Statement)
    ensures
        r.view() == (SELECT_CODE_SQL@, None::<Seq<u8>>, seq![Some(code@)]),
{
    let mut p: Vec<Option<String>> = Vec::new();
    p.push(text_param(code));
    proof {
        assert(texts_view(p@) =~= seq![Some(code@)]);
    }
    statement(SELECT_CODE_SQL, None, p)
}

/// The update that claims `code`, stamping it used at `now`; it changes a
/// row only if the code is still unused.
pub fn mark_code_used_statement(code: &str, now: &str) -> (r: Statement)
    ensures
        r.view() == (MARK_CODE_USED_SQL@, None::<Seq<u8>>, seq![Some(code@), Some(now@)]),
{
    let mut p: Vec<Option<String>> = Vec::new();
    p.push(text_param(code));
    p.push(text_param(now));
    proof {
        assert(texts_view(p@) =~= seq![Some(code@), Some(now@)]);
    }
    statement(MARK_CODE_USED_SQL, None, p)
}

/// Whether a row of code columns reads cleanly: seven text columns and a
/// nullable text column.
pub open spec fn code_row_reads(row: Seq<SqlValue>) -> bool {
    &&& row.len() == 8
    &&& forall|k: int| 0 <= k < 7 ==> (#[trigger] column_text(row[k])) is Some
    &&& column_opt_text(row[7]) is Some
}

impl CodeRow {
    /// The columns as text, in query order.
    pub open spec fn view(&self) -> (Seq<Seq<char>>, Option<Seq<char>>) {
        (
            seq![
                self.redeemed.client_id@,
                self.redeemed.redirect_uri@,
                self.redeemed.me@,
                self.redeemed.scope@,
                self.redeemed.code_challenge@,
                self.redeemed.code_challenge_method@,
                self.expires_at@,
            ],
            opt_text(self.used_at),
        )
    }
}

/// Reads a row of the code lookup.
pub fn read_code_row(row: Vec<SqlValue>) -> (r: Result<CodeRow, DbError>)
    requires
        row@.len() == 8,
    ensures
        r is Ok <==> code_row_reads(row@),
        r matches Ok(c) ==> (forall|k: int| 0 <= k < 7 ==> column_text(row@[k]) == Some(#[trigger] c.view().0[k]))
            && column_opt_text(row@[7]) == Some(c.view().1),
        r is Err ==> r matches Err(DbError::ColumnType),
{
    let ghost cols = row@;
    let mut row = row;
    let used_v = row.pop().unwrap();
    let expires_v = row.pop().unwrap();
    let method_v = row.pop().unwrap();
    let challenge_v = row.pop().unwrap();
    let scope_v = row.pop().unwrap();
    let me_v = row.pop().unwrap();
    let redirect_v = row.pop().unwrap();
    let client_v = row.pop().unwrap();
    proof {
        assert(client_v == cols[0] && redirect_v == cols[1] && me_v == cols[2] && scope_v == cols[3]);
        assert(challenge_v == cols[4] && method_v == cols[5] && expires_v == cols[6] && used_v == cols[7]);
    }
    let client_id = read_text(client_v);
    let redirect_uri = read_text(redirect_v);
    let me = read_text(me_v);
    let scope = read_text(scope_v);
    let code_challenge = read_text(challenge_v);
    let code_challenge_method = read_text(method_v);
    let expires_at = read_text(expires_v);
    let used_at = read_opt_text(used_v);
    match (client_id, redirect_uri, me, scope, code_challenge, code_challenge_method, expires_at, used_at) {
        (Ok(client_id), Ok(redirect_uri), Ok(me), Ok(scope), Ok(code_challenge), Ok(code_challenge_method), Ok(expires_at), Ok(used_at)) => {
            let c = CodeRow {
                redeemed: RedeemedCode { client_id, redirect_uri, me, scope, code_challenge, code_challenge_method },
                expires_at,
                used_at,
            };
            proof {
                assert forall|k: int| 0 <= k < 7 implies column_text(cols[k]) == Some(#[trigger] c.view().0[k]) by {
                    if k == 0 {} else if k == 1 {} else if k == 2 {} else if k == 3 {} else if k == 4 {} else if k == 5 {} else {}
                }
                assert forall|k: int| 0 <= k < 7 implies (#[trigger] column_text(cols[k])) is Some by {
                    assert(column_text(cols[k]) == Some(c.view().0[k]));
                }
            }
            Ok(c)
        },
        _ => {
            proof {
                assert(!code_row_reads(cols)) by {
                    if code_row_reads(cols) {
                        assert(column_text(cols[0]) is Some);
                        assert(column_text(cols[1]) is Some);
                        assert(column_text(cols[2]) is Some);
                        assert(column_text(cols[3]) is Some);
                        assert(column_text(cols[4]) is Some);
                        assert(column_text(cols[5]) is Some);
                        assert(column_text(cols[6]) is Some);
                    }
                }
            }
            Err(DbError::ColumnType)
        },
    }
}

/// A stored code may be redeemed at `now` when it was never used and its
/// expiry (unparsable text counting as passed) is still ahead.
pub open spec fn spec_redeemable(used_at: Option<Seq<char>>, expires_at: Seq<char>, now: int) -> bool {
    used_at is None && !spec_is_past_at(rfc3339_instant(expires_at), now)
}

/// Whether `row` may be redeemed at the instant `now`.
pub fn redeemable(row: &CodeRow, now: i128) -> (r: bool)
    ensures
        r == spec_redeemable(opt_text(row.used_at), row.expires_at@, now as int),
{
    if row.used_at.is_some() {
        return false;
    }
    let expiry = parse_rfc3339(row.expires_at.as_str());
    !is_past_at(expiry, now)
}

/// Whether `c` is the request of the stored code `row`, read when the
/// clock showed `now`, and the row was then redeemable.
pub open spec fn redeemed_from(row: CodeRow, now: int, c: RedeemedCode) -> bool {
    &&& is_instant(now)
    &&& row.redeemed == c
    &&& spec_redeemable(opt_text(row.used_at), row.expires_at@, now)
}

/// The statement that claims `code` at the clock reading `now`.
pub open spec fn mark_used_sent(code: Seq<char>, now: Seq<char>) -> SentStatement {
    (MARK_CODE_USED_SQL@, None::<Seq<u8>>, seq![Some(code), Some(now)])
}

/// What redeeming gives, from the row SQLite found for the code (if
/// any), the clock reading `now`, and how many rows the claim changed (if
/// the claim was made): the request only when the row was redeemable and
/// the claim changed exactly one row, that is when no other redemption
/// claimed it first.
pub open spec fn redemption(found: Option<CodeRow>, now: int, updated: Option<usize>) -> Option<RedeemedCode> {
    match found {
        Some(row) => if spec_redeemable(opt_text(row.used_at), row.expires_at@, now) && updated == Some(1usize) {
            Some(row.redeemed)
        } else {
            None
        },
        None => None,
    }
}

/// Whether the claim is made: on a found row that is redeemable at `now`.
pub open spec fn claim_made(found: Option<CodeRow>, now: int) -> bool {
    found matches Some(row) && spec_redeemable(opt_text(row.used_at), row.expires_at@, now)
}

/// The request of a claimed code, from the row read at `now` and the
/// number of rows the claim changed.
pub fn claimed(row: CodeRow, now: i128, updated: usize) -> (r: Option<RedeemedCode>)
    ensures
        r == redemption(Some(row), now as int, Some(updated)),
{
    if redeemable(&row, now) && updated == 1 {
        Some(row.redeemed)
    } else {
        None
    }
}

/// Whether a redemption that read `found` at `now` and claimed `updated`
/// rows handed SQLite exactly what it should: the claim of `code` at a
/// clock reading when the claim was made, nothing otherwise.
pub open spec fn redeem_record(
    before: Seq<SentStatement>,
    after: Seq<SentStatement>,
    code: Seq<char>,
    found: Option<CodeRow>,
    now: int,
    updated: Option<usize>,
) -> bool {
    &&& (updated is Some <==> claim_made(found, now))
    &&& if claim_made(found, now) {
        exists|t: Seq<char>| #[trigger] is_clock_reading(t) && after == before.push(mark_used_sent(code, t))
    } else {
        after == before
    }
}

/// Whether `c` came from a stored code that was redeemable when read.
pub open spec fn was_redeemable(c: RedeemedCode) -> bool {
    exists|row: CodeRow, now: int| #[trigger] redeemed_from(row, now, c)
}

/// Whether `row` holds the columns `cols` as read.
pub open spec fn code_row_is(row: CodeRow, cols: Seq<SqlValue>) -> bool {
    &&& forall|k: int| 0 <= k < 7 ==> column_text(cols[k]) == Some(#[trigger] row.view().0[k])
    &&& column_opt_text(cols[7]) == Some(row.view().1)
}

/// Whether `found` is what SQLite's answer `ans` to the code lookup
/// gave: no row, or the row it returned, read cleanly.
pub open spec fn found_in(found: Option<CodeRow>, ans: Answer) -> bool {
    match found {
        None => ans == Some(Seq::<Seq<SqlValue>>::empty()),
        Some(row) => ans matches Some(rows) && rows.len() > 0 && code_row_reads(rows[0]) && code_row_is(
            row,
            rows[0],
        ),
    }
}

/// Whether `changed` is what SQLite answered the claims after `before`:
/// the number of rows the claim changed when it was made, nothing more
/// otherwise.
pub open spec fn claim_answered(
    before: Seq<Option<usize>>,
    changed: Seq<Option<usize>>,
    updated: Option<usize>,
) -> bool {
    match updated {
        Some(n) => changed == before.push(Some(n)),
        None => changed == before,
    }
}

/// Claims a code for single use: looks it up, refuses a code already used
/// or past its expiry, then marks it used with an update that only
/// changes a still-unused row, and hands back the request only if exactly
/// one row changed. A second redemption of the same code therefore finds
/// it used and gets nothing.
pub fn redeem_code(store: &mut Store, code: &str) -> (r: Result<Option<RedeemedCode>, DbError>)
    ensures
        final(store).reads() == old(store).reads().push(final(store).reads().last()),
        r matches Err(e) ==> (e is Sqlite || e is Clock || e is ColumnType),
        r matches Ok(Some(c)) ==> was_redeemable(c),
        final(store).queried() == old(store).queried().push(
            (SELECT_CODE_SQL@, None::<Seq<u8>>, seq![Some(code@)]),
        ),
        r matches Ok(o) ==> exists|found: Option<CodeRow>, now: int, updated: Option<usize>|
            #![trigger redemption(found, now, updated)]
            is_instant(now) && o == redemption(found, now, updated) && redeem_record(
                old(store).sent(),
                final(store).sent(),
                code@,
                found,
                now,
                updated,
            ) && found_in(found, final(store).reads().last().1) && claim_answered(
                old(store).changed(),
                final(store).changed(),
                updated,
            ),
        r matches Ok(Some(_)) ==> exists|now: Seq<char>|
            #[trigger] is_clock_reading(now) && final(store).sent() == old(store).sent().push(
                mark_used_sent(code@, now),
            ),
        final(store).sent() == old(store).sent() || exists|now: Seq<char>|
            #[trigger] is_clock_reading(now) && final(store).sent() == old(store).sent().push(
                mark_used_sent(code@, now),
            ),
{
    let found = match store.query_one(&select_code_statement(code), 8) {
        Ok(f) => f,
        Err(e) => {
            return Err(DbError::Sqlite(e));
        },
    };
    let clock = crate::util::now();
    let ghost ans = store.reads().last().1;
    let row = match found {
        Some(row) => {
            let ghost cols = row@;
            proof {
                assert(ans == Some(seq![cols]));
            }
            let c = read_code_row(row)?;
            proof {
                assert(found_in(Some(c), ans));
            }
            c
        },
        None => {
            proof {
                assert(found_in(None, ans));
                assert(claim_answered(old(store).changed(), store.changed(), None));
                assert(redemption(None, clock as int, None) is None);
                assert(redeem_record(old(store).sent(), store.sent(), code@, None, clock as int, None));
            }
            return Ok(None);
        },
    };
    if !redeemable(&row, clock) {
        proof {
            assert(redemption(Some(row), clock as int, None) is None);
            assert(redeem_record(old(store).sent(), store.sent(), code@, Some(row), clock as int, None));
            assert(claim_answered(old(store).changed(), store.changed(), None));
        }
        return Ok(None);
    }
    let now = match now_text() {
        Ok(t) => t,
        Err(e) => {
            return Err(e);
        },
    };
    let updated = match store.execute(&mark_code_used_statement(code, now.as_str())) {
        Ok(n) => n,
        Err(e) => {
            return Err(DbError::Sqlite(e));
        },
    };
    proof {
        assert(is_clock_reading(now@));
    }
    let ghost read = row;
    let r = claimed(row, clock, updated);
    proof {
        assert(redeem_record(old(store).sent(), store.sent(), code@, Some(read), clock as int, Some(updated)));
        assert(claim_answered(old(store).changed(), store.changed(), Some(updated)));
        assert(found_in(Some(read), store.reads().last().1));
        if updated == 1 {
            assert(redeemed_from(read, clock as int, read.redeemed));
            assert(was_redeemable(read.redeemed));
        }
    }
    Ok(r)
}

} // verus!
