//! Access tokens: issued at the token endpoint, checked by introspection,
//! withdrawn by revocation.

use vstd::prelude::*;
use super::{
    Answer,
    SentStatement,
    clock_failed,
    is_clock_reading,
    wrote_at_now,
    Store,
    is_read_failure,
    is_write_failure,
    DbError,
    SqlValue,
    Statement,
    column_opt_text,
    column_text,
    now_text,
    opt_text_param,
    read_opt_text,
    read_text,
    statement,
    text_param,
    texts_view,
};
use crate::text::{opt_str_view, opt_text};
use crate::util::{is_instant, is_past_at, parse_rfc3339, rfc3339_instant, spec_is_past_at};

verus! {

pub const INSERT_TOKEN_SQL: &'static str = "INSERT INTO access_tokens (token, client_id, me, scope, created_at, expires_at)\n         VALUES (?1, ?2, ?3, ?4, ?5, ?6)";

pub const SELECT_TOKEN_SQL: &'static str = "SELECT client_id, me, scope, created_at, expires_at, revoked_at\n             FROM access_tokens WHERE token = ?1";

pub const REVOKE_TOKEN_SQL: &'static str = "UPDATE access_tokens SET revoked_at = ?2 WHERE token = ?1 AND revoked_at IS NULL";

/// The statement that stores a token issued at `now`.
pub fn insert_token_statement(
    token: &str,
    client_id: &str,
    me: &str,
    scope: &str,
    expires_at: Option<&str>,
    now: &str,
) -> (r: Statement)
    ensures
        r.view() == (
            INSERT_TOKEN_SQL@,
            None::<Seq<u8>>,
            seq![Some(token@), Some(client_id@), Some(me@), Some(scope@), Some(now@), opt_str_view(expires_at)],
        ),
{
    let mut p: Vec<Option<String>> = Vec::new();
    p.push(text_param(token));
    p.push(text_param(client_id));
    p.push(text_param(me));
    p.push(text_param(scope));
    p.push(text_param(now));
    p.push(opt_text_param(expires_at));
    proof {
        assert(texts_view(p@) =~= seq![Some(token@), Some(client_id@), Some(me@), Some(scope@), Some(now@), opt_str_view(expires_at)]);
    }
    statement(INSERT_TOKEN_SQL, None, p)
}

/// The statement that stores a token issued at the clock reading `now`.
pub open spec fn insert_token_sent(
    token: Seq<char>,
    client_id: Seq<char>,
    me: Seq<char>,
    scope: Seq<char>,
    expires_at: Option<Seq<char>>,
    now: Seq<char>,
) -> SentStatement {
    (
        INSERT_TOKEN_SQL@,
        None::<Seq<u8>>,
        seq![Some(token), Some(client_id), Some(me), Some(scope), Some(now), expires_at],
    )
}

/// The statement that revokes `token` at the clock reading `now`.
pub open spec fn revoke_sent(token: Seq<char>, now: Seq<char>) -> SentStatement {
    (REVOKE_TOKEN_SQL@, None::<Seq<u8>>, seq![Some(token), Some(now)])
}

/// Stores a newly issued access token, stamped with the current time.
pub fn insert_token(
    store: &mut Store,
    token: &str,
    client_id: &str,
    me: &str,
    scope: &str,
    expires_at: Option<&str>,
) -> (r: Result<(), DbError>)
    ensures
        r matches Err(e) ==> is_write_failure(e),
        wrote_at_now(
            old(store).sent(),
            final(store).sent(),
            clock_failed(r),
            |now: Seq<char>| insert_token_sent(token@, client_id@, me@, scope@, opt_str_view(expires_at), now),
        ),
        final(store).reads() == old(store).reads(),
{
    let now = match now_text() {
        Ok(t) => t,
        Err(e) => {
            return Err(e);
        },
    };
    let r = match store.execute(&insert_token_statement(token, client_id, me, scope, expires_at, now.as_str())) {
        Ok(_) => Ok(()),
        Err(e) => Err(DbError::Sqlite(e)),
    };
    proof {
        assert(is_clock_reading(now@));
    }
    r
}

/// A token that is neither revoked nor expired.
pub struct ActiveToken {
    pub client_id: String,
    pub me: String,
    pub scope: String,
    pub created_at: String,
    pub expires_at: Option<String>,
}

/// The lookup of `token`.
pub fn select_token_statement(token: &str) -> (r: Statement)
    ensures
        r.view() == (SELECT_TOKEN_SQL@, None::<Seq<u8>>, seq![Some(token@)]),
{
    let mut p: Vec<Option<String>> = Vec::new();
    p.push(text_param(token));
    proof {
        assert(texts_view(p@) =~= seq![Some(token@)]);
    }
    statement(SELECT_TOKEN_SQL, None, p)
}

/// The update that revokes `token` at `now`, if not revoked already.
pub fn revoke_token_statement(token: &str, now: &str) -> (r: Statement)
    ensures
        r.view() == (REVOKE_TOKEN_SQL@, None::<Seq<u8>>, seq![Some(token@), Some(now@)]),
{
    let mut p: Vec<Option<String>> = Vec::new();
    p.push(text_param(token));
    p.push(text_param(now));
    proof {
        assert(texts_view(p@) =~= seq![Some(token@), Some(now@)]);
    }
    statement(REVOKE_TOKEN_SQL, None, p)
}

/// A token row as read back.
pub struct TokenRow {
    pub token: ActiveToken,
    pub revoked_at: Option<String>,
}

impl ActiveToken {
    /// The fields as text.
    pub open spec fn view(&self) -> (Seq<char>, Seq<char>, Seq<char>, Seq<char>, Option<Seq<char>>) {
        (self.client_id@, self.me@, self.scope@, self.created_at@, opt_text(self.expires_at))
    }
}

/// Whether a token row reads cleanly: four text columns, then two
/// nullable text columns.
pub open spec fn token_row_reads(row: Seq<SqlValue>) -> bool {
    &&& row.len() == 6
    &&& column_text(row[0]) is Some
    &&& column_text(row[1]) is Some
    &&& column_text(row[2]) is Some
    &&& column_text(row[3]) is Some
    &&& column_opt_text(row[4]) is Some
    &&& column_opt_text(row[5]) is Some
}

/// The token row's fields read from its columns.
pub open spec fn token_row_view(row: Seq<SqlValue>) -> ((Seq<char>, Seq<char>, Seq<char>, Seq<char>, Option<Seq<char>>), Option<Seq<char>>) {
    (
        (
            column_text(row[0])->0,
            column_text(row[1])->0,
            column_text(row[2])->0,
            column_text(row[3])->0,
            column_opt_text(row[4])->0,
        ),
        column_opt_text(row[5])->0,
    )
}

/// Reads a row of the token lookup.
pub fn read_token_row(row: Vec<SqlValue>) -> (r: Result<TokenRow, DbError>)
    requires
        row@.len() == 6,
    ensures
        r is Ok <==> token_row_reads(row@),
        r matches Ok(t) ==> (t.token.view(), opt_text(t.revoked_at)) == token_row_view(row@),
        r is Err ==> r matches Err(DbError::ColumnType),
{
    let ghost cols = row@;
    let mut row = row;
    let revoked_v = row.pop().unwrap();
    let expires_v = row.pop().unwrap();
    let created_v = row.pop().unwrap();
    let scope_v = row.pop().unwrap();
    let me_v = row.pop().unwrap();
    let client_v = row.pop().unwrap();
    proof {
        assert(client_v == cols[0] && me_v == cols[1] && scope_v == cols[2]);
        assert(created_v == cols[3] && expires_v == cols[4] && revoked_v == cols[5]);
    }
    let client_id = read_text(client_v);
    let me = read_text(me_v);
    let scope = read_text(scope_v);
    let created_at = read_text(created_v);
    let expires_at = read_opt_text(expires_v);
    let revoked_at = read_opt_text(revoked_v);
    match (client_id, me, scope, created_at, expires_at, revoked_at) {
        (Ok(client_id), Ok(me), Ok(scope), Ok(created_at), Ok(expires_at), Ok(revoked_at)) => {
            Ok(TokenRow { token: ActiveToken { client_id, me, scope, created_at, expires_at }, revoked_at })
        },
        _ => Err(DbError::ColumnType),
    }
}

/// A token is active at `now` when it was never revoked and has no expiry
/// or an expiry still ahead (unparsable text counting as passed).
pub open spec fn spec_is_active(revoked_at: Option<Seq<char>>, expires_at: Option<Seq<char>>, now: int) -> bool {
    &&& revoked_at is None
    &&& match expires_at {
        Some(e) => !spec_is_past_at(rfc3339_instant(e), now),
        None => true,
    }
}

/// Whether `row` is active at the instant `now`.
pub fn is_active(row: &TokenRow, now: i128) -> (r: bool)
    ensures
        r == spec_is_active(opt_text(row.revoked_at), opt_text(row.token.expires_at), now as int),
{
    if row.revoked_at.is_some() {
        return false;
    }
    match &row.token.expires_at {
        Some(exp) => !is_past_at(parse_rfc3339(exp.as_str()), now),
        None => true,
    }
}

/// What a lookup gives for the row found (if any) at the clock reading
/// `now`: the token's details exactly when the row is active.
pub open spec fn spec_lookup(found: Option<TokenRow>, now: int) -> Option<ActiveToken> {
    match found {
        Some(row) => if spec_is_active(opt_text(row.revoked_at), opt_text(row.token.expires_at), now) {
            Some(row.token)
        } else {
            None
        },
        None => None,
    }
}

/// The answer to a lookup that found `found` when the clock read `now`.
pub fn token_from_lookup(found: Option<TokenRow>, now: i128) -> (r: Option<ActiveToken>)
    ensures
        r == spec_lookup(found, now as int),
{
    match found {
        Some(row) => if is_active(&row, now) {
            Some(row.token)
        } else {
            None
        },
        None => None,
    }
}

/// Whether a token's expiry (if any) was still ahead at some clock reading
/// taken when it was looked up.
pub open spec fn was_active(t: ActiveToken) -> bool {
    exists|now: int| is_instant(now) && #[trigger] spec_is_active(None, opt_text(t.expires_at), now)
}

/// A token's details as text, if any.
pub open spec fn token_view(t: Option<ActiveToken>) -> Option<(Seq<char>, Seq<char>, Seq<char>, Seq<char>, Option<Seq<char>>)> {
    match t {
        Some(t) => Some(t.view()),
        None => None,
    }
}

/// What SQLite's answer `ans` to a token lookup gives at the clock
/// reading `now`: the details of the row it returned exactly when that
/// row reads cleanly and is active.
pub open spec fn answered_token(ans: Answer, now: int) -> Option<(Seq<char>, Seq<char>, Seq<char>, Seq<char>, Option<Seq<char>>)> {
    match ans {
        Some(rows) => if rows.len() > 0 && token_row_reads(rows[0]) && spec_is_active(
            token_row_view(rows[0]).1,
            token_row_view(rows[0]).0.4,
            now,
        ) {
            Some(token_row_view(rows[0]).0)
        } else {
            None
        },
        None => None,
    }
}

/// Whether SQLite's answer to a token lookup is an error, or a row that
/// does not read cleanly.
pub open spec fn token_answer_fails(ans: Answer) -> bool {
    match ans {
        Some(rows) => rows.len() > 0 && !token_row_reads(rows[0]),
        None => true,
    }
}

/// The token's details if it exists and is active, else nothing. Unknown,
/// expired and revoked tokens all give nothing, so the caller cannot tell
/// them apart.
pub fn active_token(store: &mut Store, token: &str) -> (r: Result<Option<ActiveToken>, DbError>)
    ensures
        final(store).reads() == old(store).reads().push(final(store).reads().last()),
        final(store).sent() == old(store).sent(),
        final(store).queried() == old(store).queried().push(
            (SELECT_TOKEN_SQL@, None::<Seq<u8>>, seq![Some(token@)]),
        ),
        r matches Err(e) ==> is_read_failure(e),
        r matches Ok(Some(t)) ==> was_active(t),
        r is Err <==> token_answer_fails(final(store).reads().last().1),
        r matches Ok(a) ==> exists|now: int|
            crate::util::is_instant(now) && #[trigger] answered_token(final(store).reads().last().1, now)
                == token_view(a),
{
    let found = match store.query_one(&select_token_statement(token), 6) {
        Ok(f) => f,
        Err(e) => {
            return Err(DbError::Sqlite(e));
        },
    };
    let ghost ans = store.reads().last().1;
    let row = match found {
        Some(row) => {
            let ghost cols = row@;
            proof {
                assert(ans == Some(seq![cols]));
            }
            read_token_row(row)?
        },
        None => {
            proof {
                assert(answered_token(ans, 0) == token_view(None));
                assert(crate::util::is_instant(0));
            }
            return Ok(None);
        },
    };
    let clock = crate::util::now();
    let ghost read = row;
    let a = token_from_lookup(Some(row), clock);
    proof {
        assert(spec_lookup(Some(read), clock as int) == a);
        assert(answered_token(ans, clock as int) == token_view(a));
        if a is Some {
            assert(spec_is_active(None, opt_text(read.token.expires_at), clock as int));
            assert(was_active(read.token));
        }
    }
    Ok(a)
}

/// Revokes `token` at the clock reading `now`, if it is not revoked
/// already.
pub fn revoke_token_at(store: &mut Store, token: &str, now: &str) -> (r: Result<(), DbError>)
    ensures
        r matches Err(e) ==> (e is Sqlite),
        final(store).sent() == old(store).sent().push(revoke_sent(token@, now@)),
        final(store).reads() == old(store).reads(),
{
    match store.execute(&revoke_token_statement(token, now)) {
        Ok(_) => Ok(()),
        Err(e) => Err(DbError::Sqlite(e)),
    }
}

/// Revokes `token`. Succeeds whether or not the token existed, so the
/// revocation endpoint offers no way to probe for tokens.
pub fn revoke_token(store: &mut Store, token: &str) -> (r: Result<(), DbError>)
    ensures
        r matches Err(e) ==> is_write_failure(e),
        wrote_at_now(old(store).sent(), final(store).sent(), clock_failed(r), |now: Seq<char>| revoke_sent(token@, now)),
        final(store).reads() == old(store).reads(),
{
    let now = match now_text() {
        Ok(t) => t,
        Err(e) => {
            return Err(e);
        },
    };
    let r = revoke_token_at(store, token, now.as_str());
    proof {
        assert(is_clock_reading(now@));
    }
    r
}

} // verus!
