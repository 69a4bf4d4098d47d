//! Session rows: the server-side state behind the session cookies.

use vstd::prelude::*;
use super::{
    SqlValue,
    Store,
    SentStatement,
    clock_failed,
    is_clock_reading,
    wrote_at_now,
    is_write_failure,
    DbError,
    Statement,
    column_text,
    now_text,
    read_text,
    statement,
    text_param,
    texts_view,
};

verus! {

/// A live session's stored data.
pub struct SessionRow {
    pub data_json: String,
}

pub const UPSERT_SESSION_SQL: &'static str = "INSERT INTO sessions (id, kind, data_json, expires_at) VALUES (?1, ?2, ?3, ?4)\n         ON CONFLICT(id) DO UPDATE SET kind = excluded.kind, data_json = excluded.data_json,\n                                        expires_at = excluded.expires_at";

pub const GET_SESSION_SQL: &'static str = "SELECT data_json FROM sessions WHERE id = ?1 AND expires_at > ?2";

pub const DELETE_SESSION_SQL: &'static str = "DELETE FROM sessions WHERE id = ?1";

pub const CLEANUP_SESSIONS_SQL: &'static str = "DELETE FROM sessions WHERE expires_at <= ?1";

/// The statement that creates session `id`, or overwrites it in place.
pub fn upsert_session_statement(id: &str, kind: &str, data_json: &str, expires_at: &str) -> (r: Statement)
    ensures
        r.view() == (
            UPSERT_SESSION_SQL@,
            None::<Seq<u8>>,
            seq![Some(id@), Some(kind@), Some(data_json@), Some(expires_at@)],
        ),
{
    let mut p: Vec<Option<String>> = Vec::new();
    p.push(text_param(id));
    p.push(text_param(kind));
    p.push(text_param(data_json));
    p.push(text_param(expires_at));
    proof {
        assert(texts_view(p@) =~= seq![Some(id@), Some(kind@), Some(data_json@), Some(expires_at@)]);
    }
    statement(UPSERT_SESSION_SQL, None, p)
}

/// The statement that creates or overwrites session `id`.
pub open spec fn upsert_sent(
    id: Seq<char>,
    kind: Seq<char>,
    data_json: Seq<char>,
    expires_at: Seq<char>,
) -> SentStatement {
    (UPSERT_SESSION_SQL@, None::<Seq<u8>>, seq![Some(id), Some(kind), Some(data_json), Some(expires_at)])
}

/// The statement that deletes session `id`.
pub open spec fn delete_session_sent(id: Seq<char>) -> SentStatement {
    (DELETE_SESSION_SQL@, None::<Seq<u8>>, seq![Some(id)])
}

/// Creates a session row, or overwrites it in place when `id` exists (so an
/// owner session's pending request changes without a new cookie).
pub fn upsert_session(
    store: &mut Store,
    id: &str,
    kind: &str,
    data_json: &str,
    expires_at: &str,
) -> (r: Result<(), DbError>)
    ensures
        r matches Err(e) ==> (e is Sqlite),
        final(store).sent() == old(store).sent().push(upsert_sent(id@, kind@, data_json@, expires_at@)),
        final(store).reads() == old(store).reads(),
{
    match store.execute(&upsert_session_statement(id, kind, data_json, expires_at)) {
        Ok(_) => Ok(()),
        Err(e) => Err(DbError::Sqlite(e)),
    }
}

/// The lookup of session `id` live at the clock reading `now`.
pub open spec fn get_session_sent(id: Seq<char>, now: Seq<char>) -> SentStatement {
    (GET_SESSION_SQL@, None::<Seq<u8>>, seq![Some(id), Some(now)])
}

/// The lookup of session `id` that only matches if it expires after `now`.
pub fn get_session_statement(id: &str, now: &str) -> (r: Statement)
    ensures
        r.view() == (GET_SESSION_SQL@, None::<Seq<u8>>, seq![Some(id@), Some(now@)]),
{
    let mut p: Vec<Option<String>> = Vec::new();
    p.push(text_param(id));
    p.push(text_param(now));
    proof {
        assert(texts_view(p@) =~= seq![Some(id@), Some(now@)]);
    }
    statement(GET_SESSION_SQL, None, p)
}

/// Looks up a session that has not expired: an expired row reads the same
/// as a missing one.
pub fn get_session(store: &mut Store, id: &str) -> (r: Result<Option<SessionRow>, DbError>)
    ensures
        r matches Err(e) ==> (e is Sqlite || e is Clock || e is ColumnType),
        final(store).sent() == old(store).sent(),
        final(store).queried() == old(store).queried() || exists|now: Seq<char>|
            #[trigger] is_clock_reading(now) && final(store).queried() == old(store).queried().push(
                get_session_sent(id@, now),
            ),
        !clock_failed(r) ==> exists|now: Seq<char>|
            #[trigger] is_clock_reading(now) && final(store).queried() == old(store).queried().push(
                get_session_sent(id@, now),
            ),
        !clock_failed(r) ==> final(store).reads() == old(store).reads().push(final(store).reads().last()),
        r matches Ok(Some(row)) ==> final(store).reads().last().1 matches Some(rows) && rows.len() > 0
            && rows[0].len() == 1 && column_text(rows[0][0]) == Some(row.data_json@),
        r matches Ok(None) ==> final(store).reads().last().1 == Some(Seq::<Seq<SqlValue>>::empty()),
{
    let now = match now_text() {
        Ok(t) => t,
        Err(e) => {
            return Err(e);
        },
    };
    let found = match store.query_one(&get_session_statement(id, now.as_str()), 1) {
        Ok(f) => f,
        Err(e) => {
            return Err(DbError::Sqlite(e));
        },
    };
    match found {
        Some(row) => {
            let ghost cols = row@;
            let mut row = row;
            let v = row.pop().unwrap();
            proof {
                assert(v == cols[0]);
            }
            let data_json = read_text(v)?;
            Ok(Some(SessionRow { data_json }))
        },
        None => Ok(None),
    }
}

/// The statement that deletes session `id`.
pub fn delete_session_statement(id: &str) -> (r: Statement)
    ensures
        r.view() == (DELETE_SESSION_SQL@, None::<Seq<u8>>, seq![Some(id@)]),
{
    let mut p: Vec<Option<String>> = Vec::new();
    p.push(text_param(id));
    proof {
        assert(texts_view(p@) =~= seq![Some(id@)]);
    }
    statement(DELETE_SESSION_SQL, None, p)
}

/// Deletes session `id`.
pub fn delete_session(store: &mut Store, id: &str) -> (r: Result<(), DbError>)
    ensures
        r matches Err(e) ==> (e is Sqlite),
        final(store).sent() == old(store).sent().push(delete_session_sent(id@)),
        final(store).reads() == old(store).reads(),
{
    match store.execute(&delete_session_statement(id)) {
        Ok(_) => Ok(()),
        Err(e) => Err(DbError::Sqlite(e)),
    }
}

/// The statement that deletes every session expired by `now`.
pub fn cleanup_statement(now: &str) -> (r: Statement)
    ensures
        r.view() == (CLEANUP_SESSIONS_SQL@, None::<Seq<u8>>, seq![Some(now@)]),
{
    let mut p: Vec<Option<String>> = Vec::new();
    p.push(text_param(now));
    proof {
        assert(texts_view(p@) =~= seq![Some(now@)]);
    }
    statement(CLEANUP_SESSIONS_SQL, None, p)
}

/// Sweeps stale ceremony and owner sessions; gives how many rows went.
pub fn cleanup_expired_sessions(store: &mut Store) -> (r: Result<usize, DbError>)
    ensures
        r matches Err(e) ==> is_write_failure(e),
        wrote_at_now(
            old(store).sent(),
            final(store).sent(),
            clock_failed(r),
            |now: Seq<char>| (CLEANUP_SESSIONS_SQL@, None::<Seq<u8>>, seq![Some(now)]),
        ),
        final(store).reads() == old(store).reads(),
{
    let now = match now_text() {
        Ok(t) => t,
        Err(e) => {
            return Err(e);
        },
    };
    let r = match store.execute(&cleanup_statement(now.as_str())) {
        Ok(n) => Ok(n),
        Err(e) => Err(DbError::Sqlite(e)),
    };
    proof {
        assert(is_clock_reading(now@));
    }
    r
}

} // verus!
