//! Registered passkeys. Every stored passkey is a valid sign-in
//! credential for the one owner.

use vstd::prelude::*;
use super::{
    Answer,
    Store,
    SentStatement,
    clock_failed,
    is_clock_reading,
    wrote_at_now,
    is_read_failure,
    is_write_failure,
    DbError,
    SqlValue,
    Statement,
    column_blob,
    column_opt_text,
    column_text,
    now_text,
    opt_text_param,
    read_blob,
    read_integer,
    read_opt_text,
    read_text,
    statement,
    text_param,
    texts_view,
};
use crate::text::{opt_str_view, opt_text};

verus! {

/// A stored passkey.
pub struct CredentialRow {
    pub credential_id: Vec<u8>,
    pub passkey_json: String,
    pub label: Option<String>,
    pub created_at: String,
    pub last_used_at: Option<String>,
}

impl CredentialRow {
    /// The fields as plain values.
    pub open spec fn view(&self) -> (Seq<u8>, Seq<char>, Option<Seq<char>>, Seq<char>, Option<Seq<char>>) {
        (self.credential_id@, self.passkey_json@, opt_text(self.label), self.created_at@, opt_text(self.last_used_at))
    }
}

pub const COUNT_CREDENTIALS_SQL: &'static str = "SELECT COUNT(*) FROM webauthn_credentials";

pub const INSERT_CREDENTIAL_SQL: &'static str = "INSERT INTO webauthn_credentials (credential_id, passkey_json, label, created_at)\n         VALUES (?1, ?2, ?3, ?4)";

pub const LIST_CREDENTIALS_SQL: &'static str = "SELECT credential_id, passkey_json, label, created_at, last_used_at\n         FROM webauthn_credentials ORDER BY created_at";

pub const DELETE_CREDENTIAL_SQL: &'static str = "DELETE FROM webauthn_credentials WHERE credential_id = ?1";

pub const RENAME_CREDENTIAL_SQL: &'static str = "UPDATE webauthn_credentials SET label = ?2 WHERE credential_id = ?1";

pub const UPDATE_AFTER_AUTH_SQL: &'static str = "UPDATE webauthn_credentials\n         SET passkey_json = ?2, last_used_at = ?3\n         WHERE credential_id = ?1";

/// The count that SQLite's answer `ans` to the count query holds: an
/// integer as the one column of its first row.
pub open spec fn answered_count(ans: Answer) -> Option<i64> {
    match ans {
        Some(rows) => if rows.len() > 0 && rows[0].len() == 1 && rows[0][0] is Integer {
            Some(rows[0][0]->Integer_0)
        } else {
            None
        },
        None => None,
    }
}

/// The count read, a count that could not be read counting as none.
pub open spec fn count_or_none(ans: Answer) -> int {
    match answered_count(ans) {
        Some(n) => n as int,
        None => 0,
    }
}

/// How many passkeys are registered.
pub fn count_credentials(store: &mut Store) -> (r: Result<i64, DbError>)
    ensures
        final(store).reads() == old(store).reads().push(final(store).reads().last()),
        match answered_count(final(store).reads().last().1) {
            Some(n) => r matches Ok(m) && m == n,
            None => r is Err,
        },
        final(store).sent() == old(store).sent(),
        final(store).queried() == old(store).queried().push(
            (COUNT_CREDENTIALS_SQL@, None::<Seq<u8>>, Seq::<Option<Seq<char>>>::empty()),
        ),
        r matches Err(e) ==> (e is Sqlite || e is NoRow || e is ColumnType),
{
    let stmt = statement(COUNT_CREDENTIALS_SQL, None, Vec::new());
    proof {
        assert(stmt.view().2 =~= Seq::<Option<Seq<char>>>::empty());
    }
    match store.query_one(&stmt, 1) {
        Ok(Some(row)) => {
            let ghost cols = row@;
            let mut row = row;
            let v = row.pop().unwrap();
            proof {
                assert(v == cols[0]);
            }
            read_integer(v)
        },
        Ok(None) => Err(DbError::NoRow),
        Err(e) => Err(DbError::Sqlite(e)),
    }
}

/// The statement that stores a passkey registered at `now`.
pub fn insert_credential_statement(
    credential_id: &[u8],
    passkey_json: &str,
    label: Option<&str>,
    now: &str,
) -> (r: Statement)
    ensures
        r.view() == (
            INSERT_CREDENTIAL_SQL@,
            Some(credential_id@),
            seq![Some(passkey_json@), opt_str_view(label), Some(now@)],
        ),
{
    let mut p: Vec<Option<String>> = Vec::new();
    p.push(text_param(passkey_json));
    p.push(opt_text_param(label));
    p.push(text_param(now));
    proof {
        assert(texts_view(p@) =~= seq![Some(passkey_json@), opt_str_view(label), Some(now@)]);
    }
    statement(INSERT_CREDENTIAL_SQL, Some(vstd::slice::slice_to_vec(credential_id)), p)
}

/// The statement that stores a passkey registered at the clock reading
/// `now`.
pub open spec fn insert_credential_sent(
    credential_id: Seq<u8>,
    passkey_json: Seq<char>,
    label: Option<Seq<char>>,
    now: Seq<char>,
) -> SentStatement {
    (INSERT_CREDENTIAL_SQL@, Some(credential_id), seq![Some(passkey_json), label, Some(now)])
}

/// Stores a newly registered passkey, registered at the clock reading
/// `now`; fails if its id is already stored.
pub fn insert_credential_at(
    store: &mut Store,
    credential_id: &[u8],
    passkey_json: &str,
    label: Option<&str>,
    now: &str,
) -> (r: Result<(), DbError>)
    ensures
        r matches Err(e) ==> (e is Sqlite),
        final(store).sent() == old(store).sent().push(
            insert_credential_sent(credential_id@, passkey_json@, opt_str_view(label), now@),
        ),
        final(store).reads() == old(store).reads(),
{
    match store.execute(&insert_credential_statement(credential_id, passkey_json, label, now)) {
        Ok(_) => Ok(()),
        Err(e) => Err(DbError::Sqlite(e)),
    }
}

/// Stores a newly registered passkey, stamped with the current time;
/// fails if its id is already stored.
pub fn insert_credential(
    store: &mut Store,
    credential_id: &[u8],
    passkey_json: &str,
    label: Option<&str>,
) -> (r: Result<(), DbError>)
    ensures
        r matches Err(e) ==> is_write_failure(e),
        wrote_at_now(
            old(store).sent(),
            final(store).sent(),
            clock_failed(r),
            |now: Seq<char>| insert_credential_sent(credential_id@, passkey_json@, opt_str_view(label), now),
        ),
        final(store).reads() == old(store).reads(),
{
    let now = match now_text() {
        Ok(t) => t,
        Err(e) => {
            return Err(e);
        },
    };
    let r = insert_credential_at(store, credential_id, passkey_json, label, now.as_str());
    proof {
        assert(is_clock_reading(now@));
    }
    r
}

/// Whether a credential row reads cleanly.
pub open spec fn credential_row_reads(row: Seq<SqlValue>) -> bool {
    &&& row.len() == 5
    &&& column_blob(row[0]) is Some
    &&& column_text(row[1]) is Some
    &&& column_opt_text(row[2]) is Some
    &&& column_text(row[3]) is Some
    &&& column_opt_text(row[4]) is Some
}

/// The credential read from a row's columns.
pub open spec fn credential_row_view(row: Seq<SqlValue>) -> (Seq<u8>, Seq<char>, Option<Seq<char>>, Seq<char>, Option<Seq<char>>) {
    (
        column_blob(row[0])->0,
        column_text(row[1])->0,
        column_opt_text(row[2])->0,
        column_text(row[3])->0,
        column_opt_text(row[4])->0,
    )
}

/// Reads a row of the credentials listing.
pub fn read_credential_row(row: Vec<SqlValue>) -> (r: Result<CredentialRow, DbError>)
    requires
        row@.len() == 5,
    ensures
        r is Ok <==> credential_row_reads(row@),
        r matches Ok(c) ==> c.view() == credential_row_view(row@),
        r is Err ==> r matches Err(DbError::ColumnType),
{
    let ghost cols = row@;
    let mut row = row;
    let last_used_v = row.pop().unwrap();
    let created_v = row.pop().unwrap();
    let label_v = row.pop().unwrap();
    let json_v = row.pop().unwrap();
    let id_v = row.pop().unwrap();
    proof {
        assert(id_v == cols[0] && json_v == cols[1] && label_v == cols[2]);
        assert(created_v == cols[3] && last_used_v == cols[4]);
    }
    let credential_id = read_blob(id_v);
    let passkey_json = read_text(json_v);
    let label = read_opt_text(label_v);
    let created_at = read_text(created_v);
    let last_used_at = read_opt_text(last_used_v);
    match (credential_id, passkey_json, label, created_at, last_used_at) {
        (Ok(credential_id), Ok(passkey_json), Ok(label), Ok(created_at), Ok(last_used_at)) => {
            Ok(CredentialRow { credential_id, passkey_json, label, created_at, last_used_at })
        },
        _ => Err(DbError::ColumnType),
    }
}

/// Whether `v` holds, in order, the passkeys read from `rows`, every row
/// having read cleanly.
pub open spec fn read_from_rows(v: Seq<CredentialRow>, rows: Seq<Seq<SqlValue>>) -> bool {
    &&& v.len() == rows.len()
    &&& forall|k: int| 0 <= k < rows.len() ==> credential_row_reads(#[trigger] rows[k])
    &&& forall|k: int| 0 <= k < rows.len() ==> (#[trigger] v[k]).view() == credential_row_view(rows[k])
}

/// Reads every row of the credentials listing, in order; a row that does
/// not read cleanly fails the whole listing.
pub fn read_credential_rows(rows: Vec<Vec<SqlValue>>) -> (r: Result<Vec<CredentialRow>, DbError>)
    requires
        forall|k: int| 0 <= k < rows@.len() ==> (#[trigger] rows@[k])@.len() == 5,
    ensures
        r is Ok <==> forall|k: int| 0 <= k < rows@.len() ==> credential_row_reads((#[trigger] rows@[k])@),
        r matches Ok(v) ==> read_from_rows(v@, rows@.map_values(|row: Vec<SqlValue>| row@)),
        r is Err ==> r matches Err(DbError::ColumnType),
{
    let ghost all = rows@;
    let mut out: Vec<CredentialRow> = Vec::new();
    for row in it: rows
        invariant
            it.seq() == all,
            forall|k: int| 0 <= k < all.len() ==> (#[trigger] all[k])@.len() == 5,
            out@.len() == it.index(),
            forall|k: int| 0 <= k < it.index() ==> credential_row_reads((#[trigger] all[k])@),
            forall|k: int| 0 <= k < it.index() ==> (#[trigger] out@[k]).view() == credential_row_view(all[k]@),
    {
        proof {
            assert(all[it.index() as int] == row);
        }
        let c = match read_credential_row(row) {
            Ok(c) => c,
            Err(e) => {
                return Err(e);
            },
        };
        out.push(c);
    }
    proof {
        let views = all.map_values(|row: Vec<SqlValue>| row@);
        assert forall|k: int| 0 <= k < views.len() implies credential_row_reads(#[trigger] views[k]) by {
            assert(views[k] == all[k]@);
        }
        assert forall|k: int| 0 <= k < views.len() implies (#[trigger] out@[k]).view() == credential_row_view(
            views[k],
        ) by {
            assert(views[k] == all[k]@);
        }
    }
    Ok(out)
}

/// Whether every row of SQLite's answer `ans` to the listing query reads
/// cleanly.
pub open spec fn listing_reads(ans: Answer) -> bool {
    ans matches Some(rows) && rows_read(rows)
}

/// Whether every one of `rows` reads cleanly as a passkey.
pub open spec fn rows_read(rows: Seq<Seq<SqlValue>>) -> bool {
    forall|k: int| 0 <= k < rows.len() ==> credential_row_reads(#[trigger] rows[k])
}

/// Whether `v` holds, in order, the passkeys of SQLite's answer `ans` to
/// the listing query.
pub open spec fn listing_answered(ans: Answer, v: Seq<CredentialRow>) -> bool {
    ans matches Some(rows) && read_from_rows(v, rows)
}

/// The passkeys shown for the answer `ans`: those it holds, or none when
/// it cannot be read.
pub open spec fn shown_listing(ans: Answer, v: Seq<CredentialRow>) -> bool {
    if listing_reads(ans) {
        listing_answered(ans, v)
    } else {
        v.len() == 0
    }
}

/// Whether `v` is a listing read cleanly from some rows SQLite returned.
pub open spec fn is_listing(v: Seq<CredentialRow>) -> bool {
    exists|rows: Seq<Seq<SqlValue>>| #[trigger] read_from_rows(v, rows)
}

/// Every stored passkey, oldest first: the list handed to sign-in so any
/// of the owner's devices can complete it.
pub fn list_credentials(store: &mut Store) -> (r: Result<Vec<CredentialRow>, DbError>)
    ensures
        final(store).reads() == old(store).reads().push(final(store).reads().last()),
        final(store).sent() == old(store).sent(),
        final(store).queried() == old(store).queried().push(
            (LIST_CREDENTIALS_SQL@, None::<Seq<u8>>, Seq::<Option<Seq<char>>>::empty()),
        ),
        r matches Err(e) ==> is_read_failure(e),
        r matches Ok(v) ==> is_listing(v@),
        r is Ok <==> listing_reads(final(store).reads().last().1),
        r matches Ok(v) ==> listing_answered(final(store).reads().last().1, v@),
{
    let stmt = statement(LIST_CREDENTIALS_SQL, None, Vec::new());
    proof {
        assert(stmt.view().2 =~= Seq::<Option<Seq<char>>>::empty());
    }
    let rows = match store.query_all(&stmt, 5) {
        Ok(rows) => rows,
        Err(e) => {
            return Err(DbError::Sqlite(e));
        },
    };
    let ghost views = rows@.map_values(|row: Vec<SqlValue>| row@);
    let ghost raw = rows@;
    let r = read_credential_rows(rows);
    proof {
        assert(store.reads().last().1 == Some(views));
        if r is Ok {
            assert forall|k: int| 0 <= k < views.len() implies credential_row_reads(#[trigger] views[k]) by {
                assert(views[k] == raw[k]@);
                assert(credential_row_reads(raw[k]@));
            }
            assert(rows_read(views));
        } else {
            if listing_reads(store.reads().last().1) {
                assert(rows_read(views));
                assert forall|k: int| 0 <= k < raw.len() implies credential_row_reads((#[trigger] raw[k])@) by {
                    assert(views[k] == raw[k]@);
                    assert(credential_row_reads(views[k]));
                }
            }
        }
        if r is Ok {
            assert(read_from_rows(r->Ok_0@, views));
        }
    }
    r
}

/// The statement that deletes the passkey `credential_id`.
pub fn delete_credential_statement(credential_id: &[u8]) -> (r: Statement)
    ensures
        r.view() == (DELETE_CREDENTIAL_SQL@, Some(credential_id@), Seq::<Option<Seq<char>>>::empty()),
{
    let p: Vec<Option<String>> = Vec::new();
    proof {
        assert(texts_view(p@) =~= Seq::<Option<Seq<char>>>::empty());
    }
    statement(DELETE_CREDENTIAL_SQL, Some(vstd::slice::slice_to_vec(credential_id)), p)
}

/// Deletes a passkey; gives how many rows went. Refuses nothing itself:
/// the credentials page refuses to delete the last passkey.
pub fn delete_credential(store: &mut Store, credential_id: &[u8]) -> (r: Result<usize, DbError>)
    ensures
        r matches Err(e) ==> (e is Sqlite),
        final(store).sent() == old(store).sent().push(
            (DELETE_CREDENTIAL_SQL@, Some(credential_id@), Seq::<Option<Seq<char>>>::empty()),
        ),
        final(store).reads() == old(store).reads(),
{
    match store.execute(&delete_credential_statement(credential_id)) {
        Ok(n) => Ok(n),
        Err(e) => Err(DbError::Sqlite(e)),
    }
}

/// The statement that sets (or clears) a passkey's label.
pub fn rename_credential_statement(credential_id: &[u8], label: Option<&str>) -> (r: Statement)
    ensures
        r.view() == (RENAME_CREDENTIAL_SQL@, Some(credential_id@), seq![opt_str_view(label)]),
{
    let mut p: Vec<Option<String>> = Vec::new();
    p.push(opt_text_param(label));
    proof {
        assert(texts_view(p@) =~= seq![opt_str_view(label)]);
    }
    statement(RENAME_CREDENTIAL_SQL, Some(vstd::slice::slice_to_vec(credential_id)), p)
}

/// Sets or clears a passkey's label; gives how many rows changed.
pub fn rename_credential(
    store: &mut Store,
    credential_id: &[u8],
    label: Option<&str>,
) -> (r: Result<usize, DbError>)
    ensures
        r matches Err(e) ==> (e is Sqlite),
        final(store).sent() == old(store).sent().push(
            (RENAME_CREDENTIAL_SQL@, Some(credential_id@), seq![opt_str_view(label)]),
        ),
        final(store).reads() == old(store).reads(),
{
    match store.execute(&rename_credential_statement(credential_id, label)) {
        Ok(n) => Ok(n),
        Err(e) => Err(DbError::Sqlite(e)),
    }
}

/// The statement that stores a passkey's updated state after sign-in at
/// `now`.
pub fn update_after_auth_statement(credential_id: &[u8], passkey_json: &str, now: &str) -> (r: Statement)
    ensures
        r.view() == (UPDATE_AFTER_AUTH_SQL@, Some(credential_id@), seq![Some(passkey_json@), Some(now@)]),
{
    let mut p: Vec<Option<String>> = Vec::new();
    p.push(text_param(passkey_json));
    p.push(text_param(now));
    proof {
        assert(texts_view(p@) =~= seq![Some(passkey_json@), Some(now@)]);
    }
    statement(UPDATE_AFTER_AUTH_SQL, Some(vstd::slice::slice_to_vec(credential_id)), p)
}

/// Stores a passkey's updated sign counter and backup state after a
/// sign-in, and when it was last used, so counter-based replay detection
/// stays accurate.
pub fn update_credential_after_auth(
    store: &mut Store,
    credential_id: &[u8],
    passkey_json: &str,
) -> (r: Result<(), DbError>)
    ensures
        r matches Err(e) ==> is_write_failure(e),
        wrote_at_now(
            old(store).sent(),
            final(store).sent(),
            clock_failed(r),
            |now: Seq<char>| (UPDATE_AFTER_AUTH_SQL@, Some(credential_id@), seq![Some(passkey_json@), Some(now)]),
        ),
        final(store).reads() == old(store).reads(),
{
    let now = match now_text() {
        Ok(t) => t,
        Err(e) => {
            return Err(e);
        },
    };
    let r = match store.execute(&update_after_auth_statement(credential_id, passkey_json, now.as_str())) {
        Ok(_) => Ok(()),
        Err(e) => Err(DbError::Sqlite(e)),
    };
    proof {
        assert(is_clock_reading(now@));
    }
    r
}

} // verus!
