//! The SQLite store. Every operation runs on the single writer connection;
//! each one is a fixed SQL statement with its parameters, and what comes
//! back from SQLite is read in verified code.

pub mod codes;
pub mod credentials;
pub mod sessions;
pub mod tokens;

use vstd::prelude::*;
use rusqlite::OptionalExtension;
use rusqlite::types::ValueRef;
use crate::codec::utf8_text;

verus! {

#[verifier::external_type_specification]
#[verifier::external_body]
pub struct ExConnection(rusqlite::Connection);

#[verifier::external_type_specification]
#[verifier::external_body]
pub struct ExSqliteError(rusqlite::Error);

/// A column value as SQLite stores it. Real numbers are never read by
/// this server, so only their presence is kept.
pub enum SqlValue {
    Null,
    Integer(i64),
    Real,
    Text(Vec<u8>),
    Blob(Vec<u8>),
}

/// A SQL statement with its parameters: an optional leading blob (`?1`),
/// then text parameters, where `None` binds NULL.
pub struct Statement {
    pub sql: String,
    pub blob: Option<Vec<u8>>,
    pub texts: Vec<Option<String>>,
}

/// Optional text parameters as plain values.
pub open spec fn texts_view(texts: Seq<Option<String>>) -> Seq<Option<Seq<char>>> {
    texts.map_values(|t: Option<String>| crate::text::opt_text(t))
}

impl Statement {
    /// The SQL text, the blob parameter and the text parameters.
    pub open spec fn view(&self) -> (Seq<char>, Option<Seq<u8>>, Seq<Option<Seq<char>>>) {
        (
            self.sql@,
            match self.blob {
                Some(b) => Some(b@),
                None => None,
            },
            texts_view(self.texts@),
        )
    }
}

/// Why a database operation failed.
pub enum DbError {
    /// SQLite reported an error.
    Sqlite(rusqlite::Error),
    /// A column held a value of another type than expected.
    ColumnType,
    /// A query that always yields a row yielded none.
    NoRow,
    /// The clock read a year outside 0 to 9999, so no timestamp could be
    /// written.
    Clock,
}

/// A statement as handed to SQLite: its SQL text, its blob parameter and
/// its text parameters.
pub type SentStatement = (Seq<char>, Option<Seq<u8>>, Seq<Option<Seq<char>>>);

/// What SQLite answered a query: the rows it returned, each its column
/// values, or nothing when it reported an error.
pub type Answer = Option<Seq<Seq<SqlValue>>>;

/// A query handed to SQLite, with its answer.
pub type Read = (SentStatement, Answer);

/// The answer that a single-row query gave: the row, no row, or an error.
pub open spec fn one_answer(r: Result<Option<Vec<SqlValue>>, rusqlite::Error>) -> Answer {
    match r {
        Ok(Some(row)) => Some(seq![row@]),
        Ok(None) => Some(Seq::empty()),
        Err(_) => None,
    }
}

/// The answer that a many-row query gave: its rows, or an error.
pub open spec fn all_answer(r: Result<Vec<Vec<SqlValue>>, rusqlite::Error>) -> Answer {
    match r {
        Ok(rows) => Some(rows@.map_values(|row: Vec<SqlValue>| row@)),
        Err(_) => None,
    }
}

/// The database connection, with the writing statements handed to it so
/// far, in order, and apart from them the queries handed to it with
/// SQLite's answers, in order.
pub struct Store {
    conn: rusqlite::Connection,
    sent: Ghost<Seq<SentStatement>>,
    reads: Ghost<Seq<Read>>,
    changed: Ghost<Seq<Option<usize>>>,
}

impl Store {
    /// The writing statements handed to SQLite through this store, in
    /// order.
    pub closed spec fn sent(&self) -> Seq<SentStatement> {
        self.sent@
    }

    /// The queries handed to SQLite through this store and its answers,
    /// in order.
    pub closed spec fn reads(&self) -> Seq<Read> {
        self.reads@
    }

    /// What SQLite answered each writing statement run with `execute`, in
    /// order: the number of rows it changed, or nothing for an error.
    pub closed spec fn changed(&self) -> Seq<Option<usize>> {
        self.changed@
    }

    /// The queries handed to SQLite through this store, in order.
    pub open spec fn queried(&self) -> Seq<SentStatement> {
        self.reads().map_values(|r: Read| r.0)
    }

    /// A store over `conn`, with nothing written or queried through it yet.
    pub fn new(conn: rusqlite::Connection) -> (r: Store)
        ensures
            r.sent() == Seq::<SentStatement>::empty(),
            r.reads() == Seq::<Read>::empty(),
            r.changed() == Seq::<Option<usize>>::empty(),
    {
        Store { conn, sent: Ghost(Seq::empty()), reads: Ghost(Seq::empty()), changed: Ghost(Seq::empty()) }
    }

    /// The connection underneath.
    pub fn connection(&self) -> (r: &rusqlite::Connection) {
        &self.conn
    }

    /// Runs a writing statement, giving the number of rows changed.
    pub fn execute(&mut self, stmt: &Statement) -> (r: Result<usize, rusqlite::Error>)
        ensures
            final(self).sent() == old(self).sent().push(stmt.view()),
            final(self).reads() == old(self).reads(),
            final(self).changed() == old(self).changed().push(
                match r {
                    Ok(n) => Some(n),
                    Err(_) => None,
                },
            ),
    {
        let r = execute(&self.conn, stmt);
        self.sent = Ghost(self.sent@.push(stmt.view()));
        self.changed = Ghost(
            self.changed@.push(
                match r {
                    Ok(n) => Some(n),
                    Err(_) => None,
                },
            ),
        );
        r
    }

    /// Runs several statements given as one SQL text.
    pub fn execute_batch(&mut self, sql: &str) -> (r: Result<(), rusqlite::Error>)
        ensures
            final(self).sent() == old(self).sent().push(
                (sql@, None::<Seq<u8>>, Seq::<Option<Seq<char>>>::empty()),
            ),
            final(self).reads() == old(self).reads(),
    {
        let r = execute_batch(&self.conn, sql);
        self.sent = Ghost(self.sent@.push((sql@, None::<Seq<u8>>, Seq::<Option<Seq<char>>>::empty())));
        r
    }

    /// The first row of a query, its first `ncols` values.
    pub fn query_one(&mut self, stmt: &Statement, ncols: usize) -> (r: Result<Option<Vec<SqlValue>>, rusqlite::Error>)
        ensures
            r matches Ok(Some(row)) ==> row@.len() == ncols,
            final(self).sent() == old(self).sent(),
            final(self).reads() == old(self).reads().push((stmt.view(), one_answer(r))),
            final(self).changed() == old(self).changed(),
            final(self).queried() == old(self).queried().push(stmt.view()),
    {
        let r = query_one(&self.conn, stmt, ncols);
        self.reads = Ghost(self.reads@.push((stmt.view(), one_answer(r))));
        proof {
            assert(self.queried() =~= old(self).queried().push(stmt.view()));
        }
        r
    }

    /// Every row of a query, each its first `ncols` values.
    pub fn query_all(&mut self, stmt: &Statement, ncols: usize) -> (r: Result<Vec<Vec<SqlValue>>, rusqlite::Error>)
        ensures
            r matches Ok(rows) ==> forall|k: int| 0 <= k < rows@.len() ==> (#[trigger] rows@[k])@.len() == ncols,
            final(self).sent() == old(self).sent(),
            final(self).reads() == old(self).reads().push((stmt.view(), all_answer(r))),
            final(self).changed() == old(self).changed(),
            final(self).queried() == old(self).queried().push(stmt.view()),
    {
        let r = query_all(&self.conn, stmt, ncols);
        self.reads = Ghost(self.reads@.push((stmt.view(), all_answer(r))));
        proof {
            assert(self.queried() =~= old(self).queried().push(stmt.view()));
        }
        r
    }
}

/// `Connection::execute` from rusqlite: runs the statement, giving the
/// number of rows changed. What it does to the database is left unsaid.
#[verifier::external_body]
pub(crate) fn execute(conn: &rusqlite::Connection, stmt: &Statement) -> (r: Result<usize, rusqlite::Error>) {
    let blob = stmt.blob.iter().map(|b| b as &dyn rusqlite::ToSql);
    let texts = stmt.texts.iter().map(|t| t as &dyn rusqlite::ToSql);
    conn.execute(&stmt.sql, rusqlite::params_from_iter(blob.chain(texts)))
}

/// `Connection::execute_batch` from rusqlite: runs several statements.
#[verifier::external_body]
pub(crate) fn execute_batch(conn: &rusqlite::Connection, sql: &str) -> (r: Result<(), rusqlite::Error>) {
    conn.execute_batch(sql)
}

/// `Connection::query_row` from rusqlite with `optional`: the first row's
/// first `ncols` column values, nothing when there is no row. A row that
/// comes back has exactly `ncols` values; which row, if any, is left
/// unsaid.
#[verifier::external_body]
pub(crate) fn query_one(conn: &rusqlite::Connection, stmt: &Statement, ncols: usize) -> (r: Result<Option<Vec<SqlValue>>, rusqlite::Error>)
    ensures
        r matches Ok(Some(row)) ==> row@.len() == ncols,
{
    let blob = stmt.blob.iter().map(|b| b as &dyn rusqlite::ToSql);
    let params = rusqlite::params_from_iter(blob.chain(stmt.texts.iter().map(|t| t as &dyn rusqlite::ToSql)));
    conn.query_row(&stmt.sql, params, |row| (0..ncols).map(|i| Ok(match row.get_ref(i)? {
        ValueRef::Null => SqlValue::Null,
        ValueRef::Integer(n) => SqlValue::Integer(n),
        ValueRef::Real(_) => SqlValue::Real,
        ValueRef::Text(t) => SqlValue::Text(t.to_vec()),
        ValueRef::Blob(b) => SqlValue::Blob(b.to_vec()),
    })).collect()).optional()
}

/// `Connection::prepare` and `Statement::query_map` from rusqlite: every
/// row's first `ncols` column values, in the order SQLite returns them.
/// Each row has exactly `ncols` values; the rows themselves are left
/// unsaid.
#[verifier::external_body]
pub(crate) fn query_all(conn: &rusqlite::Connection, stmt: &Statement, ncols: usize) -> (r: Result<Vec<Vec<SqlValue>>, rusqlite::Error>)
    ensures
        r matches Ok(rows) ==> forall|k: int| 0 <= k < rows@.len() ==> (#[trigger] rows@[k])@.len() == ncols,
{
    let mut prepared = conn.prepare(&stmt.sql)?;
    let blob = stmt.blob.iter().map(|b| b as &dyn rusqlite::ToSql);
    let params = rusqlite::params_from_iter(blob.chain(stmt.texts.iter().map(|t| t as &dyn rusqlite::ToSql)));
    let rows = prepared.query_map(params, |row| (0..ncols).map(|i| Ok(match row.get_ref(i)? {
        ValueRef::Null => SqlValue::Null,
        ValueRef::Integer(n) => SqlValue::Integer(n),
        ValueRef::Real(_) => SqlValue::Real,
        ValueRef::Text(t) => SqlValue::Text(t.to_vec()),
        ValueRef::Blob(b) => SqlValue::Blob(b.to_vec()),
    })).collect())?;
    rows.collect()
}

/// How a text column reads: TEXT holding UTF-8 gives the text; anything
/// else is a type error, as rusqlite's `FromSql` for `String` has it.
pub open spec fn column_text(v: SqlValue) -> Option<Seq<char>> {
    match v {
        SqlValue::Text(b) => if vstd::utf8::valid_utf8(b@) {
            Some(vstd::utf8::decode_utf8(b@))
        } else {
            None
        },
        _ => None,
    }
}

/// How a nullable text column reads: NULL is `None`, TEXT as above.
pub open spec fn column_opt_text(v: SqlValue) -> Option<Option<Seq<char>>> {
    match v {
        SqlValue::Null => Some(None),
        _ => match column_text(v) {
            Some(t) => Some(Some(t)),
            None => None,
        },
    }
}

/// How a blob column reads: only BLOB values.
pub open spec fn column_blob(v: SqlValue) -> Option<Seq<u8>> {
    match v {
        SqlValue::Blob(b) => Some(b@),
        _ => None,
    }
}

/// Reads a text column.
pub fn read_text(v: SqlValue) -> (r: Result<String, DbError>)
    ensures
        r matches Ok(s) ==> column_text(v) == Some(s@),
        r is Err ==> column_text(v) is None && r matches Err(DbError::ColumnType),
{
    match v {
        SqlValue::Text(b) => match utf8_text(b) {
            Some(s) => Ok(s),
            None => Err(DbError::ColumnType),
        },
        _ => Err(DbError::ColumnType),
    }
}

/// Reads a nullable text column.
pub fn read_opt_text(v: SqlValue) -> (r: Result<Option<String>, DbError>)
    ensures
        r matches Ok(s) ==> column_opt_text(v) == Some(crate::text::opt_text(s)),
        r is Err ==> column_opt_text(v) is None && r matches Err(DbError::ColumnType),
{
    match v {
        SqlValue::Null => Ok(None),
        _ => match read_text(v) {
            Ok(s) => Ok(Some(s)),
            Err(e) => Err(e),
        },
    }
}

/// Reads a blob column.
pub fn read_blob(v: SqlValue) -> (r: Result<Vec<u8>, DbError>)
    ensures
        r matches Ok(b) ==> column_blob(v) == Some(b@),
        r is Err ==> column_blob(v) is None && r matches Err(DbError::ColumnType),
{
    match v {
        SqlValue::Blob(b) => Ok(b),
        _ => Err(DbError::ColumnType),
    }
}

/// Reads an integer column.
pub fn read_integer(v: SqlValue) -> (r: Result<i64, DbError>)
    ensures
        r matches Ok(n) ==> v == SqlValue::Integer(n),
        r is Err ==> !(v is Integer) && r matches Err(DbError::ColumnType),
{
    match v {
        SqlValue::Integer(n) => Ok(n),
        _ => Err(DbError::ColumnType),
    }
}

/// A text parameter.
pub fn text_param(s: &str) -> (r: Option<String>)
    ensures
        crate::text::opt_text(r) == Some(s@),
{
    Some(s.to_owned())
}

/// An optional text parameter: `None` binds NULL.
pub fn opt_text_param(s: Option<&str>) -> (r: Option<String>)
    ensures
        crate::text::opt_text(r) == crate::text::opt_str_view(s),
{
    match s {
        Some(t) => Some(t.to_owned()),
        None => None,
    }
}

/// A statement from its SQL text and parameters.
pub fn statement(sql: &str, blob: Option<Vec<u8>>, texts: Vec<Option<String>>) -> (r: Statement)
    ensures
        r.view() == (
            sql@,
            match blob {
                Some(b) => Some(b@),
                None => None,
            },
            texts_view(texts@),
        ),
{
    Statement { sql: sql.to_owned(), blob, texts }
}

/// Whether `r` is the RFC 3339 text of the clock reading `t`, or the clock
/// error when RFC 3339 cannot write `t`.
pub open spec fn is_clock_text(t: int, r: Result<String, DbError>) -> bool {
    match crate::util::spec_rfc3339_of(t) {
        Some(text) => r matches Ok(s) && s@ == text,
        None => r matches Err(e) && e is Clock,
    }
}

/// The current time as RFC 3339 text, for a timestamp column: the text of
/// the clock's reading, or the clock error when the reading falls outside
/// years 0 to 9999.
pub fn now_text() -> (r: Result<String, DbError>)
    ensures
        exists|t: int| crate::util::is_instant(t) && #[trigger] is_clock_text(t, r),
        r matches Ok(s) ==> is_clock_reading(s@),
        r matches Err(e) ==> e is Clock,
{
    let t = crate::util::now();
    let r = match crate::util::rfc3339_of(t) {
        Some(s) => Ok(s),
        None => Err(DbError::Clock),
    };
    proof {
        assert(is_clock_text(t as int, r));
        if r is Ok {
            assert(crate::util::spec_rfc3339_of(t as int) == Some(r->Ok_0@));
        }
    }
    r
}

/// Text that is the RFC 3339 writing of some clock reading.
pub open spec fn is_clock_reading(text: Seq<char>) -> bool {
    exists|t: int| crate::util::is_instant(t) && #[trigger] crate::util::spec_rfc3339_of(t) == Some(text)
}

/// Whether `r` failed because of the clock.
pub open spec fn clock_failed<T>(r: Result<T, DbError>) -> bool {
    r matches Err(e) && e is Clock
}

/// What a write stamped with the current time hands to SQLite: nothing
/// when the clock failed, else the statement `stmt` made for a clock
/// reading.
pub open spec fn wrote_at_now(
    before: Seq<SentStatement>,
    after: Seq<SentStatement>,
    failed: bool,
    stmt: spec_fn(Seq<char>) -> SentStatement,
) -> bool {
    if failed {
        after == before
    } else {
        exists|now: Seq<char>| #[trigger] is_clock_reading(now) && after == before.push(stmt(now))
    }
}

/// A failure that SQLite reported or that the clock caused: the only ways
/// a write can fail.
pub open spec fn is_write_failure(e: DbError) -> bool {
    e is Sqlite || e is Clock
}

/// A failure that SQLite reported, or a row that did not read as its
/// columns' types: the only ways a read can fail.
pub open spec fn is_read_failure(e: DbError) -> bool {
    e is Sqlite || e is ColumnType
}

pub const CONFIGURE_SQL: &'static str = "PRAGMA journal_mode = WAL;\n                     PRAGMA busy_timeout = 5000;\n                     PRAGMA foreign_keys = ON;";

/// Sets the connection up: write-ahead logging, a busy timeout, and
/// foreign key enforcement.
pub fn configure_connection(store: &mut Store) -> (r: Result<(), DbError>)
    ensures
        r matches Err(e) ==> (e is Sqlite),
        final(store).sent() == old(store).sent().push(
            (CONFIGURE_SQL@, None::<Seq<u8>>, Seq::<Option<Seq<char>>>::empty()),
        ),
        final(store).reads() == old(store).reads(),
{
    match store.execute_batch(CONFIGURE_SQL) {
        Ok(()) => Ok(()),
        Err(e) => Err(DbError::Sqlite(e)),
    }
}

/// The schema, version 1.
pub const SCHEMA_V1: &'static str = "CREATE TABLE authorization_codes (\n    code TEXT PRIMARY KEY,\n    client_id TEXT NOT NULL,\n    redirect_uri TEXT NOT NULL,\n    me TEXT NOT NULL,\n    scope TEXT NOT NULL,\n    code_challenge TEXT NOT NULL,\n    code_challenge_method TEXT NOT NULL,\n    state TEXT,\n    created_at TEXT NOT NULL,\n    expires_at TEXT NOT NULL,\n    used_at TEXT\n);\nCREATE TABLE access_tokens (\n    token TEXT PRIMARY KEY,\n    client_id TEXT NOT NULL,\n    me TEXT NOT NULL,\n    scope TEXT NOT NULL,\n    created_at TEXT NOT NULL,\n    expires_at TEXT,\n    revoked_at TEXT\n);\nCREATE TABLE sessions (\n    id TEXT PRIMARY KEY,\n    kind TEXT NOT NULL,\n    data_json TEXT NOT NULL,\n    expires_at TEXT NOT NULL\n);\nCREATE INDEX sessions_expires_at ON sessions (expires_at);\nCREATE TABLE webauthn_credentials (\n    credential_id BLOB PRIMARY KEY,\n    passkey_json TEXT NOT NULL,\n    label TEXT,\n    created_at TEXT NOT NULL,\n    last_used_at TEXT\n);";

/// The migrations in order: (schema version, SQL).
pub fn migrations() -> (r: Vec<(i64, &'static str)>)
    ensures
        r@.len() == 1,
        r@[0].0 == 1,
        r@[0].1@ == SCHEMA_V1@,
{
    let mut m = Vec::new();
    m.push((1i64, SCHEMA_V1));
    m
}

pub const USER_VERSION_SQL: &'static str = "PRAGMA user_version";

pub const SET_USER_VERSION_SQL: &'static str = "PRAGMA user_version = ";

/// The statement that records schema version `version`.
pub fn set_version_sql(version: i64) -> (r: String)
    ensures
        r@ == SET_USER_VERSION_SQL@ + crate::text::signed_decimal(version as int),
{
    let mut s = String::new();
    s.append(SET_USER_VERSION_SQL);
    crate::text::push_signed_decimal(&mut s, version);
    s
}

/// Brings the schema up to date: reads the version SQLite keeps in
/// `user_version` and applies every migration numbered above it, in
/// order, recording each new version after it is applied.
pub fn run_migrations(store: &mut Store) -> (r: Result<(), DbError>)
    ensures
        r matches Err(e) ==> (e is Sqlite || e is NoRow || e is ColumnType),
{
    let stmt = statement(USER_VERSION_SQL, None, Vec::new());
    let current = match store.query_one(&stmt, 1) {
        Ok(Some(row)) => {
            let mut row = row;
            let v = row.pop().unwrap();
            match read_integer(v) {
                Ok(n) => n,
                Err(e) => {
                    return Err(e);
                },
            }
        },
        Ok(None) => {
            return Err(DbError::NoRow);
        },
        Err(e) => {
            return Err(DbError::Sqlite(e));
        },
    };
    let all = migrations();
    let mut i: usize = 0;
    while i < all.len()
        invariant
            i <= all@.len(),
        decreases all@.len() - i,
    {
        let (version, sql) = all[i];
        if version > current {
            if let Err(e) = store.execute_batch(sql) {
                return Err(DbError::Sqlite(e));
            }
            let record = set_version_sql(version);
            if let Err(e) = store.execute_batch(record.as_str()) {
                return Err(DbError::Sqlite(e));
            }
        }
        i = i + 1;
    }
    Ok(())
}

} // verus!
