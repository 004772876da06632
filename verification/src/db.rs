//! The SQLite database behind the library, reached through `rusqlite`.
//!
//! Every request sent to SQLite is recorded under the name of the database it
//! was sent to (`Database::id`); the `db` parameter of the outcome predicates
//! here and in the repositories, services and commands is that name, so a
//! contract over it speaks of the caller's own database and of no other.

use vstd::prelude::*;
use crate::error::{AppError, AppResult};
use rusqlite::types::{Value, ValueRef};

verus! {

#[verifier::external_type_specification]
#[verifier::external_body]
pub struct ExConnection(rusqlite::Connection);

#[verifier::external_type_specification]
#[verifier::external_body]
pub struct ExSqliteError(rusqlite::Error);

#[verifier::external_type_specification]
#[verifier::external_body]
pub struct ExSqliteValue(rusqlite::types::Value);

#[verifier::external_type_specification]
#[verifier::external_body]
pub struct ExSqliteValueRef<'a>(rusqlite::types::ValueRef<'a>);

/// A value bound to a statement parameter.
pub enum SqlParam {
    Null,
    Integer(i64),
    Text(String),
}

/// A value read from a result column. A floating-point column value is
/// carried as the bit pattern of its IEEE-754 double.
pub enum SqlValue {
    Null,
    Integer(i64),
    Real(u64),
    Text(String),
    Blob(Vec<u8>),
}

/// A statement parameter as a plain value: its kind (0 for NULL, 1 for an
/// integer, 2 for text), its integer and its text.
pub open spec fn param_view(p: SqlParam) -> (u8, i64, Seq<char>) {
    match p {
        SqlParam::Null => (0u8, 0i64, Seq::empty()),
        SqlParam::Integer(i) => (1u8, i, Seq::empty()),
        SqlParam::Text(t) => (2u8, 0i64, t@),
    }
}

/// The plain value of a text parameter.
pub open spec fn text_arg(t: Seq<char>) -> (u8, i64, Seq<char>) {
    (2u8, 0i64, t)
}

/// The plain value of an integer parameter.
pub open spec fn int_arg(i: i64) -> (u8, i64, Seq<char>) {
    (1u8, i, Seq::empty())
}

/// The plain value of a NULL parameter.
pub open spec fn null_arg() -> (u8, i64, Seq<char>) {
    (0u8, 0i64, Seq::empty())
}

/// The parameters of a statement with one text parameter, `t`.
pub open spec fn one_text_arg(t: Seq<char>) -> Seq<(u8, i64, Seq<char>)> {
    seq![text_arg(t)]
}

/// The plain values of a list of parameters.
pub open spec fn args_of(params: Seq<SqlParam>) -> Seq<(u8, i64, Seq<char>)> {
    params.map_values(|p: SqlParam| param_view(p))
}

/// SQLite was asked to open a database in memory, and `ok` tells whether it
/// did. What the engine does depends on the machine; the name records the
/// request and its outcome and claims nothing more.
pub uninterp spec fn sqlite_opened_in_memory(ok: bool) -> bool;

/// SQLite was asked to open (or create) the database file at `path`, and
/// `ok` tells whether it did. The name records the request and its outcome.
pub uninterp spec fn sqlite_opened(path: Seq<char>, ok: bool) -> bool;

/// SQLite was asked, on the connection of database `db` (its `Database::id`),
/// to run the statements of `sql`, and `ok` tells whether they all ran. The
/// name records the request and its outcome; the effect depends on the
/// database's contents, which the library does not model.
pub uninterp spec fn sqlite_batch_ran(db: int, sql: Seq<char>, ok: bool) -> bool;

/// SQLite was asked, on the connection of database `db`, to run the
/// statement `sql` with `args` bound to `?1`, `?2`, ..., and answered with the
/// number of changed rows (`None` when it refused). The name records the
/// request and the answer; it does not claim that the same request always gets
/// the same answer.
pub uninterp spec fn sqlite_executed(db: int, sql: Seq<char>, args: Seq<(u8, i64, Seq<char>)>, changes: Option<usize>) -> bool;

/// SQLite was asked, on the connection of database `db`, the query `sql`
/// with `args` bound, and answered with `rows` (`None` when it refused). The
/// rows depend on the database's contents; the name records the request and
/// the answer, nothing more.
pub uninterp spec fn sqlite_answered(
    db: int,
    sql: Seq<char>,
    args: Seq<(u8, i64, Seq<char>)>,
    rows: Option<Seq<Vec<SqlValue>>>,
) -> bool;

/// `text` is the message of an error that SQLite or `rusqlite` reported.
pub uninterp spec fn sqlite_error_text(text: Seq<char>) -> bool;

/// `rusqlite::Connection::open_in_memory`: opens a new in-memory database.
/// Whether it succeeds depends on the machine; only the request is recorded.
#[verifier::external_body]
fn sqlite_open_in_memory() -> (res: Result<rusqlite::Connection, rusqlite::Error>)
    ensures
        sqlite_opened_in_memory(res is Ok),
{
    rusqlite::Connection::open_in_memory()
}

/// `rusqlite::Connection::open`: opens (or creates) the database file at
/// `path`. The outcome depends on the file system; only the request is recorded.
#[verifier::external_body]
fn sqlite_open(path: &str) -> (res: Result<rusqlite::Connection, rusqlite::Error>)
    ensures
        sqlite_opened(path@, res is Ok),
{
    rusqlite::Connection::open(path)
}

/// `rusqlite::Connection::execute_batch`: runs the semicolon-separated
/// statements of `sql`. The outcome depends on the database's contents; the
/// contract records which statements were sent and whether they ran.
#[verifier::external_body]
fn sqlite_execute_batch(db: &Database, sql: &str) -> (res: Result<(), rusqlite::Error>)
    ensures
        sqlite_batch_ran(db.id(), sql@, res is Ok),
{
    db.conn.execute_batch(sql)
}

/// The `rusqlite::types::Value` of a parameter, kind for kind. It converts
/// the arguments of `sqlite_execute` and `sqlite_query` in their bodies; the
/// outside value is opaque, so nothing is stated of it.
#[verifier::external_body]
fn sqlite_param(p: &SqlParam) -> (res: Value) {
    match p {
        SqlParam::Null => Value::Null,
        SqlParam::Integer(i) => Value::Integer(*i),
        SqlParam::Text(t) => Value::Text(t.clone()),
    }
}

/// The column value of a `rusqlite::types::ValueRef`, kind for kind (a real
/// as its bit pattern); text that is not valid UTF-8 gives the error of
/// `ValueRef::as_str` (a `FromSqlConversionFailure`) in its place. It converts the cells of
/// `sqlite_query` in its body; the outside value is opaque, so nothing is
/// stated of it.
#[verifier::external_body]
fn sqlite_value(v: ValueRef) -> (res: Result<SqlValue, rusqlite::Error>) {
    match v {
        ValueRef::Null => Ok(SqlValue::Null),
        ValueRef::Integer(i) => Ok(SqlValue::Integer(i)),
        ValueRef::Real(r) => Ok(SqlValue::Real(r.to_bits())),
        ValueRef::Text(_) => Ok(SqlValue::Text(v.as_str()?.to_owned())),
        ValueRef::Blob(b) => Ok(SqlValue::Blob(b.to_vec())),
    }
}

/// `rusqlite::Connection::execute`: runs one statement with `params` bound to
/// `?1`, `?2`, ... and returns the number of changed rows. The contract
/// records the statement, the parameters and the answer; the answer depends
/// on the database's contents.
#[verifier::external_body]
fn sqlite_execute(db: &Database, sql: &str, params: &[SqlParam]) -> (res: Result<usize, rusqlite::Error>)
    ensures
        sqlite_executed(db.id(), sql@, args_of(params@), match res { Ok(n) => Some(n), Err(_) => None }),
{
    db.conn.execute(sql, rusqlite::params_from_iter(params.iter().map(sqlite_param)))
}

/// `rusqlite::Connection::prepare`, `Statement::query`, `Rows::next` and
/// `Row::get_ref`: runs a query with `params` bound and reads every column of
/// every row. A text cell that is not valid UTF-8 makes the query fail. The
/// rows depend on the database's contents; the contract records the query,
/// the parameters and the answer.
#[verifier::external_body]
fn sqlite_query(db: &Database, sql: &str, params: &[SqlParam]) -> (res: Result<Vec<Vec<SqlValue>>, rusqlite::Error>)
    ensures
        sqlite_answered(db.id(), sql@, args_of(params@), match res { Ok(rows) => Some(rows@), Err(_) => None }),
{
    let mut stmt = db.conn.prepare(sql)?;
    let n = stmt.column_count();
    let mut rows = stmt.query(rusqlite::params_from_iter(params.iter().map(sqlite_param)))?;
    let mut out = Vec::new();
    while let Some(row) = rows.next()? {
        out.push((0..n).map(|i| row.get_ref(i).and_then(sqlite_value)).collect::<Result<Vec<_>, _>>()?);
    }
    Ok(out)
}

/// The `Display` text of a `rusqlite::Error`: a message that the engine or
/// `rusqlite` reported.
#[verifier::external_body]
fn sqlite_error_message(e: &rusqlite::Error) -> (res: String)
    ensures
        sqlite_error_text(res@),
{
    e.to_string()
}

/// The library's error for an error of the database engine: `DatabaseError`
/// with the engine's message.
fn database_error(e: rusqlite::Error) -> (res: AppError)
    ensures
        res matches AppError::DatabaseError(m) && sqlite_error_text(m@),
{
    AppError::DatabaseError(sqlite_error_message(&e))
}

/// `res` is the answer of `Database::query` on database `db` to `sql` with `args`: the
/// engine's rows, or a `DatabaseError` with the engine's message.
pub open spec fn query_outcome(db: int, sql: Seq<char>, args: Seq<(u8, i64, Seq<char>)>, res: AppResult<Vec<Vec<SqlValue>>>) -> bool {
    match res {
        Ok(rows) => sqlite_answered(db, sql, args, Some(rows@)),
        Err(e) => {
            &&& sqlite_answered(db, sql, args, None)
            &&& e matches AppError::DatabaseError(m) && sqlite_error_text(m@)
        },
    }
}

/// `res` is the answer of `Database::execute` to `sql` with `args`.
pub open spec fn execute_outcome(db: int, sql: Seq<char>, args: Seq<(u8, i64, Seq<char>)>, res: AppResult<usize>) -> bool {
    match res {
        Ok(n) => sqlite_executed(db, sql, args, Some(n)),
        Err(e) => {
            &&& sqlite_executed(db, sql, args, None)
            &&& e matches AppError::DatabaseError(m) && sqlite_error_text(m@)
        },
    }
}

/// `res` is the outcome of `Database::execute_batch` on `sql`.
pub open spec fn batch_outcome(db: int, sql: Seq<char>, res: AppResult<()>) -> bool {
    match res {
        Ok(()) => sqlite_batch_ran(db, sql, true),
        Err(e) => {
            &&& sqlite_batch_ran(db, sql, false)
            &&& e matches AppError::DatabaseError(m) && sqlite_error_text(m@)
        },
    }
}

/// `res` is a statement run with `args` whose count of changed rows was
/// dropped: it succeeded exactly when the engine ran the statement.
pub open spec fn statement_outcome(db: int, sql: Seq<char>, args: Seq<(u8, i64, Seq<char>)>, res: AppResult<()>) -> bool {
    exists|r: AppResult<usize>| #[trigger] execute_outcome(db, sql, args, r) && match r {
        Ok(_) => res is Ok,
        Err(e) => res == Err::<(), AppError>(e),
    }
}

/// An open SQLite database holding the Skills Hub schema.
pub struct Database {
    conn: rusqlite::Connection,
    id: Ghost<int>,
}

impl Database {
    /// The name under which the statements sent to this database's
    /// connection are recorded. It is ghost, has no run-time value, and no
    /// contract states it, so what is recorded of one database tells nothing
    /// of another.
    pub closed spec fn id(&self) -> int {
        self.id@
    }

    /// Opens the database file at `path` and makes sure every table of the
    /// schema exists.
    pub fn new(path: &str) -> (res: AppResult<Database>)
        ensures
            res matches Ok(db) ==> sqlite_opened(path@, true) && sqlite_batch_ran(db.id(), SCHEMA_SQL@, true),
            res matches Err(e) ==> e matches AppError::DatabaseError(m) && sqlite_error_text(m@)
                && (sqlite_opened(path@, false) || exists|id: int| #[trigger] sqlite_batch_ran(id, SCHEMA_SQL@, false)),
    {
        match sqlite_open(path) {
            Ok(conn) => {
                let db = Database { conn, id: Ghost(arbitrary()) };
                match db.execute_batch(schema_sql()) {
                    Ok(()) => Ok(db),
                    Err(e) => Err(e),
                }
            },
            Err(e) => Err(database_error(e)),
        }
    }

    /// Opens a fresh in-memory database with every table of the schema.
    pub fn new_in_memory() -> (res: AppResult<Database>)
        ensures
            res matches Ok(db) ==> sqlite_opened_in_memory(true) && sqlite_batch_ran(db.id(), SCHEMA_SQL@, true),
            res matches Err(e) ==> e matches AppError::DatabaseError(m) && sqlite_error_text(m@)
                && (sqlite_opened_in_memory(false) || exists|id: int| #[trigger] sqlite_batch_ran(id, SCHEMA_SQL@, false)),
    {
        match sqlite_open_in_memory() {
            Ok(conn) => {
                let db = Database { conn, id: Ghost(arbitrary()) };
                match db.execute_batch(schema_sql()) {
                    Ok(()) => Ok(db),
                    Err(e) => Err(e),
                }
            },
            Err(e) => Err(database_error(e)),
        }
    }

    /// Runs the statements of `sql`; an engine error becomes `DatabaseError`.
    pub fn execute_batch(&self, sql: &str) -> (res: AppResult<()>)
        ensures
            batch_outcome(self.id(), sql@, res),
    {
        match sqlite_execute_batch(self, sql) {
            Ok(()) => Ok(()),
            Err(e) => Err(database_error(e)),
        }
    }

    /// Runs one statement with `params`; returns the number of changed rows.
    pub fn execute(&self, sql: &str, params: &[SqlParam]) -> (res: AppResult<usize>)
        ensures
            execute_outcome(self.id(), sql@, args_of(params@), res),
    {
        match sqlite_execute(self, sql, params) {
            Ok(n) => Ok(n),
            Err(e) => Err(database_error(e)),
        }
    }

    /// Runs one query with `params`; returns every column of every row.
    pub fn query(&self, sql: &str, params: &[SqlParam]) -> (res: AppResult<Vec<Vec<SqlValue>>>)
        ensures
            query_outcome(self.id(), sql@, args_of(params@), res),
    {
        match sqlite_query(self, sql, params) {
            Ok(rows) => Ok(rows),
            Err(e) => Err(database_error(e)),
        }
    }
}

/// The statements that create every table of the Skills Hub schema.
pub const SCHEMA_SQL: &'static str = "CREATE TABLE IF NOT EXISTS skills (
        id TEXT PRIMARY KEY,
        name TEXT NOT NULL,
        description TEXT,
        source_type TEXT NOT NULL DEFAULT 'community',
        source_url TEXT,
        community_path TEXT NOT NULL DEFAULT '',
        content_hash TEXT,
        enabled INTEGER NOT NULL DEFAULT 1,
        sort_order REAL NOT NULL DEFAULT 0,
        last_sync_at INTEGER,
        created_at INTEGER NOT NULL DEFAULT 0,
        updated_at INTEGER NOT NULL DEFAULT 0
    );
    CREATE TABLE IF NOT EXISTS skill_targets (
        id TEXT PRIMARY KEY,
        skill_id TEXT NOT NULL,
        tool TEXT NOT NULL,
        scope TEXT NOT NULL DEFAULT 'global',
        project_path TEXT,
        target_path TEXT NOT NULL,
        mode TEXT NOT NULL DEFAULT 'auto',
        status TEXT NOT NULL DEFAULT 'ok',
        synced_at INTEGER,
        suite_skill_id TEXT
    );
    CREATE TABLE IF NOT EXISTS skill_tags (
        id TEXT PRIMARY KEY,
        name TEXT NOT NULL UNIQUE,
        color TEXT,
        created_at INTEGER NOT NULL DEFAULT 0
    );
    CREATE TABLE IF NOT EXISTS skill_tag_links (
        skill_id TEXT NOT NULL,
        tag_id TEXT NOT NULL,
        PRIMARY KEY (skill_id, tag_id)
    );
    CREATE TABLE IF NOT EXISTS settings (
        key TEXT PRIMARY KEY,
        value TEXT NOT NULL
    );
    CREATE TABLE IF NOT EXISTS discovered_skills (
        id TEXT PRIMARY KEY,
        tool TEXT NOT NULL,
        name TEXT NOT NULL,
        path TEXT NOT NULL,
        discovered_at INTEGER NOT NULL DEFAULT 0
    );
    CREATE TABLE IF NOT EXISTS tool_scan_state (
        tool_key TEXT PRIMARY KEY,
        first_seen_at INTEGER,
        last_scanned_at INTEGER
    );
    CREATE TABLE IF NOT EXISTS tool_skill_cache (
        tool_key TEXT NOT NULL,
        skill_path TEXT NOT NULL,
        name TEXT NOT NULL,
        payload TEXT,
        updated_at INTEGER NOT NULL DEFAULT 0,
        PRIMARY KEY (tool_key, skill_path)
    );
    CREATE TABLE IF NOT EXISTS tool_adapter_configs (
        tool_key TEXT PRIMARY KEY,
        display_name TEXT NOT NULL,
        skills_dir TEXT NOT NULL,
        detect_dir TEXT NOT NULL,
        project_skills_dir TEXT,
        supports_symlink INTEGER NOT NULL DEFAULT 1,
        supports_junction INTEGER NOT NULL DEFAULT 1,
        force_copy INTEGER NOT NULL DEFAULT 0,
        supports_project_scope INTEGER,
        is_custom INTEGER NOT NULL DEFAULT 0,
        enabled INTEGER NOT NULL DEFAULT 1,
        sort_order REAL NOT NULL DEFAULT 0,
        updated_at INTEGER NOT NULL DEFAULT 0
    );
    CREATE TABLE IF NOT EXISTS skill_scope_preference (
        skill_id TEXT PRIMARY KEY,
        scope TEXT NOT NULL,
        project_paths TEXT NOT NULL DEFAULT ''
    );
    CREATE TABLE IF NOT EXISTS recent_projects (
        project_path TEXT PRIMARY KEY,
        last_used_at INTEGER NOT NULL DEFAULT 0
    );
    CREATE TABLE IF NOT EXISTS skill_usage (
        skill_id TEXT PRIMARY KEY,
        use_count INTEGER NOT NULL DEFAULT 0,
        last_used_at INTEGER
    );
    CREATE TABLE IF NOT EXISTS prompts (
        id TEXT PRIMARY KEY,
        name TEXT NOT NULL,
        content TEXT NOT NULL,
        created_at INTEGER NOT NULL,
        updated_at INTEGER NOT NULL
    );
    CREATE TABLE IF NOT EXISTS prompt_file_links (
        id TEXT PRIMARY KEY,
        prompt_id TEXT NOT NULL,
        file_path TEXT NOT NULL,
        write_back_enabled INTEGER NOT NULL DEFAULT 0,
        content_hash TEXT,
        exists_on_disk INTEGER NOT NULL DEFAULT 0,
        last_synced_at INTEGER,
        created_at INTEGER NOT NULL,
        updated_at INTEGER NOT NULL
    );";

/// The statements that create every table of the Skills Hub schema.
pub fn schema_sql() -> (res: &'static str)
    ensures
        res@ == SCHEMA_SQL@,
{
    SCHEMA_SQL
}

} // verus!

verus! {

/// The system clock was read and gave `reading`: milliseconds since the Unix
/// epoch, or `None` for a time before the epoch. The name records the
/// reading; it claims nothing of which instant it was.
pub uninterp spec fn clock_millis(reading: Option<u128>) -> bool;

/// `SystemTime::now().duration_since(UNIX_EPOCH)` in milliseconds, `None`
/// when the clock is before the epoch. The value is the time of the call,
/// recorded as a reading of the clock.
#[verifier::external_body]
fn system_time_millis() -> (res: Option<u128>)
    ensures
        clock_millis(res),
{
    std::time::SystemTime::now().duration_since(std::time::UNIX_EPOCH).ok().map(|d| d.as_millis())
}

/// A clock reading as milliseconds in an `i64`: 0 before the epoch,
/// saturated at `i64::MAX`.
pub open spec fn millis_of(reading: Option<u128>) -> i64 {
    match reading {
        Some(ms) => if ms <= i64::MAX { ms as i64 } else { i64::MAX },
        None => 0,
    }
}

/// Milliseconds since the Unix epoch: 0 before the epoch, saturated at `i64::MAX`.
pub fn now_ms() -> (res: i64)
    ensures
        res >= 0,
        exists|reading: Option<u128>| #[trigger] clock_millis(reading) && res == millis_of(reading),
{
    let reading = system_time_millis();
    match reading {
        Some(ms) => if ms <= 0x7fff_ffff_ffff_ffffu128 { ms as i64 } else { 0x7fff_ffff_ffff_ffffi64 },
        None => 0,
    }
}

} // verus!
