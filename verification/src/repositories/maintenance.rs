//! Whole-database upkeep: SQLite housekeeping statements, statistics, the
//! table overview, the reset, and paged browsing of any table.

use vstd::prelude::*;
use crate::db::{
    args_of, batch_outcome, execute_outcome, int_arg, null_arg, one_text_arg, query_outcome, sqlite_batch_ran,
    sqlite_error_text, sqlite_executed, text_arg, Database, SqlParam, SqlValue,
};
use crate::error::{AppError, AppResult};
use crate::repositories::columns::{
    column_i64, column_opt_i64, column_opt_text, column_text, integer_at, is_integer_at, is_opt_integer_at,
    is_opt_text_at, is_text_at, opt_integer_at, opt_text_at, text_at,
};
use crate::contracts::{DbColumnInfo, DbTableData};
use crate::json::{is_finite_double, JsonNumber, JsonValue};
use crate::repositories::table_query::{
    build_order_by, build_where_clause, column_infos_of_rows, count_query_of, filter_args,
    filtered_count_sql, map_column_infos, object_with_keys, order_by_of, page_args, page_count,
    page_query_of, page_sql, row_json, row_to_json, table_info_sql, total_pages, where_clause_of,
    where_params_of,
};
use crate::text::concat;

verus! {

/// Every row's first column holds text.
pub open spec fn first_texts_ok(rows: Seq<Vec<SqlValue>>) -> bool {
    forall|i: int| 0 <= i < rows.len() ==> #[trigger] is_text_at(rows[i]@, 0)
}

/// `res` is the first column of every row read as text, or a
/// `DatabaseError` when some row has no text there.
pub open spec fn first_texts_of_rows(rows: Seq<Vec<SqlValue>>, res: AppResult<Vec<String>>) -> bool {
    &&& (res is Ok <==> first_texts_ok(rows))
    &&& (res matches Ok(v) ==> v@.len() == rows.len()
        && forall|i: int| 0 <= i < rows.len() ==> #[trigger] v@[i] == text_at(rows[i]@, 0))
    &&& (res matches Err(e) ==> e is DatabaseError)
}

/// Reads the first column of every row as text.
pub fn map_first_texts(rows: &Vec<Vec<SqlValue>>) -> (res: AppResult<Vec<String>>)
    ensures
        first_texts_of_rows(rows@, res),
{
    let mut out: Vec<String> = Vec::new();
    let mut i: usize = 0;
    while i < rows.len()
        invariant
            i <= rows@.len(),
            out@.len() == i,
            forall|j: int| 0 <= j < i ==> #[trigger] is_text_at(rows@[j]@, 0),
            forall|j: int| 0 <= j < i ==> #[trigger] out@[j] == text_at(rows@[j]@, 0),
        decreases rows@.len() - i,
    {
        let t = column_text(&rows[i], 0)?;
        out.push(t);
        i = i + 1;
    }
    Ok(out)
}

/// The first column of the first row holds an integer.
pub open spec fn single_integer_ok(rows: Seq<Vec<SqlValue>>) -> bool {
    rows.len() > 0 && is_integer_at(rows[0]@, 0)
}

/// `res` is the integer in the first column of the first row, or a
/// `DatabaseError` when there is no such integer.
pub open spec fn single_integer_of_rows(rows: Seq<Vec<SqlValue>>, res: AppResult<i64>) -> bool {
    &&& (res is Ok <==> single_integer_ok(rows))
    &&& (res matches Ok(v) ==> v == integer_at(rows[0]@, 0))
    &&& (res matches Err(e) ==> e is DatabaseError)
}

/// The query that checks the database's integrity.
pub open spec fn integrity_check_sql() -> Seq<char> {
    "PRAGMA integrity_check"@
}

/// The query that lists the user tables.
pub open spec fn table_names_sql() -> Seq<char> {
    "SELECT name FROM sqlite_master WHERE type = 'table' AND name NOT LIKE 'sqlite_%' ORDER BY name"@
}

/// The query that counts the tables of a name.
pub open spec fn table_exists_sql() -> Seq<char> {
    "SELECT COUNT(*) FROM sqlite_master WHERE type = 'table' AND name = ?1"@
}

/// `res` is what SQLite's integrity check reported, line by line, or the engine's error.
pub open spec fn integrity_checked(db: int, res: AppResult<Vec<String>>) -> bool {
    exists|q: AppResult<Vec<Vec<SqlValue>>>| #[trigger] query_outcome(db, integrity_check_sql(), Seq::empty(), q)
        && match q {
            Ok(rows) => first_texts_of_rows(rows@, res),
            Err(e) => res == Err::<Vec<String>, AppError>(e),
        }
}

/// `res` is the list of user tables that SQLite answered, or the engine's error.
pub open spec fn table_names_listed(db: int, res: AppResult<Vec<String>>) -> bool {
    exists|q: AppResult<Vec<Vec<SqlValue>>>| #[trigger] query_outcome(db, table_names_sql(), Seq::empty(), q)
        && match q {
            Ok(rows) => first_texts_of_rows(rows@, res),
            Err(e) => res == Err::<Vec<String>, AppError>(e),
        }
}

/// `res` tells whether SQLite counted a table called `table` (the count is
/// above zero), or is the engine's error.
pub open spec fn table_existence_read(db: int, table: Seq<char>, res: AppResult<bool>) -> bool {
    exists|q: AppResult<Vec<Vec<SqlValue>>>| #[trigger] query_outcome(db, table_exists_sql(), one_text_arg(table), q)
        && match q {
            Ok(rows) => if single_integer_ok(rows@) {
                res == Ok::<bool, AppError>(integer_at(rows@[0]@, 0) > 0)
            } else {
                res matches Err(e) && e is DatabaseError
            },
            Err(e) => res == Err::<bool, AppError>(e),
        }
}

/// `res` is the row count of `table`: refused with `Invalid table name` when
/// SQLite knows no such table, else SQLite's count.
pub open spec fn table_counted(db: int, table: Seq<char>, res: AppResult<i64>) -> bool {
    exists|ex: AppResult<bool>| #[trigger] table_existence_read(db, table, ex) && match ex {
        Err(e) => res == Err::<i64, AppError>(e),
        Ok(false) => res matches Err(AppError::Unexpected(m)) && m@ == invalid_table_message(table),
        Ok(true) => exists|q: AppResult<Vec<Vec<SqlValue>>>|
            #[trigger] query_outcome(db, "SELECT COUNT(*) FROM "@ + table, Seq::empty(), q) && match q {
                Ok(rows) => single_integer_of_rows(rows@, res),
                Err(e) => res == Err::<i64, AppError>(e),
            },
    }
}

/// `stats` is SQLite's version, page size, page count and free-list length,
/// each as SQLite answered its query, falling back to `""`, 4096, 0 and 0.
pub open spec fn database_stats_read(db: int, stats: (String, i64, i64, i64)) -> bool {
    exists|a: AppResult<Vec<Vec<SqlValue>>>, b: AppResult<Vec<Vec<SqlValue>>>,
        c: AppResult<Vec<Vec<SqlValue>>>, d: AppResult<Vec<Vec<SqlValue>>>|
        #![trigger query_outcome(db, "SELECT sqlite_version()"@, Seq::empty(), a),
            query_outcome(db, "PRAGMA page_size"@, Seq::empty(), b),
            query_outcome(db, "PRAGMA page_count"@, Seq::empty(), c),
            query_outcome(db, "PRAGMA freelist_count"@, Seq::empty(), d)]
        {
            &&& query_outcome(db, "SELECT sqlite_version()"@, Seq::empty(), a)
            &&& query_outcome(db, "PRAGMA page_size"@, Seq::empty(), b)
            &&& query_outcome(db, "PRAGMA page_count"@, Seq::empty(), c)
            &&& query_outcome(db, "PRAGMA freelist_count"@, Seq::empty(), d)
            &&& stats.0@ == text_or_empty(a)
            &&& stats.1 == integer_or(b, 4096)
            &&& stats.2 == integer_or(c, 0)
            &&& stats.3 == integer_or(d, 0)
        }
}

/// Reads the integer in the first column of the first row (`query_row`):
/// no row, or another type, is an error.
pub fn map_single_integer(rows: &Vec<Vec<SqlValue>>) -> (res: AppResult<i64>)
    ensures
        single_integer_of_rows(rows@, res),
{
    if rows.len() == 0 {
        Err(AppError::DatabaseError(String::from_str("Query returned no rows")))
    } else {
        column_i64(&rows[0], 0)
    }
}

/// The text in the first column of the first row of a query's result, or `""`
/// when the query failed or gave no such text.
pub open spec fn text_or_empty(res: AppResult<Vec<Vec<SqlValue>>>) -> Seq<char> {
    match res {
        Ok(rows) => if rows@.len() > 0 && is_text_at(rows@[0]@, 0) {
            text_at(rows@[0]@, 0)@
        } else {
            Seq::empty()
        },
        Err(_) => Seq::empty(),
    }
}

/// The integer in the first column of the first row of a query's result, or
/// `default` when the query failed or gave no such integer.
pub open spec fn integer_or(res: AppResult<Vec<Vec<SqlValue>>>, default: i64) -> i64 {
    match res {
        Ok(rows) => if single_integer_ok(rows@) { integer_at(rows@[0]@, 0) } else { default },
        Err(_) => default,
    }
}

/// `query_row(..).unwrap_or_default()` for a text result.
pub fn first_text_or_empty(res: &AppResult<Vec<Vec<SqlValue>>>) -> (out: String)
    ensures
        out@ == text_or_empty(*res),
{
    match res {
        Ok(rows) => {
            if rows.len() > 0 {
                match column_text(&rows[0], 0) {
                    Ok(t) => t,
                    Err(_) => String::new(),
                }
            } else {
                String::new()
            }
        },
        Err(_) => String::new(),
    }
}

/// `query_row(..).unwrap_or(default)` for an integer result.
pub fn first_integer_or(res: &AppResult<Vec<Vec<SqlValue>>>, default: i64) -> (out: i64)
    ensures
        out == integer_or(*res, default),
{
    match res {
        Ok(rows) => match map_single_integer(rows) {
            Ok(v) => v,
            Err(_) => default,
        },
        Err(_) => default,
    }
}

/// `SELECT COUNT(*) FROM <table>`.
pub fn count_sql(table: &str) -> (res: String)
    ensures
        res@ == "SELECT COUNT(*) FROM "@ + table@,
{
    concat("SELECT COUNT(*) FROM ", table)
}

/// The error for a table name that is not in the schema.
pub open spec fn invalid_table_message(table: Seq<char>) -> Seq<char> {
    "Invalid table name: "@ + table
}

/// The names of `cols`, in order.
pub open spec fn column_names(cols: Seq<DbColumnInfo>) -> Seq<String> {
    cols.map_values(|c: DbColumnInfo| c.name)
}

/// Every row is a JSON object whose members are named after the columns, in order.
pub open spec fn rows_are_objects_of(rows: Seq<JsonValue>, cols: Seq<DbColumnInfo>) -> bool {
    forall|i: int| 0 <= i < rows.len() ==> #[trigger] object_with_keys(rows[i], column_names(cols))
}

/// The names of `columns`, in order.
pub fn names_of(columns: &Vec<DbColumnInfo>) -> (res: Vec<String>)
    ensures
        res@ == column_names(columns@),
{
    let mut out: Vec<String> = Vec::new();
    let mut i: usize = 0;
    while i < columns.len()
        invariant
            i <= columns@.len(),
            out@ == column_names(columns@.take(i as int)),
        decreases columns@.len() - i,
    {
        out.push(columns[i].name.clone());
        assert(column_names(columns@.take(i + 1)) =~= column_names(columns@.take(i as int)).push(columns@[i as int].name));
        i = i + 1;
    }
    assert(columns@.take(columns@.len() as int) =~= columns@);
    out
}

/// The factory settings of one tool adapter, restored by a reset.
#[derive(Debug, Clone)]
pub struct ToolAdapterDefault {
    pub display_name: String,
    pub skills_dir: String,
    pub detect_dir: String,
    pub project_skills_dir: Option<String>,
    pub supports_symlink: bool,
    pub supports_junction: bool,
    pub force_copy: bool,
    pub supports_project_scope: Option<bool>,
}

/// The tables a reset empties, children before parents.
pub open spec fn reset_tables() -> Seq<Seq<char>> {
    seq![
        "skill_tag_links"@, "skill_targets"@, "skill_usage"@, "skill_scope_preference"@,
        "tool_skill_cache"@, "tool_scan_state"@, "discovered_skills"@, "recent_projects"@,
        "skill_tags"@, "skills"@, "settings"@, "tool_adapter_configs"@,
    ]
}

/// A reset empties the skill, tool and settings tables only: prompts and
/// their file links are never among the tables it deletes from.
pub proof fn law_reset_spares_prompts()
    ensures
        forall|i: int| 0 <= i < reset_tables().len()
            ==> #[trigger] reset_tables()[i] != "prompts"@ && reset_tables()[i] != "prompt_file_links"@,
{
    reveal_strlit("prompts");
    reveal_strlit("prompt_file_links");
    reveal_strlit("skill_tag_links");
    reveal_strlit("skill_targets");
    reveal_strlit("skill_usage");
    reveal_strlit("skill_scope_preference");
    reveal_strlit("tool_skill_cache");
    reveal_strlit("tool_scan_state");
    reveal_strlit("discovered_skills");
    reveal_strlit("recent_projects");
    reveal_strlit("skill_tags");
    reveal_strlit("skills");
    reveal_strlit("settings");
    reveal_strlit("tool_adapter_configs");
    assert forall|i: int| 0 <= i < reset_tables().len() implies
        #[trigger] reset_tables()[i] != "prompts"@ && reset_tables()[i] != "prompt_file_links"@ by {
        assert(reset_tables()[i][0] != 'p' || reset_tables()[i].len() != "prompts"@.len());
        assert(reset_tables()[i][0] != 'p');
    }
}

/// The tables a reset empties, in the order it empties them.
pub fn reset_delete_order() -> (res: Vec<&'static str>)
    ensures
        res@.len() == reset_tables().len(),
        forall|i: int| 0 <= i < res@.len() ==> #[trigger] res@[i]@ == reset_tables()[i],
{
    let v = vec![
        "skill_tag_links", "skill_targets", "skill_usage", "skill_scope_preference",
        "tool_skill_cache", "tool_scan_state", "discovered_skills", "recent_projects",
        "skill_tags", "skills", "settings", "tool_adapter_configs",
    ];
    assert(v@.len() == 12);
    v
}

/// `DELETE FROM <table>`.
pub fn delete_all_sql(table: &str) -> (res: String)
    ensures
        res@ == "DELETE FROM "@ + table@,
{
    concat("DELETE FROM ", table)
}

fn bool_param(b: bool) -> (res: SqlParam)
    ensures
        res == SqlParam::Integer(if b { 1 } else { 0 }),
{
    SqlParam::Integer(if b { 1 } else { 0 })
}

/// The integer a flag is stored as: 1 for true, 0 for false.
pub open spec fn bool_arg(b: bool) -> (u8, i64, Seq<char>) {
    int_arg(if b { 1 } else { 0 })
}

/// The statement that stores a tool adapter's factory settings.
pub open spec fn insert_adapter_sql() -> Seq<char> {
    "INSERT OR REPLACE INTO tool_adapter_configs (tool_key, display_name, skills_dir, detect_dir, project_skills_dir, supports_symlink, supports_junction, force_copy, supports_project_scope, is_custom, enabled, sort_order, updated_at) VALUES (?1, ?2, ?3, ?4, ?5, ?6, ?7, ?8, ?9, 0, 1, ?10, ?11)"@
}

/// The parameters that store the factory settings `cfg` of tool `key` at
/// position `order`, stamped `now`. The position is bound as an integer; the
/// `sort_order` column has REAL affinity, so SQLite stores the same real
/// number a bound `order as f64` would give.
pub open spec fn adapter_args(key: Seq<char>, cfg: ToolAdapterDefault, order: i64, now: i64) -> Seq<(u8, i64, Seq<char>)> {
    seq![
        text_arg(key), text_arg(cfg.display_name@), text_arg(cfg.skills_dir@), text_arg(cfg.detect_dir@),
        match cfg.project_skills_dir { Some(d) => text_arg(d@), None => null_arg() },
        bool_arg(cfg.supports_symlink), bool_arg(cfg.supports_junction), bool_arg(cfg.force_copy),
        match cfg.supports_project_scope { Some(b) => bool_arg(b), None => null_arg() },
        int_arg(order), int_arg(now),
    ]
}

/// The position of the `k`-th default adapter (from 0): `k + 1`, kept within `i64`.
pub open spec fn adapter_order(k: int) -> i64 {
    if k + 1 <= i64::MAX { (k + 1) as i64 } else { i64::MAX }
}

/// The `k`-th default adapter was stored at its position, stamped with some
/// reading of the clock.
pub open spec fn adapter_seeded(db: int, key: Seq<char>, cfg: ToolAdapterDefault, k: int) -> bool {
    exists|now: i64, n: usize| #[trigger] sqlite_executed(db, insert_adapter_sql(), adapter_args(key, cfg, adapter_order(k), now), Some(n))
}

/// The first `n` tables of `reset_tables()` were emptied on database `db`.
pub open spec fn tables_emptied(db: int, n: int) -> bool {
    forall|j: int| 0 <= j < n ==> #[trigger] sqlite_batch_ran(db, "DELETE FROM "@ + reset_tables()[j], true)
}

/// The first `n` default adapters were stored on database `db`.
pub open spec fn adapters_seeded(db: int, default_adapters: Seq<(String, ToolAdapterDefault)>, n: int) -> bool {
    forall|k: int| 0 <= k < n ==> #[trigger] adapter_seeded(db, default_adapters[k].0@, default_adapters[k].1, k)
}

/// Storing the `k`-th default adapter, stamped with some reading of the
/// clock, failed with `res`.
pub open spec fn adapter_seed_failed(db: int, key: Seq<char>, cfg: ToolAdapterDefault, k: int, res: AppResult<()>) -> bool {
    exists|now: i64, r: AppResult<usize>|
        #[trigger] execute_outcome(db, insert_adapter_sql(), adapter_args(key, cfg, adapter_order(k), now), r)
        && match r {
            Err(e) => res == Err::<(), AppError>(e),
            Ok(_) => false,
        }
}

/// The query that reads the enabled adapter of a tool.
pub open spec fn tool_adapter_sql() -> Seq<char> {
    "SELECT display_name, skills_dir, detect_dir, project_skills_dir, supports_symlink, supports_junction, force_copy, supports_project_scope FROM tool_adapter_configs WHERE tool_key = ?1 AND enabled = 1"@
}

/// A row of `tool_adapter_sql()` can be read.
pub open spec fn adapter_row_ok(row: Seq<SqlValue>) -> bool {
    &&& is_text_at(row, 0)
    &&& is_text_at(row, 1)
    &&& is_text_at(row, 2)
    &&& is_opt_text_at(row, 3)
    &&& is_integer_at(row, 4)
    &&& is_integer_at(row, 5)
    &&& is_integer_at(row, 6)
    &&& is_opt_integer_at(row, 7)
}

/// The adapter such a row holds; a stored flag is true when it is not 0.
pub open spec fn adapter_of_row(row: Seq<SqlValue>) -> ToolAdapterDefault {
    ToolAdapterDefault {
        display_name: text_at(row, 0),
        skills_dir: text_at(row, 1),
        detect_dir: text_at(row, 2),
        project_skills_dir: opt_text_at(row, 3),
        supports_symlink: integer_at(row, 4) != 0,
        supports_junction: integer_at(row, 5) != 0,
        force_copy: integer_at(row, 6) != 0,
        supports_project_scope: match opt_integer_at(row, 7) {
            Some(v) => Some(v != 0),
            None => None,
        },
    }
}

/// `res` is what looking up the enabled adapter of `tool_key` gives: none
/// when SQLite answered no row, the first row's adapter when it can be read,
/// else a `DatabaseError`; or the engine's error.
pub open spec fn adapter_looked_up(db: int, tool_key: Seq<char>, res: AppResult<Option<ToolAdapterDefault>>) -> bool {
    exists|q: AppResult<Vec<Vec<SqlValue>>>| #[trigger] query_outcome(db, tool_adapter_sql(), one_text_arg(tool_key), q)
        && match q {
            Err(e) => res == Err::<Option<ToolAdapterDefault>, AppError>(e),
            Ok(rows) => {
                &&& (rows@.len() == 0 ==> res == Ok::<Option<ToolAdapterDefault>, AppError>(None))
                &&& (rows@.len() > 0 ==> (res is Ok <==> adapter_row_ok(rows@[0]@)))
                &&& (rows@.len() > 0 ==> (res matches Ok(a) ==> a == Some(adapter_of_row(rows@[0]@))))
                &&& (res matches Err(e) ==> e is DatabaseError)
            },
        }
}

/// A successful reset has emptied every table of the schema but the prompts
/// and their file links: each of the twelve skill, tool and settings tables
/// was sent its `DELETE FROM` and SQLite ran it.
pub proof fn law_reset_empties_every_other_table(db: int, default_adapters: Seq<(String, ToolAdapterDefault)>, res: AppResult<()>)
    requires
        res is Ok,
        reset_done(db, default_adapters, res),
    ensures
        sqlite_batch_ran(db, "DELETE FROM "@ + "skill_tag_links"@, true),
        sqlite_batch_ran(db, "DELETE FROM "@ + "skill_targets"@, true),
        sqlite_batch_ran(db, "DELETE FROM "@ + "skill_usage"@, true),
        sqlite_batch_ran(db, "DELETE FROM "@ + "skill_scope_preference"@, true),
        sqlite_batch_ran(db, "DELETE FROM "@ + "tool_skill_cache"@, true),
        sqlite_batch_ran(db, "DELETE FROM "@ + "tool_scan_state"@, true),
        sqlite_batch_ran(db, "DELETE FROM "@ + "discovered_skills"@, true),
        sqlite_batch_ran(db, "DELETE FROM "@ + "recent_projects"@, true),
        sqlite_batch_ran(db, "DELETE FROM "@ + "skill_tags"@, true),
        sqlite_batch_ran(db, "DELETE FROM "@ + "skills"@, true),
        sqlite_batch_ran(db, "DELETE FROM "@ + "settings"@, true),
        sqlite_batch_ran(db, "DELETE FROM "@ + "tool_adapter_configs"@, true),
{
    let t = reset_tables();
    assert(tables_emptied(db, t.len() as int));
    assert(sqlite_batch_ran(db, "DELETE FROM "@ + t[0], true));
    assert(sqlite_batch_ran(db, "DELETE FROM "@ + t[1], true));
    assert(sqlite_batch_ran(db, "DELETE FROM "@ + t[2], true));
    assert(sqlite_batch_ran(db, "DELETE FROM "@ + t[3], true));
    assert(sqlite_batch_ran(db, "DELETE FROM "@ + t[4], true));
    assert(sqlite_batch_ran(db, "DELETE FROM "@ + t[5], true));
    assert(sqlite_batch_ran(db, "DELETE FROM "@ + t[6], true));
    assert(sqlite_batch_ran(db, "DELETE FROM "@ + t[7], true));
    assert(sqlite_batch_ran(db, "DELETE FROM "@ + t[8], true));
    assert(sqlite_batch_ran(db, "DELETE FROM "@ + t[9], true));
    assert(sqlite_batch_ran(db, "DELETE FROM "@ + t[10], true));
    assert(sqlite_batch_ran(db, "DELETE FROM "@ + t[11], true));
}

/// In a page of any table, a cell that holds the SQLite integer `v` is shown
/// in its row's object, under its column's name, as the JSON number `v`; a
/// cell is shown as null only for SQL NULL or a real that is not finite.
pub proof fn law_page_cells_keep_their_values(
    table: Seq<char>,
    cols: Vec<DbColumnInfo>,
    total: i64,
    page: i64,
    page_size: i64,
    raw: Seq<Vec<SqlValue>>,
    d: DbTableData,
    r: int,
    i: int,
)
    requires
        table_page_of(table, cols, total, page, page_size, raw, d),
        0 <= r < raw.len(),
        0 <= i < cols@.len(),
        i < raw[r]@.len(),
    ensures
        d.rows@[r] matches JsonValue::Object(members) && {
            &&& members@[i].0 == cols@[i].name
            &&& (raw[r]@[i] matches SqlValue::Integer(v) ==> members@[i].1 == JsonValue::Number(JsonNumber::Signed(v)))
            &&& (raw[r]@[i] matches SqlValue::Text(t) ==> members@[i].1 == JsonValue::String(t))
            &&& (members@[i].1 is Null ==> (raw[r]@[i] is Null
                || (raw[r]@[i] matches SqlValue::Real(bits) && !is_finite_double(bits))))
        },
{
    assert(row_json(column_names(cols@), raw[r]@, d.rows@[r]));
    assert(column_names(cols@)[i] == cols@[i].name);
}

/// Reads the adapter held by a row of `tool_adapter_sql()`.
pub fn map_adapter(row: &Vec<SqlValue>) -> (res: AppResult<ToolAdapterDefault>)
    ensures
        res is Ok <==> adapter_row_ok(row@),
        res matches Ok(a) ==> a == adapter_of_row(row@),
        res matches Err(e) ==> e is DatabaseError,
{
    let display_name = match column_text(row, 0) { Ok(v) => v, Err(e) => return Err(e) };
    let skills_dir = match column_text(row, 1) { Ok(v) => v, Err(e) => return Err(e) };
    let detect_dir = match column_text(row, 2) { Ok(v) => v, Err(e) => return Err(e) };
    let project_skills_dir = match column_opt_text(row, 3) { Ok(v) => v, Err(e) => return Err(e) };
    let symlink = match column_i64(row, 4) { Ok(v) => v, Err(e) => return Err(e) };
    let junction = match column_i64(row, 5) { Ok(v) => v, Err(e) => return Err(e) };
    let force_copy = match column_i64(row, 6) { Ok(v) => v, Err(e) => return Err(e) };
    let project_scope = match column_opt_i64(row, 7) { Ok(v) => v, Err(e) => return Err(e) };
    Ok(ToolAdapterDefault {
        display_name,
        skills_dir,
        detect_dir,
        project_skills_dir,
        supports_symlink: symlink != 0,
        supports_junction: junction != 0,
        force_copy: force_copy != 0,
        supports_project_scope: match project_scope {
            Some(v) => Some(v != 0),
            None => None,
        },
    })
}

/// Row counts of every table, in the order of the table names.
#[derive(Debug, Clone)]
pub struct DatabaseOverview {
    pub tables: Vec<(String, i64)>,
}

/// `d` is page `page` of `page_size` rows of `table` with columns `cols`:
/// `total` rows pass the filter, and the rows are `raw` as JSON objects.
pub open spec fn table_page_of(
    table: Seq<char>,
    cols: Vec<DbColumnInfo>,
    total: i64,
    page: i64,
    page_size: i64,
    raw: Seq<Vec<SqlValue>>,
    d: DbTableData,
) -> bool {
    &&& d.table@ == table
    &&& d.display_name@ == table
    &&& d.columns@ == cols@
    &&& d.total == total
    &&& d.page == page
    &&& d.page_size == page_size
    &&& d.total_pages == page_count(total as int, page_size as int)
    &&& d.rows@.len() == raw.len()
    &&& forall|i: int| 0 <= i < raw.len() ==> #[trigger] row_json(column_names(cols@), raw[i]@, d.rows@[i])
}

/// `res` is the page read once the columns `cols` of `table` are known: the
/// filtered count SQLite answered, then the rows it answered to the page
/// query with the filter, limit and offset bound; or the first error met.
pub open spec fn page_of_columns(
    db: int,
    table: Seq<char>,
    cols: Vec<DbColumnInfo>,
    page: i64,
    page_size: i64,
    sort_col: Option<&str>,
    sort_dir: Option<&str>,
    filter: Option<&str>,
    res: AppResult<DbTableData>,
) -> bool {
    exists|qc: AppResult<Vec<Vec<SqlValue>>>|
        #[trigger] query_outcome(db, count_query_of(table, cols@, filter), filter_args(cols@, filter), qc) && match qc {
        Err(e) => res == Err::<DbTableData, AppError>(e),
        Ok(count_rows) => exists|t: AppResult<i64>| #[trigger] single_integer_of_rows(count_rows@, t) && match t {
            Err(e) => res == Err::<DbTableData, AppError>(e),
            Ok(total) => exists|qp: AppResult<Vec<Vec<SqlValue>>>| #[trigger] query_outcome(
                db,
                page_query_of(table, cols@, filter, sort_col, sort_dir), page_args(cols@, filter, page, page_size), qp)
                && match qp {
                    Err(e) => res == Err::<DbTableData, AppError>(e),
                    Ok(raw) => res matches Ok(d) && table_page_of(table, cols, total, page, page_size, raw@, d),
                },
        },
    }
}

/// `res` is what browsing `table` gives: refused with `Invalid table name`
/// exactly when SQLite knows no such table (before any statement is built
/// from the name), else the columns SQLite's `PRAGMA table_info` answered
/// and the page read with them; or the first error met.
pub open spec fn table_page_read(
    db: int,
    table: Seq<char>,
    page: i64,
    page_size: i64,
    sort_col: Option<&str>,
    sort_dir: Option<&str>,
    filter: Option<&str>,
    res: AppResult<DbTableData>,
) -> bool {
    exists|ex: AppResult<bool>| #[trigger] table_existence_read(db, table, ex) && match ex {
        Err(e) => res == Err::<DbTableData, AppError>(e),
        Ok(false) => res matches Err(AppError::InvalidInput(m)) && m@ == invalid_table_message(table),
        Ok(true) => exists|qi: AppResult<Vec<Vec<SqlValue>>>|
            #[trigger] query_outcome(db, "PRAGMA table_info("@ + table + ")"@, Seq::empty(), qi) && match qi {
            Err(e) => res == Err::<DbTableData, AppError>(e),
            Ok(info) => exists|cr: AppResult<Vec<DbColumnInfo>>| #[trigger] column_infos_of_rows(info@, cr) && match cr {
                Err(e) => res == Err::<DbTableData, AppError>(e),
                Ok(cols) => page_of_columns(db, table, cols, page, page_size, sort_col, sort_dir, filter, res),
            },
        },
    }
}

/// `ov` counts, in order, the rows of each table that `names` lists.
pub open spec fn overview_of_names(db: int, names: AppResult<Vec<String>>, ov: DatabaseOverview) -> bool {
    match names {
        Ok(ns) => ov.tables@.len() == ns@.len() && forall|j: int| 0 <= j < ns@.len() ==> {
            &&& #[trigger] ov.tables@[j].0 == ns@[j]
            &&& table_counted(db, ns@[j]@, Ok::<i64, AppError>(ov.tables@[j].1))
        },
        Err(_) => false,
    }
}

/// `res` is what a reset of database `db` gives: on success every table of
/// `reset_tables()` was emptied, the file compacted and every default adapter
/// stored at its position, in that order; a failure is the error the engine
/// reported for the first of these statements that it refused, all those
/// before it having run.
pub open spec fn reset_done(db: int, default_adapters: Seq<(String, ToolAdapterDefault)>, res: AppResult<()>) -> bool {
    let n = reset_tables().len() as int;
    ||| {
        &&& res is Ok
        &&& tables_emptied(db, n)
        &&& sqlite_batch_ran(db, "VACUUM"@, true)
        &&& adapters_seeded(db, default_adapters, default_adapters.len() as int)
    }
    ||| exists|i: int| 0 <= i < n && tables_emptied(db, i) && res is Err
        && #[trigger] batch_outcome(db, "DELETE FROM "@ + reset_tables()[i], res)
    ||| tables_emptied(db, n) && res is Err && batch_outcome(db, "VACUUM"@, res)
    ||| exists|k: int| 0 <= k < default_adapters.len() && {
        &&& tables_emptied(db, n)
        &&& sqlite_batch_ran(db, "VACUUM"@, true)
        &&& adapters_seeded(db, default_adapters, k)
        &&& #[trigger] adapter_seed_failed(db, default_adapters[k].0@, default_adapters[k].1, k, res)
    }
}

/// `res` is what reading the overview gives: the tables SQLite listed, each
/// with its count, or the first error met.
pub open spec fn overview_outcome(db: int, res: AppResult<DatabaseOverview>) -> bool {
    exists|names: AppResult<Vec<String>>| #[trigger] table_names_listed(db, names) && match names {
        Err(e) => res == Err::<DatabaseOverview, AppError>(e),
        Ok(ns) => match res {
            Ok(ov) => overview_of_names(db, names, ov),
            Err(e) => exists|j: int| 0 <= j < ns@.len() && #[trigger] table_counted(db, ns@[j]@, Err::<i64, AppError>(e)),
        },
    }
}

/// `ov` holds every table that SQLite listed with the row count it gave.
pub open spec fn overview_read(db: int, ov: DatabaseOverview) -> bool {
    exists|names: AppResult<Vec<String>>| #[trigger] table_names_listed(db, names) && overview_of_names(db, names, ov)
}

/// Runs upkeep statements and reads statistics on a database.
pub struct MaintenanceRepository<'a> {
    db: &'a Database,
}

impl<'a> MaintenanceRepository<'a> {
    /// The database this repository works on.
    pub closed spec fn database(&self) -> &'a Database {
        self.db
    }

    /// A repository over `db`.
    pub fn new(db: &'a Database) -> (res: Self)
        ensures
            res.database() == db,
    {
        Self { db }
    }

    /// `VACUUM`: rebuilds the database file, reclaiming free pages.
    pub fn vacuum(&self) -> (res: AppResult<()>)
        ensures
            batch_outcome(self.database().id(), "VACUUM"@, res),
    {
        self.db.execute_batch("VACUUM")
    }

    /// `ANALYZE`: refreshes the query planner's statistics.
    pub fn analyze(&self) -> (res: AppResult<()>)
        ensures
            batch_outcome(self.database().id(), "ANALYZE"@, res),
    {
        self.db.execute_batch("ANALYZE")
    }

    /// Empties the tool skill cache and the tool scan state.
    pub fn clear_cache(&self) -> (res: AppResult<()>)
        ensures
            batch_outcome(self.database().id(), "DELETE FROM tool_skill_cache; DELETE FROM tool_scan_state;"@, res),
    {
        self.db.execute_batch("DELETE FROM tool_skill_cache; DELETE FROM tool_scan_state;")
    }

    /// Empties the discovered skills.
    pub fn clear_discovered(&self) -> (res: AppResult<()>)
        ensures
            batch_outcome(self.database().id(), "DELETE FROM discovered_skills;"@, res),
    {
        self.db.execute_batch("DELETE FROM discovered_skills;")
    }

    /// `PRAGMA integrity_check`: one line per problem, or the single line `ok`.
    pub fn integrity_check(&self) -> (res: AppResult<Vec<String>>)
        ensures
            integrity_checked(self.database().id(), res),
    {
        let params: [SqlParam; 0] = [];
        let q = self.db.query("PRAGMA integrity_check", &params);
        assert(args_of(params@) =~= Seq::empty());
        assert(query_outcome(self.database().id(), integrity_check_sql(), Seq::empty(), q));
        match q {
            Ok(rows) => map_first_texts(&rows),
            Err(e) => Err(e),
        }
    }

    /// Moves the write-ahead log into the database file and truncates it.
    pub fn wal_checkpoint(&self) -> (res: AppResult<()>)
        ensures
            batch_outcome(self.database().id(), "PRAGMA wal_checkpoint(TRUNCATE)"@, res),
    {
        self.db.execute_batch("PRAGMA wal_checkpoint(TRUNCATE)")
    }

    /// `REINDEX`: rebuilds every index.
    pub fn reindex(&self) -> (res: AppResult<()>)
        ensures
            batch_outcome(self.database().id(), "REINDEX"@, res),
    {
        self.db.execute_batch("REINDEX")
    }

    /// `PRAGMA optimize`.
    pub fn optimize(&self) -> (res: AppResult<()>)
        ensures
            batch_outcome(self.database().id(), "PRAGMA optimize"@, res),
    {
        self.db.execute_batch("PRAGMA optimize")
    }

    /// Empties the skill usage records.
    pub fn clear_usage(&self) -> (res: AppResult<()>)
        ensures
            batch_outcome(self.database().id(), "DELETE FROM skill_usage;"@, res),
    {
        self.db.execute_batch("DELETE FROM skill_usage;")
    }

    /// The enabled adapter stored for `tool_key`, if there is one.
    pub fn tool_adapter(&self, tool_key: &str) -> (res: AppResult<Option<ToolAdapterDefault>>)
        ensures
            adapter_looked_up(self.database().id(), tool_key@, res),
    {
        let params = [SqlParam::Text(String::from_str(tool_key))];
        let q = self.db.query(
            "SELECT display_name, skills_dir, detect_dir, project_skills_dir, supports_symlink, supports_junction, force_copy, supports_project_scope FROM tool_adapter_configs WHERE tool_key = ?1 AND enabled = 1",
            &params,
        );
        assert(args_of(params@) =~= one_text_arg(tool_key@));
        let ghost qg = q;
        assert(query_outcome(self.database().id(), tool_adapter_sql(), one_text_arg(tool_key@), qg));
        match q {
            Ok(rows) => {
                if rows.len() == 0 {
                    Ok(None)
                } else {
                    match map_adapter(&rows[0]) {
                        Ok(a) => Ok(Some(a)),
                        Err(e) => Err(e),
                    }
                }
            },
            Err(e) => Err(e),
        }
    }

    /// The names of the user tables, sorted.
    pub fn get_table_names(&self) -> (res: AppResult<Vec<String>>)
        ensures
            table_names_listed(self.database().id(), res),
    {
        let params: [SqlParam; 0] = [];
        let q = self.db.query(
            "SELECT name FROM sqlite_master WHERE type = 'table' AND name NOT LIKE 'sqlite_%' ORDER BY name",
            &params,
        );
        assert(args_of(params@) =~= Seq::empty());
        assert(query_outcome(self.database().id(), table_names_sql(), Seq::empty(), q));
        match q {
            Ok(rows) => map_first_texts(&rows),
            Err(e) => Err(e),
        }
    }

    /// Whether a table called `table` exists.
    pub fn table_exists(&self, table: &str) -> (res: AppResult<bool>)
        ensures
            table_existence_read(self.database().id(), table@, res),
    {
        let params = [SqlParam::Text(String::from_str(table))];
        let q = self.db.query(
            "SELECT COUNT(*) FROM sqlite_master WHERE type = 'table' AND name = ?1",
            &params,
        );
        assert(args_of(params@) =~= one_text_arg(table@));
        assert(query_outcome(self.database().id(), table_exists_sql(), one_text_arg(table@), q));
        match q {
            Ok(rows) => match map_single_integer(&rows) {
                Ok(count) => Ok(count > 0),
                Err(e) => Err(e),
            },
            Err(e) => Err(e),
        }
    }

    /// The number of rows of `table`; a name that is not a table is refused
    /// before any statement is built from it.
    pub fn get_table_count(&self, table: &str) -> (res: AppResult<i64>)
        ensures
            table_counted(self.database().id(), table@, res),
            res matches Err(e) ==> (e is DatabaseError
                || e == AppError::Unexpected(e->Unexpected_0) && e->Unexpected_0@ == invalid_table_message(table@)),
    {
        let ex = self.table_exists(table);
        assert(table_existence_read(self.database().id(), table@, ex));
        match ex {
            Err(e) => return Err(e),
            Ok(false) => return Err(AppError::Unexpected(concat("Invalid table name: ", table))),
            Ok(true) => {},
        }
        let sql = count_sql(table);
        let params: [SqlParam; 0] = [];
        let q = self.db.query(sql.as_str(), &params);
        assert(args_of(params@) =~= Seq::empty());
        assert(query_outcome(self.database().id(), "SELECT COUNT(*) FROM "@ + table@, Seq::empty(), q));
        let res = match q {
            Ok(rows) => map_single_integer(&rows),
            Err(e) => Err(e),
        };
        assert(table_counted(self.database().id(), table@, res));
        res
    }

    /// SQLite's version and the page size, page count and free-list length of
    /// the file; a statistic that cannot be read falls back to `""`, 4096, 0, 0.
    pub fn get_database_stats(&self) -> (res: AppResult<(String, i64, i64, i64)>)
        ensures
            res matches Ok(stats) && database_stats_read(self.database().id(), stats),
    {
        let params: [SqlParam; 0] = [];
        proof {
            assert(args_of(params@) =~= Seq::empty());
        }
        let version = self.db.query("SELECT sqlite_version()", &params);
        let page_size = self.db.query("PRAGMA page_size", &params);
        let page_count = self.db.query("PRAGMA page_count", &params);
        let freelist_count = self.db.query("PRAGMA freelist_count", &params);
        Ok((
            first_text_or_empty(&version),
            first_integer_or(&page_size, 4096),
            first_integer_or(&page_count, 0),
            first_integer_or(&freelist_count, 0),
        ))
    }

    /// Page `page` (counted from 1) of `page_size` rows of `table_name`, sorted
    /// by `sort_col` when it is one of the table's columns, and keeping only
    /// the rows where some text column contains `filter_text`. The name must be
    /// that of an existing table before any statement is built from it.
    pub fn get_table_data(
        &self,
        table_name: &str,
        page: i64,
        page_size: i64,
        sort_col: Option<&str>,
        sort_dir: Option<&str>,
        filter_text: Option<&str>,
    ) -> (res: AppResult<DbTableData>)
        requires
            page > i64::MIN,
            i64::MIN <= (page - 1) * page_size <= i64::MAX,
        ensures
            table_page_read(self.database().id(), table_name@, page, page_size, sort_col, sort_dir, filter_text, res),
            res matches Err(e) ==> (e is DatabaseError
                || e == AppError::InvalidInput(e->InvalidInput_0) && e->InvalidInput_0@ == invalid_table_message(table_name@)),
            res matches Ok(data) ==> {
                &&& data.table@ == table_name@
                &&& data.display_name@ == table_name@
                &&& data.page == page
                &&& data.page_size == page_size
                &&& data.total_pages == page_count(data.total as int, page_size as int)
                &&& rows_are_objects_of(data.rows@, data.columns@)
            },
    {
        broadcast use vstd::string::group_string_axioms;
        let ex = self.table_exists(table_name);
        assert(table_existence_read(self.database().id(), table_name@, ex));
        match ex {
            Ok(true) => {},
            Ok(false) => return Err(AppError::InvalidInput(concat("Invalid table name: ", table_name))),
            Err(e) => return Err(e),
        }
        let info_sql = table_info_sql(table_name);
        let no_params: [SqlParam; 0] = [];
        let qi = self.db.query(info_sql.as_str(), &no_params);
        assert(args_of(no_params@) =~= Seq::empty());
        assert(query_outcome(self.database().id(), "PRAGMA table_info("@ + table_name@ + ")"@, Seq::empty(), qi));
        let info_rows = match qi {
            Ok(r) => r,
            Err(e) => return Err(e),
        };
        let cr = map_column_infos(&info_rows);
        assert(column_infos_of_rows(info_rows@, cr));
        let columns = match cr {
            Ok(c) => c,
            Err(e) => return Err(e),
        };
        let ghost cols = columns;
        let (where_clause, filter_params) = build_where_clause(&columns, filter_text);
        let mut params: Vec<SqlParam> = Vec::new();
        let mut k: usize = 0;
        while k < filter_params.len()
            invariant
                k <= filter_params@.len(),
                params@.len() == k,
                filter_params@.len() == where_params_of(columns@, filter_text).len(),
                filter_params@.len() <= 1,
                forall|j: int| 0 <= j < filter_params@.len()
                    ==> #[trigger] filter_params@[j]@ == where_params_of(columns@, filter_text)[j],
                forall|j: int| 0 <= j < k ==> #[trigger] params@[j] == SqlParam::Text(filter_params@[j]),
            decreases filter_params@.len() - k,
        {
            params.push(SqlParam::Text(filter_params[k].clone()));
            k = k + 1;
        }
        assert(args_of(params@) =~= filter_args(columns@, filter_text));
        let count_query = filtered_count_sql(table_name, where_clause.as_str());
        let qc = self.db.query(count_query.as_str(), params.as_slice());
        assert(query_outcome(self.database().id(), count_query_of(table_name@, columns@, filter_text), filter_args(columns@, filter_text), qc));
        let count_rows = match qc {
            Ok(r) => r,
            Err(e) => {
                let res: AppResult<DbTableData> = Err(e);
                assert(page_of_columns(self.database().id(), table_name@, cols, page, page_size, sort_col, sort_dir, filter_text, res));
                return res;
            },
        };
        let t = map_single_integer(&count_rows);
        assert(single_integer_of_rows(count_rows@, t));
        let total = match t {
            Ok(v) => v,
            Err(e) => {
                let res: AppResult<DbTableData> = Err(e);
                assert(page_of_columns(self.database().id(), table_name@, cols, page, page_size, sort_col, sort_dir, filter_text, res));
                return res;
            },
        };
        let order_by = build_order_by(&columns, sort_col, sort_dir);
        let offset = (page - 1) * page_size;
        let rows_query = page_sql(table_name, where_clause.as_str(), order_by.as_str(), params.len());
        params.push(SqlParam::Integer(page_size));
        params.push(SqlParam::Integer(offset));
        assert(args_of(params@) =~= page_args(columns@, filter_text, page, page_size));
        assert(rows_query@ == page_query_of(table_name@, columns@, filter_text, sort_col, sort_dir));
        let names = names_of(&columns);
        let qp = self.db.query(rows_query.as_str(), params.as_slice());
        assert(query_outcome(self.database().id(), page_query_of(table_name@, columns@, filter_text, sort_col, sort_dir),
            page_args(columns@, filter_text, page, page_size), qp));
        let raw_rows = match qp {
            Ok(r) => r,
            Err(e) => {
                let res: AppResult<DbTableData> = Err(e);
                assert(page_of_columns(self.database().id(), table_name@, cols, page, page_size, sort_col, sort_dir, filter_text, res));
                return res;
            },
        };
        let mut rows: Vec<JsonValue> = Vec::new();
        let mut i: usize = 0;
        while i < raw_rows.len()
            invariant
                i <= raw_rows@.len(),
                rows@.len() == i,
                names@ == column_names(columns@),
                forall|j: int| 0 <= j < i ==> #[trigger] row_json(names@, raw_rows@[j]@, rows@[j]),
            decreases raw_rows@.len() - i,
        {
            let r = row_to_json(&names, &raw_rows[i]);
            rows.push(r);
            i = i + 1;
        }
        assert forall|j: int| 0 <= j < rows@.len() implies #[trigger] object_with_keys(rows@[j], column_names(columns@)) by {
            assert(row_json(names@, raw_rows@[j]@, rows@[j]));
        }
        let data = DbTableData {
            table: String::from_str(table_name),
            display_name: String::from_str(table_name),
            columns,
            rows,
            total,
            page,
            page_size,
            total_pages: total_pages(total, page_size),
        };
        assert(table_page_of(table_name@, cols, total, page, page_size, raw_rows@, data));
        let res = Ok(data);
        assert(page_of_columns(self.database().id(), table_name@, cols, page, page_size, sort_col, sort_dir, filter_text, res));
        res
    }

    /// Empties every table except the prompts, compacts the file, and seeds
    /// `tool_adapter_configs` with `default_adapters`, numbered 1, 2, ... in order.
    pub fn reset(&self, default_adapters: &[(String, ToolAdapterDefault)]) -> (res: AppResult<()>)
        ensures
            reset_done(self.database().id(), default_adapters@, res),
            res matches Err(e) ==> e is DatabaseError,
    {
        let ghost db = self.database().id();
        let tables = reset_delete_order();
        let mut i: usize = 0;
        while i < tables.len()
            invariant
                db == self.database().id(),
                i <= tables@.len(),
                tables@.len() == reset_tables().len(),
                forall|j: int| 0 <= j < tables@.len() ==> #[trigger] tables@[j]@ == reset_tables()[j],
                tables_emptied(db, i as int),
            decreases tables@.len() - i,
        {
            let sql = delete_all_sql(tables[i]);
            let r = self.db.execute_batch(sql.as_str());
            match r {
                Ok(()) => {},
                Err(e) => {
                    let res: AppResult<()> = Err(e);
                    assert(batch_outcome(db, "DELETE FROM "@ + reset_tables()[i as int], res));
                    return res;
                },
            }
            i = i + 1;
        }
        let v = self.db.execute_batch("VACUUM");
        proof { reveal_strlit("VACUUM"); }
        match v {
            Ok(()) => {},
            Err(e) => {
                let res: AppResult<()> = Err(e);
                assert(batch_outcome(db, "VACUUM"@, res));
                return res;
            },
        }
        let now = crate::db::now_ms();
        let mut order: i64 = 1;
        let n = default_adapters.len();
        let mut k: usize = 0;
        while k < n
            invariant
                n == default_adapters@.len(),
                k <= n,
                db == self.database().id(),
                order == adapter_order(k as int),
                tables_emptied(db, reset_tables().len() as int),
                sqlite_batch_ran(db, "VACUUM"@, true),
                adapters_seeded(db, default_adapters@, k as int),
            decreases n - k,
        {
            let (key, cfg) = &default_adapters[k];
            let scope = match cfg.supports_project_scope {
                Some(b) => bool_param(b),
                None => SqlParam::Null,
            };
            let project_dir = match &cfg.project_skills_dir {
                Some(d) => SqlParam::Text(d.clone()),
                None => SqlParam::Null,
            };
            let params = [
                SqlParam::Text(key.clone()),
                SqlParam::Text(cfg.display_name.clone()),
                SqlParam::Text(cfg.skills_dir.clone()),
                SqlParam::Text(cfg.detect_dir.clone()),
                project_dir,
                bool_param(cfg.supports_symlink),
                bool_param(cfg.supports_junction),
                bool_param(cfg.force_copy),
                scope,
                SqlParam::Integer(order),
                SqlParam::Integer(now),
            ];
            let r = self.db.execute(
                "INSERT OR REPLACE INTO tool_adapter_configs (tool_key, display_name, skills_dir, detect_dir, project_skills_dir, supports_symlink, supports_junction, force_copy, supports_project_scope, is_custom, enabled, sort_order, updated_at) VALUES (?1, ?2, ?3, ?4, ?5, ?6, ?7, ?8, ?9, 0, 1, ?10, ?11)",
                &params,
            );
            let ghost args = adapter_args(key@, *cfg, order, now);
            assert(args_of(params@) =~= args);
            let ghost rg = r;
            assert(execute_outcome(db, insert_adapter_sql(), args, rg));
            match r {
                Ok(changed) => {
                    assert(sqlite_executed(db, insert_adapter_sql(), args, Some(changed)));
                    assert(adapter_seeded(db, default_adapters@[k as int].0@, default_adapters@[k as int].1, k as int));
                },
                Err(e) => {
                    let res: AppResult<()> = Err(e);
                    assert(adapter_seed_failed(db, default_adapters@[k as int].0@, default_adapters@[k as int].1, k as int, res));
                    return res;
                },
            }
            if order < 0x7fff_ffff_ffff_ffffi64 {
                order = order + 1;
            }
            k = k + 1;
        }
        let res: AppResult<()> = Ok(());
        assert(adapters_seeded(db, default_adapters@, default_adapters@.len() as int));
        res
    }

    /// The row count of every table.
    pub fn get_overview(&self) -> (res: AppResult<DatabaseOverview>)
        ensures
            overview_outcome(self.database().id(), res),
            res matches Ok(ov) ==> overview_read(self.database().id(), ov),
            res matches Err(e) ==> (e is DatabaseError || e is Unexpected),
    {
        let names = self.get_table_names();
        let table_names = match names {
            Ok(ns) => ns,
            Err(e) => return Err(e),
        };
        let ghost names_res = Ok::<Vec<String>, AppError>(table_names);
        assert(table_names_listed(self.database().id(), names_res));
        assert(names_res matches Ok(ns) && ns == table_names);
        let mut counts: Vec<(String, i64)> = Vec::new();
        let mut i: usize = 0;
        while i < table_names.len()
            invariant
                i <= table_names@.len(),
                counts@.len() == i,
                forall|j: int| 0 <= j < i ==> {
                    &&& #[trigger] counts@[j].0 == table_names@[j]
                    &&& table_counted(self.database().id(), table_names@[j]@, Ok::<i64, AppError>(counts@[j].1))
                },
                names_res == Ok::<Vec<String>, AppError>(table_names),
                table_names_listed(self.database().id(), names_res),
            decreases table_names@.len() - i,
        {
            let cnt = self.get_table_count(table_names[i].as_str());
            let count = match cnt {
                Ok(c) => c,
                Err(e) => {
                    assert(table_counted(self.database().id(), table_names@[i as int]@, Err::<i64, AppError>(e)));
                    let res: AppResult<DatabaseOverview> = Err(e);
                    assert(overview_outcome(self.database().id(), res));
                    return res;
                },
            };
            counts.push((table_names[i].clone(), count));
            i = i + 1;
        }
        let ov = DatabaseOverview { tables: counts };
        assert(overview_of_names(self.database().id(), names_res, ov));
        Ok(ov)
    }
}

} // verus!
