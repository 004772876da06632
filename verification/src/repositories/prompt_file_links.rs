//! The `prompt_file_links` table.

use vstd::prelude::*;
use crate::db::{
    args_of, execute_outcome, int_arg, now_ms, null_arg, one_text_arg, query_outcome,
    statement_outcome, text_arg, Database, SqlParam, SqlValue,
};
use crate::error::{AppError, AppResult};
use crate::models::PromptFileLink;
use crate::repositories::columns::{
    column_i64, column_opt_i64, column_opt_text, column_text, integer_at, is_integer_at,
    is_opt_integer_at, is_opt_text_at, is_text_at, opt_integer_at, opt_text_at, text_at,
};

verus! {

/// A row of the link columns (`id, prompt_id, file_path, write_back_enabled,
/// content_hash, exists_on_disk, last_synced_at, created_at, updated_at`) can be read.
pub open spec fn link_row_ok(row: Seq<SqlValue>) -> bool {
    &&& is_text_at(row, 0)
    &&& is_text_at(row, 1)
    &&& is_text_at(row, 2)
    &&& is_integer_at(row, 3)
    &&& is_opt_text_at(row, 4)
    &&& is_integer_at(row, 5)
    &&& is_opt_integer_at(row, 6)
    &&& is_integer_at(row, 7)
    &&& is_integer_at(row, 8)
}

/// The link that such a row holds; the two flags are true when non-zero.
pub open spec fn link_of_row(row: Seq<SqlValue>) -> PromptFileLink {
    PromptFileLink {
        id: text_at(row, 0),
        prompt_id: text_at(row, 1),
        file_path: text_at(row, 2),
        write_back_enabled: integer_at(row, 3) != 0,
        content_hash: opt_text_at(row, 4),
        exists_on_disk: integer_at(row, 5) != 0,
        last_synced_at: opt_integer_at(row, 6),
        created_at: integer_at(row, 7),
        updated_at: integer_at(row, 8),
    }
}

/// `res` is `rows` read as links: all of them when every row can be read,
/// else a `DatabaseError`.
pub open spec fn links_of_rows(rows: Seq<Vec<SqlValue>>, res: AppResult<Vec<PromptFileLink>>) -> bool {
    &&& (res is Ok <==> forall|i: int| 0 <= i < rows.len() ==> #[trigger] link_row_ok(rows[i]@))
    &&& (res matches Ok(v) ==> v@.len() == rows.len()
        && forall|i: int| 0 <= i < rows.len() ==> #[trigger] v@[i] == link_of_row(rows[i]@))
    &&& (res matches Err(e) ==> e is DatabaseError)
}

/// `res` is the first of `rows` read as a link: `None` when there is no row,
/// a `DatabaseError` when the first row cannot be read.
pub open spec fn first_link_of_rows(rows: Seq<Vec<SqlValue>>, res: AppResult<Option<PromptFileLink>>) -> bool {
    &&& (rows.len() == 0 ==> res == Ok::<Option<PromptFileLink>, AppError>(None))
    &&& (rows.len() > 0 ==> (res is Ok <==> link_row_ok(rows[0]@)))
    &&& (rows.len() > 0 ==> (res matches Ok(l) ==> l == Some(link_of_row(rows[0]@))))
    &&& (res matches Err(e) ==> e is DatabaseError)
}

/// The query that lists the links of a prompt, oldest first.
pub open spec fn list_links_sql() -> Seq<char> {
    "SELECT id, prompt_id, file_path, write_back_enabled, content_hash, exists_on_disk, last_synced_at, created_at, updated_at FROM prompt_file_links WHERE prompt_id = ?1 ORDER BY created_at, id"@
}

/// The query that looks a link up by identifier.
pub open spec fn get_link_sql() -> Seq<char> {
    "SELECT id, prompt_id, file_path, write_back_enabled, content_hash, exists_on_disk, last_synced_at, created_at, updated_at FROM prompt_file_links WHERE id = ?1"@
}

/// The query that looks a link up by file path.
pub open spec fn get_link_by_path_sql() -> Seq<char> {
    "SELECT id, prompt_id, file_path, write_back_enabled, content_hash, exists_on_disk, last_synced_at, created_at, updated_at FROM prompt_file_links WHERE file_path = ?1"@
}

/// The statement that stores a new link.
pub open spec fn insert_link_sql() -> Seq<char> {
    "INSERT INTO prompt_file_links (id, prompt_id, file_path, write_back_enabled, content_hash, exists_on_disk, last_synced_at, created_at, updated_at) VALUES (?1, ?2, ?3, ?4, ?5, ?6, ?7, ?8, ?9)"@
}

/// The statement that deletes a link.
pub open spec fn delete_link_sql() -> Seq<char> {
    "DELETE FROM prompt_file_links WHERE id = ?1"@
}

/// The statement that records what was last seen of a linked file.
pub open spec fn update_sync_state_sql() -> Seq<char> {
    "UPDATE prompt_file_links SET content_hash = ?1, exists_on_disk = ?2, last_synced_at = ?3, updated_at = ?4 WHERE id = ?5"@
}

/// The parameter of an optional text: the text, or NULL.
pub open spec fn opt_text_arg(v: Option<Seq<char>>) -> (u8, i64, Seq<char>) {
    match v {
        Some(t) => text_arg(t),
        None => null_arg(),
    }
}

/// The parameter of an optional integer: the integer, or NULL.
pub open spec fn opt_int_arg(v: Option<i64>) -> (u8, i64, Seq<char>) {
    match v {
        Some(x) => int_arg(x),
        None => null_arg(),
    }
}

/// The text of an optional string.
pub open spec fn opt_string_view(v: Option<String>) -> Option<Seq<char>> {
    match v {
        Some(s) => Some(s@),
        None => None,
    }
}

/// The parameters that store `l`.
pub open spec fn link_args(l: PromptFileLink) -> Seq<(u8, i64, Seq<char>)> {
    seq![
        text_arg(l.id@), text_arg(l.prompt_id@), text_arg(l.file_path@), int_arg(flag_value(l.write_back_enabled)),
        opt_text_arg(opt_string_view(l.content_hash)), int_arg(flag_value(l.exists_on_disk)),
        opt_int_arg(l.last_synced_at), int_arg(l.created_at), int_arg(l.updated_at),
    ]
}

/// The parameters that record the sync state of link `id`, stamped `now`.
pub open spec fn sync_state_args(
    id: Seq<char>,
    content_hash: Option<Seq<char>>,
    exists_on_disk: bool,
    last_synced_at: Option<i64>,
    now: i64,
) -> Seq<(u8, i64, Seq<char>)> {
    seq![
        opt_text_arg(content_hash), int_arg(flag_value(exists_on_disk)), opt_int_arg(last_synced_at),
        int_arg(now), text_arg(id),
    ]
}

/// `res` is what listing the links of prompt `prompt_id` gives: SQLite's
/// answer read as links, or the engine's error.
pub open spec fn links_listed(db: int, prompt_id: Seq<char>, res: AppResult<Vec<PromptFileLink>>) -> bool {
    exists|q: AppResult<Vec<Vec<SqlValue>>>| #[trigger] query_outcome(db, list_links_sql(), one_text_arg(prompt_id), q)
        && match q {
            Ok(rows) => links_of_rows(rows@, res),
            Err(e) => res == Err::<Vec<PromptFileLink>, AppError>(e),
        }
}

/// `res` is what looking link `id` up gives: the first row of SQLite's
/// answer read as a link, or the engine's error.
pub open spec fn link_looked_up(db: int, id: Seq<char>, res: AppResult<Option<PromptFileLink>>) -> bool {
    exists|q: AppResult<Vec<Vec<SqlValue>>>| #[trigger] query_outcome(db, get_link_sql(), one_text_arg(id), q)
        && match q {
            Ok(rows) => first_link_of_rows(rows@, res),
            Err(e) => res == Err::<Option<PromptFileLink>, AppError>(e),
        }
}

/// `res` is what looking up the link of the file at `file_path` gives.
pub open spec fn link_looked_up_by_path(db: int, file_path: Seq<char>, res: AppResult<Option<PromptFileLink>>) -> bool {
    exists|q: AppResult<Vec<Vec<SqlValue>>>| #[trigger] query_outcome(db, get_link_by_path_sql(), one_text_arg(file_path), q)
        && match q {
            Ok(rows) => first_link_of_rows(rows@, res),
            Err(e) => res == Err::<Option<PromptFileLink>, AppError>(e),
        }
}

/// `res` is the outcome of storing `l` as a new row.
pub open spec fn link_stored(db: int, l: PromptFileLink, res: AppResult<()>) -> bool {
    statement_outcome(db, insert_link_sql(), link_args(l), res)
}

/// `res` is the outcome of deleting link `id`.
pub open spec fn link_deleted(db: int, id: Seq<char>, res: AppResult<()>) -> bool {
    statement_outcome(db, delete_link_sql(), one_text_arg(id), res)
}

/// `res` is the outcome of recording the sync state of link `id`, stamped
/// with a reading of the clock.
pub open spec fn sync_state_recorded(
    db: int,
    id: Seq<char>,
    content_hash: Option<Seq<char>>,
    exists_on_disk: bool,
    last_synced_at: Option<i64>,
    res: AppResult<()>,
) -> bool {
    exists|now: i64| #[trigger] statement_outcome(
        db,
        update_sync_state_sql(), sync_state_args(id, content_hash, exists_on_disk, last_synced_at, now), res)
}

/// Reads a link from a row of the link columns.
pub fn map_link(row: &Vec<SqlValue>) -> (res: AppResult<PromptFileLink>)
    ensures
        res is Ok <==> link_row_ok(row@),
        res matches Ok(l) ==> l == link_of_row(row@),
        res matches Err(e) ==> e is DatabaseError,
{
    let id = column_text(row, 0)?;
    let prompt_id = column_text(row, 1)?;
    let file_path = column_text(row, 2)?;
    let write_back = column_i64(row, 3)?;
    let content_hash = column_opt_text(row, 4)?;
    let exists = column_i64(row, 5)?;
    let last_synced_at = column_opt_i64(row, 6)?;
    let created_at = column_i64(row, 7)?;
    let updated_at = column_i64(row, 8)?;
    Ok(PromptFileLink {
        id,
        prompt_id,
        file_path,
        write_back_enabled: write_back != 0,
        content_hash,
        exists_on_disk: exists != 0,
        last_synced_at,
        created_at,
        updated_at,
    })
}

/// Reads every row as a link; the first row that cannot be read fails the whole.
pub fn map_links(rows: &Vec<Vec<SqlValue>>) -> (res: AppResult<Vec<PromptFileLink>>)
    ensures
        links_of_rows(rows@, res),
{
    let mut out: Vec<PromptFileLink> = Vec::new();
    let mut i: usize = 0;
    while i < rows.len()
        invariant
            i <= rows@.len(),
            out@.len() == i,
            forall|j: int| 0 <= j < i ==> #[trigger] link_row_ok(rows@[j]@),
            forall|j: int| 0 <= j < i ==> #[trigger] out@[j] == link_of_row(rows@[j]@),
        decreases rows@.len() - i,
    {
        let l = map_link(&rows[i])?;
        out.push(l);
        i = i + 1;
    }
    Ok(out)
}

/// Reads the first row, if any, as a link (`None` when there is no row).
pub fn map_first_link(rows: &Vec<Vec<SqlValue>>) -> (res: AppResult<Option<PromptFileLink>>)
    ensures
        first_link_of_rows(rows@, res),
{
    if rows.len() == 0 {
        Ok(None)
    } else {
        let l = map_link(&rows[0])?;
        Ok(Some(l))
    }
}

/// The integer a flag is stored as: 1 for true, 0 for false.
pub open spec fn flag_value(b: bool) -> i64 {
    if b { 1 } else { 0 }
}

fn flag(b: bool) -> (res: i64)
    ensures
        res == flag_value(b),
{
    if b { 1 } else { 0 }
}

fn opt_text_param(v: &Option<String>) -> (res: SqlParam)
    ensures
        v is None ==> res is Null,
        *v matches Some(s) ==> res == SqlParam::Text(s),
{
    match v {
        Some(s) => SqlParam::Text(s.clone()),
        None => SqlParam::Null,
    }
}

fn opt_integer_param(v: Option<i64>) -> (res: SqlParam)
    ensures
        v is None ==> res is Null,
        v matches Some(x) ==> res == SqlParam::Integer(x),
{
    match v {
        Some(x) => SqlParam::Integer(x),
        None => SqlParam::Null,
    }
}

/// Reads and writes the `prompt_file_links` table.
pub struct PromptFileLinksRepository<'a> {
    db: &'a Database,
}

impl<'a> PromptFileLinksRepository<'a> {
    /// The database this repository works on.
    pub closed spec fn database(&self) -> &'a Database {
        self.db
    }

    /// A repository over `db`.
    pub fn new(db: &'a Database) -> (res: Self)
        ensures
            res.database() == db,
    {
        Self { db }
    }

    /// The links of prompt `prompt_id`, oldest first.
    pub fn list_by_prompt(&self, prompt_id: &str) -> (res: AppResult<Vec<PromptFileLink>>)
        ensures
            links_listed(self.database().id(), prompt_id@, res),
    {
        let params = [SqlParam::Text(String::from_str(prompt_id))];
        let q = self.db.query(
            "SELECT id, prompt_id, file_path, write_back_enabled, content_hash, exists_on_disk, last_synced_at, created_at, updated_at FROM prompt_file_links WHERE prompt_id = ?1 ORDER BY created_at, id",
            &params,
        );
        assert(args_of(params@) =~= one_text_arg(prompt_id@));
        assert(query_outcome(self.database().id(), list_links_sql(), one_text_arg(prompt_id@), q));
        match q {
            Ok(rows) => map_links(&rows),
            Err(e) => Err(e),
        }
    }

    /// The link with identifier `id`, if there is one.
    pub fn get(&self, id: &str) -> (res: AppResult<Option<PromptFileLink>>)
        ensures
            link_looked_up(self.database().id(), id@, res),
    {
        let params = [SqlParam::Text(String::from_str(id))];
        let q = self.db.query(
            "SELECT id, prompt_id, file_path, write_back_enabled, content_hash, exists_on_disk, last_synced_at, created_at, updated_at FROM prompt_file_links WHERE id = ?1",
            &params,
        );
        assert(args_of(params@) =~= one_text_arg(id@));
        assert(query_outcome(self.database().id(), get_link_sql(), one_text_arg(id@), q));
        match q {
            Ok(rows) => map_first_link(&rows),
            Err(e) => Err(e),
        }
    }

    /// The link of the file at `file_path`, if there is one.
    pub fn get_by_file_path(&self, file_path: &str) -> (res: AppResult<Option<PromptFileLink>>)
        ensures
            link_looked_up_by_path(self.database().id(), file_path@, res),
    {
        let params = [SqlParam::Text(String::from_str(file_path))];
        let q = self.db.query(
            "SELECT id, prompt_id, file_path, write_back_enabled, content_hash, exists_on_disk, last_synced_at, created_at, updated_at FROM prompt_file_links WHERE file_path = ?1",
            &params,
        );
        assert(args_of(params@) =~= one_text_arg(file_path@));
        assert(query_outcome(self.database().id(), get_link_by_path_sql(), one_text_arg(file_path@), q));
        match q {
            Ok(rows) => map_first_link(&rows),
            Err(e) => Err(e),
        }
    }

    /// Inserts `link` as a new row.
    pub fn create(&self, link: &PromptFileLink) -> (res: AppResult<()>)
        ensures
            link_stored(self.database().id(), *link, res),
    {
        let params = [
            SqlParam::Text(link.id.clone()),
            SqlParam::Text(link.prompt_id.clone()),
            SqlParam::Text(link.file_path.clone()),
            SqlParam::Integer(flag(link.write_back_enabled)),
            opt_text_param(&link.content_hash),
            SqlParam::Integer(flag(link.exists_on_disk)),
            opt_integer_param(link.last_synced_at),
            SqlParam::Integer(link.created_at),
            SqlParam::Integer(link.updated_at),
        ];
        let r = self.db.execute(
            "INSERT INTO prompt_file_links (id, prompt_id, file_path, write_back_enabled, content_hash, exists_on_disk, last_synced_at, created_at, updated_at) VALUES (?1, ?2, ?3, ?4, ?5, ?6, ?7, ?8, ?9)",
            &params,
        );
        assert(args_of(params@) =~= link_args(*link));
        assert(execute_outcome(self.database().id(), insert_link_sql(), link_args(*link), r));
        match r {
            Ok(_) => Ok(()),
            Err(e) => Err(e),
        }
    }

    /// Deletes link `id` (nothing happens when there is none).
    pub fn delete(&self, id: &str) -> (res: AppResult<()>)
        ensures
            link_deleted(self.database().id(), id@, res),
    {
        let params = [SqlParam::Text(String::from_str(id))];
        let r = self.db.execute("DELETE FROM prompt_file_links WHERE id = ?1", &params);
        assert(args_of(params@) =~= one_text_arg(id@));
        assert(execute_outcome(self.database().id(), delete_link_sql(), one_text_arg(id@), r));
        match r {
            Ok(_) => Ok(()),
            Err(e) => Err(e),
        }
    }

    /// Records what was last seen of the linked file and stamps `updated_at` with the clock.
    pub fn update_sync_state(
        &self,
        id: &str,
        content_hash: Option<&str>,
        exists_on_disk: bool,
        last_synced_at: Option<i64>,
    ) -> (res: AppResult<()>)
        ensures
            sync_state_recorded(
                self.database().id(),
                id@,
                match content_hash {
                    Some(h) => Some(h@),
                    None => None,
                },
                exists_on_disk,
                last_synced_at,
                res,
            ),
    {
        let now = now_ms();
        let hash = match content_hash {
            Some(h) => SqlParam::Text(String::from_str(h)),
            None => SqlParam::Null,
        };
        let params = [
            hash,
            SqlParam::Integer(flag(exists_on_disk)),
            opt_integer_param(last_synced_at),
            SqlParam::Integer(now),
            SqlParam::Text(String::from_str(id)),
        ];
        let r = self.db.execute(
            "UPDATE prompt_file_links SET content_hash = ?1, exists_on_disk = ?2, last_synced_at = ?3, updated_at = ?4 WHERE id = ?5",
            &params,
        );
        let ghost hash_view = match content_hash {
            Some(h) => Some(h@),
            None => None,
        };
        let ghost args = sync_state_args(id@, hash_view, exists_on_disk, last_synced_at, now);
        assert(args_of(params@) =~= args);
        assert(execute_outcome(self.database().id(), update_sync_state_sql(), args, r));
        let res = match r {
            Ok(_) => Ok(()),
            Err(e) => Err(e),
        };
        assert(statement_outcome(self.database().id(), update_sync_state_sql(), args, res));
        res
    }
}

} // verus!
