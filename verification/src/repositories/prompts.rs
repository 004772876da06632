//! The `prompts` table.

use vstd::prelude::*;
use crate::db::{
    args_of, int_arg, now_ms, one_text_arg, query_outcome, statement_outcome, text_arg, Database, SqlParam, SqlValue,
};
use crate::error::{AppError, AppResult};
use crate::models::Prompt;
use crate::repositories::columns::{column_i64, column_text, integer_at, is_integer_at, is_text_at, text_at};

verus! {

/// A row of `SELECT id, name, content, created_at, updated_at` can be read.
pub open spec fn prompt_row_ok(row: Seq<SqlValue>) -> bool {
    &&& is_text_at(row, 0)
    &&& is_text_at(row, 1)
    &&& is_text_at(row, 2)
    &&& is_integer_at(row, 3)
    &&& is_integer_at(row, 4)
}

/// The prompt that such a row holds.
pub open spec fn prompt_of_row(row: Seq<SqlValue>) -> Prompt {
    Prompt {
        id: text_at(row, 0),
        name: text_at(row, 1),
        content: text_at(row, 2),
        created_at: integer_at(row, 3),
        updated_at: integer_at(row, 4),
    }
}

/// `res` is `rows` read as prompts: all of them when every row can be read,
/// else a `DatabaseError`.
pub open spec fn prompts_of_rows(rows: Seq<Vec<SqlValue>>, res: AppResult<Vec<Prompt>>) -> bool {
    &&& (res is Ok <==> forall|i: int| 0 <= i < rows.len() ==> #[trigger] prompt_row_ok(rows[i]@))
    &&& (res matches Ok(v) ==> v@.len() == rows.len()
        && forall|i: int| 0 <= i < rows.len() ==> #[trigger] v@[i] == prompt_of_row(rows[i]@))
    &&& (res matches Err(e) ==> e is DatabaseError)
}

/// `res` is the first of `rows` read as a prompt: `None` when there is no
/// row, a `DatabaseError` when the first row cannot be read.
pub open spec fn first_prompt_of_rows(rows: Seq<Vec<SqlValue>>, res: AppResult<Option<Prompt>>) -> bool {
    &&& (rows.len() == 0 ==> res == Ok::<Option<Prompt>, AppError>(None))
    &&& (rows.len() > 0 ==> (res is Ok <==> prompt_row_ok(rows[0]@)))
    &&& (rows.len() > 0 ==> (res matches Ok(p) ==> p == Some(prompt_of_row(rows[0]@))))
    &&& (res matches Err(e) ==> e is DatabaseError)
}

/// The query that lists the prompts.
pub open spec fn list_prompts_sql() -> Seq<char> {
    "SELECT id, name, content, created_at, updated_at FROM prompts ORDER BY updated_at DESC, name"@
}

/// The query that looks a prompt up by identifier.
pub open spec fn get_prompt_sql() -> Seq<char> {
    "SELECT id, name, content, created_at, updated_at FROM prompts WHERE id = ?1"@
}

/// The statement that stores a new prompt.
pub open spec fn insert_prompt_sql() -> Seq<char> {
    "INSERT INTO prompts (id, name, content, created_at, updated_at) VALUES (?1, ?2, ?3, ?4, ?5)"@
}

/// The statement that renames a prompt and replaces its content.
pub open spec fn update_prompt_sql() -> Seq<char> {
    "UPDATE prompts SET name = ?1, content = ?2, updated_at = ?3 WHERE id = ?4"@
}

/// The statement that replaces a prompt's content.
pub open spec fn update_prompt_content_sql() -> Seq<char> {
    "UPDATE prompts SET content = ?1, updated_at = ?2 WHERE id = ?3"@
}

/// The statement that deletes a prompt.
pub open spec fn delete_prompt_sql() -> Seq<char> {
    "DELETE FROM prompts WHERE id = ?1"@
}

/// The parameters that store `p`.
pub open spec fn prompt_args(p: Prompt) -> Seq<(u8, i64, Seq<char>)> {
    seq![text_arg(p.id@), text_arg(p.name@), text_arg(p.content@), int_arg(p.created_at), int_arg(p.updated_at)]
}

/// The parameters of a rename of prompt `id` stamped `now`.
pub open spec fn update_prompt_args(id: Seq<char>, name: Seq<char>, content: Seq<char>, now: i64) -> Seq<(u8, i64, Seq<char>)> {
    seq![text_arg(name), text_arg(content), int_arg(now), text_arg(id)]
}

/// The parameters of a content update of prompt `id` stamped `now`.
pub open spec fn update_content_args(id: Seq<char>, content: Seq<char>, now: i64) -> Seq<(u8, i64, Seq<char>)> {
    seq![text_arg(content), int_arg(now), text_arg(id)]
}

/// `res` is what listing the prompts gives: SQLite's answer to the listing
/// query read as prompts, or the engine's error.
pub open spec fn prompts_listed(db: int, res: AppResult<Vec<Prompt>>) -> bool {
    exists|q: AppResult<Vec<Vec<SqlValue>>>| #[trigger] query_outcome(db, list_prompts_sql(), Seq::empty(), q)
        && match q {
            Ok(rows) => prompts_of_rows(rows@, res),
            Err(e) => res == Err::<Vec<Prompt>, AppError>(e),
        }
}

/// `res` is what looking prompt `id` up gives: the first row of SQLite's
/// answer read as a prompt, or the engine's error.
pub open spec fn prompt_looked_up(db: int, id: Seq<char>, res: AppResult<Option<Prompt>>) -> bool {
    exists|q: AppResult<Vec<Vec<SqlValue>>>| #[trigger] query_outcome(db, get_prompt_sql(), one_text_arg(id), q)
        && match q {
            Ok(rows) => first_prompt_of_rows(rows@, res),
            Err(e) => res == Err::<Option<Prompt>, AppError>(e),
        }
}

/// `res` is the outcome of storing `p` as a new row.
pub open spec fn prompt_stored(db: int, p: Prompt, res: AppResult<()>) -> bool {
    statement_outcome(db, insert_prompt_sql(), prompt_args(p), res)
}

/// `res` is the outcome of renaming prompt `id` to `name` with `content`,
/// stamped with a reading of the clock.
pub open spec fn prompt_updated(db: int, id: Seq<char>, name: Seq<char>, content: Seq<char>, res: AppResult<()>) -> bool {
    exists|now: i64| #[trigger] statement_outcome(db, update_prompt_sql(), update_prompt_args(id, name, content, now), res)
}

/// `res` is the outcome of replacing the content of prompt `id`, stamped with
/// a reading of the clock.
pub open spec fn prompt_content_updated(db: int, id: Seq<char>, content: Seq<char>, res: AppResult<()>) -> bool {
    exists|now: i64| #[trigger] statement_outcome(db, update_prompt_content_sql(), update_content_args(id, content, now), res)
}

/// `res` is the outcome of deleting prompt `id`.
pub open spec fn prompt_deleted(db: int, id: Seq<char>, res: AppResult<()>) -> bool {
    statement_outcome(db, delete_prompt_sql(), one_text_arg(id), res)
}

/// Reads a prompt from a row of `SELECT id, name, content, created_at, updated_at`.
pub fn map_prompt(row: &Vec<SqlValue>) -> (res: AppResult<Prompt>)
    ensures
        res is Ok <==> prompt_row_ok(row@),
        res matches Ok(p) ==> p == prompt_of_row(row@),
        res matches Err(e) ==> e is DatabaseError,
{
    let id = column_text(row, 0)?;
    let name = column_text(row, 1)?;
    let content = column_text(row, 2)?;
    let created_at = column_i64(row, 3)?;
    let updated_at = column_i64(row, 4)?;
    Ok(Prompt { id, name, content, created_at, updated_at })
}

/// Reads every row as a prompt; the first row that cannot be read fails the whole.
pub fn map_prompts(rows: &Vec<Vec<SqlValue>>) -> (res: AppResult<Vec<Prompt>>)
    ensures
        prompts_of_rows(rows@, res),
{
    let mut out: Vec<Prompt> = Vec::new();
    let mut i: usize = 0;
    while i < rows.len()
        invariant
            i <= rows@.len(),
            out@.len() == i,
            forall|j: int| 0 <= j < i ==> #[trigger] prompt_row_ok(rows@[j]@),
            forall|j: int| 0 <= j < i ==> #[trigger] out@[j] == prompt_of_row(rows@[j]@),
        decreases rows@.len() - i,
    {
        let p = map_prompt(&rows[i])?;
        out.push(p);
        i = i + 1;
    }
    Ok(out)
}

/// Reads the first row, if any, as a prompt (`None` when there is no row).
pub fn map_first_prompt(rows: &Vec<Vec<SqlValue>>) -> (res: AppResult<Option<Prompt>>)
    ensures
        first_prompt_of_rows(rows@, res),
{
    if rows.len() == 0 {
        Ok(None)
    } else {
        let p = map_prompt(&rows[0])?;
        Ok(Some(p))
    }
}

/// Reads and writes the `prompts` table.
pub struct PromptsRepository<'a> {
    db: &'a Database,
}

impl<'a> PromptsRepository<'a> {
    /// The database this repository works on.
    pub closed spec fn database(&self) -> &'a Database {
        self.db
    }

    /// A repository over `db`.
    pub fn new(db: &'a Database) -> (res: Self)
        ensures
            res.database() == db,
    {
        Self { db }
    }

    /// Every prompt, most recently updated first, then by name.
    pub fn list(&self) -> (res: AppResult<Vec<Prompt>>)
        ensures
            prompts_listed(self.database().id(), res),
    {
        let params: [SqlParam; 0] = [];
        let q = self.db.query(
            "SELECT id, name, content, created_at, updated_at FROM prompts ORDER BY updated_at DESC, name",
            &params,
        );
        assert(args_of(params@) =~= Seq::empty());
        assert(query_outcome(self.database().id(), list_prompts_sql(), Seq::empty(), q));
        match q {
            Ok(rows) => map_prompts(&rows),
            Err(e) => Err(e),
        }
    }

    /// The prompt with identifier `id`, if there is one.
    pub fn get(&self, id: &str) -> (res: AppResult<Option<Prompt>>)
        ensures
            prompt_looked_up(self.database().id(), id@, res),
    {
        let params = [SqlParam::Text(String::from_str(id))];
        let q = self.db.query(
            "SELECT id, name, content, created_at, updated_at FROM prompts WHERE id = ?1",
            &params,
        );
        assert(args_of(params@) =~= one_text_arg(id@));
        assert(query_outcome(self.database().id(), get_prompt_sql(), one_text_arg(id@), q));
        match q {
            Ok(rows) => map_first_prompt(&rows),
            Err(e) => Err(e),
        }
    }

    /// Inserts `prompt` as a new row.
    pub fn create(&self, prompt: &Prompt) -> (res: AppResult<()>)
        ensures
            prompt_stored(self.database().id(), *prompt, res),
    {
        let params = [
            SqlParam::Text(prompt.id.clone()),
            SqlParam::Text(prompt.name.clone()),
            SqlParam::Text(prompt.content.clone()),
            SqlParam::Integer(prompt.created_at),
            SqlParam::Integer(prompt.updated_at),
        ];
        let r = self.db.execute(
            "INSERT INTO prompts (id, name, content, created_at, updated_at) VALUES (?1, ?2, ?3, ?4, ?5)",
            &params,
        );
        assert(args_of(params@) =~= prompt_args(*prompt));
        assert(crate::db::execute_outcome(self.database().id(), insert_prompt_sql(), prompt_args(*prompt), r));
        match r {
            Ok(_) => Ok(()),
            Err(e) => Err(e),
        }
    }

    /// Sets the name and content of prompt `id` and stamps `updated_at` with the clock.
    pub fn update(&self, id: &str, name: &str, content: &str) -> (res: AppResult<()>)
        ensures
            prompt_updated(self.database().id(), id@, name@, content@, res),
    {
        let now = now_ms();
        let params = [
            SqlParam::Text(String::from_str(name)),
            SqlParam::Text(String::from_str(content)),
            SqlParam::Integer(now),
            SqlParam::Text(String::from_str(id)),
        ];
        let r = self.db.execute("UPDATE prompts SET name = ?1, content = ?2, updated_at = ?3 WHERE id = ?4", &params);
        let ghost args = update_prompt_args(id@, name@, content@, now);
        assert(args_of(params@) =~= args);
        assert(crate::db::execute_outcome(self.database().id(), update_prompt_sql(), args, r));
        let res = match r {
            Ok(_) => Ok(()),
            Err(e) => Err(e),
        };
        assert(statement_outcome(self.database().id(), update_prompt_sql(), args, res));
        res
    }

    /// Sets the content of prompt `id` and stamps `updated_at` with the clock.
    pub fn update_content(&self, id: &str, content: &str) -> (res: AppResult<()>)
        ensures
            prompt_content_updated(self.database().id(), id@, content@, res),
    {
        let now = now_ms();
        let params = [
            SqlParam::Text(String::from_str(content)),
            SqlParam::Integer(now),
            SqlParam::Text(String::from_str(id)),
        ];
        let r = self.db.execute("UPDATE prompts SET content = ?1, updated_at = ?2 WHERE id = ?3", &params);
        let ghost args = update_content_args(id@, content@, now);
        assert(args_of(params@) =~= args);
        assert(crate::db::execute_outcome(self.database().id(), update_prompt_content_sql(), args, r));
        let res = match r {
            Ok(_) => Ok(()),
            Err(e) => Err(e),
        };
        assert(statement_outcome(self.database().id(), update_prompt_content_sql(), args, res));
        res
    }

    /// Deletes prompt `id` (nothing happens when there is none).
    pub fn delete(&self, id: &str) -> (res: AppResult<()>)
        ensures
            prompt_deleted(self.database().id(), id@, res),
    {
        let params = [SqlParam::Text(String::from_str(id))];
        let r = self.db.execute("DELETE FROM prompts WHERE id = ?1", &params);
        assert(args_of(params@) =~= one_text_arg(id@));
        assert(crate::db::execute_outcome(self.database().id(), delete_prompt_sql(), one_text_arg(id@), r));
        match r {
            Ok(_) => Ok(()),
            Err(e) => Err(e),
        }
    }
}

} // verus!
