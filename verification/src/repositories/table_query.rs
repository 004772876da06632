//! The statements and row conversions behind paged table browsing.

use vstd::prelude::*;
use crate::contracts::DbColumnInfo;
use crate::db::{int_arg, text_arg, SqlValue};
use crate::error::AppResult;
use crate::json::{double_is_finite, is_finite_double, JsonNumber, JsonValue};
use crate::repositories::columns::{
    column_i64, column_opt_text, column_text, integer_at, is_integer_at, is_opt_text_at,
    is_text_at, opt_text_at, text_at,
};
use crate::text::{
    concat, contains_seq, decimal, str_contains, str_eq, str_to_uppercase, u64_to_decimal,
    uppercase_of,
};

verus! {

/// A row of `PRAGMA table_info` (`cid, name, type, notnull, dflt_value, pk`) can
/// be read; the two flags are read as `i32`.
pub open spec fn column_info_row_ok(row: Seq<SqlValue>) -> bool {
    &&& is_integer_at(row, 0)
    &&& is_text_at(row, 1)
    &&& is_text_at(row, 2)
    &&& is_integer_at(row, 3) && i32::MIN <= integer_at(row, 3) <= i32::MAX
    &&& is_opt_text_at(row, 4)
    &&& is_integer_at(row, 5) && i32::MIN <= integer_at(row, 5) <= i32::MAX
}

/// The column description such a row holds.
pub open spec fn column_info_of_row(row: Seq<SqlValue>) -> DbColumnInfo {
    DbColumnInfo {
        cid: integer_at(row, 0),
        name: text_at(row, 1),
        col_type: text_at(row, 2),
        notnull: integer_at(row, 3) != 0,
        default: opt_text_at(row, 4),
        pk: integer_at(row, 5) != 0,
    }
}

fn column_i32_flag(row: &Vec<SqlValue>, i: usize) -> (res: AppResult<bool>)
    ensures
        res is Ok <==> is_integer_at(row@, i as int) && i32::MIN <= integer_at(row@, i as int) <= i32::MAX,
        res matches Ok(b) ==> b == (integer_at(row@, i as int) != 0),
        res matches Err(e) ==> e is DatabaseError,
{
    let v = column_i64(row, i)?;
    if v < -2147483648 || v > 2147483647 {
        return Err(crate::error::AppError::DatabaseError(String::from_str("Integer value out of range for i32")));
    }
    Ok(v != 0)
}

/// Reads a column description from a row of `PRAGMA table_info`.
pub fn map_column_info(row: &Vec<SqlValue>) -> (res: AppResult<DbColumnInfo>)
    ensures
        res is Ok <==> column_info_row_ok(row@),
        res matches Ok(c) ==> c == column_info_of_row(row@),
        res matches Err(e) ==> e is DatabaseError,
{
    let cid = column_i64(row, 0)?;
    let name = column_text(row, 1)?;
    let col_type = column_text(row, 2)?;
    let notnull = column_i32_flag(row, 3)?;
    let default = column_opt_text(row, 4)?;
    let pk = column_i32_flag(row, 5)?;
    Ok(DbColumnInfo { cid, name, col_type, notnull, default, pk })
}

/// `res` is every row of `PRAGMA table_info` read as a column description,
/// or a `DatabaseError` when some row cannot be read.
pub open spec fn column_infos_of_rows(rows: Seq<Vec<SqlValue>>, res: AppResult<Vec<DbColumnInfo>>) -> bool {
    &&& (res is Ok <==> forall|i: int| 0 <= i < rows.len() ==> #[trigger] column_info_row_ok(rows[i]@))
    &&& (res matches Ok(v) ==> v@.len() == rows.len()
        && forall|i: int| 0 <= i < rows.len() ==> #[trigger] v@[i] == column_info_of_row(rows[i]@))
    &&& (res matches Err(e) ==> e is DatabaseError)
}

/// Reads every row of `PRAGMA table_info`.
pub fn map_column_infos(rows: &Vec<Vec<SqlValue>>) -> (res: AppResult<Vec<DbColumnInfo>>)
    ensures
        column_infos_of_rows(rows@, res),
{
    let mut out: Vec<DbColumnInfo> = Vec::new();
    let mut i: usize = 0;
    while i < rows.len()
        invariant
            i <= rows@.len(),
            out@.len() == i,
            forall|j: int| 0 <= j < i ==> #[trigger] column_info_row_ok(rows@[j]@),
            forall|j: int| 0 <= j < i ==> #[trigger] out@[j] == column_info_of_row(rows@[j]@),
        decreases rows@.len() - i,
    {
        let c = map_column_info(&rows[i])?;
        out.push(c);
        i = i + 1;
    }
    Ok(out)
}

/// `PRAGMA table_info(<table>)`.
pub fn table_info_sql(table: &str) -> (res: String)
    ensures
        res@ == "PRAGMA table_info("@ + table@ + ")"@,
{
    let mut s = concat("PRAGMA table_info(", table);
    s.append(")");
    s
}

/// A column is searched by the text filter when its declared type mentions
/// `TEXT` (in any case) or is empty.
pub open spec fn is_text_column(c: DbColumnInfo) -> bool {
    contains_seq(uppercase_of(c.col_type@), "TEXT"@) || c.col_type@.len() == 0
}

/// The names of the searchable columns, in column order.
pub open spec fn text_column_names(cols: Seq<DbColumnInfo>) -> Seq<Seq<char>>
    decreases cols.len(),
{
    if cols.len() == 0 {
        Seq::empty()
    } else if is_text_column(cols.last()) {
        text_column_names(cols.drop_last()).push(cols.last().name@)
    } else {
        text_column_names(cols.drop_last())
    }
}

/// `a LIKE ?1 OR b LIKE ?1 OR ...` over `names`.
pub open spec fn like_clauses(names: Seq<Seq<char>>) -> Seq<char>
    decreases names.len(),
{
    if names.len() == 0 {
        Seq::empty()
    } else if names.len() == 1 {
        names[0] + " LIKE ?1"@
    } else {
        like_clauses(names.drop_last()) + " OR "@ + names.last() + " LIKE ?1"@
    }
}

/// The filter is present and not empty.
pub open spec fn filter_active(filter: Option<&str>) -> bool {
    filter matches Some(f) && f@.len() > 0
}

/// The `WHERE` clause of a filtered page: empty when there is no filter or no
/// searchable column.
pub open spec fn where_clause_of(cols: Seq<DbColumnInfo>, filter: Option<&str>) -> Seq<char> {
    if filter_active(filter) && text_column_names(cols).len() > 0 {
        " WHERE "@ + like_clauses(text_column_names(cols))
    } else {
        Seq::empty()
    }
}

/// The bound parameters of that clause: `%filter%` once, or none.
pub open spec fn where_params_of(cols: Seq<DbColumnInfo>, filter: Option<&str>) -> Seq<Seq<char>> {
    if filter_active(filter) && text_column_names(cols).len() > 0 {
        seq!["%"@ + filter.unwrap()@ + "%"@]
    } else {
        Seq::empty()
    }
}

/// Whether column `c` is searched by the text filter.
pub fn column_is_text(c: &DbColumnInfo) -> (res: bool)
    ensures
        res == is_text_column(*c),
{
    let upper = str_to_uppercase(c.col_type.as_str());
    str_contains(upper.as_str(), "TEXT") || c.col_type.as_str().is_empty()
}

/// The `WHERE` clause and its parameters for filtering `columns` by `filter_text`.
pub fn build_where_clause(columns: &Vec<DbColumnInfo>, filter_text: Option<&str>) -> (res: (String, Vec<String>))
    ensures
        res.0@ == where_clause_of(columns@, filter_text),
        res.1@.len() == where_params_of(columns@, filter_text).len(),
        forall|i: int| 0 <= i < res.1@.len() ==> #[trigger] res.1@[i]@ == where_params_of(columns@, filter_text)[i],
{
    let active = match filter_text {
        Some(f) => !f.is_empty(),
        None => false,
    };
    if !active {
        return (String::new(), Vec::new());
    }
    let filter = filter_text.unwrap();
    let mut clauses = String::new();
    let mut count: usize = 0;
    let mut i: usize = 0;
    while i < columns.len()
        invariant
            i <= columns@.len(),
            count <= i,
            count == text_column_names(columns@.take(i as int)).len(),
            clauses@ == like_clauses(text_column_names(columns@.take(i as int))),
        decreases columns@.len() - i,
    {
        assert(columns@.take(i + 1).drop_last() =~= columns@.take(i as int));
        let ghost names = text_column_names(columns@.take(i as int));
        if column_is_text(&columns[i]) {
            let ghost before = clauses@;
            if count > 0 {
                clauses.append(" OR ");
            }
            clauses.append(columns[i].name.as_str());
            clauses.append(" LIKE ?1");
            count = count + 1;
            proof {
                let next = names.push(columns@[i as int].name@);
                assert(text_column_names(columns@.take(i + 1)) == next);
                assert(next.drop_last() =~= names);
                if names.len() == 0 {
                    assert(clauses@ =~= next[0] + " LIKE ?1"@);
                } else {
                    assert(clauses@ =~= like_clauses(names) + " OR "@ + next.last() + " LIKE ?1"@);
                }
            }
        }
        i = i + 1;
    }
    assert(columns@.take(columns@.len() as int) =~= columns@);
    if count == 0 {
        return (String::new(), Vec::new());
    }
    let mut where_clause = String::from_str(" WHERE ");
    where_clause.append(clauses.as_str());
    let mut pattern = String::from_str("%");
    pattern.append(filter);
    pattern.append("%");
    let mut params: Vec<String> = Vec::new();
    params.push(pattern);
    (where_clause, params)
}

/// The column named `name` is among `cols`.
pub open spec fn has_column(cols: Seq<DbColumnInfo>, name: Seq<char>) -> bool {
    exists|i: int| 0 <= i < cols.len() && #[trigger] cols[i].name@ == name
}

/// The `ORDER BY` clause: only a known column is sorted by, descending when
/// the direction is `desc`, ascending otherwise.
pub open spec fn order_by_of(cols: Seq<DbColumnInfo>, sort_col: Option<&str>, sort_dir: Option<&str>) -> Seq<char> {
    match sort_col {
        Some(c) => if has_column(cols, c@) {
            " ORDER BY "@ + c@ + " "@ + if sort_dir matches Some(d) && d@ == "desc"@ { "DESC"@ } else { "ASC"@ }
        } else {
            Seq::empty()
        },
        None => Seq::empty(),
    }
}

/// Whether a column called `name` is among `columns`.
pub fn column_exists(columns: &Vec<DbColumnInfo>, name: &str) -> (res: bool)
    ensures
        res == has_column(columns@, name@),
{
    let mut i: usize = 0;
    while i < columns.len()
        invariant
            i <= columns@.len(),
            forall|j: int| 0 <= j < i ==> columns@[j].name@ != name@,
        decreases columns@.len() - i,
    {
        if str_eq(columns[i].name.as_str(), name) {
            return true;
        }
        i = i + 1;
    }
    false
}

/// The `ORDER BY` clause for sorting by `sort_col` in direction `sort_dir`.
pub fn build_order_by(columns: &Vec<DbColumnInfo>, sort_col: Option<&str>, sort_dir: Option<&str>) -> (res: String)
    ensures
        res@ == order_by_of(columns@, sort_col, sort_dir),
{
    match sort_col {
        Some(c) => {
            if column_exists(columns, c) {
                let mut s = String::from_str(" ORDER BY ");
                s.append(c);
                s.append(" ");
                let desc = match sort_dir {
                    Some(d) => str_eq(d, "desc"),
                    None => false,
                };
                if desc {
                    s.append("DESC");
                } else {
                    s.append("ASC");
                }
                s
            } else {
                String::new()
            }
        },
        None => String::new(),
    }
}

/// The parameters bound to the filter of a page: `%filter%` as text, or none.
pub open spec fn filter_args(cols: Seq<DbColumnInfo>, filter: Option<&str>) -> Seq<(u8, i64, Seq<char>)> {
    where_params_of(cols, filter).map_values(|t: Seq<char>| text_arg(t))
}

/// The query that counts the rows of `table` that pass the filter.
pub open spec fn count_query_of(table: Seq<char>, cols: Seq<DbColumnInfo>, filter: Option<&str>) -> Seq<char> {
    "SELECT COUNT(*) FROM "@ + table + where_clause_of(cols, filter)
}

/// The query that reads one page of `table`: filtered, sorted, then cut by
/// `LIMIT` and `OFFSET` placeholders numbered after the filter's.
pub open spec fn page_query_of(
    table: Seq<char>,
    cols: Seq<DbColumnInfo>,
    filter: Option<&str>,
    sort_col: Option<&str>,
    sort_dir: Option<&str>,
) -> Seq<char> {
    let n = where_params_of(cols, filter).len();
    "SELECT * FROM "@ + table + where_clause_of(cols, filter) + order_by_of(cols, sort_col, sort_dir)
        + " LIMIT ?"@ + decimal(n + 1) + " OFFSET ?"@ + decimal(n + 2)
}

/// The parameters of the page query: the filter's, then the page size as
/// the limit and `(page - 1) * page_size` as the offset.
pub open spec fn page_args(cols: Seq<DbColumnInfo>, filter: Option<&str>, page: i64, page_size: i64) -> Seq<(u8, i64, Seq<char>)> {
    filter_args(cols, filter) + seq![int_arg(page_size), int_arg(((page - 1) * page_size) as i64)]
}

/// `SELECT COUNT(*) FROM <table><where>`.
pub fn filtered_count_sql(table: &str, where_clause: &str) -> (res: String)
    ensures
        res@ == "SELECT COUNT(*) FROM "@ + table@ + where_clause@,
{
    let mut s = concat("SELECT COUNT(*) FROM ", table);
    s.append(where_clause);
    s
}

/// `SELECT * FROM <table><where><order> LIMIT ?<n+1> OFFSET ?<n+2>` where `n`
/// is the number of filter parameters.
pub fn page_sql(table: &str, where_clause: &str, order_by: &str, n_params: usize) -> (res: String)
    requires
        n_params <= 2,
    ensures
        res@ == "SELECT * FROM "@ + table@ + where_clause@ + order_by@ + " LIMIT ?"@
            + decimal((n_params + 1) as nat) + " OFFSET ?"@ + decimal((n_params + 2) as nat),
{
    let mut s = concat("SELECT * FROM ", table);
    s.append(where_clause);
    s.append(order_by);
    s.append(" LIMIT ?");
    let a = u64_to_decimal((n_params + 1) as u64);
    s.append(a.as_str());
    s.append(" OFFSET ?");
    let b = u64_to_decimal((n_params + 2) as u64);
    s.append(b.as_str());
    s
}

} // verus!

verus! {

/// `j` is how the JSON page shows a cell holding `v` (`None`: the row has no
/// such column): integers as numbers, finite reals as numbers and other reals
/// as null, text as strings, a blob as `<blob N bytes>`.
pub open spec fn cell_json(v: Option<SqlValue>, j: JsonValue) -> bool {
    match v {
        None => j is Null,
        Some(SqlValue::Null) => j is Null,
        Some(SqlValue::Integer(i)) => j == JsonValue::Number(JsonNumber::Signed(i)),
        Some(SqlValue::Real(bits)) => if is_finite_double(bits) {
            j == JsonValue::Number(JsonNumber::Float(bits))
        } else {
            j is Null
        },
        Some(SqlValue::Text(s)) => j == JsonValue::String(s),
        Some(SqlValue::Blob(b)) => j matches JsonValue::String(t) && t@ == "<blob "@ + decimal(b@.len()) + " bytes>"@,
    }
}

/// The cell of `row` at column `i`, if the row has that column.
pub open spec fn cell_at(row: Seq<SqlValue>, i: int) -> Option<SqlValue> {
    if 0 <= i < row.len() { Some(row[i]) } else { None }
}

/// `j` is the JSON object of `row`: one member per column name, in order.
pub open spec fn row_json(names: Seq<String>, row: Seq<SqlValue>, j: JsonValue) -> bool {
    j matches JsonValue::Object(members) && members@.len() == names.len()
        && forall|i: int| 0 <= i < names.len() ==> {
            &&& #[trigger] members@[i].0 == names[i]
            &&& cell_json(cell_at(row, i), members@[i].1)
        }
}

/// `j` is an object whose members are named `names`, in order.
pub open spec fn object_with_keys(j: JsonValue, names: Seq<String>) -> bool {
    j matches JsonValue::Object(members) && members@.len() == names.len()
        && forall|i: int| 0 <= i < names.len() ==> #[trigger] members@[i].0 == names[i]
}

/// The JSON form of one cell.
pub fn cell_to_json(v: &SqlValue) -> (res: JsonValue)
    ensures
        cell_json(Some(*v), res),
{
    match v {
        SqlValue::Null => JsonValue::Null,
        SqlValue::Integer(i) => JsonValue::Number(JsonNumber::Signed(*i)),
        SqlValue::Real(bits) => if double_is_finite(*bits) {
            JsonValue::Number(JsonNumber::Float(*bits))
        } else {
            JsonValue::Null
        },
        SqlValue::Text(s) => JsonValue::String(s.clone()),
        SqlValue::Blob(b) => {
            let mut t = String::from_str("<blob ");
            let n = u64_to_decimal(b.len() as u64);
            t.append(n.as_str());
            t.append(" bytes>");
            JsonValue::String(t)
        },
    }
}

/// The JSON object of one row, keyed by the column names.
pub fn row_to_json(names: &Vec<String>, row: &Vec<SqlValue>) -> (res: JsonValue)
    ensures
        row_json(names@, row@, res),
{
    let mut members: Vec<(String, JsonValue)> = Vec::new();
    let mut i: usize = 0;
    while i < names.len()
        invariant
            i <= names@.len(),
            members@.len() == i,
            forall|k: int| 0 <= k < i ==> {
                &&& #[trigger] members@[k].0 == names@[k]
                &&& cell_json(cell_at(row@, k), members@[k].1)
            },
        decreases names@.len() - i,
    {
        let value = if i < row.len() { cell_to_json(&row[i]) } else { JsonValue::Null };
        members.push((names[i].clone(), value));
        i = i + 1;
    }
    JsonValue::Object(members)
}

/// The number of pages of `page_size` rows that `total` rows fill: the ceiling
/// of the quotient, clamped to `i64`; with a page size of 0, `i64::MAX` rows
/// worth of pages for a positive total and 0 for none.
pub open spec fn page_count(total: int, page_size: int) -> int {
    if page_size == 0 {
        if total > 0 {
            i64::MAX as int
        } else if total < 0 {
            i64::MIN as int
        } else {
            0
        }
    } else {
        let q = if page_size > 0 { -((-total) / page_size) } else { -(total / (-page_size)) };
        if q > i64::MAX { i64::MAX as int } else if q < i64::MIN { i64::MIN as int } else { q }
    }
}

/// The number of pages of `page_size` rows that `total` rows fill.
pub fn total_pages(total: i64, page_size: i64) -> (res: i64)
    ensures
        res == page_count(total as int, page_size as int),
{
    if page_size == 0 {
        if total > 0 {
            0x7fff_ffff_ffff_ffffi64
        } else if total < 0 {
            -0x8000_0000_0000_0000i64
        } else {
            0
        }
    } else {
        let t = total as i128;
        let p = page_size as i128;
        let q: i128 = if p > 0 {
            let n = -t;
            let f = if n >= 0 { n / p } else { -((-n + p - 1) / p) };
            proof {
                if n < 0 {
                    assert(-((-n + p - 1) / (p as int)) == (n as int) / (p as int)) by (nonlinear_arith)
                        requires n < 0, p > 0;
                }
            }
            -f
        } else {
            let d = -p;
            let f = if t >= 0 { t / d } else { -((-t + d - 1) / d) };
            proof {
                if t < 0 {
                    assert(-((-t + d - 1) / (d as int)) == (t as int) / (d as int)) by (nonlinear_arith)
                        requires t < 0, d > 0;
                }
            }
            -f
        };
        if q > 0x7fff_ffff_ffff_ffffi128 {
            0x7fff_ffff_ffff_ffffi64
        } else if q < -0x8000_0000_0000_0000i128 {
            -0x8000_0000_0000_0000i64
        } else {
            q as i64
        }
    }
}


/// Pagination loses no row and shows no empty page: with `total` rows and
/// pages of `page_size` rows, the pages together hold every row, every page
/// but the last is full, and an empty table has no page.
pub proof fn law_pages_cover_rows(total: int, page_size: int)
    requires
        0 <= total <= i64::MAX,
        1 <= page_size <= i64::MAX,
    ensures
        0 <= page_count(total, page_size) <= total,
        page_count(total, page_size) * page_size >= total,
        total > 0 ==> (page_count(total, page_size) - 1) * page_size < total,
        total == 0 ==> page_count(total, page_size) == 0,
{
    let m = (-total) / page_size;
    let r = (-total) % page_size;
    vstd::arithmetic::div_mod::lemma_fundamental_div_mod(-total, page_size);
    assert(0 <= r < page_size);
    assert(-total == page_size * m + r);
    assert(0 <= -m <= total && (-m) * page_size == total + r) by (nonlinear_arith)
        requires
            -total == page_size * m + r,
            0 <= r < page_size,
            page_size >= 1,
            total >= 0,
    ;
    assert(total == 0 ==> m == 0) by (nonlinear_arith)
        requires
            -total == page_size * m + r,
            0 <= r < page_size,
            page_size >= 1,
            0 <= -m,
    ;
    assert(((-m) - 1) * page_size == total + r - page_size) by (nonlinear_arith)
        requires
            (-m) * page_size == total + r,
    ;
}

} // verus!
