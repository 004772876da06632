//! Typed reads of result columns, with the conversions `rusqlite` applies.

use vstd::prelude::*;
use crate::db::SqlValue;
use crate::error::{AppError, AppResult};
use crate::text::{decimal, u64_to_decimal};

verus! {

/// Column `i` of `row` holds text.
pub open spec fn is_text_at(row: Seq<SqlValue>, i: int) -> bool {
    0 <= i < row.len() && row[i] is Text
}

/// Column `i` of `row` holds an integer.
pub open spec fn is_integer_at(row: Seq<SqlValue>, i: int) -> bool {
    0 <= i < row.len() && row[i] is Integer
}

/// Column `i` of `row` holds text or NULL.
pub open spec fn is_opt_text_at(row: Seq<SqlValue>, i: int) -> bool {
    0 <= i < row.len() && (row[i] is Text || row[i] is Null)
}

/// Column `i` of `row` holds an integer or NULL.
pub open spec fn is_opt_integer_at(row: Seq<SqlValue>, i: int) -> bool {
    0 <= i < row.len() && (row[i] is Integer || row[i] is Null)
}

/// The text of column `i` (meaningful when `is_text_at`).
pub open spec fn text_at(row: Seq<SqlValue>, i: int) -> String {
    row[i]->Text_0
}

/// The integer of column `i` (meaningful when `is_integer_at`).
pub open spec fn integer_at(row: Seq<SqlValue>, i: int) -> i64 {
    row[i]->Integer_0
}

/// The optional text of column `i`: `None` for NULL.
pub open spec fn opt_text_at(row: Seq<SqlValue>, i: int) -> Option<String> {
    match row[i] {
        SqlValue::Text(s) => Some(s),
        _ => None,
    }
}

/// The optional integer of column `i`: `None` for NULL.
pub open spec fn opt_integer_at(row: Seq<SqlValue>, i: int) -> Option<i64> {
    match row[i] {
        SqlValue::Integer(v) => Some(v),
        _ => None,
    }
}

/// The error reported when column `i` cannot be read as the requested type.
fn column_type_error(i: usize) -> (res: AppError)
    ensures
        res matches AppError::DatabaseError(m) && m@ == "Invalid column type at index: "@ + decimal(i as nat),
{
    let mut m = String::from_str("Invalid column type at index: ");
    let d = u64_to_decimal(i as u64);
    m.append(d.as_str());
    proof {
        reveal_strlit("Invalid column type at index: ");
    }
    AppError::DatabaseError(m)
}

/// Reads column `i` as text.
pub fn column_text(row: &Vec<SqlValue>, i: usize) -> (res: AppResult<String>)
    ensures
        res is Ok <==> is_text_at(row@, i as int),
        res matches Ok(s) ==> s == text_at(row@, i as int),
        res matches Err(e) ==> e is DatabaseError,
{
    if i < row.len() {
        match &row[i] {
            SqlValue::Text(s) => Ok(s.clone()),
            _ => Err(column_type_error(i)),
        }
    } else {
        Err(column_type_error(i))
    }
}

/// Reads column `i` as an integer.
pub fn column_i64(row: &Vec<SqlValue>, i: usize) -> (res: AppResult<i64>)
    ensures
        res is Ok <==> is_integer_at(row@, i as int),
        res matches Ok(v) ==> v == integer_at(row@, i as int),
        res matches Err(e) ==> e is DatabaseError,
{
    if i < row.len() {
        match &row[i] {
            SqlValue::Integer(v) => Ok(*v),
            _ => Err(column_type_error(i)),
        }
    } else {
        Err(column_type_error(i))
    }
}

/// Reads column `i` as optional text (NULL gives `None`).
pub fn column_opt_text(row: &Vec<SqlValue>, i: usize) -> (res: AppResult<Option<String>>)
    ensures
        res is Ok <==> is_opt_text_at(row@, i as int),
        res matches Ok(s) ==> s == opt_text_at(row@, i as int),
        res matches Err(e) ==> e is DatabaseError,
{
    if i < row.len() {
        match &row[i] {
            SqlValue::Text(s) => Ok(Some(s.clone())),
            SqlValue::Null => Ok(None),
            _ => Err(column_type_error(i)),
        }
    } else {
        Err(column_type_error(i))
    }
}

/// Reads column `i` as an optional integer (NULL gives `None`).
pub fn column_opt_i64(row: &Vec<SqlValue>, i: usize) -> (res: AppResult<Option<i64>>)
    ensures
        res is Ok <==> is_opt_integer_at(row@, i as int),
        res matches Ok(v) ==> v == opt_integer_at(row@, i as int),
        res matches Err(e) ==> e is DatabaseError,
{
    if i < row.len() {
        match &row[i] {
            SqlValue::Integer(v) => Ok(Some(*v)),
            SqlValue::Null => Ok(None),
            _ => Err(column_type_error(i)),
        }
    } else {
        Err(column_type_error(i))
    }
}

} // verus!
