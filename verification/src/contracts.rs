//! Records handed back to the user interface.

use vstd::prelude::*;
use crate::json::JsonValue;
use crate::models::{Prompt, PromptFileLink};

verus! {

/// A prompt together with its file links.
#[derive(Debug, Clone)]
pub struct PromptDto {
    pub prompt: Prompt,
    pub file_links: Vec<PromptFileLink>,
}

/// One column of a table, as `PRAGMA table_info` describes it.
#[derive(Debug, Clone)]
pub struct DbColumnInfo {
    pub cid: i64,
    pub name: String,
    pub col_type: String,
    pub notnull: bool,
    pub default: Option<String>,
    pub pk: bool,
}

/// One page of the rows of a table.
#[derive(Debug)]
pub struct DbTableData {
    pub table: String,
    pub display_name: String,
    pub columns: Vec<DbColumnInfo>,
    pub rows: Vec<JsonValue>,
    pub total: i64,
    pub page: i64,
    pub page_size: i64,
    pub total_pages: i64,
}

/// The outcome of a maintenance action.
#[derive(Debug, Clone)]
pub struct DbMaintenanceResult {
    pub ok: bool,
    pub action: String,
    pub message: String,
    pub integrity_result: Option<String>,
}

/// A plain acknowledgement.
#[derive(Debug, Clone)]
pub struct OkResponse {
    pub ok: bool,
    pub message: String,
}

/// One table in the database overview.
#[derive(Debug, Clone)]
pub struct DbTableInfo {
    pub table_name: String,
    pub display_name: String,
    pub row_count: i64,
    pub size_bytes: i64,
    pub size_human: String,
}

/// Facts about the database file and its tables. The share of free pages is
/// left to the caller, which computes it from `freelist_count` and `page_count`.
#[derive(Debug, Clone)]
pub struct DbOverview {
    pub db_path: String,
    pub file_size: i64,
    pub file_size_human: String,
    pub last_modified: i64,
    pub sqlite_version: String,
    pub page_size: i64,
    pub page_count: i64,
    pub freelist_count: i64,
    pub free_size: i64,
    pub free_size_human: String,
    pub tables: Vec<DbTableInfo>,
}

} // verus!
