//! Records stored by the library.

use vstd::prelude::*;

verus! {

/// A reusable prompt kept in the database.
#[derive(Debug, Clone)]
pub struct Prompt {
    pub id: String,
    pub name: String,
    pub content: String,
    pub created_at: i64,
    pub updated_at: i64,
}

/// A link between a prompt and a file on disk that mirrors it.
#[derive(Debug, Clone)]
pub struct PromptFileLink {
    pub id: String,
    pub prompt_id: String,
    pub file_path: String,
    pub write_back_enabled: bool,
    pub content_hash: Option<String>,
    pub exists_on_disk: bool,
    pub last_synced_at: Option<i64>,
    pub created_at: i64,
    pub updated_at: i64,
}

} // verus!
