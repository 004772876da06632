//! Data access: one repository per group of tables.

pub mod columns;
pub mod maintenance;
pub mod prompt_file_links;
pub mod prompts;
pub mod table_query;

pub use maintenance::{DatabaseOverview, MaintenanceRepository};
pub use prompt_file_links::PromptFileLinksRepository;
pub use prompts::PromptsRepository;
