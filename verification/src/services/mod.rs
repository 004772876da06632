//! Operations that combine the repositories.

pub mod managed_skills;
pub mod prompts;
