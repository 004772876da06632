//! The logic behind the desktop commands.

pub mod database;
pub mod sync;
pub mod update;
