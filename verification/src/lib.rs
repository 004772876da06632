//! Skills Hub core: prompt storage, prompt file links, database maintenance
//! and the pure decision logic behind the desktop commands.

pub mod commands;
pub mod contracts;
pub mod db;
pub mod error;
pub mod json;
pub mod logging;
pub mod models;
pub mod path_safety;
pub mod repositories;
pub mod services;
pub mod text;
