//! A task list: named, described, timestamped tasks kept in insertion order,
//! with the commands that add, edit, list and remove them.

pub mod command;
pub mod error;
pub mod laws;
pub mod list;
pub mod run;
pub mod style;
pub mod task;
pub mod text;
pub mod timestamp;
