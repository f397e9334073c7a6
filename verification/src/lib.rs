//! A local task store: task records kept in one table of an embedded
//! SQLite database file.
//!
//! [`TaskStore`] is a handle on the database; [`load_tasks`], [`save_task`]
//! and [`delete_task`] are the operations that a host application calls on
//! it. The conversions between a [`Task`] and its stored row, the statements
//! handed to the engine and what is made of the engine's answers are
//! verified; the engine itself is trusted.

mod engine;
pub mod error;
pub mod input;
pub mod row;
pub mod statement;
pub mod store;
pub mod task;

pub use crate::error::StoreError;
pub use crate::input::{accept_task, check_task_id};
pub use crate::store::{delete_task, load_tasks, save_task, TaskStore, DATABASE_FILE_NAME};
pub use crate::task::Task;
