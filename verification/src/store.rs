//! The task store: a handle on the database, the four operations on it, and
//! the three entry points that the host application calls.
//!
//! What the engine answers depends on the database file, so the operations
//! state what holds whatever it answers. What they make of each answer is
//! stated exactly by `report_open`, `report_write` and `report_listing`, and
//! what they hand to the engine by the statement texts and the statement
//! builders.

use crate::engine::{open_connection, query_task_rows, run_batch, run_statement};
use crate::error::{StoreError, StoreErrorView, empty_id_message};
use crate::input::check_task_id;
use crate::row::{TaskRow, loaded_tasks, tasks_of_rows};
use crate::statement::{CREATE_TABLE_SQL, SELECT_ALL_SQL, delete_statement, upsert_statement};
use crate::task::Task;
use vstd::prelude::*;

verus! {

/// The name of the database file inside the application's data directory.
pub const DATABASE_FILE_NAME: &'static str = "tasks.db";

/// An open task store. Whoever opens it owns it; every operation takes it
/// by reference. The store keeps no copy of any task: each operation goes
/// to the database.
pub struct TaskStore {
    connection: rusqlite::Connection,
}

/// Holds of a result that the engine decided: it is a success, or a failure
/// of the kind `Storage`.
pub open spec fn engine_decided<T>(result: Result<T, StoreError>) -> bool {
    match result {
        Ok(_) => true,
        Err(error) => error is Storage,
    }
}

/// Puts the engine's description in place of its failure.
fn described<T>(outcome: Result<T, rusqlite::Error>) -> (plain: Result<T, String>)
    ensures
        match plain {
            Ok(value) => outcome == Ok::<T, rusqlite::Error>(value),
            Err(_) => outcome is Err,
        },
{
    match outcome {
        Ok(value) => Ok(value),
        Err(error) => Err(error.to_string()),
    }
}

/// What opening reports for each answer of the engine: a store on the very
/// connection that the engine gave, or `Storage` with the engine's
/// description.
pub fn report_open(outcome: Result<rusqlite::Connection, String>) -> (report: Result<
    TaskStore,
    StoreError,
>)
    ensures
        match outcome {
            Ok(connection) => report matches Ok(store) && store.connection() == connection,
            Err(cause) => report matches Err(error) && error@ == StoreErrorView::Storage(cause@),
        },
{
    match outcome {
        Ok(connection) => Ok(TaskStore { connection }),
        Err(cause) => Err(StoreError::Storage(cause)),
    }
}

/// What a write reports for each answer of the engine. A write that the
/// engine ran is a success whatever the engine says of it: creating the
/// table says nothing, a statement says how many rows it changed, and no
/// number is a failure, so removing a task that is not stored succeeds. A
/// failure of the engine is reported as `Storage` with the engine's
/// description.
pub fn report_write<T>(outcome: Result<T, String>) -> (report: Result<(), StoreError>)
    ensures
        match outcome {
            Ok(_) => report is Ok,
            Err(cause) => report matches Err(error) && error@ == StoreErrorView::Storage(cause@),
        },
{
    match outcome {
        Ok(_) => Ok(()),
        Err(cause) => Err(StoreError::Storage(cause)),
    }
}

/// What a listing reports for each answer of the engine. The rows that the
/// engine returned are read as tasks, all of them and in the engine's
/// order; no rows give no tasks. A failure of the engine, a row that cannot
/// be read among them, is reported as `Storage` with the engine's
/// description, and no task is returned.
pub fn report_listing(outcome: Result<Vec<TaskRow>, String>) -> (report: Result<
    Vec<Task>,
    StoreError,
>)
    ensures
        match outcome {
            Ok(rows) => report matches Ok(tasks) && tasks.deep_view() == loaded_tasks(
                rows.deep_view(),
            ),
            Err(cause) => report matches Err(error) && error@ == StoreErrorView::Storage(cause@),
        },
{
    match outcome {
        Ok(rows) => Ok(tasks_of_rows(rows)),
        Err(cause) => Err(StoreError::Storage(cause)),
    }
}

impl TaskStore {
    /// The connection that the store holds.
    pub closed spec fn connection(&self) -> rusqlite::Connection {
        self.connection
    }

    /// Opens the database file at `path`, creating the file if it is not
    /// there. The directories on the path must exist. It hands the engine
    /// the path as it is and reports the answer as `report_open` says.
    pub fn open(path: &str) -> (opened: Result<TaskStore, StoreError>)
        ensures
            engine_decided(opened),
    {
        report_open(described(open_connection(path)))
    }

    /// Makes sure that the `tasks` table exists. It hands the engine
    /// `CREATE_TABLE_SQL`, which creates the table only if it is absent, so
    /// it may be called before every operation, and reports the answer as
    /// `report_write` says.
    pub fn initialize(&self) -> (initialized: Result<(), StoreError>)
        ensures
            engine_decided(initialized),
    {
        report_write(described(run_batch(&self.connection, CREATE_TABLE_SQL)))
    }

    /// Returns every stored task, in the order in which the engine yields
    /// the rows. It hands the engine `SELECT_ALL_SQL` and reports the
    /// answer as `report_listing` says.
    pub fn list_all(&self) -> (listed: Result<Vec<Task>, StoreError>)
        ensures
            engine_decided(listed),
    {
        report_listing(described(query_task_rows(&self.connection, SELECT_ALL_SQL)))
    }

    /// Stores `task`: inserts it if no task has its id, else replaces the
    /// whole stored task with it. Nothing about the task is checked. It
    /// hands the engine the one statement that `upsert_statement` builds and
    /// reports the answer as `report_write` says.
    pub fn upsert(&self, task: &Task) -> (stored: Result<(), StoreError>)
        ensures
            engine_decided(stored),
    {
        let statement = upsert_statement(task);
        report_write(described(run_statement(&self.connection, &statement)))
    }

    /// Removes the task with the id `task_id` if it is stored. An empty id
    /// is rejected as `Validation` before anything reaches the engine.
    /// Otherwise it hands the engine the statement that `delete_statement`
    /// builds and reports the answer as `report_write` says.
    pub fn delete(&self, task_id: &str) -> (removed: Result<(), StoreError>)
        ensures
            task_id@.len() == 0 ==> (removed matches Err(error) && error@
                == StoreErrorView::Validation(empty_id_message())),
            task_id@.len() > 0 ==> engine_decided(removed),
    {
        match delete_statement(task_id) {
            Ok(statement) => report_write(described(run_statement(&self.connection, &statement))),
            Err(rejected) => Err(rejected),
        }
    }
}

/// Loads all tasks: makes sure the table exists, then lists it. A store
/// with no task gives an empty vector.
pub fn load_tasks(store: &TaskStore) -> (loaded: Result<Vec<Task>, StoreError>)
    ensures
        engine_decided(loaded),
{
    match store.initialize() {
        Ok(()) => store.list_all(),
        Err(failure) => Err(failure),
    }
}

/// Saves a task, creating it or replacing the stored task that has its id:
/// makes sure the table exists, then stores the task as it is.
pub fn save_task(store: &TaskStore, task: &Task) -> (saved: Result<(), StoreError>)
    ensures
        engine_decided(saved),
{
    match store.initialize() {
        Ok(()) => store.upsert(task),
        Err(failure) => Err(failure),
    }
}

/// Deletes the task with the id `task_id`, if it is stored. An empty id is
/// rejected as `Validation` before anything reaches the engine; otherwise
/// the table is made sure to exist and the task removed from it.
pub fn delete_task(store: &TaskStore, task_id: &str) -> (deleted: Result<(), StoreError>)
    ensures
        task_id@.len() == 0 ==> (deleted matches Err(error) && error@
            == StoreErrorView::Validation(empty_id_message())),
        task_id@.len() > 0 ==> engine_decided(deleted),
{
    match check_task_id(task_id) {
        Ok(()) => match store.initialize() {
            Ok(()) => store.delete(task_id),
            Err(failure) => Err(failure),
        },
        Err(rejected) => Err(rejected),
    }
}

} // verus!
