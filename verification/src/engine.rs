//! The database engine: SQLite, reached through `rusqlite`. Nothing in this
//! file is proved. Each function makes one call into the engine and hands
//! back what the engine said; what comes back depends on the database file,
//! so no contract promises anything about it.

use crate::row::TaskRow;
use crate::statement::{SqlValue, Statement};
use vstd::prelude::*;

verus! {

/// `rusqlite::Connection`, an open handle on one database.
#[verifier::external_type_specification]
#[verifier::external_body]
pub struct ExConnection(rusqlite::Connection);

/// `rusqlite::Error`, the engine's own failure type.
#[verifier::external_type_specification]
#[verifier::external_body]
pub struct ExEngineError(rusqlite::Error);

/// `rusqlite::Connection::open`: opens the database file at `path` for
/// reading and writing, creating it if it is not there. Nothing is claimed
/// of the outcome.
#[verifier::external_body]
pub(crate) fn open_connection(path: &str) -> (opened: Result<
    rusqlite::Connection,
    rusqlite::Error,
>) {
    rusqlite::Connection::open(path)
}

/// `rusqlite::Connection::execute_batch`: runs the statements in `sql`, which
/// take no parameters. Nothing is claimed of the outcome.
#[verifier::external_body]
pub(crate) fn run_batch(connection: &rusqlite::Connection, sql: &str) -> (outcome: Result<
    (),
    rusqlite::Error,
>) {
    connection.execute_batch(sql)
}

/// `rusqlite::Connection::execute`: prepares the statement's text, binds its
/// values to `?1`, `?2`, ... in order, and runs it once. On success the
/// engine reports how many rows it changed. Nothing is claimed of the
/// outcome.
#[verifier::external_body]
pub(crate) fn run_statement(connection: &rusqlite::Connection, statement: &Statement) -> (outcome:
    Result<usize, rusqlite::Error>) {
    let values = statement.params.iter().map(|value| match value {
        SqlValue::Text(text) => rusqlite::types::Value::Text(text.clone()),
        SqlValue::Integer(number) => rusqlite::types::Value::Integer(*number),
    });
    connection.execute(statement.sql, rusqlite::params_from_iter(values))
}

/// `rusqlite::Statement::query_map` on a statement prepared from `sql`, which
/// takes no parameters and yields six columns: each row's first five columns
/// are read as text and its sixth as an integer. The first row that cannot
/// be read so, or the first failure of the engine, ends the call with that
/// failure. Nothing is claimed of the outcome.
#[verifier::external_body]
pub(crate) fn query_task_rows(connection: &rusqlite::Connection, sql: &str) -> (outcome: Result<
    Vec<TaskRow>,
    rusqlite::Error,
>) {
    let mut prepared = connection.prepare(sql)?;
    let rows = prepared.query_map([], |row| {
        let (id, name, subject) = (row.get(0)?, row.get(1)?, row.get(2)?);
        let (difficulty, date, completed) = (row.get(3)?, row.get(4)?, row.get(5)?);
        Ok(TaskRow { id, name, subject, difficulty, date, completed })
    })?;
    rows.collect()
}

} // verus!
