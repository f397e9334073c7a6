//! The SQL that the store hands to the engine: the four statement texts and
//! the values bound to their parameters.

use crate::error::{StoreError, StoreErrorView, empty_id_message};
use crate::input::check_task_id;
use crate::row::{TaskRowView, row_of_task, stored_row};
use crate::task::{Task, TaskView};
use vstd::prelude::*;
use vstd::string::StringExecFns;

verus! {

/// Creates the `tasks` table unless it is there already: six columns, with
/// `id` as the primary key and the other five declared `NOT NULL`.
pub const CREATE_TABLE_SQL: &'static str =
    "CREATE TABLE IF NOT EXISTS tasks (id TEXT PRIMARY KEY, name TEXT NOT NULL, subject TEXT NOT NULL, difficulty TEXT NOT NULL, date TEXT NOT NULL, completed INTEGER NOT NULL);";

/// Reads every row of the table, the columns in the order of [`TaskRow`].
pub const SELECT_ALL_SQL: &'static str =
    "SELECT id, name, subject, difficulty, date, completed FROM tasks";

/// Writes one whole row, replacing the row that has the same `id` if there
/// is one.
pub const UPSERT_SQL: &'static str =
    "INSERT OR REPLACE INTO tasks (id, name, subject, difficulty, date, completed) VALUES (?1, ?2, ?3, ?4, ?5, ?6)";

/// Removes the row whose `id` is the one bound, if there is one.
pub const DELETE_SQL: &'static str = "DELETE FROM tasks WHERE id = ?1";

/// A value bound to a parameter of a statement.
#[derive(Debug)]
pub enum SqlValue {
    Text(String),
    Integer(i64),
}

/// What a [`SqlValue`] is in contracts.
pub ghost enum SqlValueView {
    Text(Seq<char>),
    Integer(int),
}

impl View for SqlValue {
    type V = SqlValueView;

    open spec fn view(&self) -> SqlValueView {
        match self {
            SqlValue::Text(text) => SqlValueView::Text(text@),
            SqlValue::Integer(number) => SqlValueView::Integer(*number as int),
        }
    }
}

impl DeepView for SqlValue {
    type V = SqlValueView;

    open spec fn deep_view(&self) -> SqlValueView {
        self@
    }
}

/// A statement that changes the table, ready to be run: its text and the
/// values for `?1`, `?2`, ... in that order.
#[derive(Debug)]
pub struct Statement {
    pub sql: &'static str,
    pub params: Vec<SqlValue>,
}

/// What a [`Statement`] is in contracts.
pub ghost struct StatementView {
    pub sql: Seq<char>,
    pub params: Seq<SqlValueView>,
}

impl View for Statement {
    type V = StatementView;

    open spec fn view(&self) -> StatementView {
        StatementView { sql: self.sql@, params: self.params.deep_view() }
    }
}

/// The values that write `row`: its five texts and its flag, in the order
/// of the table's columns.
pub open spec fn row_params(row: TaskRowView) -> Seq<SqlValueView> {
    seq![
        SqlValueView::Text(row.id),
        SqlValueView::Text(row.name),
        SqlValueView::Text(row.subject),
        SqlValueView::Text(row.difficulty),
        SqlValueView::Text(row.date),
        SqlValueView::Integer(row.completed),
    ]
}

/// The statement that stores `task`: the upsert text with the task's stored
/// row bound to it. Every column is bound from the task itself, so what is
/// written does not depend on what the table held before.
pub open spec fn upsert_of(task: TaskView) -> StatementView {
    StatementView { sql: UPSERT_SQL@, params: row_params(stored_row(task)) }
}

/// The statement that removes the task with the id `task_id`.
pub open spec fn delete_of(task_id: Seq<char>) -> StatementView {
    StatementView { sql: DELETE_SQL@, params: seq![SqlValueView::Text(task_id)] }
}

/// Builds the statement that stores `task`, inserting it or replacing the
/// whole row that has its id.
pub fn upsert_statement(task: &Task) -> (statement: Statement)
    ensures
        statement@ == upsert_of(task@),
{
    let row = row_of_task(task);
    let mut params: Vec<SqlValue> = Vec::new();
    params.push(SqlValue::Text(row.id));
    params.push(SqlValue::Text(row.name));
    params.push(SqlValue::Text(row.subject));
    params.push(SqlValue::Text(row.difficulty));
    params.push(SqlValue::Text(row.date));
    params.push(SqlValue::Integer(row.completed));
    let statement = Statement { sql: UPSERT_SQL, params };
    assert(statement@.params =~= row_params(stored_row(task@)));
    statement
}

/// Builds the statement that removes the task with the id `task_id`. An
/// empty id is rejected here, before anything reaches the engine.
pub fn delete_statement(task_id: &str) -> (built: Result<Statement, StoreError>)
    ensures
        match built {
            Ok(statement) => task_id@.len() > 0 && statement@ == delete_of(task_id@),
            Err(error) => task_id@.len() == 0 && error@ == StoreErrorView::Validation(
                empty_id_message(),
            ),
        },
{
    match check_task_id(task_id) {
        Ok(()) => {
            let mut params: Vec<SqlValue> = Vec::new();
            params.push(SqlValue::Text(String::from_str(task_id)));
            let statement = Statement { sql: DELETE_SQL, params };
            assert(statement@.params =~= seq![SqlValueView::Text(task_id@)]);
            Ok(statement)
        },
        Err(rejected) => Err(rejected),
    }
}

} // verus!
