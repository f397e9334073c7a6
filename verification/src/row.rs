//! The stored form of a task: five text columns and an integer flag, and the
//! conversion between that form and [`Task`] in both directions.

use crate::task::{Task, TaskView};
use vstd::prelude::*;

verus! {

/// One row of the `tasks` table as the engine holds it. The columns stand in
/// the order of the table's definition; `completed` is the integer column.
#[derive(Debug)]
pub struct TaskRow {
    pub id: String,
    pub name: String,
    pub subject: String,
    pub difficulty: String,
    pub date: String,
    pub completed: i64,
}

/// What a [`TaskRow`] is in contracts.
pub ghost struct TaskRowView {
    pub id: Seq<char>,
    pub name: Seq<char>,
    pub subject: Seq<char>,
    pub difficulty: Seq<char>,
    pub date: Seq<char>,
    pub completed: int,
}

impl View for TaskRow {
    type V = TaskRowView;

    open spec fn view(&self) -> TaskRowView {
        TaskRowView {
            id: self.id@,
            name: self.name@,
            subject: self.subject@,
            difficulty: self.difficulty@,
            date: self.date@,
            completed: self.completed as int,
        }
    }
}

impl DeepView for TaskRow {
    type V = TaskRowView;

    open spec fn deep_view(&self) -> TaskRowView {
        self@
    }
}

/// The integer that stands for a completion flag in the `completed` column:
/// 1 for `true`, 0 for `false`.
pub open spec fn flag_column(completed: bool) -> int {
    if completed {
        1
    } else {
        0
    }
}

/// The completion flag that a stored integer stands for: every integer but 0
/// reads as `true`.
pub open spec fn column_flag(column: int) -> bool {
    column != 0
}

/// The row under which a task is stored: the texts unchanged, the flag as
/// `flag_column` gives it.
pub open spec fn stored_row(task: TaskView) -> TaskRowView {
    TaskRowView {
        id: task.id,
        name: task.name,
        subject: task.subject,
        difficulty: task.difficulty,
        date: task.date,
        completed: flag_column(task.completed),
    }
}

/// The task that a row reads as: the texts unchanged, the flag as
/// `column_flag` gives it.
pub open spec fn loaded_task(row: TaskRowView) -> TaskView {
    TaskView {
        id: row.id,
        name: row.name,
        subject: row.subject,
        difficulty: row.difficulty,
        date: row.date,
        completed: column_flag(row.completed),
    }
}

/// The tasks that a sequence of rows reads as, one per row and in the rows'
/// order.
pub open spec fn loaded_tasks(rows: Seq<TaskRowView>) -> Seq<TaskView> {
    rows.map_values(|row: TaskRowView| loaded_task(row))
}

/// Encodes a completion flag for storage: `true` as 1, `false` as 0.
pub fn encode_completed(completed: bool) -> (column: i64)
    ensures
        column == flag_column(completed),
{
    if completed {
        1
    } else {
        0
    }
}

/// Decodes a stored completion flag: 0 is `false`, anything else `true`.
pub fn decode_completed(column: i64) -> (completed: bool)
    ensures
        completed == column_flag(column as int),
{
    column != 0
}

/// Builds the row under which `task` is stored.
pub fn row_of_task(task: &Task) -> (row: TaskRow)
    ensures
        row@ == stored_row(task@),
{
    TaskRow {
        id: task.id.clone(),
        name: task.name.clone(),
        subject: task.subject.clone(),
        difficulty: task.difficulty.clone(),
        date: task.date.clone(),
        completed: encode_completed(task.completed),
    }
}

/// Reads a row back as a task.
pub fn task_of_row(row: TaskRow) -> (task: Task)
    ensures
        task@ == loaded_task(row@),
{
    Task {
        id: row.id,
        name: row.name,
        subject: row.subject,
        difficulty: row.difficulty,
        date: row.date,
        completed: decode_completed(row.completed),
    }
}

/// Reads every row back as a task, keeping the rows' order. No row is
/// skipped and none is added: an empty sequence of rows gives an empty
/// sequence of tasks.
pub fn tasks_of_rows(rows: Vec<TaskRow>) -> (tasks: Vec<Task>)
    ensures
        tasks.deep_view() == loaded_tasks(rows.deep_view()),
{
    let ghost all = rows@;
    let ghost views = rows.deep_view();
    let mut tasks: Vec<Task> = Vec::new();
    for row in it: rows
        invariant
            it.seq() == all,
            tasks@.len() == it.index(),
            forall|i: int| 0 <= i < tasks@.len() ==> (#[trigger] tasks@[i])@ == loaded_task(all[i]@),
    {
        tasks.push(task_of_row(row));
    }
    assert(tasks.deep_view() =~= loaded_tasks(views));
    tasks
}

/// A completion flag survives storage: encoded and decoded again it is the
/// flag that went in.
pub proof fn lemma_flag_round_trip(completed: bool)
    ensures
        column_flag(flag_column(completed)) == completed,
        flag_column(true) == 1,
        flag_column(false) == 0,
{
}

/// A task survives storage: the row under which it is stored reads back as the
/// same task, field for field.
pub proof fn lemma_row_round_trip(task: TaskView)
    ensures
        loaded_task(stored_row(task)) == task,
{
}

/// Where the rows that the engine returns hold the stored row of a task at
/// one position and no row with that task's id at any other, the listing
/// read from them holds the task at that position and nowhere else.
pub proof fn lemma_stored_row_lists_once(rows: Seq<TaskRowView>, task: TaskView, position: int)
    requires
        0 <= position < rows.len(),
        rows[position] == stored_row(task),
        forall|other: int|
            0 <= other < rows.len() && other != position ==> (#[trigger] rows[other]).id != task.id,
    ensures
        loaded_tasks(rows).len() == rows.len(),
        loaded_tasks(rows)[position] == task,
        forall|other: int|
            0 <= other < rows.len() && other != position ==> #[trigger] loaded_tasks(rows)[other]
                != task,
{
    assert forall|other: int| 0 <= other < rows.len() && other != position implies #[trigger] loaded_tasks(
        rows,
    )[other] != task by {
        assert(loaded_tasks(rows)[other].id == rows[other].id);
    }
}

} // verus!
