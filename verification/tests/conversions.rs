use task_store::error::StoreError;
use task_store::row::{
    decode_completed, encode_completed, row_of_task, task_of_row, tasks_of_rows, TaskRow,
};
use task_store::statement::{
    delete_statement, upsert_statement, SqlValue, CREATE_TABLE_SQL, DELETE_SQL, SELECT_ALL_SQL,
    UPSERT_SQL,
};
use task_store::store::{report_listing, report_write};
use task_store::{accept_task, check_task_id, Task, DATABASE_FILE_NAME};

fn task(id: &str, name: &str, completed: bool) -> Task {
    Task {
        id: id.to_string(),
        name: name.to_string(),
        subject: "Math".to_string(),
        difficulty: "easy".to_string(),
        date: "2024-01-01".to_string(),
        completed,
    }
}

fn row(id: &str, completed: i64) -> TaskRow {
    TaskRow {
        id: id.to_string(),
        name: "Essay".to_string(),
        subject: "English".to_string(),
        difficulty: "hard".to_string(),
        date: "next week".to_string(),
        completed,
    }
}

fn text_of(value: &SqlValue) -> String {
    match value {
        SqlValue::Text(text) => text.clone(),
        SqlValue::Integer(number) => panic!("expected text, found the integer {}", number),
    }
}

fn integer_of(value: &SqlValue) -> i64 {
    match value {
        SqlValue::Integer(number) => *number,
        SqlValue::Text(text) => panic!("expected an integer, found the text {}", text),
    }
}

#[test]
fn completed_flag_is_stored_as_one_or_zero() {
    assert_eq!(encode_completed(true), 1);
    assert_eq!(encode_completed(false), 0);
}

#[test]
fn stored_flag_reads_as_false_only_for_zero() {
    assert!(!decode_completed(0));
    assert!(decode_completed(1));
    assert!(decode_completed(2));
    assert!(decode_completed(-1));
    assert!(decode_completed(i64::MAX));
    assert!(decode_completed(i64::MIN));
}

#[test]
fn completed_flag_survives_encoding_and_decoding() {
    assert!(decode_completed(encode_completed(true)));
    assert!(!decode_completed(encode_completed(false)));
}

#[test]
fn row_of_task_keeps_texts_and_encodes_flag() {
    let stored = row_of_task(&task("t1", "Algebra HW", true));
    assert_eq!(stored.id, "t1");
    assert_eq!(stored.name, "Algebra HW");
    assert_eq!(stored.subject, "Math");
    assert_eq!(stored.difficulty, "easy");
    assert_eq!(stored.date, "2024-01-01");
    assert_eq!(stored.completed, 1);
    assert_eq!(row_of_task(&task("t1", "Algebra HW", false)).completed, 0);
}

#[test]
fn task_of_row_keeps_texts_and_decodes_flag() {
    let loaded = task_of_row(row("r1", 5));
    assert_eq!(
        loaded,
        Task {
            id: "r1".to_string(),
            name: "Essay".to_string(),
            subject: "English".to_string(),
            difficulty: "hard".to_string(),
            date: "next week".to_string(),
            completed: true,
        }
    );
    assert!(!task_of_row(row("r1", 0)).completed);
}

#[test]
fn task_survives_conversion_to_row_and_back() {
    for completed in [true, false] {
        let task = task("t1", "Algebra HW", completed);
        assert_eq!(task_of_row(row_of_task(&task)), task);
    }
    let blank = Task {
        id: String::new(),
        name: String::new(),
        subject: String::new(),
        difficulty: String::new(),
        date: String::new(),
        completed: false,
    };
    assert_eq!(task_of_row(row_of_task(&blank)), blank);
}

#[test]
fn tasks_of_rows_keeps_number_and_order() {
    let tasks = tasks_of_rows(vec![row("a", 0), row("b", 1), row("c", 0)]);
    assert_eq!(tasks.len(), 3);
    assert_eq!(tasks[0].id, "a");
    assert_eq!(tasks[1].id, "b");
    assert_eq!(tasks[2].id, "c");
    assert!(!tasks[0].completed);
    assert!(tasks[1].completed);
    assert!(!tasks[2].completed);
}

#[test]
fn tasks_of_no_rows_is_empty() {
    assert_eq!(tasks_of_rows(Vec::new()), Vec::<Task>::new());
}

#[test]
fn task_equality_looks_at_every_field() {
    let base = task("t1", "Algebra HW", false);
    assert_eq!(base, base.clone());
    assert_ne!(base, Task { id: "t2".to_string(), ..base.clone() });
    assert_ne!(base, Task { name: "Other".to_string(), ..base.clone() });
    assert_ne!(base, Task { subject: "Art".to_string(), ..base.clone() });
    assert_ne!(base, Task { difficulty: "hard".to_string(), ..base.clone() });
    assert_ne!(base, Task { date: "2024-01-02".to_string(), ..base.clone() });
    assert_ne!(base, Task { completed: true, ..base.clone() });
}

#[test]
fn upsert_statement_binds_the_whole_row_in_column_order() {
    let statement = upsert_statement(&task("t1", "Algebra HW", true));
    assert_eq!(statement.sql, UPSERT_SQL);
    assert_eq!(statement.params.len(), 6);
    assert_eq!(text_of(&statement.params[0]), "t1");
    assert_eq!(text_of(&statement.params[1]), "Algebra HW");
    assert_eq!(text_of(&statement.params[2]), "Math");
    assert_eq!(text_of(&statement.params[3]), "easy");
    assert_eq!(text_of(&statement.params[4]), "2024-01-01");
    assert_eq!(integer_of(&statement.params[5]), 1);
    let open = upsert_statement(&task("t1", "Algebra HW", false));
    assert_eq!(integer_of(&open.params[5]), 0);
}

#[test]
fn delete_statement_binds_the_id() {
    let statement = delete_statement("t1").unwrap();
    assert_eq!(statement.sql, DELETE_SQL);
    assert_eq!(statement.params.len(), 1);
    assert_eq!(text_of(&statement.params[0]), "t1");
}

#[test]
fn delete_statement_rejects_an_empty_id() {
    assert_eq!(
        delete_statement("").err(),
        Some(StoreError::Validation("empty id".to_string()))
    );
}

#[test]
fn delete_statement_accepts_a_blank_id() {
    let statement = delete_statement(" ").unwrap();
    assert_eq!(text_of(&statement.params[0]), " ");
}

#[test]
fn statement_texts_name_the_table_and_its_columns() {
    assert_eq!(
        CREATE_TABLE_SQL,
        "CREATE TABLE IF NOT EXISTS tasks (id TEXT PRIMARY KEY, name TEXT NOT NULL, \
         subject TEXT NOT NULL, difficulty TEXT NOT NULL, date TEXT NOT NULL, \
         completed INTEGER NOT NULL);"
    );
    assert_eq!(
        SELECT_ALL_SQL,
        "SELECT id, name, subject, difficulty, date, completed FROM tasks"
    );
    assert_eq!(
        UPSERT_SQL,
        "INSERT OR REPLACE INTO tasks (id, name, subject, difficulty, date, completed) \
         VALUES (?1, ?2, ?3, ?4, ?5, ?6)"
    );
    assert_eq!(DELETE_SQL, "DELETE FROM tasks WHERE id = ?1");
}

#[test]
fn database_file_is_named_tasks_db() {
    assert_eq!(DATABASE_FILE_NAME, "tasks.db");
}

#[test]
fn write_that_changed_no_row_is_a_success() {
    assert_eq!(report_write(Ok(0usize)), Ok(()));
    assert_eq!(report_write(Ok(1usize)), Ok(()));
    assert_eq!(report_write(Ok(usize::MAX)), Ok(()));
}

#[test]
fn batch_that_ran_is_a_success() {
    assert_eq!(report_write(Ok(())), Ok(()));
}

#[test]
fn failed_batch_is_a_storage_error() {
    assert_eq!(
        report_write::<()>(Err("database is locked".to_string())),
        Err(StoreError::Storage("database is locked".to_string()))
    );
}

#[test]
fn failed_write_is_a_storage_error() {
    assert_eq!(
        report_write::<usize>(Err("disk I/O error".to_string())),
        Err(StoreError::Storage("disk I/O error".to_string()))
    );
}

#[test]
fn listing_reads_every_row() {
    let listed = report_listing(Ok(vec![row("a", 1), row("b", 0)])).unwrap();
    assert_eq!(listed, vec![task_of_row(row("a", 1)), task_of_row(row("b", 0))]);
    assert_eq!(report_listing(Ok(Vec::new())), Ok(Vec::new()));
}

#[test]
fn failed_listing_is_a_storage_error() {
    assert_eq!(
        report_listing(Err("Invalid column type".to_string())),
        Err(StoreError::Storage("Invalid column type".to_string()))
    );
}

#[test]
fn errors_carry_their_messages() {
    assert_eq!(StoreError::empty_id(), StoreError::Validation("empty id".to_string()));
    assert_eq!(StoreError::empty_id().message(), "empty id");
    assert_eq!(
        StoreError::parse("expected value at line 1 column 1"),
        StoreError::Parse("JSON parse error: expected value at line 1 column 1".to_string())
    );
    assert_eq!(StoreError::parse("").message(), "JSON parse error: ");
    assert_eq!(StoreError::Storage("locked".to_string()).message(), "locked");
    assert_eq!(
        StoreError::resolution("unknown path"),
        StoreError::Resolution("unknown path".to_string())
    );
    assert_eq!(StoreError::resolution("unknown path").message(), "unknown path");
}

#[test]
fn errors_of_different_kinds_differ() {
    let text = "same".to_string();
    assert_ne!(StoreError::Storage(text.clone()), StoreError::Parse(text.clone()));
    assert_ne!(StoreError::Validation(text.clone()), StoreError::Resolution(text.clone()));
    assert_ne!(StoreError::Storage(text.clone()), StoreError::Storage("other".to_string()));
    assert_eq!(StoreError::Storage(text.clone()), StoreError::Storage(text));
}

#[test]
fn empty_task_id_is_rejected() {
    assert_eq!(check_task_id(""), Err(StoreError::Validation("empty id".to_string())));
}

#[test]
fn any_other_task_id_is_accepted() {
    assert_eq!(check_task_id("t1"), Ok(()));
    assert_eq!(check_task_id(" "), Ok(()));
    assert_eq!(check_task_id("\u{0}"), Ok(()));
    assert_eq!(check_task_id("\u{00e9}t\u{00e9}"), Ok(()));
}

#[test]
fn decoded_task_is_accepted_unchanged() {
    let decoded = task("t1", "Algebra HW", true);
    assert_eq!(accept_task(Ok(decoded.clone())), Ok(decoded));
    let blank = Task {
        id: String::new(),
        name: String::new(),
        subject: String::new(),
        difficulty: "unheard of".to_string(),
        date: "not a date".to_string(),
        completed: false,
    };
    assert_eq!(accept_task(Ok(blank.clone())), Ok(blank));
}

#[test]
fn undecodable_task_is_a_parse_error() {
    let cause = "missing field `id` at line 1 column 2".to_string();
    assert_eq!(
        accept_task(Err(cause)),
        Err(StoreError::Parse(
            "JSON parse error: missing field `id` at line 1 column 2".to_string()
        ))
    );
    assert_eq!(
        accept_task(Err(String::new())),
        Err(StoreError::Parse("JSON parse error: ".to_string()))
    );
}
