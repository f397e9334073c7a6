//! What is checked of a caller's input before the store turns to the
//! database. Neither function here has a store at hand, so neither reaches
//! the engine.

use crate::error::{StoreError, StoreErrorView, empty_id_message, parse_message};
use crate::task::Task;
use vstd::prelude::*;

verus! {

/// Accepts the id of a task to delete: any id but the empty one. The empty
/// id is rejected as `Validation`.
pub fn check_task_id(task_id: &str) -> (checked: Result<(), StoreError>)
    ensures
        match checked {
            Ok(()) => task_id@.len() > 0,
            Err(error) => task_id@.len() == 0 && error@ == StoreErrorView::Validation(
                empty_id_message(),
            ),
        },
{
    if task_id.is_empty() {
        Err(StoreError::empty_id())
    } else {
        Ok(())
    }
}

/// Accepts a task that arrived in serialized form. `decoded` is the task as
/// the caller's decoder read it, or what the decoder said when it could not
/// read one. A decoded task is accepted as it is: no field is checked. An
/// undecodable one is rejected as `Parse`, with the decoder's words in the
/// message.
pub fn accept_task(decoded: Result<Task, String>) -> (accepted: Result<Task, StoreError>)
    ensures
        match decoded {
            Ok(task) => accepted == Ok::<Task, StoreError>(task),
            Err(cause) => accepted matches Err(error) && error@ == StoreErrorView::Parse(
                parse_message(cause@),
            ),
        },
{
    match decoded {
        Ok(task) => Ok(task),
        Err(cause) => Err(StoreError::parse(cause.as_str())),
    }
}

} // verus!
