//! The task record and its mathematical view.

use vstd::prelude::*;

verus! {

/// A single to-do record. `id` is the key under which it is stored; the other
/// fields are kept verbatim, with no format imposed on them.
#[derive(Debug)]
pub struct Task {
    pub id: String,
    pub name: String,
    pub subject: String,
    pub difficulty: String,
    pub date: String,
    pub completed: bool,
}

/// What a [`Task`] is in contracts: its five texts as character sequences and
/// its completion flag.
pub ghost struct TaskView {
    pub id: Seq<char>,
    pub name: Seq<char>,
    pub subject: Seq<char>,
    pub difficulty: Seq<char>,
    pub date: Seq<char>,
    pub completed: bool,
}

impl View for Task {
    type V = TaskView;

    open spec fn view(&self) -> TaskView {
        TaskView {
            id: self.id@,
            name: self.name@,
            subject: self.subject@,
            difficulty: self.difficulty@,
            date: self.date@,
            completed: self.completed,
        }
    }
}

impl DeepView for Task {
    type V = TaskView;

    open spec fn deep_view(&self) -> TaskView {
        self@
    }
}

impl Clone for Task {
    fn clone(&self) -> (copy: Task)
        ensures
            copy@ == self@,
    {
        Task {
            id: self.id.clone(),
            name: self.name.clone(),
            subject: self.subject.clone(),
            difficulty: self.difficulty.clone(),
            date: self.date.clone(),
            completed: self.completed,
        }
    }
}

impl PartialEq for Task {
    fn eq(&self, other: &Task) -> (same: bool) {
        self.id == other.id && self.name == other.name && self.subject == other.subject
            && self.difficulty == other.difficulty && self.date == other.date && self.completed
            == other.completed
    }
}

impl vstd::std_specs::cmp::PartialEqSpecImpl for Task {
    open spec fn obeys_eq_spec() -> bool {
        true
    }

    /// Two tasks are equal when all six fields are.
    open spec fn eq_spec(&self, other: &Task) -> bool {
        self@ == other@
    }
}

} // verus!
