//! The failures that the store reports.

use vstd::prelude::*;
use vstd::string::StringExecFns;

verus! {

/// A failure of a store operation. Each variant carries the message that is
/// shown to the caller.
#[derive(Debug)]
pub enum StoreError {
    /// The application data directory could not be determined or created.
    Resolution(String),
    /// The database engine failed: on open, prepare, execute or read.
    Storage(String),
    /// The serialized task handed in for saving could not be decoded.
    Parse(String),
    /// An argument breaks a precondition of the operation.
    Validation(String),
}

/// What a [`StoreError`] is in contracts: its kind and its message.
pub ghost enum StoreErrorView {
    Resolution(Seq<char>),
    Storage(Seq<char>),
    Parse(Seq<char>),
    Validation(Seq<char>),
}

impl View for StoreError {
    type V = StoreErrorView;

    open spec fn view(&self) -> StoreErrorView {
        match self {
            StoreError::Resolution(message) => StoreErrorView::Resolution(message@),
            StoreError::Storage(message) => StoreErrorView::Storage(message@),
            StoreError::Parse(message) => StoreErrorView::Parse(message@),
            StoreError::Validation(message) => StoreErrorView::Validation(message@),
        }
    }
}

impl StoreErrorView {
    /// The message that the failure carries, whatever its kind.
    pub open spec fn message(self) -> Seq<char> {
        match self {
            StoreErrorView::Resolution(message) => message,
            StoreErrorView::Storage(message) => message,
            StoreErrorView::Parse(message) => message,
            StoreErrorView::Validation(message) => message,
        }
    }
}

/// The message of the failure that rejects an empty task id.
pub open spec fn empty_id_message() -> Seq<char> {
    "empty id"@
}

/// The message of the failure that reports an undecodable task, given what
/// the decoder said.
pub open spec fn parse_message(cause: Seq<char>) -> Seq<char> {
    "JSON parse error: "@ + cause
}

impl StoreError {
    /// The failure for a data directory that could not be determined or
    /// created, with the underlying cause as its message.
    pub fn resolution(cause: &str) -> (error: StoreError)
        ensures
            error@ == StoreErrorView::Resolution(cause@),
    {
        StoreError::Resolution(String::from_str(cause))
    }

    /// The failure for a task that could not be decoded: the decoder's
    /// description behind the words "JSON parse error: ".
    pub fn parse(cause: &str) -> (error: StoreError)
        ensures
            error@ == StoreErrorView::Parse(parse_message(cause@)),
    {
        StoreError::Parse(String::from_str("JSON parse error: ").concat(cause))
    }

    /// The failure for an empty task id.
    pub fn empty_id() -> (error: StoreError)
        ensures
            error@ == StoreErrorView::Validation(empty_id_message()),
    {
        StoreError::Validation(String::from_str("empty id"))
    }

    /// The message to show for this failure.
    pub fn message(&self) -> (text: String)
        ensures
            text@ == self@.message(),
    {
        match self {
            StoreError::Resolution(message) => message.clone(),
            StoreError::Storage(message) => message.clone(),
            StoreError::Parse(message) => message.clone(),
            StoreError::Validation(message) => message.clone(),
        }
    }
}

impl PartialEq for StoreError {
    fn eq(&self, other: &StoreError) -> (same: bool) {
        match self {
            StoreError::Resolution(mine) => match other {
                StoreError::Resolution(theirs) => *mine == *theirs,
                _ => false,
            },
            StoreError::Storage(mine) => match other {
                StoreError::Storage(theirs) => *mine == *theirs,
                _ => false,
            },
            StoreError::Parse(mine) => match other {
                StoreError::Parse(theirs) => *mine == *theirs,
                _ => false,
            },
            StoreError::Validation(mine) => match other {
                StoreError::Validation(theirs) => *mine == *theirs,
                _ => false,
            },
        }
    }
}

impl vstd::std_specs::cmp::PartialEqSpecImpl for StoreError {
    open spec fn obeys_eq_spec() -> bool {
        true
    }

    /// Two failures are equal when they are of one kind and carry one message.
    open spec fn eq_spec(&self, other: &StoreError) -> bool {
        self@ == other@
    }
}

} // verus!
