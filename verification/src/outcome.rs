//! Terminal classification of one protocol run.
//!
//! Every run of the enrollment protocol resolves to exactly one of these
//! before its task returns: success, a definitive failure (the window
//! closed, no next lesson), or an unexpected error that ends the run.

use vstd::prelude::*;

verus! {

/// The terminal outcome of one protocol run, with its operator-facing text.
#[derive(Debug, Clone, PartialEq, Eq)]
pub enum ExistStatus {
    Success(String),
    Failure(String),
    Error(String),
}

/// The mathematical value of an outcome: its kind and message characters.
pub enum OutcomeView {
    Success(Seq<char>),
    Failure(Seq<char>),
    Error(Seq<char>),
}

impl View for ExistStatus {
    type V = OutcomeView;

    open spec fn view(&self) -> OutcomeView {
        match self {
            ExistStatus::Success(m) => OutcomeView::Success(m@),
            ExistStatus::Failure(m) => OutcomeView::Failure(m@),
            ExistStatus::Error(m) => OutcomeView::Error(m@),
        }
    }
}

impl ExistStatus {
    /// The operator-facing message carried by the outcome.
    pub open spec fn msg(&self) -> Seq<char> {
        match self {
            ExistStatus::Success(m) => m@,
            ExistStatus::Failure(m) => m@,
            ExistStatus::Error(m) => m@,
        }
    }

    /// The trailing status line appended when the job's task exits.
    pub open spec fn exit_suffix(&self) -> Seq<char> {
        match self {
            ExistStatus::Success(_) => "\nJob existed successfully"@,
            ExistStatus::Failure(_) => "\nJob failed"@,
            ExistStatus::Error(_) => "\nJob canceled"@,
        }
    }

    pub fn success(msg: String) -> (r: Self)
        ensures
            r == ExistStatus::Success(msg),
    {
        ExistStatus::Success(msg)
    }

    pub fn failure(msg: String) -> (r: Self)
        ensures
            r == ExistStatus::Failure(msg),
    {
        ExistStatus::Failure(msg)
    }

    pub fn error(msg: String) -> (r: Self)
        ensures
            r == ExistStatus::Error(msg),
    {
        ExistStatus::Error(msg)
    }

    /// The carried message, for reading the outcome out.
    pub fn message(&self) -> (r: &str)
        ensures
            r@ == self.msg(),
    {
        match self {
            ExistStatus::Success(m) => m.as_str(),
            ExistStatus::Failure(m) => m.as_str(),
            ExistStatus::Error(m) => m.as_str(),
        }
    }
}

/// The final text sent for a finished job: its message plus a trailing
/// status line saying how the job exited.
pub fn exit_status_message(status: &ExistStatus) -> (r: String)
    ensures
        r@ == status.msg() + status.exit_suffix(),
{
    match status {
        ExistStatus::Success(m) => m.clone().concat("\nJob existed successfully"),
        ExistStatus::Failure(m) => m.clone().concat("\nJob failed"),
        ExistStatus::Error(m) => m.clone().concat("\nJob canceled"),
    }
}

} // verus!
