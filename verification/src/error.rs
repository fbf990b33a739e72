//! What can go wrong while a request is served, and how it is reported.
//!
//! Every failure is answered in the same way: with the status
//! [`FAILURE_STATUS`] and a body that holds a readable message and nothing
//! of the server's inner state.

use vstd::prelude::*;
use vstd::string::*;

verus! {

/// The status code of every failure response.
pub const FAILURE_STATUS: u16 = 500;

/// A defect in what the caller submitted, found before the agent is called.
#[derive(Clone, Copy, Debug, PartialEq, Eq, Structural)]
pub enum ValidationError {
    /// The form named no task.
    MissingTaskId,
    /// The form held neither text nor a file with content.
    EmptyMessage,
}

/// A step that depends on somebody else and can therefore fail: reading the
/// request, or a call to the agent.
#[derive(Clone, Copy, Debug, PartialEq, Eq, Structural)]
pub enum Operation {
    ReadField,
    ReadTaskId,
    ReadText,
    ReadFile,
    SendMessage,
    SubmitExpense,
    ListTasks,
    CancelTask,
}

/// The words that report the failure of an operation.
pub open spec fn failure_text(operation: Operation) -> Seq<char> {
    match operation {
        Operation::ReadField => "Failed to read multipart field"@,
        Operation::ReadTaskId => "Failed to read task_id"@,
        Operation::ReadText => "Failed to read message"@,
        Operation::ReadFile => "Failed to read file"@,
        Operation::SendMessage => "Failed to send message"@,
        Operation::SubmitExpense => "Failed to submit expense"@,
        Operation::ListTasks => "Failed to list tasks"@,
        Operation::CancelTask => "Failed to cancel task"@,
    }
}

impl Operation {
    /// The words that report the failure of this operation.
    pub fn failure_text(self) -> (text: &'static str)
        ensures
            text@ == failure_text(self),
    {
        match self {
            Operation::ReadField => "Failed to read multipart field",
            Operation::ReadTaskId => "Failed to read task_id",
            Operation::ReadText => "Failed to read message",
            Operation::ReadFile => "Failed to read file",
            Operation::SendMessage => "Failed to send message",
            Operation::SubmitExpense => "Failed to submit expense",
            Operation::ListTasks => "Failed to list tasks",
            Operation::CancelTask => "Failed to cancel task",
        }
    }
}

/// A failure of a request.
#[derive(Debug, PartialEq, Eq)]
pub enum AppError {
    /// The submitted form was defective.
    Validation(ValidationError),
    /// The request could not be read, or the agent failed; `detail` is what
    /// the failing side said.
    Upstream { operation: Operation, detail: String },
    /// A webhook call did not prove that it knows the secret.
    Unauthorized,
}

/// Mathematical value of an [`AppError`].
pub enum AppErrorView {
    Validation(ValidationError),
    Upstream { operation: Operation, detail: Seq<char> },
    Unauthorized,
}

impl View for AppError {
    type V = AppErrorView;

    open spec fn view(&self) -> AppErrorView {
        match self {
            AppError::Validation(error) => AppErrorView::Validation(*error),
            AppError::Upstream { operation, detail } => AppErrorView::Upstream {
                operation: *operation,
                detail: detail@,
            },
            AppError::Unauthorized => AppErrorView::Unauthorized,
        }
    }
}

/// The readable message of a failure.
pub open spec fn error_message(error: AppErrorView) -> Seq<char> {
    match error {
        AppErrorView::Validation(ValidationError::MissingTaskId) => "Missing task_id"@,
        AppErrorView::Validation(ValidationError::EmptyMessage) => "Message cannot be empty"@,
        AppErrorView::Upstream { operation, detail } => failure_text(operation) + ": "@ + detail,
        AppErrorView::Unauthorized => "Unauthorized"@,
    }
}

/// The body of the response that reports a failure.
pub open spec fn error_body(error: AppErrorView) -> Seq<char> {
    "Internal server error: "@ + error_message(error)
}

impl AppError {
    /// The failure of `operation`, with what the failing side said.
    pub fn upstream(operation: Operation, detail: String) -> (error: AppError)
        ensures
            error@ == (AppErrorView::Upstream { operation, detail: detail@ }),
    {
        AppError::Upstream { operation, detail }
    }

    /// The readable message of this failure.
    pub fn message(&self) -> (text: String)
        ensures
            text@ == error_message(self@),
    {
        match self {
            AppError::Validation(ValidationError::MissingTaskId) => String::from_str(
                "Missing task_id",
            ),
            AppError::Validation(ValidationError::EmptyMessage) => String::from_str(
                "Message cannot be empty",
            ),
            AppError::Upstream { operation, detail } => {
                let mut text = String::from_str(operation.failure_text());
                text.append(": ");
                text.append(detail.as_str());
                text
            },
            AppError::Unauthorized => String::from_str("Unauthorized"),
        }
    }

    /// The status code of the response that reports this failure.
    pub fn status(&self) -> (code: u16)
        ensures
            code == FAILURE_STATUS,
    {
        FAILURE_STATUS
    }

    /// The body of the response that reports this failure.
    pub fn body(&self) -> (text: String)
        ensures
            text@ == error_body(self@),
    {
        let mut text = String::from_str("Internal server error: ");
        text.append(self.message().as_str());
        text
    }
}

} // verus!
