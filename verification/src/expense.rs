//! The expense report, the structured way to open a task.

use crate::gateway::{
    Directive, DirectiveView, Phase, Submission, SubmissionKind, SubmissionView, HISTORY_LENGTH,
};
use crate::ident::{fresh_id, is_hyphenated_uuid};
use crate::message::{Message, MessageView, Part, PartView, Role};
use vstd::prelude::*;
use vstd::string::*;

verus! {

/// An expense report as it was filled in. The vendor and the project code
/// may be left out.
#[derive(Debug, PartialEq, Eq)]
pub struct ExpenseForm {
    pub category: String,
    pub amount: String,
    pub date: String,
    pub vendor: Option<String>,
    pub description: String,
    pub project_code: Option<String>,
}

/// Mathematical value of an [`ExpenseForm`].
pub struct ExpenseFormView {
    pub category: Seq<char>,
    pub amount: Seq<char>,
    pub date: Seq<char>,
    pub vendor: Option<Seq<char>>,
    pub description: Seq<char>,
    pub project_code: Option<Seq<char>>,
}

impl View for ExpenseForm {
    type V = ExpenseFormView;

    open spec fn view(&self) -> ExpenseFormView {
        ExpenseFormView {
            category: self.category@,
            amount: self.amount@,
            date: self.date@,
            vendor: self.vendor.deep_view(),
            description: self.description@,
            project_code: self.project_code.deep_view(),
        }
    }
}

/// A line of the report that is written only if its value was given: the
/// label, the value, and a line break.
pub open spec fn optional_line(label: Seq<char>, value: Option<Seq<char>>) -> Seq<char> {
    match value {
        Some(text) => label + text + "\n"@,
        None => Seq::empty(),
    }
}

/// The text that tells the agent about an expense: an opening sentence, an
/// empty line, and one line for each value that was given.
pub open spec fn expense_details(form: ExpenseFormView) -> Seq<char> {
    "I need to submit an expense reimbursement:\n\nCategory: "@ + form.category + "\nAmount: $"@
        + form.amount + "\nDate: "@ + form.date + "\n"@ + optional_line("Vendor: "@, form.vendor)
        + "Description: "@ + form.description + "\n"@ + optional_line(
        "Project/Cost Center: "@,
        form.project_code,
    )
}

/// The message that reports an expense in the task `task_id`: a user message
/// whose one part is the text of the report.
pub open spec fn expense_message_view(
    form: ExpenseFormView,
    task_id: Seq<char>,
    message_id: Seq<char>,
) -> MessageView {
    MessageView {
        role: Role::User,
        parts: seq![PartView::Text(expense_details(form))],
        message_id,
        task_id,
        context_id: None,
    }
}

/// Appends the line of a value that may have been left out.
fn append_optional_line(text: &mut String, label: &str, value: &Option<String>)
    ensures
        final(text)@ == old(text)@ + optional_line(label@, value.deep_view()),
{
    match value {
        Some(given) => {
            text.append(label);
            text.append(given.as_str());
            text.append("\n");
            assert(text@ =~= old(text)@ + (label@ + given@ + "\n"@));
        },
        None => {
            assert(text@ =~= old(text)@ + Seq::<char>::empty());
        },
    }
}

impl ExpenseForm {
    /// Writes the text that tells the agent about this expense.
    pub fn details(&self) -> (text: String)
        ensures
            text@ == expense_details(self@),
    {
        let mut text = String::from_str(
            "I need to submit an expense reimbursement:\n\nCategory: ",
        );
        text.append(self.category.as_str());
        text.append("\nAmount: $");
        text.append(self.amount.as_str());
        text.append("\nDate: ");
        text.append(self.date.as_str());
        text.append("\n");
        append_optional_line(&mut text, "Vendor: ", &self.vendor);
        text.append("Description: ");
        text.append(self.description.as_str());
        text.append("\n");
        append_optional_line(&mut text, "Project/Cost Center: ", &self.project_code);
        text
    }

    /// The message that reports this expense in the task `task_id`.
    pub fn message(&self, task_id: String, message_id: String) -> (message: Message)
        ensures
            message@ == expense_message_view(self@, task_id@, message_id@),
    {
        Message::single(Role::User, task_id, message_id, Part::text(self.details()))
    }

    /// Opens a new task for this expense and begins the submission of its
    /// report. The task and the message get fresh identifiers; `secret` is
    /// the token that the webhook will ask for.
    pub fn submit(&self, secret: &str) -> (opened: (Submission, Directive))
        ensures
            opened.0@.kind == SubmissionKind::Expense,
            opened.0@.phase == Phase::Submitting,
            opened.0@.secret == secret@,
            opened.0@.refusal == Seq::<char>::empty(),
            is_hyphenated_uuid(opened.0@.task_id),
            opened.1@ matches DirectiveView::Send { message, history_length } && {
                &&& history_length == HISTORY_LENGTH
                &&& is_hyphenated_uuid(message.message_id)
                &&& message == expense_message_view(self@, opened.0@.task_id, message.message_id)
            },
    {
        let task_id = fresh_id();
        let message_id = fresh_id();
        let message = self.message(task_id, message_id);
        Submission::begin(SubmissionKind::Expense, message, secret)
    }
}

} // verus!
