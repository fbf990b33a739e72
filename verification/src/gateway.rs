//! The order of events when a message is submitted.
//!
//! A submission sends its message to the agent, then asks the agent to push
//! later updates to the webhook, waits a moment for the agent to store the
//! task, and at last sends the caller to the page of the task. Only the
//! first step decides whether the submission succeeds: a refused webhook
//! registration changes nothing for the caller.
//!
//! The caller performs each [`Directive`] and reports with a [`CallOutcome`]
//! how it went; [`Submission::advance`] answers with the next directive.

use crate::assembler::{assembled_message, compose, rejection};
use crate::error::{AppError, AppErrorView, Operation};
use crate::form::FormField;
use crate::ident::is_hyphenated_uuid;
use crate::message::{Message, MessageView};
use crate::route::{chat_location, chat_path, WEBHOOK_URL};
use vstd::prelude::*;

verus! {

/// How long a submission waits before it sends the caller on, in
/// milliseconds.
pub const SETTLE_MILLIS: u64 = 500;

/// How many messages of history the agent is asked to return.
pub const HISTORY_LENGTH: u32 = 50;

/// Which form a submission came from.
#[derive(Clone, Copy, Debug, PartialEq, Eq, Structural)]
pub enum SubmissionKind {
    /// A structured expense report that opens a new task.
    Expense,
    /// A free-form message in a chat.
    Chat,
}

impl SubmissionKind {
    /// The operation that a failed send is reported as.
    pub open spec fn send_operation(self) -> Operation {
        match self {
            SubmissionKind::Expense => Operation::SubmitExpense,
            SubmissionKind::Chat => Operation::SendMessage,
        }
    }
}

/// How far a submission has come.
#[derive(Clone, Copy, Debug, PartialEq, Eq, Structural)]
pub enum Phase {
    /// The message is being sent to the agent.
    Submitting,
    /// The agent took the message; the webhook is being registered.
    Registering,
    /// The submission waits for the agent to store the task.
    Settling,
    /// The caller has been sent to the page of the task.
    Redirected,
    /// The agent refused the message.
    Failed,
}

/// How the step that a directive asked for went.
#[derive(Debug, PartialEq, Eq)]
pub enum CallOutcome {
    Succeeded,
    /// The step failed; the text is what the failing side said.
    Failed(String),
}

/// Mathematical value of a [`CallOutcome`].
pub enum CallOutcomeView {
    Succeeded,
    Failed(Seq<char>),
}

impl View for CallOutcome {
    type V = CallOutcomeView;

    open spec fn view(&self) -> CallOutcomeView {
        match self {
            CallOutcome::Succeeded => CallOutcomeView::Succeeded,
            CallOutcome::Failed(detail) => CallOutcomeView::Failed(detail@),
        }
    }
}

/// A request to the agent to push the updates of a task to a webhook.
#[derive(Debug, PartialEq, Eq)]
pub struct WebhookRegistration {
    pub task_id: String,
    pub url: String,
    pub token: String,
}

/// Mathematical value of a [`WebhookRegistration`].
pub struct WebhookRegistrationView {
    pub task_id: Seq<char>,
    pub url: Seq<char>,
    pub token: Seq<char>,
}

impl View for WebhookRegistration {
    type V = WebhookRegistrationView;

    open spec fn view(&self) -> WebhookRegistrationView {
        WebhookRegistrationView { task_id: self.task_id@, url: self.url@, token: self.token@ }
    }
}

/// What the caller of a submission has to do next.
#[derive(Debug, PartialEq, Eq)]
pub enum Directive {
    /// Send the message to the agent, for the task that the message names.
    Send { message: Message, history_length: u32 },
    /// Register the webhook with the agent.
    Register(WebhookRegistration),
    /// Wait for so many milliseconds.
    Settle { millis: u64 },
    /// Answer the request by sending the caller to `location`.
    Redirect { location: String },
    /// Answer the request with a failure.
    Fail(AppError),
}

/// Mathematical value of a [`Directive`].
pub enum DirectiveView {
    Send { message: MessageView, history_length: u32 },
    Register(WebhookRegistrationView),
    Settle { millis: u64 },
    Redirect { location: Seq<char> },
    Fail(AppErrorView),
}

impl View for Directive {
    type V = DirectiveView;

    open spec fn view(&self) -> DirectiveView {
        match self {
            Directive::Send { message, history_length } => DirectiveView::Send {
                message: message@,
                history_length: *history_length,
            },
            Directive::Register(registration) => DirectiveView::Register(registration@),
            Directive::Settle { millis } => DirectiveView::Settle { millis: *millis },
            Directive::Redirect { location } => DirectiveView::Redirect { location: location@ },
            Directive::Fail(error) => DirectiveView::Fail(error@),
        }
    }
}

/// A submission under way.
#[derive(Debug, PartialEq, Eq)]
pub struct Submission {
    kind: SubmissionKind,
    task_id: String,
    secret: String,
    phase: Phase,
    refusal: String,
}

/// Mathematical value of a [`Submission`]. `refusal` holds what the agent
/// said when it refused the message, and is empty before that.
pub struct SubmissionView {
    pub kind: SubmissionKind,
    pub task_id: Seq<char>,
    pub secret: Seq<char>,
    pub phase: Phase,
    pub refusal: Seq<char>,
}

impl View for Submission {
    type V = SubmissionView;

    closed spec fn view(&self) -> SubmissionView {
        SubmissionView {
            kind: self.kind,
            task_id: self.task_id@,
            secret: self.secret@,
            phase: self.phase,
            refusal: self.refusal@,
        }
    }
}

/// The request that registers the webhook for a submission: it names the
/// task, the address of the receiver, and the secret as the token.
pub open spec fn registration_for(state: SubmissionView) -> WebhookRegistrationView {
    WebhookRegistrationView { task_id: state.task_id, url: WEBHOOK_URL@, token: state.secret }
}

/// The failure that a refused message is answered with.
pub open spec fn refusal_of(state: SubmissionView, detail: Seq<char>) -> AppErrorView {
    AppErrorView::Upstream { operation: state.kind.send_operation(), detail }
}

/// How a submission in `state` goes on when the step it asked for went as
/// `outcome` says: the state it is in then, and what it asks for next.
pub open spec fn step(state: SubmissionView, outcome: CallOutcomeView) -> (
    SubmissionView,
    DirectiveView,
) {
    match state.phase {
        Phase::Submitting => match outcome {
            CallOutcomeView::Succeeded => (
                SubmissionView { phase: Phase::Registering, ..state },
                DirectiveView::Register(registration_for(state)),
            ),
            CallOutcomeView::Failed(detail) => (
                SubmissionView { phase: Phase::Failed, refusal: detail, ..state },
                DirectiveView::Fail(refusal_of(state, detail)),
            ),
        },
        Phase::Registering => (
            SubmissionView { phase: Phase::Settling, ..state },
            DirectiveView::Settle { millis: SETTLE_MILLIS },
        ),
        Phase::Settling => (
            SubmissionView { phase: Phase::Redirected, ..state },
            DirectiveView::Redirect { location: chat_path(state.task_id) },
        ),
        Phase::Redirected => (
            state,
            DirectiveView::Redirect { location: chat_path(state.task_id) },
        ),
        Phase::Failed => (state, DirectiveView::Fail(refusal_of(state, state.refusal))),
    }
}

impl Submission {
    /// Begins the submission of `message`, which came from a form of `kind`.
    /// `secret` is the token that the webhook will ask for. The first thing
    /// to do is to send the message.
    pub fn begin(kind: SubmissionKind, message: Message, secret: &str) -> (opened: (
        Submission,
        Directive,
    ))
        ensures
            opened.0@ == (SubmissionView {
                kind,
                task_id: message@.task_id,
                secret: secret@,
                phase: Phase::Submitting,
                refusal: Seq::empty(),
            }),
            opened.1@ == (DirectiveView::Send {
                message: message@,
                history_length: HISTORY_LENGTH,
            }),
    {
        let submission = Submission {
            kind,
            task_id: message.task_id().clone(),
            secret: secret.to_owned(),
            phase: Phase::Submitting,
            refusal: String::new(),
        };
        (submission, Directive::Send { message, history_length: HISTORY_LENGTH })
    }

    /// Begins the submission of the message that a chat form asks for; the
    /// message gets a fresh identifier. A defective form is refused, and
    /// nothing is begun for it.
    pub fn from_form(fields: &Vec<FormField>, secret: &str) -> (opened: Result<
        (Submission, Directive),
        AppError,
    >)
        ensures
            match opened {
                Ok((submission, directive)) => {
                    &&& rejection(fields.deep_view()) is None
                    &&& directive@ matches DirectiveView::Send { message, history_length }
                    &&& history_length == HISTORY_LENGTH
                    &&& is_hyphenated_uuid(message.message_id)
                    &&& message == assembled_message(fields.deep_view(), message.message_id)
                    &&& submission@ == (SubmissionView {
                        kind: SubmissionKind::Chat,
                        task_id: message.task_id,
                        secret: secret@,
                        phase: Phase::Submitting,
                        refusal: Seq::empty(),
                    })
                },
                Err(error) => rejection(fields.deep_view()) matches Some(defect) && error@
                    == AppErrorView::Validation(defect),
            },
    {
        match compose(fields) {
            Ok(message) => Ok(Submission::begin(SubmissionKind::Chat, message, secret)),
            Err(defect) => Err(AppError::Validation(defect)),
        }
    }

    /// Takes note of how the last directive went and says what to do next.
    ///
    /// A refused message ends the submission with a failure. Once the agent
    /// has taken the message, the submission goes on to the redirect
    /// whatever the later outcomes are. A submission that has reached its
    /// end repeats its last directive.
    pub fn advance(&mut self, outcome: CallOutcome) -> (directive: Directive)
        ensures
            final(self)@ == step(old(self)@, outcome@).0,
            directive@ == step(old(self)@, outcome@).1,
    {
        match self.phase {
            Phase::Submitting => match outcome {
                CallOutcome::Succeeded => {
                    self.phase = Phase::Registering;
                    Directive::Register(
                        WebhookRegistration {
                            task_id: self.task_id.clone(),
                            url: WEBHOOK_URL.to_owned(),
                            token: self.secret.clone(),
                        },
                    )
                },
                CallOutcome::Failed(detail) => {
                    self.phase = Phase::Failed;
                    self.refusal = detail.clone();
                    Directive::Fail(AppError::upstream(self.send_operation(), detail))
                },
            },
            Phase::Registering => {
                self.phase = Phase::Settling;
                Directive::Settle { millis: SETTLE_MILLIS }
            },
            Phase::Settling => {
                self.phase = Phase::Redirected;
                Directive::Redirect { location: chat_location(self.task_id.as_str()) }
            },
            Phase::Redirected => Directive::Redirect {
                location: chat_location(self.task_id.as_str()),
            },
            Phase::Failed => Directive::Fail(
                AppError::upstream(self.send_operation(), self.refusal.clone()),
            ),
        }
    }

    /// The operation that a failed send of this submission is reported as.
    fn send_operation(&self) -> (operation: Operation)
        ensures
            operation == self@.kind.send_operation(),
    {
        match self.kind {
            SubmissionKind::Expense => Operation::SubmitExpense,
            SubmissionKind::Chat => Operation::SendMessage,
        }
    }

    /// How far the submission has come.
    pub fn phase(&self) -> (phase: Phase)
        ensures
            phase == self@.phase,
    {
        self.phase
    }

    /// The task that the submission is about.
    pub fn task_id(&self) -> (task_id: &String)
        ensures
            task_id@ == self@.task_id,
    {
        &self.task_id
    }
}

/// The webhook is registered right after the agent took the message, and at
/// no other time; the request names the task of the submission and carries
/// the secret as its token.
pub proof fn lemma_registration_follows_accepted_send(
    state: SubmissionView,
    outcome: CallOutcomeView,
)
    ensures
        step(state, outcome).1 is Register <==> state.phase == Phase::Submitting
            && outcome is Succeeded,
        step(state, outcome).1 is Register ==> step(state, outcome).1->Register_0
            == registration_for(state),
        registration_for(state).task_id == state.task_id,
        registration_for(state).url == WEBHOOK_URL@,
        registration_for(state).token == state.secret,
        !(step(state, outcome).1 is Send),
{
}

/// The send is never repeated: no step leads back to the phase in which the
/// message is sent. With the law above, a submission registers its webhook
/// at most once.
pub proof fn lemma_send_phase_is_left_for_good(state: SubmissionView, outcome: CallOutcomeView)
    ensures
        step(state, outcome).0.phase != Phase::Submitting,
{
}

/// A submission keeps its task, its secret and its kind through every step.
pub proof fn lemma_step_keeps_identity(state: SubmissionView, outcome: CallOutcomeView)
    ensures
        step(state, outcome).0.task_id == state.task_id,
        step(state, outcome).0.secret == state.secret,
        step(state, outcome).0.kind == state.kind,
{
}

/// Registration is best effort: whether the agent accepts or refuses the
/// webhook, the submission goes on in the same way.
pub proof fn lemma_registration_outcome_is_ignored(
    state: SubmissionView,
    accepted: CallOutcomeView,
    refused: CallOutcomeView,
)
    requires
        state.phase == Phase::Registering,
    ensures
        step(state, accepted) == step(state, refused),
        step(state, accepted).1 == (DirectiveView::Settle { millis: SETTLE_MILLIS }),
{
}

/// Once the agent has taken the message, the submission waits for the fixed
/// delay and then sends the caller to the page of the task, whatever the
/// registration and the wait report.
pub proof fn lemma_accepted_send_ends_in_redirect(
    state: SubmissionView,
    registration: CallOutcomeView,
    wait: CallOutcomeView,
)
    requires
        state.phase == Phase::Submitting,
    ensures
        ({
            let sent = step(state, CallOutcomeView::Succeeded).0;
            let registered = step(sent, registration);
            let settled = step(registered.0, wait);
            &&& registered.1 == (DirectiveView::Settle { millis: SETTLE_MILLIS })
            &&& settled.1 == (DirectiveView::Redirect { location: chat_path(state.task_id) })
            &&& settled.0.phase == Phase::Redirected
        }),
{
}

/// A refused message fails the request with what the agent said, and no
/// webhook is registered for it.
pub proof fn lemma_refused_send_fails(state: SubmissionView, detail: Seq<char>)
    requires
        state.phase == Phase::Submitting,
    ensures
        step(state, CallOutcomeView::Failed(detail)).0.phase == Phase::Failed,
        step(state, CallOutcomeView::Failed(detail)).1 == DirectiveView::Fail(
            AppErrorView::Upstream { operation: state.kind.send_operation(), detail },
        ),
{
}

/// Bounded: a submission has ended after three steps at the latest, either
/// in the redirect or in the failure.
pub proof fn lemma_three_steps_end_a_submission(
    state: SubmissionView,
    first: CallOutcomeView,
    second: CallOutcomeView,
    third: CallOutcomeView,
)
    ensures
        ({
            let end = step(step(step(state, first).0, second).0, third).0.phase;
            end == Phase::Redirected || end == Phase::Failed
        }),
{
}

/// A submission that has ended stays as it is and repeats its answer.
pub proof fn lemma_end_is_final(
    state: SubmissionView,
    first: CallOutcomeView,
    second: CallOutcomeView,
)
    requires
        state.phase == Phase::Redirected || state.phase == Phase::Failed,
    ensures
        step(state, first).0 == state,
        step(state, first).1 == step(state, second).1,
        state.phase == Phase::Redirected ==> step(state, first).1 is Redirect,
        state.phase == Phase::Failed ==> step(state, first).1 is Fail,
{
}

} // verus!
