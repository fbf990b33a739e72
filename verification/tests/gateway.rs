use task_delivery::error::{AppError, Operation, ValidationError};
use task_delivery::form::FormField;
use task_delivery::gateway::{
    CallOutcome, Directive, Phase, Submission, SubmissionKind, WebhookRegistration,
    HISTORY_LENGTH, SETTLE_MILLIS,
};
use task_delivery::message::{Message, Part, Role};
use task_delivery::route::WEBHOOK_URL;

fn chat_message(task_id: &str, text: &str) -> Message {
    Message::single(
        Role::User,
        task_id.to_string(),
        "m-1".to_string(),
        Part::text(text.to_string()),
    )
}

#[test]
fn constants_have_their_values() {
    assert_eq!(SETTLE_MILLIS, 500);
    assert_eq!(HISTORY_LENGTH, 50);
    assert_eq!(WEBHOOK_URL, "http://localhost:3000/webhook/push-notification");
}

#[test]
fn submission_begins_by_sending_the_message() {
    let message = chat_message("t1", "hello");
    let (submission, first) = Submission::begin(SubmissionKind::Chat, message.clone(), "wh_s");
    assert_eq!(submission.phase(), Phase::Submitting);
    assert_eq!(submission.task_id(), "t1");
    assert_eq!(first, Directive::Send { message, history_length: 50 });
}

#[test]
fn accepted_send_registers_settles_and_redirects() {
    let (mut submission, _) =
        Submission::begin(SubmissionKind::Chat, chat_message("t1", "hello"), "wh_secret");
    let second = submission.advance(CallOutcome::Succeeded);
    assert_eq!(
        second,
        Directive::Register(WebhookRegistration {
            task_id: "t1".to_string(),
            url: "http://localhost:3000/webhook/push-notification".to_string(),
            token: "wh_secret".to_string(),
        })
    );
    assert_eq!(submission.phase(), Phase::Registering);
    let third = submission.advance(CallOutcome::Succeeded);
    assert_eq!(third, Directive::Settle { millis: 500 });
    assert_eq!(submission.phase(), Phase::Settling);
    let fourth = submission.advance(CallOutcome::Succeeded);
    assert_eq!(fourth, Directive::Redirect { location: "/chat/t1".to_string() });
    assert_eq!(submission.phase(), Phase::Redirected);
}

#[test]
fn refused_registration_does_not_fail_the_submission() {
    let (mut submission, _) =
        Submission::begin(SubmissionKind::Chat, chat_message("t9", "hello"), "wh_secret");
    submission.advance(CallOutcome::Succeeded);
    let after_refusal = submission.advance(CallOutcome::Failed("no push support".to_string()));
    assert_eq!(after_refusal, Directive::Settle { millis: 500 });
    let last = submission.advance(CallOutcome::Succeeded);
    assert_eq!(last, Directive::Redirect { location: "/chat/t9".to_string() });
    assert_eq!(submission.phase(), Phase::Redirected);
}

#[test]
fn refused_chat_message_fails_the_request() {
    let (mut submission, _) =
        Submission::begin(SubmissionKind::Chat, chat_message("t1", "hello"), "wh_secret");
    let answer = submission.advance(CallOutcome::Failed("connection refused".to_string()));
    assert_eq!(
        answer,
        Directive::Fail(AppError::Upstream {
            operation: Operation::SendMessage,
            detail: "connection refused".to_string(),
        })
    );
    assert_eq!(submission.phase(), Phase::Failed);
    let again = submission.advance(CallOutcome::Succeeded);
    assert_eq!(again, answer);
    assert_eq!(submission.phase(), Phase::Failed);
}

#[test]
fn refused_expense_is_reported_as_such() {
    let (mut submission, _) =
        Submission::begin(SubmissionKind::Expense, chat_message("t1", "report"), "wh_secret");
    let answer = submission.advance(CallOutcome::Failed("timeout".to_string()));
    assert_eq!(
        answer,
        Directive::Fail(AppError::Upstream {
            operation: Operation::SubmitExpense,
            detail: "timeout".to_string(),
        })
    );
}

#[test]
fn finished_submission_repeats_the_redirect() {
    let (mut submission, _) =
        Submission::begin(SubmissionKind::Chat, chat_message("t1", "hello"), "s");
    submission.advance(CallOutcome::Succeeded);
    submission.advance(CallOutcome::Succeeded);
    let done = submission.advance(CallOutcome::Succeeded);
    let again = submission.advance(CallOutcome::Failed("late".to_string()));
    assert_eq!(done, again);
    assert_eq!(submission.phase(), Phase::Redirected);
}

#[test]
fn form_submission_sends_what_the_form_asks_for() {
    let fields =
        vec![FormField::TaskId("t1".to_string()), FormField::Text("hello".to_string())];
    let (submission, first) =
        Submission::from_form(&fields, "wh_secret").expect("the form is complete");
    assert_eq!(submission.phase(), Phase::Submitting);
    assert_eq!(submission.task_id(), "t1");
    match first {
        Directive::Send { message, history_length } => {
            assert_eq!(history_length, 50);
            assert_eq!(message.role(), Role::User);
            assert_eq!(message.task_id(), "t1");
            assert_eq!(message.parts(), &vec![Part::Text("hello".to_string())]);
            assert_eq!(message.message_id().len(), 36);
        }
        other => panic!("expected a send, got {:?}", other),
    }
}

#[test]
fn defective_form_begins_nothing() {
    let fields = vec![FormField::Text("hello".to_string())];
    assert_eq!(
        Submission::from_form(&fields, "s"),
        Err(AppError::Validation(ValidationError::MissingTaskId))
    );
    let fields = vec![FormField::TaskId("t1".to_string())];
    assert_eq!(
        Submission::from_form(&fields, "s"),
        Err(AppError::Validation(ValidationError::EmptyMessage))
    );
}
