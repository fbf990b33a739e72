use task_delivery::fetcher::{Conversation, FetchOutcome, FetchStep, RetryFetcher, RetryPolicy};
use task_delivery::form::{FormField, Upload};
use task_delivery::gateway::{CallOutcome, Directive, Submission};
use task_delivery::message::{FilePart, FileSource, Message, Part, Role};

#[test]
fn submitted_text_is_sent_and_read_back() {
    let fields =
        vec![FormField::TaskId("t1".to_string()), FormField::Text("hello".to_string())];
    let (mut submission, first) =
        Submission::from_form(&fields, "wh_secret").expect("the form is complete");

    let mut stored: Vec<(String, Vec<Message>)> = Vec::new();
    let sent = match first {
        Directive::Send { message, .. } => message,
        other => panic!("expected a send, got {:?}", other),
    };
    assert_eq!(sent.role(), Role::User);
    assert_eq!(sent.task_id(), "t1");
    assert_eq!(sent.parts(), &vec![Part::Text("hello".to_string())]);
    stored.push((sent.task_id().clone(), vec![sent.clone()]));

    let mut step = submission.advance(CallOutcome::Succeeded);
    let location = loop {
        match step {
            Directive::Redirect { location } => break location,
            Directive::Fail(error) => panic!("the submission failed: {:?}", error),
            _ => step = submission.advance(CallOutcome::Succeeded),
        }
    };
    assert_eq!(location, "/chat/t1");

    let mut fetcher = RetryFetcher::new(RetryPolicy::standard());
    let answer = match stored.iter().find(|(id, _)| id == "t1") {
        Some((_, history)) => {
            FetchOutcome::Found { history: Some(history.clone()), state: "Submitted".to_string() }
        }
        None => FetchOutcome::NotVisible,
    };
    let shown = match fetcher.record(answer) {
        FetchStep::Done(shown) => shown,
        FetchStep::RetryAfter { .. } => panic!("the task was stored"),
    };
    assert_eq!(
        shown,
        Conversation { messages: vec![sent], state: Some("Submitted".to_string()) }
    );
}

#[test]
fn submitted_receipt_is_sent_as_one_file() {
    let receipt = Upload::new(Some("a.png".to_string()), None, vec![1, 2, 3, 4, 5])
        .expect("a short upload is always accepted");
    let fields = vec![
        FormField::TaskId("t2".to_string()),
        FormField::Text(String::new()),
        FormField::Attachment(receipt),
    ];
    let (_, first) = Submission::from_form(&fields, "wh_secret").expect("the form is complete");
    match first {
        Directive::Send { message, .. } => {
            assert_eq!(message.task_id(), "t2");
            assert_eq!(
                message.parts(),
                &vec![Part::File(FilePart {
                    name: Some("a.png".to_string()),
                    mime_type: None,
                    source: FileSource::Inline("AQIDBAU=".to_string()),
                })]
            );
        }
        other => panic!("expected a send, got {:?}", other),
    }
}
