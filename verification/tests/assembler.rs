use task_delivery::assembler::{assemble, compose};
use task_delivery::error::ValidationError;
use task_delivery::form::{field_role, FieldRole, FormField, Upload};
use task_delivery::message::{FilePart, FileSource, Part, Role};

fn upload(name: Option<&str>, mime: Option<&str>, data: &[u8]) -> FormField {
    let made = Upload::new(
        name.map(|value| value.to_string()),
        mime.map(|value| value.to_string()),
        data.to_vec(),
    );
    FormField::Attachment(made.expect("a short upload is always accepted"))
}

fn task(id: &str) -> FormField {
    FormField::TaskId(id.to_string())
}

fn text(value: &str) -> FormField {
    FormField::Text(value.to_string())
}

fn inline(name: Option<&str>, mime: Option<&str>, encoded: &str) -> Part {
    Part::File(FilePart {
        name: name.map(|value| value.to_string()),
        mime_type: mime.map(|value| value.to_string()),
        source: FileSource::Inline(encoded.to_string()),
    })
}

#[test]
fn field_names_decide_the_role() {
    assert_eq!(field_role("task_id"), FieldRole::TaskId);
    assert_eq!(field_role("message"), FieldRole::Text);
    assert_eq!(field_role("receipt"), FieldRole::Attachment);
    assert_eq!(field_role("other"), FieldRole::Unknown);
    assert_eq!(field_role(""), FieldRole::Unknown);
    assert_eq!(field_role("Task_id"), FieldRole::Unknown);
    assert_eq!(field_role("message "), FieldRole::Unknown);
}

#[test]
fn text_alone_gives_one_text_part() {
    let fields = vec![task("t1"), text("hello")];
    let message = assemble(&fields, "m1".to_string()).expect("the form is complete");
    assert_eq!(message.role(), Role::User);
    assert_eq!(message.task_id(), "t1");
    assert_eq!(message.message_id(), "m1");
    assert_eq!(message.context_id(), &None);
    assert_eq!(message.parts(), &vec![Part::Text("hello".to_string())]);
}

#[test]
fn files_alone_keep_their_order() {
    let fields = vec![
        upload(Some("one.txt"), Some("text/plain"), b"a"),
        task("t7"),
        upload(Some("two.bin"), None, b"ab"),
        upload(None, None, b"abc"),
    ];
    let message = assemble(&fields, "m2".to_string()).expect("the form is complete");
    assert_eq!(
        message.parts(),
        &vec![
            inline(Some("one.txt"), Some("text/plain"), "YQ=="),
            inline(Some("two.bin"), None, "YWI="),
            inline(None, None, "YWJj"),
        ]
    );
}

#[test]
fn text_leads_the_files_wherever_it_arrived() {
    let fields = vec![
        task("t3"),
        upload(Some("first.png"), Some("image/png"), &[0, 1, 2, 3]),
        text("see the attached"),
        upload(Some("second.png"), Some("image/png"), &[255]),
    ];
    let message = assemble(&fields, "m3".to_string()).expect("the form is complete");
    assert_eq!(
        message.parts(),
        &vec![
            Part::Text("see the attached".to_string()),
            inline(Some("first.png"), Some("image/png"), "AAECAw=="),
            inline(Some("second.png"), Some("image/png"), "/w=="),
        ]
    );
}

#[test]
fn base64_is_standard_and_padded() {
    let fields = vec![task("t"), upload(None, None, &[0xfb, 0xff, 0xfe])];
    let message = assemble(&fields, "m".to_string()).expect("the form is complete");
    assert_eq!(message.parts(), &vec![inline(None, None, "+//+")]);
    let fields = vec![task("t"), upload(None, None, b"hello world~")];
    let message = assemble(&fields, "m".to_string()).expect("the form is complete");
    assert_eq!(message.parts(), &vec![inline(None, None, "aGVsbG8gd29ybGR+")]);
}

#[test]
fn empty_upload_is_passed_over() {
    let fields = vec![task("t4"), text("hi"), upload(Some("empty.txt"), None, b"")];
    let message = assemble(&fields, "m4".to_string()).expect("the form is complete");
    assert_eq!(message.parts(), &vec![Part::Text("hi".to_string())]);
}

#[test]
fn unknown_fields_change_nothing() {
    let plain = vec![task("t5"), text("hi")];
    let noisy = vec![
        FormField::Unknown("csrf".to_string()),
        task("t5"),
        FormField::Unknown("".to_string()),
        text("hi"),
        FormField::Unknown("task_id".to_string()),
    ];
    assert_eq!(assemble(&plain, "m5".to_string()), assemble(&noisy, "m5".to_string()));
}

#[test]
fn last_task_id_and_last_text_count() {
    let fields = vec![task("old"), text("draft"), task("new"), text("final")];
    let message = assemble(&fields, "m6".to_string()).expect("the form is complete");
    assert_eq!(message.task_id(), "new");
    assert_eq!(message.parts(), &vec![Part::Text("final".to_string())]);
}

#[test]
fn later_empty_text_clears_the_text() {
    let fields = vec![task("t"), text("draft"), text("")];
    assert_eq!(assemble(&fields, "m".to_string()), Err(ValidationError::EmptyMessage));
}

#[test]
fn neither_text_nor_file_is_an_empty_message() {
    let fields = vec![task("t8")];
    assert_eq!(assemble(&fields, "m8".to_string()), Err(ValidationError::EmptyMessage));
    let fields = vec![task("t8"), text(""), upload(Some("a.png"), None, b"")];
    assert_eq!(assemble(&fields, "m8".to_string()), Err(ValidationError::EmptyMessage));
}

#[test]
fn missing_task_id_is_reported_first() {
    let no_fields: Vec<FormField> = Vec::new();
    assert_eq!(assemble(&no_fields, "m9".to_string()), Err(ValidationError::MissingTaskId));
    let fields = vec![text("hello"), upload(Some("a.png"), None, b"12345")];
    assert_eq!(assemble(&fields, "m9".to_string()), Err(ValidationError::MissingTaskId));
    let fields = vec![task(""), text("hello")];
    assert_eq!(assemble(&fields, "m9".to_string()), Err(ValidationError::MissingTaskId));
}

#[test]
fn five_byte_receipt_becomes_one_file_part() {
    let fields = vec![task("t2"), text(""), upload(Some("a.png"), None, b"hello")];
    let message = assemble(&fields, "m10".to_string()).expect("the form is complete");
    assert_eq!(message.task_id(), "t2");
    assert_eq!(message.parts().len(), 1);
    assert_eq!(message.parts(), &vec![inline(Some("a.png"), None, "aGVsbG8=")]);
}

#[test]
fn compose_draws_a_fresh_identifier() {
    let fields = vec![task("t1"), text("hello")];
    let first = compose(&fields).expect("the form is complete");
    let second = compose(&fields).expect("the form is complete");
    assert_eq!(first.message_id().len(), 36);
    assert_ne!(first.message_id(), second.message_id());
    assert_eq!(first.parts(), second.parts());
    assert_eq!(first.task_id(), "t1");
    assert_eq!(first.role(), Role::User);
}

#[test]
fn compose_refuses_what_assemble_refuses() {
    let fields = vec![text("hello")];
    assert_eq!(compose(&fields), Err(ValidationError::MissingTaskId));
    let fields = vec![task("t1")];
    assert_eq!(compose(&fields), Err(ValidationError::EmptyMessage));
}

#[test]
fn upload_keeps_what_it_was_given() {
    let made = Upload::new(Some("a.png".to_string()), Some("image/png".to_string()), vec![1, 2])
        .expect("a short upload is always accepted");
    assert_eq!(made.file_name(), &Some("a.png".to_string()));
    assert_eq!(made.mime_type(), &Some("image/png".to_string()));
    assert_eq!(made.data(), &vec![1u8, 2u8]);
}
