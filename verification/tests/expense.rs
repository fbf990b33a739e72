use task_delivery::expense::ExpenseForm;
use task_delivery::gateway::{Directive, Phase};
use task_delivery::message::{Part, Role};

fn full_form() -> ExpenseForm {
    ExpenseForm {
        category: "Travel".to_string(),
        amount: "120.50".to_string(),
        date: "2024-05-01".to_string(),
        vendor: Some("Rail Co".to_string()),
        description: "Train to the client".to_string(),
        project_code: Some("P-7".to_string()),
    }
}

fn bare_form() -> ExpenseForm {
    ExpenseForm {
        category: "Meals".to_string(),
        amount: "8".to_string(),
        date: "2024-05-02".to_string(),
        vendor: None,
        description: "Lunch".to_string(),
        project_code: None,
    }
}

#[test]
fn details_list_every_given_value() {
    assert_eq!(
        full_form().details(),
        "I need to submit an expense reimbursement:\n\nCategory: Travel\nAmount: $120.50\nDate: 2024-05-01\nVendor: Rail Co\nDescription: Train to the client\nProject/Cost Center: P-7\n"
    );
}

#[test]
fn details_leave_out_what_was_not_given() {
    assert_eq!(
        bare_form().details(),
        "I need to submit an expense reimbursement:\n\nCategory: Meals\nAmount: $8\nDate: 2024-05-02\nDescription: Lunch\n"
    );
}

#[test]
fn details_keep_a_line_for_a_value_given_empty() {
    let mut form = bare_form();
    form.vendor = Some(String::new());
    assert_eq!(
        form.details(),
        "I need to submit an expense reimbursement:\n\nCategory: Meals\nAmount: $8\nDate: 2024-05-02\nVendor: \nDescription: Lunch\n"
    );
}

#[test]
fn expense_message_is_one_text_part_of_the_user() {
    let form = full_form();
    let message = form.message("task-1".to_string(), "msg-1".to_string());
    assert_eq!(message.role(), Role::User);
    assert_eq!(message.task_id(), "task-1");
    assert_eq!(message.message_id(), "msg-1");
    assert_eq!(message.context_id(), &None);
    assert_eq!(message.parts(), &vec![Part::Text(form.details())]);
}

#[test]
fn expense_submission_opens_a_fresh_task() {
    let form = bare_form();
    let (submission, first) = form.submit("wh_secret");
    assert_eq!(submission.phase(), Phase::Submitting);
    assert_eq!(submission.task_id().len(), 36);
    match first {
        Directive::Send { message, history_length } => {
            assert_eq!(history_length, 50);
            assert_eq!(message.task_id(), submission.task_id());
            assert_eq!(message.message_id().len(), 36);
            assert_ne!(message.message_id(), message.task_id());
            assert_eq!(message.parts(), &vec![Part::Text(form.details())]);
        }
        other => panic!("expected a send, got {:?}", other),
    }
    let (second, _) = form.submit("wh_secret");
    assert_ne!(second.task_id(), submission.task_id());
}
