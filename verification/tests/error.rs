use task_delivery::error::{AppError, Operation, ValidationError, FAILURE_STATUS};

#[test]
fn every_operation_has_its_words() {
    assert_eq!(Operation::ReadField.failure_text(), "Failed to read multipart field");
    assert_eq!(Operation::ReadTaskId.failure_text(), "Failed to read task_id");
    assert_eq!(Operation::ReadText.failure_text(), "Failed to read message");
    assert_eq!(Operation::ReadFile.failure_text(), "Failed to read file");
    assert_eq!(Operation::SendMessage.failure_text(), "Failed to send message");
    assert_eq!(Operation::SubmitExpense.failure_text(), "Failed to submit expense");
    assert_eq!(Operation::ListTasks.failure_text(), "Failed to list tasks");
    assert_eq!(Operation::CancelTask.failure_text(), "Failed to cancel task");
}

#[test]
fn validation_errors_have_their_messages() {
    assert_eq!(AppError::Validation(ValidationError::MissingTaskId).message(), "Missing task_id");
    assert_eq!(
        AppError::Validation(ValidationError::EmptyMessage).message(),
        "Message cannot be empty"
    );
}

#[test]
fn upstream_error_names_operation_and_detail() {
    let error = AppError::upstream(Operation::CancelTask, "task is final".to_string());
    assert_eq!(
        error,
        AppError::Upstream { operation: Operation::CancelTask, detail: "task is final".to_string() }
    );
    assert_eq!(error.message(), "Failed to cancel task: task is final");
    assert_eq!(error.body(), "Internal server error: Failed to cancel task: task is final");
}

#[test]
fn unauthorized_says_nothing_of_the_token() {
    assert_eq!(AppError::Unauthorized.message(), "Unauthorized");
    assert_eq!(AppError::Unauthorized.body(), "Internal server error: Unauthorized");
}

#[test]
fn every_failure_has_the_same_status() {
    assert_eq!(FAILURE_STATUS, 500);
    assert_eq!(AppError::Unauthorized.status(), 500);
    assert_eq!(AppError::Validation(ValidationError::EmptyMessage).status(), 500);
    assert_eq!(AppError::upstream(Operation::ListTasks, String::new()).status(), 500);
}
