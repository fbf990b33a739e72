use task_delivery::error::AppError;
use task_delivery::webhook::{
    acknowledge, authenticate, bearer_token, receive, AuthState, Receipt,
};

#[test]
fn token_is_what_follows_the_scheme() {
    assert_eq!(bearer_token("Bearer abc"), Some("abc"));
    assert_eq!(bearer_token("Bearer "), Some(""));
    assert_eq!(bearer_token("Bearer  abc"), Some(" abc"));
    assert_eq!(bearer_token("Bearer a b"), Some("a b"));
    assert_eq!(bearer_token("Bearer gr\u{fc}n"), Some("gr\u{fc}n"));
}

#[test]
fn other_schemes_present_no_token() {
    assert_eq!(bearer_token(""), None);
    assert_eq!(bearer_token("Bearer"), None);
    assert_eq!(bearer_token("bearer abc"), None);
    assert_eq!(bearer_token("BEARER abc"), None);
    assert_eq!(bearer_token("Basic abc"), None);
    assert_eq!(bearer_token(" Bearer abc"), None);
    assert_eq!(bearer_token("Bearer\tabc"), None);
    assert_eq!(bearer_token("\u{fc}\u{fc}\u{fc}\u{fc}\u{fc}\u{fc}\u{fc}abc"), None);
}

#[test]
fn exact_secret_authenticates() {
    assert_eq!(authenticate(Some("Bearer wh_secret"), "wh_secret"), AuthState::Authenticated);
}

#[test]
fn missing_header_does_not_authenticate() {
    assert_eq!(authenticate(None, "wh_secret"), AuthState::Unauthenticated);
}

#[test]
fn other_scheme_does_not_authenticate() {
    assert_eq!(authenticate(Some("Basic wh_secret"), "wh_secret"), AuthState::Unauthenticated);
    assert_eq!(authenticate(Some("wh_secret"), "wh_secret"), AuthState::Unauthenticated);
    assert_eq!(authenticate(Some("bearer wh_secret"), "wh_secret"), AuthState::Unauthenticated);
}

#[test]
fn wrong_token_does_not_authenticate() {
    assert_eq!(authenticate(Some("Bearer wh_other"), "wh_secret"), AuthState::Unauthenticated);
    assert_eq!(authenticate(Some("Bearer wh_secre"), "wh_secret"), AuthState::Unauthenticated);
    assert_eq!(authenticate(Some("Bearer wh_secret "), "wh_secret"), AuthState::Unauthenticated);
    assert_eq!(authenticate(Some("Bearer  wh_secret"), "wh_secret"), AuthState::Unauthenticated);
    assert_eq!(authenticate(Some("Bearer WH_SECRET"), "wh_secret"), AuthState::Unauthenticated);
    assert_eq!(authenticate(Some("Bearer "), "wh_secret"), AuthState::Unauthenticated);
}

#[test]
fn authenticated_call_gets_a_receipt_for_its_task() {
    assert_eq!(
        acknowledge(AuthState::Authenticated, "t1".to_string()),
        Ok(Receipt {
            status: "received".to_string(),
            task_id: "t1".to_string(),
            authenticated: true,
        })
    );
}

#[test]
fn unauthenticated_call_is_refused() {
    assert_eq!(
        acknowledge(AuthState::Unauthenticated, "t1".to_string()),
        Err(AppError::Unauthorized)
    );
}

#[test]
fn receiver_echoes_the_task_of_an_accepted_call() {
    let made = receive(Some("Bearer wh_0123"), "wh_0123", "task-42".to_string());
    assert_eq!(
        made,
        Ok(Receipt {
            status: "received".to_string(),
            task_id: "task-42".to_string(),
            authenticated: true,
        })
    );
}

#[test]
fn receiver_refuses_every_other_call() {
    assert_eq!(receive(None, "wh_0123", "t".to_string()), Err(AppError::Unauthorized));
    assert_eq!(
        receive(Some("Basic wh_0123"), "wh_0123", "t".to_string()),
        Err(AppError::Unauthorized)
    );
    assert_eq!(
        receive(Some("Bearer wh_9999"), "wh_0123", "t".to_string()),
        Err(AppError::Unauthorized)
    );
}

#[test]
fn only_the_authenticated_state_has_no_refusal() {
    assert_eq!(AuthState::Authenticated.refusal(), None);
    assert_eq!(AuthState::Unauthenticated.refusal(), Some(AppError::Unauthorized));
}
