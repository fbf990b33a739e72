//! Who may deliver push notifications.
//!
//! A webhook call is accepted only if its `Authorization` header is the word
//! `Bearer`, one space, and the secret of this process, to the letter. Every
//! call is judged afresh: it starts unauthenticated and either becomes
//! authenticated or is refused.

use crate::error::{AppError, AppErrorView};
use crate::text::str_eq;
use vstd::prelude::*;
use vstd::string::*;

verus! {

/// The scheme that the header has to open with, the separating space
/// included.
pub open spec fn bearer_scheme() -> Seq<char> {
    "Bearer "@
}

/// The token that a header presents: what follows the scheme, if the header
/// opens with the scheme.
pub open spec fn presented_token(header: Seq<char>) -> Option<Seq<char>> {
    if bearer_scheme().is_prefix_of(header) {
        Some(header.skip(bearer_scheme().len() as int))
    } else {
        None
    }
}

/// Whether a call with this `Authorization` header, if it has one, proves
/// that it knows `secret`.
pub open spec fn authorized(header: Option<Seq<char>>, secret: Seq<char>) -> bool {
    header matches Some(text) && presented_token(text) == Some(secret)
}

/// Whether the sender of a webhook call has proved to know the secret.
#[derive(Clone, Copy, Debug, PartialEq, Eq, Structural)]
pub enum AuthState {
    Unauthenticated,
    Authenticated,
}

/// The state that a call reaches with its header.
pub open spec fn auth_state(header: Option<Seq<char>>, secret: Seq<char>) -> AuthState {
    if authorized(header, secret) {
        AuthState::Authenticated
    } else {
        AuthState::Unauthenticated
    }
}

/// The acknowledgement of an accepted notification.
#[derive(Debug, PartialEq, Eq)]
pub struct Receipt {
    pub status: String,
    pub task_id: String,
    pub authenticated: bool,
}

/// Mathematical value of a [`Receipt`].
pub struct ReceiptView {
    pub status: Seq<char>,
    pub task_id: Seq<char>,
    pub authenticated: bool,
}

impl View for Receipt {
    type V = ReceiptView;

    open spec fn view(&self) -> ReceiptView {
        ReceiptView {
            status: self.status@,
            task_id: self.task_id@,
            authenticated: self.authenticated,
        }
    }
}

/// The acknowledgement of a notification about the task `task_id`.
pub open spec fn receipt_for(task_id: Seq<char>) -> ReceiptView {
    ReceiptView { status: "received"@, task_id, authenticated: true }
}

/// The answer to a call in `state` that speaks of the task `task_id`.
pub open spec fn answer(state: AuthState, task_id: Seq<char>) -> Result<ReceiptView, AppErrorView> {
    match state {
        AuthState::Authenticated => Ok(receipt_for(task_id)),
        AuthState::Unauthenticated => Err(AppErrorView::Unauthorized),
    }
}

/// The answer of a call as a mathematical value.
pub open spec fn answer_view(made: Result<Receipt, AppError>) -> Result<ReceiptView, AppErrorView> {
    match made {
        Ok(receipt) => Ok(receipt@),
        Err(error) => Err(error@),
    }
}

/// Takes the token out of an `Authorization` header. The header has to open
/// with `Bearer` and one space, in this spelling; all that follows is the
/// token.
pub fn bearer_token(header: &str) -> (token: Option<&str>)
    ensures
        token.deep_view() == presented_token(header@),
{
    proof {
        reveal_strlit("Bearer ");
    }
    let len = header.unicode_len();
    if len < 7 {
        return None;
    }
    let scheme = header.substring_char(0, 7);
    if !str_eq(scheme, "Bearer ") {
        return None;
    }
    Some(header.substring_char(7, len))
}

/// Judges a webhook call by its `Authorization` header, which is absent if
/// the call has none, against the secret of this process. The token is
/// compared with the secret character by character over their whole length.
pub fn authenticate(authorization: Option<&str>, secret: &str) -> (state: AuthState)
    ensures
        state == auth_state(authorization.deep_view(), secret@),
{
    match authorization {
        Some(header) => match bearer_token(header) {
            Some(token) => {
                if str_eq(token, secret) {
                    AuthState::Authenticated
                } else {
                    AuthState::Unauthenticated
                }
            },
            None => AuthState::Unauthenticated,
        },
        None => AuthState::Unauthenticated,
    }
}

impl AuthState {
    /// The failure that ends a call in this state before anything of its
    /// body is looked at, if the state is not the authenticated one.
    pub fn refusal(self) -> (error: Option<AppError>)
        ensures
            self == AuthState::Authenticated <==> error is None,
            error matches Some(failure) ==> failure@ == AppErrorView::Unauthorized,
    {
        match self {
            AuthState::Authenticated => None,
            AuthState::Unauthenticated => Some(AppError::Unauthorized),
        }
    }
}

/// Answers a call that has been judged: an authenticated call gets the
/// receipt for the task it speaks of, any other is refused.
pub fn acknowledge(state: AuthState, task_id: String) -> (made: Result<Receipt, AppError>)
    ensures
        answer_view(made) == answer(state, task_id@),
{
    match state {
        AuthState::Authenticated => Ok(
            Receipt { status: String::from_str("received"), task_id, authenticated: true },
        ),
        AuthState::Unauthenticated => Err(AppError::Unauthorized),
    }
}

/// Receives a push notification about the task `task_id`: judges the call
/// by its header and answers it.
pub fn receive(authorization: Option<&str>, secret: &str, task_id: String) -> (made: Result<
    Receipt,
    AppError,
>)
    ensures
        answer_view(made) == answer(auth_state(authorization.deep_view(), secret@), task_id@),
{
    acknowledge(authenticate(authorization, secret), task_id)
}

/// A call is authorized exactly when its header is the scheme followed by
/// the secret, with nothing before, between or after.
pub proof fn lemma_only_exact_header_is_authorized(header: Option<Seq<char>>, secret: Seq<char>)
    ensures
        authorized(header, secret) <==> header == Some(bearer_scheme() + secret),
{
    let scheme = bearer_scheme();
    match header {
        Some(text) => {
            if authorized(header, secret) {
                assert(text =~= scheme + secret);
            }
            if text == scheme + secret {
                assert(text.subrange(0, scheme.len() as int) =~= scheme);
                assert(text.skip(scheme.len() as int) =~= secret);
            }
        },
        None => {},
    }
}

/// A call without an `Authorization` header is refused.
pub proof fn lemma_missing_header_is_refused(secret: Seq<char>, task_id: Seq<char>)
    ensures
        answer(auth_state(None, secret), task_id) == Err::<ReceiptView, AppErrorView>(
            AppErrorView::Unauthorized,
        ),
{
}

/// A call whose header does not open with the bearer scheme is refused.
pub proof fn lemma_other_scheme_is_refused(
    header: Seq<char>,
    secret: Seq<char>,
    task_id: Seq<char>,
)
    requires
        !bearer_scheme().is_prefix_of(header),
    ensures
        answer(auth_state(Some(header), secret), task_id) == Err::<ReceiptView, AppErrorView>(
            AppErrorView::Unauthorized,
        ),
{
}

/// A call that presents a token other than the secret is refused.
pub proof fn lemma_wrong_token_is_refused(token: Seq<char>, secret: Seq<char>, task_id: Seq<char>)
    requires
        token != secret,
    ensures
        answer(auth_state(Some(bearer_scheme() + token), secret), task_id) == Err::<
            ReceiptView,
            AppErrorView,
        >(AppErrorView::Unauthorized),
{
    lemma_only_exact_header_is_authorized(Some(bearer_scheme() + token), secret);
    if bearer_scheme() + token == bearer_scheme() + secret {
        assert((bearer_scheme() + token).skip(bearer_scheme().len() as int) =~= token);
        assert((bearer_scheme() + secret).skip(bearer_scheme().len() as int) =~= secret);
    }
}

/// A call that presents the secret is accepted, and the receipt names the
/// task that the notification speaks of.
pub proof fn lemma_secret_is_accepted(secret: Seq<char>, task_id: Seq<char>)
    ensures
        answer(auth_state(Some(bearer_scheme() + secret), secret), task_id) == Ok::<
            ReceiptView,
            AppErrorView,
        >(ReceiptView { status: "received"@, task_id, authenticated: true }),
{
    lemma_only_exact_header_is_authorized(Some(bearer_scheme() + secret), secret);
}

} // verus!
