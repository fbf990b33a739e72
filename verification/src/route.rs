//! The addresses that the front end hands out.

use vstd::prelude::*;
use vstd::string::*;

verus! {

/// Where the agent delivers its push notifications.
pub const WEBHOOK_URL: &'static str = "http://localhost:3000/webhook/push-notification";

/// The path of the page that shows a task.
pub open spec fn chat_path(task_id: Seq<char>) -> Seq<char> {
    "/chat/"@ + task_id
}

/// The path of the page that shows the task `task_id`; the caller is sent
/// there after a submission or a cancellation.
pub fn chat_location(task_id: &str) -> (location: String)
    ensures
        location@ == chat_path(task_id@),
{
    String::from_str("/chat/").concat(task_id)
}

} // verus!
