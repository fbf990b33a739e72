//! What the process is told when it starts.
//!
//! The caller reads the settings from wherever they are kept and hands them
//! over as they were found; a setting that was not found is absent.

use crate::ident::{fresh_token, is_simple_uuid};
use crate::text::str_eq;
use vstd::prelude::*;
use vstd::string::*;

verus! {

/// Where the agent is reached over HTTP if nothing else is known.
pub const DEFAULT_HTTP_URL: &'static str = "http://localhost:8080";

/// Where the agent is reached over WebSocket if nothing else is known.
pub const DEFAULT_WS_URL: &'static str = "ws://localhost:8081";

/// What every generated webhook secret begins with.
pub const SECRET_PREFIX: &'static str = "wh_";

/// The first of two settings that is given, or `fallback`.
pub open spec fn first_given(
    first: Option<Seq<char>>,
    second: Option<Seq<char>>,
    fallback: Seq<char>,
) -> Seq<char> {
    match first {
        Some(value) => value,
        None => match second {
            Some(value) => value,
            None => fallback,
        },
    }
}

/// The address of the agent for HTTP calls: the address set for HTTP, else
/// the address set for the agent in general, else [`DEFAULT_HTTP_URL`].
pub fn agent_http_url(http: Option<String>, general: Option<String>) -> (url: String)
    ensures
        url@ == first_given(http.deep_view(), general.deep_view(), DEFAULT_HTTP_URL@),
{
    match http {
        Some(value) => value,
        None => match general {
            Some(value) => value,
            None => DEFAULT_HTTP_URL.to_owned(),
        },
    }
}

/// The address of the agent for WebSocket subscriptions: the address that
/// was set, else [`DEFAULT_WS_URL`].
pub fn agent_ws_url(ws: Option<String>) -> (url: String)
    ensures
        url@ == first_given(ws.deep_view(), None, DEFAULT_WS_URL@),
{
    match ws {
        Some(value) => value,
        None => DEFAULT_WS_URL.to_owned(),
    }
}

/// Whether subscriptions go over WebSocket: only if the setting is the word
/// `true`.
pub fn websocket_enabled(setting: Option<&str>) -> (enabled: bool)
    ensures
        enabled == (setting.deep_view() == Some("true"@)),
{
    match setting {
        Some(value) => str_eq(value, "true"),
        None => false,
    }
}

/// The secret that is made of fresh random text.
pub fn generated_secret(token: &str) -> (secret: String)
    ensures
        secret@ == SECRET_PREFIX@ + token@,
{
    String::from_str(SECRET_PREFIX).concat(token)
}

/// The webhook secret of the process: the one that was set, else a fresh
/// one, which is [`SECRET_PREFIX`] followed by random text.
pub fn webhook_secret(configured: Option<String>) -> (secret: String)
    ensures
        configured matches Some(value) ==> secret@ == value@,
        configured is None ==> SECRET_PREFIX@.is_prefix_of(secret@) && is_simple_uuid(
            secret@.skip(SECRET_PREFIX@.len() as int),
        ),
{
    match configured {
        Some(value) => value,
        None => {
            let token = fresh_token();
            let secret = generated_secret(token.as_str());
            assert(secret@.subrange(0, SECRET_PREFIX@.len() as int) =~= SECRET_PREFIX@);
            assert(secret@.skip(SECRET_PREFIX@.len() as int) =~= token@);
            secret
        },
    }
}

} // verus!
