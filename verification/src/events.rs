//! The live event stream: who may subscribe.  A client sends its token as
//! the first message; the server checks it and either streams events or
//! answers `AUTH_REQUIRED` and closes.
use vstd::prelude::*;
use vstd::string::StringExecFns;

use crate::deps::{json_field, json_string_field};

verus! {

/// The first message a subscriber sent.
#[derive(Debug)]
pub enum FirstMessage {
    /// No message arrived, or the connection failed.
    Nothing,
    /// A message that is not text.
    NotText,
    /// A text message.
    Text(String),
}

/// What the server does after the first message.
#[derive(Debug)]
pub enum SubscribeStep {
    /// Check this token against the device tokens and the sessions.
    CheckToken(String),
    /// Decide without a token.
    Decided(bool),
}

/// The step once the first message was read as JSON: `field` is what the
/// text holds under `token` (none when the text is not JSON; inside, the
/// string stored there, if any).  A string token gets checked; otherwise
/// the subscriber is let in only when authentication is off.
pub fn token_field_step(field: Option<Option<String>>, auth_enabled: bool) -> (r: SubscribeStep)
    ensures
        match field {
            Some(Some(token)) => r matches SubscribeStep::CheckToken(k) && k@ == token@,
            _ => r == SubscribeStep::Decided(!auth_enabled),
        },
{
    match field {
        Some(Some(token)) => SubscribeStep::CheckToken(token),
        _ => SubscribeStep::Decided(!auth_enabled),
    }
}

/// The step after the first message: a text holding a JSON object with a
/// string `token` gets that token checked; otherwise the subscriber is let
/// in only when authentication is off.
pub fn first_message_step(msg: FirstMessage, auth_enabled: bool) -> (r: SubscribeStep)
    ensures
        match msg {
            FirstMessage::Text(t) => match json_string_field(t@, "token"@) {
                Some(Some(token)) => r matches SubscribeStep::CheckToken(k) && k@ == token,
                _ => r == SubscribeStep::Decided(!auth_enabled),
            },
            _ => r == SubscribeStep::Decided(!auth_enabled),
        },
{
    match msg {
        FirstMessage::Text(t) => token_field_step(json_field(t.as_str(), "token"), auth_enabled),
        _ => SubscribeStep::Decided(!auth_enabled),
    }
}

/// Whether a subscriber with a token is let in: when the token is a valid
/// device token, or a valid session while authentication is on, or when
/// authentication is off.
pub open spec fn token_admits(auth_enabled: bool, device_valid: bool, session_valid: bool) -> bool {
    device_valid || (auth_enabled && session_valid) || !auth_enabled
}

/// Whether a subscriber with a token is let in.  Sessions are only
/// consulted while authentication is on.
pub fn token_decision(auth_enabled: bool, device_valid: bool, session_valid: bool) -> (r: bool)
    ensures
        r == token_admits(auth_enabled, device_valid, session_valid),
{
    let session_ok = if auth_enabled {
        session_valid
    } else {
        false
    };
    device_valid || session_ok || !auth_enabled
}

/// With authentication off every subscriber is let in; with it on, only
/// one with a valid token.
pub proof fn law_subscription_needs_token(auth_enabled: bool, device_valid: bool, session_valid: bool)
    ensures
        !auth_enabled ==> token_admits(auth_enabled, device_valid, session_valid),
        auth_enabled ==> (token_admits(auth_enabled, device_valid, session_valid) <==> (device_valid
            || session_valid)),
{
}

/// The message sent to a subscriber that is turned away.
pub fn auth_required_message() -> (s: &'static str)
    ensures
        s@ == "{\"code\":\"AUTH_REQUIRED\",\"message\":\"send {\\\"token\\\":\\\"...\\\"} as first message\",\"type\":\"error\"}"@,
{
    "{\"code\":\"AUTH_REQUIRED\",\"message\":\"send {\\\"token\\\":\\\"...\\\"} as first message\",\"type\":\"error\"}"
}

/// The address of a sync peer's socket.
pub fn sync_peer_url(peer: &str) -> (s: String)
    ensures
        s@ == "ws://"@ + peer@ + "/api/sync"@,
{
    let mut s = String::from_str("ws://");
    s.append(peer);
    s.append("/api/sync");
    s
}

} // verus!
