//! What the browser does with the messages of the live channel.
use vstd::prelude::*;
use vstd::string::*;

use crate::net::live::LiveServerMessage;
use crate::pages::dashboard::state::ChatMessage;
use crate::pages::dashboard::view::error_chat_message;
use crate::text::{concat3, str_eq, trim, trim_ws};

verus! {

/// The effect of one server message on the conversation view.
#[derive(Debug)]
pub enum LiveEffect {
    /// Nothing to show.
    Ignore,
    /// Append this reply.
    Push(ChatMessage),
    /// The turn is over: stop showing that Prior is responding.
    TurnDone,
    /// Factory state changed: reload the dashboard data.
    Refresh,
    /// Stop showing that Prior is responding and append this error.
    Error(ChatMessage),
}

/// A room event with text becomes a reply; a blank one is dropped.
pub fn room_event_effect(topic: String, actor: Option<String>, content: String) -> (r: LiveEffect)
    ensures
        trim_ws(content@).len() == 0 ==> r is Ignore,
        trim_ws(content@).len() > 0 ==> (r matches LiveEffect::Push(m) && m.topic == topic
            && m.actor == actor && m.content == content && !m.is_human),
{
    let t = trim(content.as_str());
    if t.as_str().unicode_len() == 0 {
        return LiveEffect::Ignore;
    }
    LiveEffect::Push(ChatMessage { topic, actor, content, is_human: false })
}

/// What a decoded server message does; one that could not be decoded
/// (`None`) is ignored.
pub fn live_message_effect(message: Option<LiveServerMessage>) -> (r: LiveEffect)
    ensures
        match message {
            None => r is Ignore,
            Some(LiveServerMessage::Connected { .. }) => r is Ignore,
            Some(LiveServerMessage::RoomEvent { topic, actor, content, .. }) => if trim_ws(content@).len()
                == 0 {
                r is Ignore
            } else {
                r matches LiveEffect::Push(m) && m.topic == topic && m.actor == actor && m.content
                    == content && !m.is_human
            },
            Some(LiveServerMessage::RoomTurnDone { .. }) => r is TurnDone,
            Some(LiveServerMessage::FactoryEvent { .. }) => r is Refresh,
            Some(LiveServerMessage::Error { message }) => r matches LiveEffect::Error(m) && m.topic@
                == "error"@ && m.actor is None && m.content@ == "Error: "@ + message@ && !m.is_human,
        },
{
    match message {
        None => LiveEffect::Ignore,
        Some(LiveServerMessage::Connected { .. }) => LiveEffect::Ignore,
        Some(LiveServerMessage::RoomEvent { topic, actor, content, .. }) => room_event_effect(
            topic,
            actor,
            content,
        ),
        Some(LiveServerMessage::RoomTurnDone { .. }) => LiveEffect::TurnDone,
        Some(LiveServerMessage::FactoryEvent { .. }) => LiveEffect::Refresh,
        Some(LiveServerMessage::Error { message }) => LiveEffect::Error(
            error_chat_message(message.as_str()),
        ),
    }
}

/// The live channel's address on the page's own host: `wss` under https,
/// `ws` otherwise, path `/ws/live`.
pub fn live_socket_url(protocol: &str, host: &str) -> (r: String)
    ensures
        r@ == (if protocol@ == "https:"@ {
            "wss"@
        } else {
            "ws"@
        }) + "://"@ + host@ + "/ws/live"@,
{
    let scheme = if str_eq(protocol, "https:") {
        "wss"
    } else {
        "ws"
    };
    let mut r = concat3(scheme, "://", host);
    r.append("/ws/live");
    r
}

} // verus!
