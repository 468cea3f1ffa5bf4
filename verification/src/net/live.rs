//! The live channel between the browser and the server: the messages each side
//! sends, the decisions the server makes on them, and the table of gate
//! requests the server has in flight for one browser.
use vstd::prelude::*;
use vstd::string::*;

use crate::net::gate::{
    GateEvent, GateResponse, GateValue, ServerBody, GateStruct, ResponseItem, ResponseOp, failure_message,
    failure_text, field_lookup, is_terminal, is_terminal_op, value_as_bool, value_as_string,
    value_bool, value_string,
};
use crate::auth::session::SessionCookie;
use crate::text::{concat2, contains_seq, copy_string, opt_view, str_contains, str_eq};

verus! {

/// A factory event as streamed by `factory:event:subscribe`: the item's data.
#[derive(Debug)]
pub struct FactoryEvent {
    pub data: Option<GateStruct>,
}

/// What the browser sends.
#[derive(Debug, Clone)]
pub enum LiveClientMessage {
    JoinRoom { room: String },
    SendRoomMessage { room: String, content: String },
}

/// What the server sends to the browser.
#[derive(Debug)]
#[allow(inconsistent_fields)]
pub enum LiveServerMessage {
    Connected { actor: String, session_id: String },
    RoomEvent { room: Option<String>, topic: String, actor: Option<String>, content: String },
    RoomTurnDone { room: String },
    FactoryEvent { event: FactoryEvent },
    Error { message: String },
}

/// What the server does with one browser message.
#[derive(Debug)]
pub enum LiveAction {
    JoinRoom { room: String },
    SendRoomMessage { room: String, content: String },
    Reply(LiveServerMessage),
}

/// A browser message, or the reason it could not be read.
pub fn live_action(parsed: Result<LiveClientMessage, String>) -> (a: LiveAction)
    ensures
        match parsed {
            Ok(LiveClientMessage::JoinRoom { room }) => a matches LiveAction::JoinRoom { room: r }
                && r == room,
            Ok(LiveClientMessage::SendRoomMessage { room, content }) => a matches LiveAction::SendRoomMessage {
                room: r,
                content: c,
            } && r == room && c == content,
            Err(e) => a matches LiveAction::Reply(LiveServerMessage::Error { message: m }) && m@
                == "invalid live message: "@ + e@,
        },
{
    match parsed {
        Ok(LiveClientMessage::JoinRoom { room }) => LiveAction::JoinRoom { room },
        Ok(LiveClientMessage::SendRoomMessage { room, content }) => LiveAction::SendRoomMessage {
            room,
            content,
        },
        Err(error) => LiveAction::Reply(
            LiveServerMessage::Error { message: concat2("invalid live message: ", error.as_str()) },
        ),
    }
}

/// The reply once a room message was handed to the Prior gate.
pub fn room_turn_reply(room: String, result: Result<(), String>) -> (m: LiveServerMessage)
    ensures
        match result {
            Ok(_) => m matches LiveServerMessage::RoomTurnDone { room: r } && r == room,
            Err(e) => m matches LiveServerMessage::Error { message } && message == e,
        },
{
    match result {
        Ok(()) => LiveServerMessage::RoomTurnDone { room },
        Err(message) => LiveServerMessage::Error { message },
    }
}

/// A failed `room:join` that only says the actor is already in the room.
pub fn join_failure_tolerated(error: &str) -> (r: bool)
    ensures
        r == contains_seq(error@, "actor already joined"@),
{
    str_contains(error, "actor already joined")
}

// ---------------------------------------------------------------------------
// One browser's live channel, from opening to closing
// ---------------------------------------------------------------------------

/// The HTTP status refusing a live channel to a request without a session.
pub const UNAUTHORIZED: u16 = 401;

/// Who a live channel acts for: the session's user; a request without a
/// valid session gets no channel (401).
pub fn live_channel_actor(session: Option<SessionCookie>) -> (r: Result<String, u16>)
    ensures
        match session {
            Some(s) => r == Ok::<String, u16>(s.user.sub),
            None => r == Err::<String, u16>(UNAUTHORIZED),
        },
{
    match session {
        Some(s) => Ok(s.user.sub),
        None => Err(UNAUTHORIZED),
    }
}

/// Where a live channel stands.
#[derive(Debug, Clone, Copy, PartialEq, Eq, Structural)]
pub enum LivePhase {
    /// Opening the Prior gate connection for the actor.
    Connecting,
    /// Subscribing to factory events.
    Subscribing,
    /// Taking browser messages.
    Serving,
    /// The browser left; closing the Prior gate session.
    Closing,
    Closed,
}

/// A frame from the browser: text (decoded, or the decoding error), a close,
/// or anything else (binary, ping, pong), which is ignored.
#[derive(Debug)]
pub enum BrowserFrame {
    Text(Result<LiveClientMessage, String>),
    Close,
    Other,
}

/// The steps of one live channel, in order: connect, say `Connected`,
/// subscribe to factory events, serve browser messages until the browser
/// leaves, then disconnect from the Prior gate.
#[derive(Debug)]
pub struct LiveChannel {
    pub phase: LivePhase,
    pub actor: String,
}

impl LiveChannel {
    pub fn new(actor: String) -> (c: Self)
        ensures
            c.phase == LivePhase::Connecting,
            c.actor == actor,
    {
        LiveChannel { phase: LivePhase::Connecting, actor }
    }

    /// The Prior gate connection opened with this session id, or failed: the
    /// browser hears `Connected` and the channel goes on to subscribe, or
    /// hears the error and the channel ends.
    pub fn connected(&mut self, result: Result<String, String>) -> (m: LiveServerMessage)
        requires
            old(self).phase == LivePhase::Connecting,
        ensures
            final(self).actor == old(self).actor,
            match result {
                Ok(sid) => final(self).phase == LivePhase::Subscribing && (m matches LiveServerMessage::Connected {
                    actor,
                    session_id,
                } && actor@ == old(self).actor@ && session_id == sid),
                Err(e) => final(self).phase == LivePhase::Closed && m == LiveServerMessage::Error {
                    message: e,
                },
            },
    {
        match result {
            Ok(session_id) => {
                self.phase = LivePhase::Subscribing;
                LiveServerMessage::Connected { actor: copy_string(&self.actor), session_id }
            },
            Err(message) => {
                self.phase = LivePhase::Closed;
                LiveServerMessage::Error { message }
            },
        }
    }

    /// The factory subscription's outcome: an error is told to the browser;
    /// either way the channel serves.
    pub fn subscribed(&mut self, result: Result<(), String>) -> (m: Option<LiveServerMessage>)
        requires
            old(self).phase == LivePhase::Subscribing,
        ensures
            final(self).phase == LivePhase::Serving,
            final(self).actor == old(self).actor,
            match result {
                Ok(_) => m is None,
                Err(e) => m == Some(LiveServerMessage::Error { message: e }),
            },
    {
        self.phase = LivePhase::Serving;
        match result {
            Ok(()) => None,
            Err(message) => Some(LiveServerMessage::Error { message }),
        }
    }

    /// A browser frame while serving: a text frame's action, nothing for
    /// other frames; a close (or a read error) ends serving.
    pub fn browser_frame(&mut self, frame: BrowserFrame) -> (a: Option<LiveAction>)
        requires
            old(self).phase == LivePhase::Serving,
        ensures
            final(self).actor == old(self).actor,
            match frame {
                BrowserFrame::Close => final(self).phase == LivePhase::Closing && a is None,
                BrowserFrame::Other => final(self).phase == LivePhase::Serving && a is None,
                BrowserFrame::Text(parsed) => final(self).phase == LivePhase::Serving && match parsed {
                    Ok(LiveClientMessage::JoinRoom { room }) => a matches Some(
                        LiveAction::JoinRoom { room: r },
                    ) && r == room,
                    Ok(LiveClientMessage::SendRoomMessage { room, content }) => a matches Some(
                        LiveAction::SendRoomMessage { room: r, content: c },
                    ) && r == room && c == content,
                    Err(e) => a matches Some(LiveAction::Reply(LiveServerMessage::Error { message: m }))
                        && m@ == "invalid live message: "@ + e@,
                },
            },
    {
        match frame {
            BrowserFrame::Close => {
                self.phase = LivePhase::Closing;
                None
            },
            BrowserFrame::Other => None,
            BrowserFrame::Text(parsed) => Some(live_action(parsed)),
        }
    }

    /// The outcome of a `room:join` asked for by the browser: only an error
    /// is told.
    pub fn joined(&self, result: Result<(), String>) -> (m: Option<LiveServerMessage>)
        requires
            self.phase == LivePhase::Serving,
        ensures
            match result {
                Ok(_) => m is None,
                Err(e) => m == Some(LiveServerMessage::Error { message: e }),
            },
    {
        match result {
            Ok(()) => None,
            Err(message) => Some(LiveServerMessage::Error { message }),
        }
    }

    /// The Prior gate session was closed: an error is told; the channel is over.
    pub fn disconnected(&mut self, result: Result<(), String>) -> (m: Option<LiveServerMessage>)
        requires
            old(self).phase == LivePhase::Closing,
        ensures
            final(self).phase == LivePhase::Closed,
            match result {
                Ok(_) => m is None,
                Err(e) => m == Some(LiveServerMessage::Error { message: e }),
            },
    {
        self.phase = LivePhase::Closed;
        match result {
            Ok(()) => None,
            Err(message) => Some(LiveServerMessage::Error { message }),
        }
    }
}

// ---------------------------------------------------------------------------
// Gate events shown in a room
// ---------------------------------------------------------------------------

/// The field that holds a tool call's arguments.
#[derive(Debug, Clone, Copy, PartialEq, Eq, Structural)]
pub enum ArgsField {
    Args,
    Input,
}

/// The content of a room event: its text, or a tool event whose text still
/// needs a field rendered as pretty JSON.
#[derive(Debug)]
pub enum EventContent {
    /// The event's text as shown.
    Text(String),
    /// A tool call with arguments; they are the named field, rendered as JSON.
    ToolCall { syscall: String, args_field: ArgsField },
    /// A tool result whose content is not a string; it is rendered as JSON.
    ToolResult { is_error: bool },
}

/// A room event, read from a gate event.
#[derive(Debug)]
pub struct GateEventRecord {
    pub room: Option<String>,
    pub topic: String,
    pub actor: Option<String>,
    pub content: EventContent,
}

pub open spec fn data_string(d: GateStruct, key: Seq<char>) -> Option<Seq<char>> {
    value_string(field_lookup(d.fields@, key))
}

/// Topics shown as room events: thoughts and chat lines (which must carry
/// text), tool calls and tool results.
pub open spec fn shown_topic(topic: Seq<char>) -> bool {
    topic == "door:thought"@ || topic == "door:chat"@ || topic == "door:tool"@ || topic
        == "door:tool_result"@
}

/// The events that become room events.
pub open spec fn shown_event(topic: Seq<char>, d: GateStruct) -> bool {
    shown_topic(topic) && !((topic == "door:thought"@ || topic == "door:chat"@) && data_string(
        d,
        "content"@,
    ) is None)
}

pub open spec fn tool_syscall(d: GateStruct) -> Seq<char> {
    match data_string(d, "syscall"@) {
        Some(s) => s,
        None => "tool"@,
    }
}

pub open spec fn has_args(d: GateStruct) -> bool {
    field_lookup(d.fields@, "args"@) is Some || field_lookup(d.fields@, "input"@) is Some
}

pub open spec fn result_is_error(d: GateStruct) -> bool {
    value_bool(field_lookup(d.fields@, "is_error"@)) == Some(true)
}

/// A tool result's content that is there and is not a string.
pub open spec fn content_needs_json(d: GateStruct) -> bool {
    field_lookup(d.fields@, "content"@) is Some && data_string(d, "content"@) is None
}

/// The text of a shown event, `json` being the pretty JSON of its tool
/// arguments or of a tool result's non-string content (unused otherwise).
pub open spec fn event_text(topic: Seq<char>, d: GateStruct, json: Seq<char>) -> Seq<char> {
    if topic == "door:tool"@ {
        tool_call_text(
            tool_syscall(d),
            if has_args(d) {
                json
            } else {
                Seq::empty()
            },
        )
    } else if topic == "door:tool_result"@ {
        tool_result_text(
            result_is_error(d),
            match data_string(d, "content"@) {
                Some(s) => s,
                None => if content_needs_json(d) {
                    json
                } else {
                    Seq::empty()
                },
            },
        )
    } else {
        data_string(d, "content"@).unwrap()
    }
}

/// A tool result is labelled by its `is_error` flag alone: when the flag is
/// `true` its text starts with `Tool error`, and otherwise with `Tool
/// result`, whether its content is a string, other JSON, or absent.
pub proof fn lemma_tool_result_label(d: GateStruct, json: Seq<char>)
    ensures
        field_lookup(d.fields@, "is_error"@) == Some(GateValue::Bool(true)) ==> event_text(
            "door:tool_result"@,
            d,
            json,
        ).take(10) == seq!['T', 'o', 'o', 'l', ' ', 'e', 'r', 'r', 'o', 'r'],
        field_lookup(d.fields@, "is_error"@) != Some(GateValue::Bool(true)) ==> event_text(
            "door:tool_result"@,
            d,
            json,
        ).take(11) == seq!['T', 'o', 'o', 'l', ' ', 'r', 'e', 's', 'u', 'l', 't'],
{
    reveal_strlit("door:tool");
    reveal_strlit("door:tool_result");
    reveal_strlit("Tool error");
    reveal_strlit("Tool result");
    reveal_strlit("\n```\n");
    reveal_strlit("\n```");
    assert("door:tool"@.len() != "door:tool_result"@.len());
    assert("Tool error"@ =~= seq!['T', 'o', 'o', 'l', ' ', 'e', 'r', 'r', 'o', 'r']);
    assert("Tool result"@ =~= seq!['T', 'o', 'o', 'l', ' ', 'r', 'e', 's', 'u', 'l', 't']);
    let t = event_text("door:tool_result"@, d, json);
    let label = if result_is_error(d) {
        "Tool error"@
    } else {
        "Tool result"@
    };
    assert(result_is_error(d) <==> field_lookup(d.fields@, "is_error"@) == Some(GateValue::Bool(true)));
    let body = match data_string(d, "content"@) {
        Some(s) => s,
        None => if content_needs_json(d) {
            json
        } else {
            Seq::empty()
        },
    };
    assert(t == tool_result_text(result_is_error(d), body));
    if body.len() == 0 {
        assert(t == label);
    } else {
        assert(t == label + "\n```\n"@ + body + "\n```"@);
        assert(t.take(label.len() as int) =~= label);
    }
}

/// Whether the event's text needs a field rendered as JSON.
pub open spec fn event_needs_json(topic: Seq<char>, d: GateStruct) -> bool {
    (topic == "door:tool"@ && has_args(d)) || (topic == "door:tool_result"@ && content_needs_json(d))
}

proof fn lemma_event_text_without_json(topic: Seq<char>, d: GateStruct, json: Seq<char>)
    requires
        !event_needs_json(topic, d),
    ensures
        event_text(topic, d, Seq::empty()) == event_text(topic, d, json),
{
}

fn get_string(d: &GateStruct, key: &str) -> (r: Option<String>)
    ensures
        opt_view(r) == data_string(*d, key@),
{
    match d.get(key) {
        Some(v) => value_as_string(v),
        None => None,
    }
}

/// Reads a gate event: which room, topic and actor, and its text, or for a
/// tool event whose text needs JSON, which field that is; `None` for events
/// that are not shown.
pub fn gate_event_to_record(event: &GateEvent) -> (r: Option<GateEventRecord>)
    ensures
        match event.data {
            None => r is None,
            Some(d) => if !shown_event(event.topic@, d) {
                r is None
            } else {
                r matches Some(p) && {
                    &&& p.topic@ == event.topic@
                    &&& opt_view(p.room) == data_string(d, "room"@)
                    &&& opt_view(p.actor) == data_string(d, "from"@)
                    &&& if !event_needs_json(event.topic@, d) {
                        p.content matches EventContent::Text(t) && t@ == event_text(
                            event.topic@,
                            d,
                            Seq::empty(),
                        )
                    } else if event.topic@ == "door:tool"@ {
                        p.content matches EventContent::ToolCall { syscall, args_field } && syscall@
                            == tool_syscall(d) && args_field == if field_lookup(
                            d.fields@,
                            "args"@,
                        ) is Some {
                            ArgsField::Args
                        } else {
                            ArgsField::Input
                        }
                    } else {
                        p.content matches EventContent::ToolResult { is_error } && is_error
                            == result_is_error(d)
                    }
                }
            },
        },
{
    let data = match &event.data {
        Some(d) => d,
        None => return None,
    };
    proof {
        reveal_strlit("door:thought");
        reveal_strlit("door:chat");
        reveal_strlit("door:tool");
        reveal_strlit("door:tool_result");
        assert("door:thought"@.len() == 12);
        assert("door:chat"@.len() == 9);
        assert("door:tool"@.len() == 9);
        assert("door:tool_result"@.len() == 16);
        assert("door:tool"@[5] != "door:chat"@[5]);
        reveal_strlit("");
        assert(""@ =~= Seq::<char>::empty());
    }
    let topic = event.topic.as_str();
    let content = if str_eq(topic, "door:thought") || str_eq(topic, "door:chat") {
        match get_string(data, "content") {
            Some(t) => EventContent::Text(t),
            None => return None,
        }
    } else if str_eq(topic, "door:tool") {
        let syscall = match get_string(data, "syscall") {
            Some(s) => s,
            None => String::from_str("tool"),
        };
        if data.get("args").is_some() {
            EventContent::ToolCall { syscall, args_field: ArgsField::Args }
        } else if data.get("input").is_some() {
            EventContent::ToolCall { syscall, args_field: ArgsField::Input }
        } else {
            EventContent::Text(format_tool_call(syscall.as_str(), ""))
        }
    } else if str_eq(topic, "door:tool_result") {
        let is_error = match data.get("is_error") {
            Some(v) => match value_as_bool(v) {
                Some(b) => b,
                None => false,
            },
            None => false,
        };
        match get_string(data, "content") {
            Some(body) => EventContent::Text(format_tool_result(is_error, body.as_str())),
            None => if data.get("content").is_some() {
                EventContent::ToolResult { is_error }
            } else {
                EventContent::Text(format_tool_result(is_error, ""))
            },
        }
    } else {
        return None;
    };
    Some(
        GateEventRecord {
            room: get_string(data, "room"),
            topic: copy_string(&event.topic),
            actor: get_string(data, "from"),
            content,
        },
    )
}

/// The field whose pretty JSON a record's text still needs, if any.
pub fn json_field(content: &EventContent) -> (r: Option<&'static str>)
    ensures
        match content {
            EventContent::Text(_) => r is None,
            EventContent::ToolCall { args_field: ArgsField::Args, .. } => r matches Some(f) && f@
                == "args"@,
            EventContent::ToolCall { args_field: ArgsField::Input, .. } => r matches Some(f) && f@
                == "input"@,
            EventContent::ToolResult { .. } => r matches Some(f) && f@ == "content"@,
        },
{
    match content {
        EventContent::Text(_) => None,
        EventContent::ToolCall { args_field: ArgsField::Args, .. } => Some("args"),
        EventContent::ToolCall { args_field: ArgsField::Input, .. } => Some("input"),
        EventContent::ToolResult { .. } => Some("content"),
    }
}

/// Tool call text: the syscall, and the arguments in a JSON block when there
/// are any.
pub open spec fn tool_call_text(syscall: Seq<char>, args: Seq<char>) -> Seq<char> {
    if args.len() == 0 {
        "Tool call: `"@ + syscall + "`"@
    } else {
        "Tool call: `"@ + syscall + "`\n```json\n"@ + args + "\n```"@
    }
}

pub fn format_tool_call(syscall: &str, args: &str) -> (r: String)
    ensures
        r@ == tool_call_text(syscall@, args@),
{
    if args.unicode_len() == 0 {
        let mut r = concat2("Tool call: `", syscall);
        r.append("`");
        r
    } else {
        let mut r = concat2("Tool call: `", syscall);
        r.append("`\n```json\n");
        r.append(args);
        r.append("\n```");
        r
    }
}

/// Tool result text: the label, and the body in a code block when there is one.
pub open spec fn tool_result_text(is_error: bool, body: Seq<char>) -> Seq<char> {
    let label = if is_error {
        "Tool error"@
    } else {
        "Tool result"@
    };
    if body.len() == 0 {
        label
    } else {
        label + "\n```\n"@ + body + "\n```"@
    }
}

pub fn format_tool_result(is_error: bool, body: &str) -> (r: String)
    ensures
        r@ == tool_result_text(is_error, body@),
{
    let label = if is_error {
        "Tool error"
    } else {
        "Tool result"
    };
    if body.unicode_len() == 0 {
        String::from_str(label)
    } else {
        let mut r = concat2(label, "\n```\n");
        r.append(body);
        r.append("\n```");
        r
    }
}

/// A record's text, given the pretty JSON of the field `json_field` names
/// (ignored when it names none).
pub fn record_text(content: EventContent, json: &str) -> (r: String)
    ensures
        match content {
            EventContent::Text(t) => r == t,
            EventContent::ToolCall { syscall, .. } => r@ == tool_call_text(syscall@, json@),
            EventContent::ToolResult { is_error } => r@ == tool_result_text(is_error, json@),
        },
{
    match content {
        EventContent::Text(t) => t,
        EventContent::ToolCall { syscall, .. } => format_tool_call(syscall.as_str(), json),
        EventContent::ToolResult { is_error } => format_tool_result(is_error, json),
    }
}

/// The room event the browser receives for a gate event: the record's room,
/// topic and actor with its text. `json` is the pretty JSON of the field
/// `json_field` names for the record, when it names one; JSON rendering
/// (which normalises floating-point numbers) is done by the caller.
pub fn gate_event_to_live_message(event: &GateEvent, json: &str) -> (m: Option<LiveServerMessage>)
    ensures
        match event.data {
            None => m is None,
            Some(d) => if !shown_event(event.topic@, d) {
                m is None
            } else {
                m matches Some(LiveServerMessage::RoomEvent { room, topic, actor, content })
                    && opt_view(room) == data_string(d, "room"@) && topic@ == event.topic@
                    && opt_view(actor) == data_string(d, "from"@) && content@ == event_text(
                    event.topic@,
                    d,
                    json@,
                )
            },
        },
{
    proof {
        reveal_strlit("door:tool");
        reveal_strlit("door:tool_result");
        assert("door:tool"@.len() != "door:tool_result"@.len());
        if event.data is Some && !event_needs_json(event.topic@, event.data->0) {
            lemma_event_text_without_json(event.topic@, event.data->0, json@);
        }
    }
    match gate_event_to_record(event) {
        Some(record) => {
            let GateEventRecord { room, topic, actor, content } = record;
            let text = record_text(content, json);
            Some(LiveServerMessage::RoomEvent { room, topic, actor, content: text })
        },
        None => None,
    }
}

// ---------------------------------------------------------------------------
// Requests in flight
// ---------------------------------------------------------------------------

/// What a request in flight waits for.
#[derive(Debug)]
pub enum PendingKind {
    /// All frames up to the terminal one, then one answer.
    Collect { syscall: String, responses: Vec<GateResponse> },
    /// A stream of factory events.
    FactoryStream,
}

#[derive(Debug)]
pub struct PendingEntry {
    pub request_id: String,
    pub kind: PendingKind,
}

/// The requests one live connection has in flight, by request id.
pub struct PendingTable {
    pub entries: Vec<PendingEntry>,
}

/// What became of one response frame.
#[derive(Debug)]
pub enum PendingOutcome {
    /// No request in flight has this id.
    Unknown,
    /// A collected request failed; it is no longer in flight.
    Failed { request_id: String, message: String },
    /// A collected request took the frame and waits for more.
    Collected,
    /// A collected request ended; these are its frames, in order.
    Completed { request_id: String, responses: Vec<GateResponse> },
    /// A factory stream took the frame: its item, if it was an item frame,
    /// and whether the stream ended.
    Stream { item: Option<ResponseItem>, closed: bool },
}

pub open spec fn distinct_ids(e: Seq<PendingEntry>) -> bool {
    forall|i: int, j: int|
        0 <= i < j < e.len() ==> (#[trigger] e[i]).request_id@ != (#[trigger] e[j]).request_id@
}

pub open spec fn has_id(e: Seq<PendingEntry>, k: Seq<char>) -> bool {
    exists|i: int| 0 <= i < e.len() && (#[trigger] e[i]).request_id@ == k
}

/// The entry of request `k` (meaningful when `has_id`).
pub open spec fn entry_of(e: Seq<PendingEntry>, k: Seq<char>) -> PendingEntry {
    e[choose|i: int| 0 <= i < e.len() && (#[trigger] e[i]).request_id@ == k]
}

proof fn lemma_entry_at(e: Seq<PendingEntry>, j: int)
    requires
        distinct_ids(e),
        0 <= j < e.len(),
    ensures
        has_id(e, e[j].request_id@),
        entry_of(e, e[j].request_id@) == e[j],
{
    let k = e[j].request_id@;
    assert(has_id(e, k));
    let i = choose|i: int| 0 <= i < e.len() && (#[trigger] e[i]).request_id@ == k;
    if i < j {
        assert(e[i].request_id@ != e[j].request_id@);
    } else if i > j {
        assert(e[j].request_id@ != e[i].request_id@);
    }
}

/// Removing entry `i` drops exactly its id.
proof fn lemma_remove_entry(e: Seq<PendingEntry>, i: int)
    requires
        distinct_ids(e),
        0 <= i < e.len(),
    ensures
        distinct_ids(e.remove(i)),
        !has_id(e.remove(i), e[i].request_id@),
        forall|k: Seq<char>|
            k != e[i].request_id@ ==> (has_id(e.remove(i), k) == has_id(e, k) && (has_id(e, k)
                ==> entry_of(e.remove(i), k) == entry_of(e, k))),
{
    let r = e.remove(i);
    assert forall|a: int, b: int| 0 <= a < b < r.len() implies (#[trigger] r[a]).request_id@
        != (#[trigger] r[b]).request_id@ by {
        let a2 = if a < i { a } else { a + 1 };
        let b2 = if b < i { b } else { b + 1 };
        assert(r[a] == e[a2]);
        assert(r[b] == e[b2]);
    }
    if has_id(r, e[i].request_id@) {
        let j = choose|j: int| 0 <= j < r.len() && (#[trigger] r[j]).request_id@ == e[i].request_id@;
        let j2 = if j < i { j } else { j + 1 };
        assert(r[j] == e[j2]);
        if j2 < i {
            assert(e[j2].request_id@ != e[i].request_id@);
        } else {
            assert(e[i].request_id@ != e[j2].request_id@);
        }
    }
    assert forall|k: Seq<char>| k != e[i].request_id@ implies (has_id(r, k) == has_id(e, k) && (
    has_id(e, k) ==> entry_of(r, k) == entry_of(e, k))) by {
        if has_id(r, k) {
            let j = choose|j: int| 0 <= j < r.len() && (#[trigger] r[j]).request_id@ == k;
            let j2 = if j < i { j } else { j + 1 };
            assert(r[j] == e[j2]);
            assert(has_id(e, k));
            lemma_entry_at(r, j);
            lemma_entry_at(e, j2);
        }
        if has_id(e, k) {
            let j = choose|j: int| 0 <= j < e.len() && (#[trigger] e[j]).request_id@ == k;
            assert(j != i);
            let j2 = if j < i { j } else { j - 1 };
            assert(r[j2] == e[j]);
            assert(has_id(r, k));
        }
    }
}

impl PendingTable {
    pub open spec fn wf(&self) -> bool {
        distinct_ids(self.entries@)
    }

    pub fn new() -> (t: Self)
        ensures
            t.wf(),
            forall|k: Seq<char>| !has_id(t.entries@, k),
    {
        PendingTable { entries: Vec::new() }
    }

    fn position(&self, request_id: &str) -> (r: Option<usize>)
        requires
            self.wf(),
        ensures
            match r {
                Some(i) => i < self.entries@.len() && self.entries@[i as int].request_id@
                    == request_id@,
                None => !has_id(self.entries@, request_id@),
            },
    {
        let mut i: usize = 0;
        while i < self.entries.len()
            invariant
                i <= self.entries@.len(),
                forall|j: int| 0 <= j < i ==> (#[trigger] self.entries@[j]).request_id@ != request_id@,
            decreases self.entries@.len() - i,
        {
            if str_eq(self.entries[i].request_id.as_str(), request_id) {
                return Some(i);
            }
            i = i + 1;
        }
        None
    }

    /// Puts a request in flight; an entry of the same id is replaced.
    pub fn insert(&mut self, request_id: String, kind: PendingKind)
        requires
            old(self).wf(),
        ensures
            final(self).wf(),
            has_id(final(self).entries@, request_id@),
            entry_of(final(self).entries@, request_id@).kind == kind,
            forall|k: Seq<char>|
                k != request_id@ ==> (has_id(final(self).entries@, k) == has_id(
                    old(self).entries@,
                    k,
                ) && (has_id(old(self).entries@, k) ==> entry_of(final(self).entries@, k)
                    == entry_of(old(self).entries@, k))),
    {
        let ghost k0 = request_id@;
        match self.position(request_id.as_str()) {
            Some(i) => {
                proof {
                    lemma_remove_entry(self.entries@, i as int);
                }
                self.entries.remove(i);
            },
            None => {},
        }
        let ghost before = self.entries@;
        assert(!has_id(before, k0));
        self.entries.push(PendingEntry { request_id, kind });
        proof {
            let e = self.entries@;
            assert(e =~= before.push(e.last()));
            assert forall|a: int, b: int| 0 <= a < b < e.len() implies (#[trigger] e[a]).request_id@
                != (#[trigger] e[b]).request_id@ by {
                if b == e.len() - 1 {
                    assert(e[a] == before[a]);
                    if e[a].request_id@ == k0 {
                        assert(has_id(before, k0));
                    }
                } else {
                    assert(e[a] == before[a]);
                    assert(e[b] == before[b]);
                }
            }
            lemma_entry_at(e, e.len() - 1);
            assert forall|k: Seq<char>| k != k0 implies (has_id(e, k) == has_id(before, k) && (
            has_id(before, k) ==> entry_of(e, k) == entry_of(before, k))) by {
                if has_id(e, k) {
                    let j = choose|j: int| 0 <= j < e.len() && (#[trigger] e[j]).request_id@ == k;
                    assert(j < e.len() - 1);
                    assert(e[j] == before[j]);
                    assert(has_id(before, k));
                    lemma_entry_at(e, j);
                    lemma_entry_at(before, j);
                }
                if has_id(before, k) {
                    let j = choose|j: int| 0 <= j < before.len() && (#[trigger] before[j]).request_id@ == k;
                    assert(e[j] == before[j]);
                    assert(has_id(e, k));
                }
            }
        }
    }

    /// Takes a request out of flight.
    pub fn remove(&mut self, request_id: &str) -> (r: Option<PendingKind>)
        requires
            old(self).wf(),
        ensures
            final(self).wf(),
            !has_id(final(self).entries@, request_id@),
            has_id(old(self).entries@, request_id@) ==> r == Some(
                entry_of(old(self).entries@, request_id@).kind,
            ),
            !has_id(old(self).entries@, request_id@) ==> r is None,
            forall|k: Seq<char>|
                k != request_id@ ==> (has_id(final(self).entries@, k) == has_id(
                    old(self).entries@,
                    k,
                ) && (has_id(old(self).entries@, k) ==> entry_of(final(self).entries@, k)
                    == entry_of(old(self).entries@, k))),
    {
        match self.position(request_id) {
            Some(i) => {
                proof {
                    lemma_remove_entry(self.entries@, i as int);
                    lemma_entry_at(self.entries@, i as int);
                }
                let e = self.entries.remove(i);
                Some(e.kind)
            },
            None => None,
        }
    }

    /// Routes one response frame to the request it answers.
    #[verifier::rlimit(60)]
    #[verifier::spinoff_prover]
    pub fn on_response(&mut self, response: GateResponse) -> (out: PendingOutcome)
        requires
            old(self).wf(),
        ensures
            final(self).wf(),
            ({
                let id = response.request_id@;
                let before = old(self).entries@;
                let after = final(self).entries@;
                let others_kept = forall|k: Seq<char>|
                    k != id ==> (has_id(after, k) == has_id(before, k) && (has_id(before, k)
                        ==> entry_of(after, k) == entry_of(before, k)));
                if !has_id(before, id) {
                    out is Unknown && after == before
                } else {
                    match entry_of(before, id).kind {
                        PendingKind::Collect { syscall, responses } => if response.op
                            == ResponseOp::Error {
                            &&& out matches PendingOutcome::Failed { request_id, message }
                                && request_id@ == id && message@ == failure_text(
                                syscall@,
                                response,
                            )
                            &&& !has_id(after, id)
                            &&& others_kept
                        } else if is_terminal_op(response.op) {
                            &&& out matches PendingOutcome::Completed { request_id, responses: all }
                                && request_id@ == id && all@ == responses@.push(response)
                            &&& !has_id(after, id)
                            &&& others_kept
                        } else {
                            &&& out is Collected
                            &&& has_id(after, id)
                            &&& entry_of(after, id).kind matches PendingKind::Collect {
                                syscall: s2,
                                responses: r2,
                            } && s2 == syscall && r2@ == responses@.push(response)
                            &&& others_kept
                        },
                        PendingKind::FactoryStream => {
                            let closed = is_terminal_op(response.op) || response.op
                                == ResponseOp::Error;
                            &&& out matches PendingOutcome::Stream { item, closed: c } && c
                                == closed && item == (if response.op == ResponseOp::Item {
                                response.item
                            } else {
                                None
                            })
                            &&& has_id(after, id) == !closed
                            &&& !closed ==> entry_of(after, id) == entry_of(before, id)
                            &&& others_kept
                        },
                    }
                }
            }),
    {
        let i = match self.position(response.request_id.as_str()) {
            Some(i) => i,
            None => return PendingOutcome::Unknown,
        };
        proof {
            lemma_entry_at(self.entries@, i as int);
            lemma_remove_entry(self.entries@, i as int);
        }
        let ghost before = self.entries@;
        let entry = self.entries.remove(i);
        let ghost removed = self.entries@;
        let PendingEntry { request_id, kind } = entry;
        match kind {
            PendingKind::Collect { syscall, mut responses } => {
                if response.op == ResponseOp::Error {
                    let message = failure_message(syscall.as_str(), &response);
                    return PendingOutcome::Failed { request_id, message };
                }
                let terminal = is_terminal(response.op);
                responses.push(response);
                if terminal {
                    PendingOutcome::Completed { request_id, responses }
                } else {
                    let restored = PendingEntry {
                        request_id,
                        kind: PendingKind::Collect { syscall, responses },
                    };
                    self.entries.insert(i, restored);
                    proof {
                        let e = self.entries@;
                        assert forall|a: int, b: int| 0 <= a < b < e.len() implies (
                        #[trigger] e[a]).request_id@ != (#[trigger] e[b]).request_id@ by {
                            let a2 = if a < i { a } else if a == i { i as int } else { a - 1 };
                            let b2 = if b < i { b } else if b == i { i as int } else { b - 1 };
                            if a != i && b != i {
                                assert(e[a] == removed[a2]);
                                assert(e[b] == removed[b2]);
                            }
                            assert(e[a].request_id@ == before[if a < i { a } else if a == i { i as int } else { a }].request_id@);
                            assert(e[b].request_id@ == before[if b < i { b } else if b == i { i as int } else { b }].request_id@);
                        }
                        lemma_entry_at(e, i as int);
                        assert forall|k: Seq<char>| k != before[i as int].request_id@ implies (
                        has_id(e, k) == has_id(before, k) && (has_id(before, k) ==> entry_of(e, k)
                            == entry_of(before, k))) by {
                            if has_id(e, k) {
                                let j = choose|j: int| 0 <= j < e.len() && (#[trigger] e[j]).request_id@ == k;
                                assert(j != i);
                                assert(e[j] == before[j]);
                                lemma_entry_at(e, j);
                                lemma_entry_at(before, j);
                            }
                            if has_id(before, k) {
                                let j = choose|j: int| 0 <= j < before.len() && (#[trigger] before[j]).request_id@ == k;
                                assert(j != i);
                                assert(e[j] == before[j]);
                            }
                        }
                    }
                    PendingOutcome::Collected
                }
            },
            PendingKind::FactoryStream => {
                let item = if response.op == ResponseOp::Item {
                    response.item
                } else {
                    None
                };
                let closed = is_terminal(response.op) || response.op == ResponseOp::Error;
                if !closed {
                    let restored = PendingEntry { request_id, kind: PendingKind::FactoryStream };
                    self.entries.insert(i, restored);
                    proof {
                        let e = self.entries@;
                        assert(e =~= before);
                    }
                }
                PendingOutcome::Stream { item, closed }
            },
        }
    }
}

/// Where a server envelope read on the live channel goes.
#[derive(Debug)]
pub enum EnvelopeRoute {
    /// An event: shown to the browser when it is one the channel shows.
    Event(GateEvent),
    /// A response: handed to the table of requests in flight.
    Response(GateResponse),
    /// A hello, a pong or an empty envelope: nothing to do.
    Ignore,
}

/// Events go to the browser, responses to the request table; the rest is
/// dropped.
pub fn route_envelope(body: Option<ServerBody>) -> (r: EnvelopeRoute)
    ensures
        match body {
            Some(ServerBody::Event(e)) => r == EnvelopeRoute::Event(e),
            Some(ServerBody::Response(x)) => r == EnvelopeRoute::Response(x),
            _ => r is Ignore,
        },
{
    match body {
        Some(ServerBody::Event(e)) => EnvelopeRoute::Event(e),
        Some(ServerBody::Response(x)) => EnvelopeRoute::Response(x),
        _ => EnvelopeRoute::Ignore,
    }
}

/// What the browser is told of a factory stream's item, given the item read
/// as a factory event (`None` when the frame carried no item): the event, or
/// the error reading it.
pub fn factory_stream_message(decoded: Option<Result<FactoryEvent, String>>) -> (m: Option<
    LiveServerMessage,
>)
    ensures
        match decoded {
            None => m is None,
            Some(Ok(event)) => m == Some(LiveServerMessage::FactoryEvent { event }),
            Some(Err(message)) => m == Some(LiveServerMessage::Error { message }),
        },
{
    match decoded {
        None => None,
        Some(Ok(event)) => Some(LiveServerMessage::FactoryEvent { event }),
        Some(Err(message)) => Some(LiveServerMessage::Error { message }),
    }
}

} // verus!
