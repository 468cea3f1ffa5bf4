//! The dashboard refresh: one round trip to the Prior gate as a sequence of
//! steps (hello, `door:connect`, `door:rooms`, `door:disconnect`), each taking
//! the answer to the previous one and saying what to send next.
use vstd::prelude::*;
use vstd::string::*;

use crate::net::gate::{
    client_hello, connect_data, disconnect_with_result, first_item, item_string_field,
    rooms_from_responses, session_data, session_from_first_item, string_fields, ClientHello, GateResponse, GateStruct,
    ServerHello, str_field,
};
use crate::auth::session::SessionCookie;
use crate::auth::user::{require_current_session, require_current_user};
use crate::state::auth::CurrentUser;
use crate::state::gate::{refresh_failed_state, refresh_ok_state, ConnectionStatus, GateUiState};
use crate::text::{copy_string, opt_view, strictly_sorted, string_views};

verus! {

/// What the round trip waits for.
#[derive(Debug, Clone, Copy, PartialEq, Eq, Structural)]
pub enum RefreshPhase {
    Hello,
    Connect,
    Rooms,
    Disconnect,
    Done,
}

/// What to do next.
#[derive(Debug)]
pub enum RefreshAction {
    /// Open the socket and send this hello.
    SendHello(ClientHello),
    /// Send this request and hand back all its frames.
    Request { syscall: &'static str, data: GateStruct },
    /// The round trip is over; this is the Prior gate state to show.
    Finished(GateUiState),
}

/// A refresh in progress for one user.
#[derive(Debug)]
pub struct RefreshRoundTrip {
    pub phase: RefreshPhase,
    pub actor: String,
    pub gate_url: String,
    pub server_name: String,
    pub session_id: String,
    pub rooms: Result<Vec<String>, String>,
    pub last_event: Option<String>,
}

/// The session id of a `door:connect` answer as the refresh reads it: the
/// `session` field of the first item.
pub open spec fn first_item_session(rs: Seq<GateResponse>) -> Option<Seq<char>> {
    match first_item(rs) {
        Some(item) => item_string_field(item, "session"@),
        None => None,
    }
}

/// The status shown after a successful refresh.
pub open spec fn ok_status(actor: Seq<char>) -> Seq<char> {
    "server-owned gate round trip ok for actor "@ + actor
}

pub open spec fn failed_state_is(s: GateUiState, gate_url: Seq<char>, error: Seq<char>) -> bool {
    &&& s.connection == ConnectionStatus::Disconnected
    &&& s.gate_url@ == gate_url
    &&& s.server_name is None
    &&& s.status@ == "server-side gate refresh failed: "@ + error
    &&& s.rooms@.len() == 0
    &&& s.last_event is None
}

impl RefreshRoundTrip {
    /// Starts a refresh for the request's user (the result of
    /// `require_current_user`): without one it fails at once, before any work
    /// with the Prior gate; otherwise the calls are attributed to the user's
    /// `sub` and the first step is the hello.
    pub fn start(user: Result<CurrentUser, String>, gate_url: String, service_token: Option<String>) -> (r:
        Result<(Self, RefreshAction), String>)
        ensures
            match user {
                Err(e) => r == Err::<(Self, RefreshAction), String>(e),
                Ok(u) => r matches Ok((trip, action)) && trip.phase == RefreshPhase::Hello
                    && trip.actor@ == u.sub@ && trip.gate_url == gate_url && trip.last_event is None
                    && (action matches RefreshAction::SendHello(h) && h.protocol_version@
                    == "prior.gate.v1"@ && h.client_name@ == "prior-web"@ && h.metadata@.len() == 1
                    && h.metadata@[0].0@ == "surface"@ && h.metadata@[0].1@ == "server-dashboard"@
                    && h.service_token == service_token && opt_view(h.user_id) == Some(u.sub@)),
            },
    {
        let u = match user {
            Ok(u) => u,
            Err(e) => return Err(e),
        };
        let actor = u.sub;
        let hello = client_hello(service_token, copy_string(&actor), "server-dashboard");
        let trip = RefreshRoundTrip {
            phase: RefreshPhase::Hello,
            actor,
            gate_url,
            server_name: String::new(),
            session_id: String::new(),
            rooms: Ok(Vec::new()),
            last_event: None,
        };
        Ok((trip, RefreshAction::SendHello(hello)))
    }

    /// Starts the refresh a dashboard request asks for: the request must be
    /// in a server context and carry a valid session (else it fails with
    /// `missing request parts in server context` or `authentication
    /// required`, before any work with the Prior gate), and the calls are
    /// attributed to the session user's `sub`.
    pub fn start_for_request(
        has_request_parts: bool,
        session: Option<SessionCookie>,
        gate_url: String,
        service_token: Option<String>,
    ) -> (r: Result<(Self, RefreshAction), String>)
        ensures
            !has_request_parts ==> (r matches Err(e) && e@ == "missing request parts in server context"@),
            has_request_parts && session is None ==> (r matches Err(e) && e@ == "authentication required"@),
            has_request_parts && session is Some ==> (r matches Ok((trip, action)) && trip.phase
                == RefreshPhase::Hello && trip.actor@ == session.unwrap().user.sub@ && trip.gate_url == gate_url
                && (action matches RefreshAction::SendHello(h) && h.metadata@.len() == 1
                && h.metadata@[0].1@ == "server-dashboard"@ && h.service_token == service_token
                && opt_view(h.user_id) == Some(session.unwrap().user.sub@))),
    {
        let user = require_current_user(require_current_session(has_request_parts, session));
        Self::start(user, gate_url, service_token)
    }

    fn fail(&mut self, error: &str) -> (a: RefreshAction)
        ensures
            final(self).phase == RefreshPhase::Done,
            final(self).actor == old(self).actor,
            final(self).gate_url == old(self).gate_url,
            final(self).server_name == old(self).server_name,
            a matches RefreshAction::Finished(s) && failed_state_is(s, old(self).gate_url@, error@),
    {
        self.phase = RefreshPhase::Done;
        RefreshAction::Finished(refresh_failed_state(copy_string(&self.gate_url), error))
    }

    /// The server's hello (or the error reading it): next `door:connect` as
    /// the user, or the refresh fails.
    pub fn on_hello(&mut self, hello: Result<ServerHello, String>) -> (a: RefreshAction)
        requires
            old(self).phase == RefreshPhase::Hello,
        ensures
            final(self).actor == old(self).actor,
            final(self).gate_url == old(self).gate_url,
            match hello {
                Ok(h) => {
                    &&& final(self).phase == RefreshPhase::Connect
                    &&& final(self).server_name == h.server_name
                    &&& a matches RefreshAction::Request { syscall, data } && syscall@
                        == "door:connect"@ && data.fields@.len() == 1 && str_field(
                        data.fields@,
                        0,
                        "from"@,
                        old(self).actor@,
                    )
                },
                Err(e) => final(self).phase == RefreshPhase::Done && (a matches RefreshAction::Finished(
                    s,
                ) && failed_state_is(s, old(self).gate_url@, e@)),
            },
    {
        match hello {
            Ok(h) => {
                self.server_name = h.server_name;
                self.phase = RefreshPhase::Connect;
                RefreshAction::Request {
                    syscall: "door:connect",
                    data: connect_data(self.actor.as_str()),
                }
            },
            Err(e) => self.fail(e.as_str()),
        }
    }

    /// The frames of `door:connect` and the last event seen meanwhile: with a
    /// session id in the first item, next `door:rooms`; without one, or on
    /// error, the refresh fails (no session to close).
    pub fn on_connect(&mut self, answer: Result<Vec<GateResponse>, String>, last_event: Option<String>) -> (a:
        RefreshAction)
        requires
            old(self).phase == RefreshPhase::Connect,
        ensures
            final(self).actor == old(self).actor,
            final(self).gate_url == old(self).gate_url,
            final(self).server_name == old(self).server_name,
            final(self).phase == RefreshPhase::Rooms ==> final(self).last_event == last_event,
            match answer {
                Ok(rs) => match first_item_session(rs@) {
                    Some(sid) => {
                        &&& final(self).phase == RefreshPhase::Rooms
                        &&& final(self).session_id@ == sid
                        &&& a matches RefreshAction::Request { syscall, data } && syscall@
                            == "door:rooms"@ && data.fields@.len() == 0
                    },
                    None => final(self).phase == RefreshPhase::Done && (a matches RefreshAction::Finished(
                        s,
                    ) && failed_state_is(
                        s,
                        old(self).gate_url@,
                        "door:connect did not return a session id"@,
                    )),
                },
                Err(e) => final(self).phase == RefreshPhase::Done && (a matches RefreshAction::Finished(
                    s,
                ) && failed_state_is(s, old(self).gate_url@, e@)),
            },
    {
        match answer {
            Ok(rs) => match session_from_first_item(rs.as_slice()) {
                Ok(sid) => {
                    self.session_id = sid;
                    self.last_event = last_event;
                    self.phase = RefreshPhase::Rooms;
                    RefreshAction::Request { syscall: "door:rooms", data: GateStruct::empty() }
                },
                Err(e) => self.fail(e.as_str()),
            },
            Err(e) => self.fail(e.as_str()),
        }
    }

    /// The frames of `door:rooms` and the last event seen so far: the session
    /// is closed next (`door:disconnect`), whatever the answer.
    pub fn on_rooms(&mut self, answer: Result<Vec<GateResponse>, String>, last_event: Option<String>) -> (a:
        RefreshAction)
        requires
            old(self).phase == RefreshPhase::Rooms,
        ensures
            final(self).phase == RefreshPhase::Disconnect,
            final(self).actor == old(self).actor,
            final(self).gate_url == old(self).gate_url,
            final(self).server_name == old(self).server_name,
            final(self).session_id == old(self).session_id,
            final(self).last_event == last_event,
            match answer {
                Ok(rs) => final(self).rooms matches Ok(rooms) && strictly_sorted(
                    string_views(rooms@),
                ) && forall|x: Seq<char>|
                    string_views(rooms@).contains(x) <==> string_fields(rs@, "room"@).contains(x),
                Err(e) => final(self).rooms == Err::<Vec<String>, String>(e),
            },
            a matches RefreshAction::Request { syscall, data } && syscall@ == "door:disconnect"@
                && data.fields@.len() == 1 && str_field(
                data.fields@,
                0,
                "session"@,
                old(self).session_id@,
            ),
    {
        self.rooms = match answer {
            Ok(rs) => Ok(rooms_from_responses(rs.as_slice())),
            Err(e) => Err(e),
        };
        self.last_event = last_event;
        self.phase = RefreshPhase::Disconnect;
        RefreshAction::Request { syscall: "door:disconnect", data: session_data(self.session_id.as_str()) }
    }

    /// The answer to `door:disconnect` and the last event seen over the whole
    /// round trip: the refresh ends connected with the rooms, or failed with
    /// the first error (the rooms', else the disconnect's).
    pub fn on_disconnect(&mut self, answer: Result<(), String>, last_event: Option<String>) -> (a:
        RefreshAction)
        requires
            old(self).phase == RefreshPhase::Disconnect,
        ensures
            final(self).phase == RefreshPhase::Done,
            match old(self).rooms {
                Err(e) => a matches RefreshAction::Finished(s) && failed_state_is(
                    s,
                    old(self).gate_url@,
                    e@,
                ),
                Ok(rooms) => match answer {
                    Err(e) => a matches RefreshAction::Finished(s) && failed_state_is(
                        s,
                        old(self).gate_url@,
                        e@,
                    ),
                    Ok(_) => a matches RefreshAction::Finished(s) && {
                        &&& s.connection == ConnectionStatus::Connected
                        &&& s.gate_url@ == old(self).gate_url@
                        &&& opt_view(s.server_name) == Some(old(self).server_name@)
                        &&& s.status@ == ok_status(old(self).actor@)
                        &&& s.rooms@ == rooms@
                        &&& opt_view(s.last_event) == opt_view(last_event)
                    },
                },
            },
    {
        let mut rooms: Result<Vec<String>, String> = Ok(Vec::new());
        std::mem::swap(&mut rooms, &mut self.rooms);
        let result = disconnect_with_result(rooms, answer);
        match result {
            Ok(rooms) => {
                self.phase = RefreshPhase::Done;
                let shown = match &last_event {
                    Some(e) => Some(copy_string(e)),
                    None => None,
                };
                self.last_event = last_event;
                proof {
                    reveal_strlit("server-owned gate round trip ok for actor ");
                }
                let state = refresh_ok_state(
                    copy_string(&self.gate_url),
                    copy_string(&self.server_name),
                    "server-owned gate round trip ok for actor ",
                    self.actor.as_str(),
                    rooms,
                    shown,
                );
                RefreshAction::Finished(state)
            },
            Err(e) => self.fail(e.as_str()),
        }
    }
}

} // verus!
