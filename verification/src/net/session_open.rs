//! Opening a session with the Prior gate for one user: the hello,
//! `door:connect` as the user, and `door:join` into a room when one is given.
//! Each step takes the answer to the previous request and says what to send
//! next.
use vstd::prelude::*;
use vstd::string::*;

use crate::net::gate::{
    client_hello, connect_data, first_string_field, join_data, session_from_responses, str_field,
    ClientHello, GateResponse, GateStruct, ServerHello,
};
use crate::text::copy_string;

verus! {

/// What the opening waits for.
#[derive(Debug, Clone, Copy, PartialEq, Eq, Structural)]
pub enum OpeningPhase {
    Hello,
    Connect,
    Join,
    Done,
}

/// A session that is open: the server's name and the session id.
#[derive(Debug)]
pub struct OpenSession {
    pub server_name: String,
    pub session_id: String,
}

/// What to do next.
#[derive(Debug)]
pub enum OpeningAction {
    /// Send this request and hand back its answer.
    Request { syscall: &'static str, data: GateStruct },
    /// The opening is over.
    Finished(Result<OpenSession, String>),
}

/// An opening in progress.
#[derive(Debug)]
pub struct SessionOpening {
    pub phase: OpeningPhase,
    pub actor: String,
    pub room: Option<String>,
    pub server_name: String,
    pub session_id: String,
}

/// The `door:join` request that follows `door:connect`: there is one exactly
/// when a room is given, with the session id and that room.
pub fn connect_join_data(session_id: &str, room: Option<&str>) -> (r: Option<GateStruct>)
    ensures
        match room {
            None => r is None,
            Some(name) => r matches Some(d) && d.fields@.len() == 2 && str_field(
                d.fields@,
                0,
                "session"@,
                session_id@,
            ) && str_field(d.fields@, 1, "room"@, name@),
        },
{
    match room {
        Some(name) => Some(join_data(session_id, name)),
        None => None,
    }
}

impl SessionOpening {
    /// Starts opening a session for `actor`, to be joined to `room` if one is
    /// given: the first step is the hello, for the `prior-web` surface, with
    /// the service token and the actor as the user.
    pub fn start(actor: String, room: Option<String>, service_token: Option<String>) -> (r: (
        Self,
        ClientHello,
    ))
        ensures
            r.0.phase == OpeningPhase::Hello,
            r.0.actor == actor,
            r.0.room == room,
            r.1.protocol_version@ == "prior.gate.v1"@,
            r.1.client_name@ == "prior-web"@,
            r.1.metadata@.len() == 1,
            r.1.metadata@[0].0@ == "surface"@,
            r.1.metadata@[0].1@ == "prior-web"@,
            r.1.service_token == service_token,
            r.1.user_id matches Some(u) && u@ == actor@,
    {
        let hello = client_hello(service_token, copy_string(&actor), "prior-web");
        let opening = SessionOpening {
            phase: OpeningPhase::Hello,
            actor,
            room,
            server_name: String::new(),
            session_id: String::new(),
        };
        (opening, hello)
    }

    /// The server's hello, or the error reading it: next `door:connect` as
    /// the actor, or the opening fails with that error.
    pub fn on_hello(&mut self, hello: Result<ServerHello, String>) -> (a: OpeningAction)
        requires
            old(self).phase == OpeningPhase::Hello,
        ensures
            final(self).actor == old(self).actor,
            final(self).room == old(self).room,
            match hello {
                Ok(h) => {
                    &&& final(self).phase == OpeningPhase::Connect
                    &&& final(self).server_name == h.server_name
                    &&& a matches OpeningAction::Request { syscall, data } && syscall@
                        == "door:connect"@ && data.fields@.len() == 1 && str_field(
                        data.fields@,
                        0,
                        "from"@,
                        old(self).actor@,
                    )
                },
                Err(e) => final(self).phase == OpeningPhase::Done && a == OpeningAction::Finished(
                    Err(e),
                ),
            },
    {
        match hello {
            Ok(h) => {
                self.server_name = h.server_name;
                self.phase = OpeningPhase::Connect;
                OpeningAction::Request { syscall: "door:connect", data: connect_data(self.actor.as_str()) }
            },
            Err(e) => {
                self.phase = OpeningPhase::Done;
                OpeningAction::Finished(Err(e))
            },
        }
    }

    /// The answer to `door:connect`: the session id is the first item that
    /// names one (else the opening fails with `door:connect did not return a
    /// session id`); then `door:join` when a room was given, else the session
    /// is open.
    pub fn on_connect(&mut self, answer: Result<Vec<GateResponse>, String>) -> (a: OpeningAction)
        requires
            old(self).phase == OpeningPhase::Connect,
        ensures
            final(self).actor == old(self).actor,
            final(self).room == old(self).room,
            final(self).server_name == old(self).server_name,
            match answer {
                Err(e) => final(self).phase == OpeningPhase::Done && a == OpeningAction::Finished(
                    Err(e),
                ),
                Ok(rs) => match first_string_field(rs@, "session"@) {
                    None => final(self).phase == OpeningPhase::Done && (a matches OpeningAction::Finished(
                        Err(m),
                    ) && m@ == "door:connect did not return a session id"@),
                    Some(sid) => final(self).session_id@ == sid && match old(self).room {
                        Some(room) => {
                            &&& final(self).phase == OpeningPhase::Join
                            &&& a matches OpeningAction::Request { syscall, data } && syscall@
                                == "door:join"@ && data.fields@.len() == 2 && str_field(
                                data.fields@,
                                0,
                                "session"@,
                                sid,
                            ) && str_field(data.fields@, 1, "room"@, room@)
                        },
                        None => {
                            &&& final(self).phase == OpeningPhase::Done
                            &&& a matches OpeningAction::Finished(Ok(s)) && s.server_name@
                                == old(self).server_name@ && s.session_id@ == sid
                        },
                    },
                },
            },
    {
        let rs = match answer {
            Ok(rs) => rs,
            Err(e) => {
                self.phase = OpeningPhase::Done;
                return OpeningAction::Finished(Err(e));
            },
        };
        match session_from_responses(rs.as_slice()) {
            Ok(sid) => {
                self.session_id = sid;
                let join = match &self.room {
                    Some(room) => connect_join_data(self.session_id.as_str(), Some(room.as_str())),
                    None => connect_join_data(self.session_id.as_str(), None),
                };
                match join {
                    Some(data) => {
                        self.phase = OpeningPhase::Join;
                        OpeningAction::Request { syscall: "door:join", data }
                    },
                    None => {
                        self.phase = OpeningPhase::Done;
                        OpeningAction::Finished(
                            Ok(
                                OpenSession {
                                    server_name: copy_string(&self.server_name),
                                    session_id: copy_string(&self.session_id),
                                },
                            ),
                        )
                    },
                }
            },
            Err(m) => {
                self.phase = OpeningPhase::Done;
                OpeningAction::Finished(Err(m))
            },
        }
    }

    /// The answer to `door:join`: the session is open, or the opening fails
    /// with that error.
    pub fn on_join(&mut self, answer: Result<(), String>) -> (a: OpeningAction)
        requires
            old(self).phase == OpeningPhase::Join,
        ensures
            final(self).phase == OpeningPhase::Done,
            match answer {
                Ok(_) => a matches OpeningAction::Finished(Ok(s)) && s.server_name@
                    == old(self).server_name@ && s.session_id@ == old(self).session_id@,
                Err(e) => a == OpeningAction::Finished(Err(e)),
            },
    {
        self.phase = OpeningPhase::Done;
        match answer {
            Ok(()) => OpeningAction::Finished(
                Ok(
                    OpenSession {
                        server_name: copy_string(&self.server_name),
                        session_id: copy_string(&self.session_id),
                    },
                ),
            ),
            Err(e) => OpeningAction::Finished(Err(e)),
        }
    }
}

} // verus!
