//! The dashboard's view of the Prior gate connection.
use vstd::prelude::*;
use vstd::string::*;

use crate::text::concat2;

verus! {

#[derive(Debug, Clone, Copy, PartialEq, Eq, Structural)]
pub enum ConnectionStatus {
    Connecting,
    Connected,
    Disconnected,
}

impl Default for ConnectionStatus {
    fn default() -> (r: Self)
        ensures
            r == ConnectionStatus::Connecting,
    {
        ConnectionStatus::Connecting
    }
}

/// The last gate refresh as the dashboard shows it.
#[derive(Debug, Clone)]
pub struct GateUiState {
    pub connection: ConnectionStatus,
    pub gate_url: String,
    pub server_name: Option<String>,
    pub status: String,
    pub rooms: Vec<String>,
    pub last_event: Option<String>,
}

impl Default for GateUiState {
    fn default() -> (r: Self)
        ensures
            r.connection == ConnectionStatus::Connecting,
            r.gate_url@.len() == 0,
            r.server_name is None,
            r.status@.len() == 0,
            r.rooms@.len() == 0,
            r.last_event is None,
    {
        GateUiState {
            connection: ConnectionStatus::Connecting,
            gate_url: String::new(),
            server_name: None,
            status: String::new(),
            rooms: Vec::new(),
            last_event: None,
        }
    }
}

/// The state after a successful round trip: connected, with the rooms listed
/// and `<note> <who>` as status (the note names whose identity was used).
pub fn refresh_ok_state(
    gate_url: String,
    server_name: String,
    note: &str,
    who: &str,
    rooms: Vec<String>,
    last_event: Option<String>,
) -> (r: GateUiState)
    ensures
        r.connection == ConnectionStatus::Connected,
        r.gate_url == gate_url,
        r.server_name == Some(server_name),
        r.status@ == note@ + who@,
        r.rooms == rooms,
        r.last_event == last_event,
{
    GateUiState {
        connection: ConnectionStatus::Connected,
        gate_url,
        server_name: Some(server_name),
        status: concat2(note, who),
        rooms,
        last_event,
    }
}

/// The state after a failed round trip.
pub fn refresh_failed_state(gate_url: String, error: &str) -> (r: GateUiState)
    ensures
        r.connection == ConnectionStatus::Disconnected,
        r.gate_url == gate_url,
        r.server_name is None,
        r.status@ == "server-side gate refresh failed: "@ + error@,
        r.rooms@.len() == 0,
        r.last_event is None,
{
    GateUiState {
        connection: ConnectionStatus::Disconnected,
        gate_url,
        server_name: None,
        status: concat2("server-side gate refresh failed: ", error),
        rooms: Vec::new(),
        last_event: None,
    }
}

} // verus!
