//! The browser-side gate connection: the commands it takes and how each of
//! its steps shows in the Prior gate state.
use vstd::prelude::*;
use vstd::string::*;

use crate::state::gate::{ConnectionStatus, GateUiState};

verus! {

/// What the dashboard asks of the browser's gate connection.
#[derive(Clone, Debug)]
pub enum GateCommand {
    RefreshRooms,
}

/// The text sent on a room refresh while room refresh is not wired yet.
pub const REFRESH_PLACEHOLDER: &'static str = "prior-web gate client scaffold: room refresh wiring pending";

/// The socket is being opened.
pub fn mark_connecting(state: &mut GateUiState)
    ensures
        final(state).connection == ConnectionStatus::Connecting,
        final(state).status@ == "connecting to gate"@,
        final(state).gate_url == old(state).gate_url,
        final(state).server_name == old(state).server_name,
        final(state).rooms == old(state).rooms,
        final(state).last_event == old(state).last_event,
{
    state.connection = ConnectionStatus::Connecting;
    state.status = String::from_str("connecting to gate");
}

/// The socket to `url` is open.
pub fn mark_connected(state: &mut GateUiState, url: String)
    ensures
        final(state).connection == ConnectionStatus::Connected,
        final(state).gate_url == url,
        final(state).status@ == "connected to gate websocket"@,
        final(state).server_name == old(state).server_name,
        final(state).rooms == old(state).rooms,
        final(state).last_event == old(state).last_event,
{
    state.connection = ConnectionStatus::Connected;
    state.gate_url = url;
    state.status = String::from_str("connected to gate websocket");
}

/// A command was sent; returns the text that goes out for it.
pub fn command_sent(state: &mut GateUiState, command: GateCommand) -> (text: &'static str)
    ensures
        text@ == REFRESH_PLACEHOLDER@,
        final(state).status@ == "refresh requested; websocket client scaffold active"@,
        final(state).connection == old(state).connection,
        final(state).gate_url == old(state).gate_url,
        final(state).server_name == old(state).server_name,
        final(state).rooms == old(state).rooms,
        final(state).last_event == old(state).last_event,
{
    match command {
        GateCommand::RefreshRooms => {
            state.status = String::from_str("refresh requested; websocket client scaffold active");
            REFRESH_PLACEHOLDER
        },
    }
}

/// A text frame arrived: it becomes the last event.
pub fn frame_received(state: &mut GateUiState, text: String)
    ensures
        final(state).last_event == Some(text),
        final(state).connection == old(state).connection,
        final(state).gate_url == old(state).gate_url,
        final(state).server_name == old(state).server_name,
        final(state).status == old(state).status,
        final(state).rooms == old(state).rooms,
{
    state.last_event = Some(text);
}

/// The connection failed with `error`.
pub fn mark_failed(state: &mut GateUiState, error: String)
    ensures
        final(state).connection == ConnectionStatus::Disconnected,
        final(state).status == error,
        final(state).gate_url == old(state).gate_url,
        final(state).server_name == old(state).server_name,
        final(state).rooms == old(state).rooms,
        final(state).last_event == old(state).last_event,
{
    state.connection = ConnectionStatus::Disconnected;
    state.status = error;
}

} // verus!
