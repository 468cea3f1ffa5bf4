use prior_web::net::gate_client::{command_sent, frame_received, mark_connected, mark_connecting, mark_failed, GateCommand};
use prior_web::runtime::{
    configured_gate_ws_url, fallback_gate_ws_url, gate_ws_meta_content, gate_ws_url,
    initial_auth_state, site_addr, theme_preference, theme_storage_value,
};
use prior_web::state::auth::AuthState;
use prior_web::state::gate::{ConnectionStatus, GateUiState};

#[test]
fn listen_address() {
    assert_eq!(site_addr(Some("1.2.3.4:5".to_string()), Some("80".to_string()), "d".to_string()), "1.2.3.4:5");
    assert_eq!(site_addr(None, Some("8080".to_string()), "d".to_string()), "0.0.0.0:8080");
    assert_eq!(site_addr(None, None, "127.0.0.1:3000".to_string()), "127.0.0.1:3000");
}

#[test]
fn gate_addresses() {
    assert_eq!(gate_ws_meta_content(None), "");
    assert_eq!(gate_ws_meta_content(Some("wss://g".to_string())), "wss://g");
    assert_eq!(configured_gate_ws_url(Some(String::new())), None);
    assert_eq!(fallback_gate_ws_url(None, None), "ws://127.0.0.1:7071/");
    assert_eq!(fallback_gate_ws_url(Some("https:"), Some("web.test")), "wss://web.test:7071/");
    assert_eq!(fallback_gate_ws_url(Some("http:"), Some("")), "ws://127.0.0.1:7071/");
    assert_eq!(gate_ws_url(Some("wss://conf".to_string()), None, None), "wss://conf");
    assert_eq!(gate_ws_url(Some(String::new()), Some("https:"), Some("h")), "wss://h:7071/");
}

#[test]
fn theme() {
    assert!(theme_preference(Some("dark"), false));
    assert!(!theme_preference(Some("light"), true));
    assert!(theme_preference(None, true));
    assert_eq!(theme_storage_value(true), "dark");
    assert_eq!(theme_storage_value(false), "light");
    assert!(matches!(initial_auth_state(None), AuthState::Anonymous));
}

#[test]
fn gate_client_steps() {
    let mut g = GateUiState::default();
    assert_eq!(g.connection, ConnectionStatus::Connecting);
    mark_connecting(&mut g);
    assert_eq!(g.status, "connecting to gate");
    mark_connected(&mut g, "ws://x".to_string());
    assert_eq!(g.connection, ConnectionStatus::Connected);
    assert_eq!(g.gate_url, "ws://x");
    let text = command_sent(&mut g, GateCommand::RefreshRooms);
    assert_eq!(text, "prior-web gate client scaffold: room refresh wiring pending");
    assert_eq!(g.status, "refresh requested; websocket client scaffold active");
    frame_received(&mut g, "evt".to_string());
    assert_eq!(g.last_event.as_deref(), Some("evt"));
    mark_failed(&mut g, "recv: closed".to_string());
    assert_eq!(g.connection, ConnectionStatus::Disconnected);
    assert_eq!(g.status, "recv: closed");
}
