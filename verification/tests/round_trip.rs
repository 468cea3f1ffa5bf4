use prior_web::net::gate::{GateResponse, GateStruct, GateValue, ResponseItem, ResponseOp, ServerBody, ServerHello};
use prior_web::net::gate_socket::{hello_step, pump_step, read_step, GateFrame, HelloStep, PumpStep, ReadStep};
use prior_web::net::live::{live_channel_actor, BrowserFrame, LiveAction, LiveChannel, LiveClientMessage, LivePhase, LiveServerMessage};
use prior_web::net::round_trip::{RefreshAction, RefreshPhase, RefreshRoundTrip};
use prior_web::net::session_open::{connect_join_data, OpeningAction, OpeningPhase, SessionOpening};
use prior_web::state::auth::CurrentUser;
use prior_web::state::gate::ConnectionStatus;

fn item(key: &str, value: &str) -> GateResponse {
    GateResponse {
        request_id: "1".to_string(),
        op: ResponseOp::Item,
        item: Some(ResponseItem {
            data: Some(GateStruct { fields: vec![(key.to_string(), GateValue::Str(value.to_string()))] }),
        }),
        error: None,
    }
}

fn user(sub: &str) -> CurrentUser {
    CurrentUser { sub: sub.to_string(), display_name: None, email: None, avatar_url: None }
}

fn start(sub: &str, url: &str) -> (RefreshRoundTrip, RefreshAction) {
    RefreshRoundTrip::start(Ok(user(sub)), url.to_string(), None).unwrap()
}

fn syscall(a: &RefreshAction) -> &str {
    match a {
        RefreshAction::Request { syscall, .. } => syscall,
        other => panic!("unexpected {other:?}"),
    }
}

fn opening_syscall(a: &OpeningAction) -> &str {
    match a {
        OpeningAction::Request { syscall, .. } => syscall,
        other => panic!("unexpected {other:?}"),
    }
}

#[test]
fn refresh_runs_hello_connect_rooms_disconnect() {
    let (mut trip, first) = start("github:1", "wss://g");
    match first {
        RefreshAction::SendHello(h) => {
            assert_eq!(h.user_id.as_deref(), Some("github:1"));
            assert_eq!(h.metadata, vec![("surface".to_string(), "server-dashboard".to_string())]);
        }
        other => panic!("unexpected {other:?}"),
    }
    let a = trip.on_hello(Ok(ServerHello { server_name: "gate-a".to_string() }));
    assert_eq!(syscall(&a), "door:connect");
    let a = trip.on_connect(Ok(vec![item("session", "s-9")]), None);
    assert_eq!(syscall(&a), "door:rooms");
    assert_eq!(trip.session_id, "s-9");
    let a = trip.on_rooms(Ok(vec![item("room", "b"), item("room", "a")]), Some("door:chat: e1".to_string()));
    assert_eq!(syscall(&a), "door:disconnect");
    assert_eq!(trip.phase, RefreshPhase::Disconnect);
    match trip.on_disconnect(Ok(()), Some("door:chat: e2".to_string())) {
        RefreshAction::Finished(state) => {
            assert_eq!(state.connection, ConnectionStatus::Connected);
            assert_eq!(state.server_name.as_deref(), Some("gate-a"));
            assert_eq!(state.status, "server-owned gate round trip ok for actor github:1");
            assert_eq!(state.rooms, vec!["a", "b"]);
            assert_eq!(state.last_event.as_deref(), Some("door:chat: e2"));
        }
        other => panic!("unexpected {other:?}"),
    }
}

#[test]
fn refresh_needs_a_signed_in_user() {
    assert_eq!(
        RefreshRoundTrip::start(Err("authentication required".to_string()), "g".to_string(), None).err(),
        Some("authentication required".to_string())
    );
    assert_eq!(
        RefreshRoundTrip::start_for_request(true, None, "g".to_string(), None).err(),
        Some("authentication required".to_string())
    );
    assert_eq!(
        RefreshRoundTrip::start_for_request(false, None, "g".to_string(), None).err(),
        Some("missing request parts in server context".to_string())
    );
}

#[test]
fn refresh_reads_the_session_from_the_first_item_only() {
    let (mut trip, _) = start("u", "g");
    trip.on_hello(Ok(ServerHello { server_name: "x".to_string() }));
    match trip.on_connect(Ok(vec![item("other", "1"), item("session", "s")]), None) {
        RefreshAction::Finished(s) => assert_eq!(s.status, "server-side gate refresh failed: door:connect did not return a session id"),
        other => panic!("unexpected {other:?}"),
    }
}

#[test]
fn refresh_failures() {
    let (mut trip, _) = start("u", "wss://g");
    match trip.on_hello(Err("connect wss://g: refused".to_string())) {
        RefreshAction::Finished(s) => {
            assert_eq!(s.connection, ConnectionStatus::Disconnected);
            assert_eq!(s.status, "server-side gate refresh failed: connect wss://g: refused");
            assert_eq!(s.gate_url, "wss://g");
        }
        other => panic!("unexpected {other:?}"),
    }
    let (mut trip, _) = start("u", "g");
    trip.on_hello(Ok(ServerHello { server_name: "x".to_string() }));
    match trip.on_connect(Ok(vec![]), None) {
        RefreshAction::Finished(s) => assert_eq!(s.status, "server-side gate refresh failed: door:connect did not return a session id"),
        other => panic!("unexpected {other:?}"),
    }
    let (mut trip, _) = start("u", "g");
    trip.on_hello(Ok(ServerHello { server_name: "x".to_string() }));
    trip.on_connect(Ok(vec![item("session", "s")]), None);
    trip.on_rooms(Err("door:rooms failed: x: y".to_string()), None);
    match trip.on_disconnect(Err("later".to_string()), None) {
        RefreshAction::Finished(s) => assert_eq!(s.status, "server-side gate refresh failed: door:rooms failed: x: y"),
        other => panic!("unexpected {other:?}"),
    }
}

#[test]
fn opening_joins_only_when_a_room_is_given() {
    assert!(connect_join_data("s1", None).is_none());
    let d = connect_join_data("s1", Some("r1")).unwrap();
    assert_eq!(d.fields.len(), 2);
    assert!(matches!(&d.fields[0], (k, GateValue::Str(v)) if k == "session" && v == "s1"));
    assert!(matches!(&d.fields[1], (k, GateValue::Str(v)) if k == "room" && v == "r1"));

    let (mut o, hello) = SessionOpening::start("github:7".to_string(), Some("r1".to_string()), Some("tok".to_string()));
    assert_eq!(hello.user_id.as_deref(), Some("github:7"));
    assert_eq!(hello.metadata, vec![("surface".to_string(), "prior-web".to_string())]);
    assert_eq!(hello.service_token.as_deref(), Some("tok"));
    assert_eq!(opening_syscall(&o.on_hello(Ok(ServerHello { server_name: "g".to_string() }))), "door:connect");
    assert_eq!(opening_syscall(&o.on_connect(Ok(vec![item("other", "1"), item("session", "s-2")]))), "door:join");
    assert_eq!(o.phase, OpeningPhase::Join);
    match o.on_join(Ok(())) {
        OpeningAction::Finished(Ok(s)) => {
            assert_eq!(s.session_id, "s-2");
            assert_eq!(s.server_name, "g");
        }
        other => panic!("unexpected {other:?}"),
    }

    let (mut o, _) = SessionOpening::start("a".to_string(), None, None);
    o.on_hello(Ok(ServerHello { server_name: "g".to_string() }));
    match o.on_connect(Ok(vec![item("session", "s-3")])) {
        OpeningAction::Finished(Ok(s)) => assert_eq!(s.session_id, "s-3"),
        other => panic!("unexpected {other:?}"),
    }
    let (mut o, _) = SessionOpening::start("a".to_string(), None, None);
    o.on_hello(Ok(ServerHello { server_name: "g".to_string() }));
    match o.on_connect(Ok(vec![])) {
        OpeningAction::Finished(Err(m)) => assert_eq!(m, "door:connect did not return a session id"),
        other => panic!("unexpected {other:?}"),
    }
}

#[test]
fn gate_socket_reads() {
    assert!(matches!(read_step(GateFrame::Ping(vec![1, 2]), "read envelope payload"), ReadStep::SendPong(p) if p == vec![1, 2]));
    assert!(matches!(read_step(GateFrame::Text, "x"), ReadStep::Continue));
    assert!(matches!(read_step(GateFrame::Close, "read envelope payload"), ReadStep::Fail(m) if m == "read envelope payload: websocket closed"));
    assert!(matches!(read_step(GateFrame::ReadError("reset".to_string()), "read envelope payload"), ReadStep::Fail(m) if m == "read envelope payload: reset"));
    assert!(matches!(read_step(GateFrame::Binary(Err("bad tag".to_string())), "x"), ReadStep::Fail(m) if m == "decode envelope: bad tag"));
    assert!(matches!(read_step(GateFrame::Binary(Ok(Some(ServerBody::Pong))), "x"), ReadStep::Envelope(Some(ServerBody::Pong))));

    assert!(matches!(hello_step(GateFrame::Ping(vec![9])), HelloStep::SendPong(p) if p == vec![9]));
    assert!(matches!(hello_step(GateFrame::End), HelloStep::Done(Err(m)) if m == "gate hello read: websocket closed"));
    assert!(matches!(hello_step(GateFrame::Close), HelloStep::Done(Err(m)) if m == "gate hello read: websocket closed"));
    assert!(matches!(hello_step(GateFrame::Binary(Ok(Some(ServerBody::Pong)))), HelloStep::Done(Err(m)) if m == "expected server hello"));
    assert!(matches!(
        hello_step(GateFrame::Binary(Ok(Some(ServerBody::Hello(ServerHello { server_name: "g".to_string() }))))),
        HelloStep::Done(Ok(h)) if h.server_name == "g"
    ));

    assert!(matches!(pump_step(GateFrame::Ping(vec![3])), PumpStep::SendPong(p) if p == vec![3]));
    assert!(matches!(pump_step(GateFrame::Close), PumpStep::Stop(None)));
    assert!(matches!(pump_step(GateFrame::ReadError("e".to_string())), PumpStep::Stop(Some(LiveServerMessage::Error { message })) if message == "gate websocket read failed"));
    assert!(matches!(pump_step(GateFrame::Binary(Err("e".to_string()))), PumpStep::Stop(Some(LiveServerMessage::Error { message })) if message == "failed to decode gate envelope"));
}

#[test]
fn live_channel_steps() {
    assert_eq!(live_channel_actor(None), Err(401));
    let mut c = LiveChannel::new("github:1".to_string());
    match c.connected(Ok("s1".to_string())) {
        LiveServerMessage::Connected { actor, session_id } => {
            assert_eq!(actor, "github:1");
            assert_eq!(session_id, "s1");
        }
        other => panic!("unexpected {other:?}"),
    }
    assert!(matches!(c.subscribed(Err("no".to_string())), Some(LiveServerMessage::Error { message }) if message == "no"));
    assert_eq!(c.phase, LivePhase::Serving);
    assert!(c.browser_frame(BrowserFrame::Other).is_none());
    assert!(matches!(
        c.browser_frame(BrowserFrame::Text(Ok(LiveClientMessage::JoinRoom { room: "r".to_string() }))),
        Some(LiveAction::JoinRoom { room }) if room == "r"
    ));
    assert!(c.joined(Ok(())).is_none());
    assert!(c.browser_frame(BrowserFrame::Close).is_none());
    assert_eq!(c.phase, LivePhase::Closing);
    assert!(c.disconnected(Ok(())).is_none());
    assert_eq!(c.phase, LivePhase::Closed);
    let mut failed = LiveChannel::new("a".to_string());
    assert!(matches!(failed.connected(Err("down".to_string())), LiveServerMessage::Error { message } if message == "down"));
    assert_eq!(failed.phase, LivePhase::Closed);
}
