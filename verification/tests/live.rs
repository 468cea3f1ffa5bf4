use prior_web::net::gate::{ErrorBody, GateEvent, GateResponse, GateStruct, GateValue, ResponseItem, ResponseOp, ServerBody, ServerHello};
use prior_web::net::live::{
    format_tool_call, format_tool_result, gate_event_to_live_message, gate_event_to_record,
    join_failure_tolerated, json_field, live_action, record_text, room_turn_reply, ArgsField, EventContent, LiveAction, LiveClientMessage,
    LiveServerMessage, PendingKind, PendingOutcome, PendingTable, factory_stream_message, route_envelope,
    EnvelopeRoute, FactoryEvent,
};

fn data(pairs: Vec<(&str, GateValue)>) -> Option<GateStruct> {
    Some(GateStruct { fields: pairs.into_iter().map(|(k, v)| (k.to_string(), v)).collect() })
}

fn s(v: &str) -> GateValue {
    GateValue::Str(v.to_string())
}

fn resp(id: &str, op: ResponseOp) -> GateResponse {
    GateResponse { request_id: id.to_string(), op, item: None, error: None }
}

#[test]
fn browser_messages_become_actions() {
    match live_action(Ok(LiveClientMessage::JoinRoom { room: "r".to_string() })) {
        LiveAction::JoinRoom { room } => assert_eq!(room, "r"),
        other => panic!("unexpected {other:?}"),
    }
    match live_action(Err("bad json".to_string())) {
        LiveAction::Reply(LiveServerMessage::Error { message }) => {
            assert_eq!(message, "invalid live message: bad json")
        }
        other => panic!("unexpected {other:?}"),
    }
    match room_turn_reply("r".to_string(), Err("boom".to_string())) {
        LiveServerMessage::Error { message } => assert_eq!(message, "boom"),
        other => panic!("unexpected {other:?}"),
    }
    assert!(matches!(room_turn_reply("r".to_string(), Ok(())), LiveServerMessage::RoomTurnDone { .. }));
    assert!(join_failure_tolerated("room:join failed: x: actor already joined room"));
    assert!(!join_failure_tolerated("room:join failed: x: denied"));
}

#[test]
fn chat_events_need_text() {
    let e = GateEvent {
        event_id: "1".to_string(),
        topic: "door:chat".to_string(),
        data: data(vec![("room", s("r1")), ("from", s("prior")), ("content", s("hello"))]),
    };
    let record = gate_event_to_record(&e).unwrap();
    assert_eq!(record.room.as_deref(), Some("r1"));
    assert_eq!(record.actor.as_deref(), Some("prior"));
    assert!(matches!(&record.content, EventContent::Text(t) if t == "hello"));
    let empty = GateEvent { event_id: "2".to_string(), topic: "door:chat".to_string(), data: data(vec![]) };
    assert!(gate_event_to_record(&empty).is_none());
    let other = GateEvent {
        event_id: "3".to_string(),
        topic: "door:presence".to_string(),
        data: data(vec![("content", s("x"))]),
    };
    assert!(gate_event_to_record(&other).is_none());
    let no_data = GateEvent { event_id: "4".to_string(), topic: "door:chat".to_string(), data: None };
    assert!(gate_event_to_record(&no_data).is_none());
}

#[test]
fn tool_events() {
    let call = GateEvent {
        event_id: "1".to_string(),
        topic: "door:tool".to_string(),
        data: data(vec![("input", GateValue::Integer(1))]),
    };
    match gate_event_to_record(&call).unwrap().content {
        EventContent::ToolCall { syscall, args_field } => {
            assert_eq!(syscall, "tool");
            assert_eq!(args_field, ArgsField::Input);
            assert_eq!(json_field(&EventContent::ToolCall { syscall: String::new(), args_field }), Some("input"));
        }
        other => panic!("unexpected {other:?}"),
    }
    let bare = GateEvent { event_id: "0".to_string(), topic: "door:tool".to_string(), data: data(vec![]) };
    assert!(matches!(gate_event_to_record(&bare).unwrap().content, EventContent::Text(t) if t == "Tool call: `tool`"));
    let error = GateEvent {
        event_id: "2".to_string(),
        topic: "door:tool_result".to_string(),
        data: data(vec![("is_error", GateValue::Bool(true))]),
    };
    assert!(matches!(gate_event_to_record(&error).unwrap().content, EventContent::Text(t) if t == "Tool error"));
    let ok = GateEvent {
        event_id: "3".to_string(),
        topic: "door:tool_result".to_string(),
        data: data(vec![("content", s("ok"))]),
    };
    assert!(matches!(gate_event_to_record(&ok).unwrap().content, EventContent::Text(t) if t == "Tool result\n```\nok\n```"));
    let structured = GateEvent {
        event_id: "4".to_string(),
        topic: "door:tool_result".to_string(),
        data: data(vec![("content", GateValue::Integer(7))]),
    };
    let record = gate_event_to_record(&structured).unwrap();
    assert!(matches!(record.content, EventContent::ToolResult { is_error: false }));
    assert_eq!(record_text(record.content, "7"), "Tool result\n```\n7\n```");
    assert_eq!(format_tool_call("fs:read", ""), "Tool call: `fs:read`");
    assert_eq!(
        format_tool_call("fs:read", "{\"a\":1}"),
        "Tool call: `fs:read`\n```json\n{\"a\":1}\n```"
    );
    assert_eq!(format_tool_result(false, ""), "Tool result");
    assert_eq!(format_tool_result(true, "oops"), "Tool error\n```\noops\n```");
}

#[test]
fn room_event_keeps_record_fields() {
    let e = GateEvent {
        event_id: "1".to_string(),
        topic: "door:thought".to_string(),
        data: data(vec![("content", s("hmm")), ("from", s("prior"))]),
    };
    match gate_event_to_live_message(&e, "") {
        Some(LiveServerMessage::RoomEvent { room, topic, actor, content }) => {
            assert_eq!(room, None);
            assert_eq!(topic, "door:thought");
            assert_eq!(actor.as_deref(), Some("prior"));
            assert_eq!(content, "hmm");
        }
        other => panic!("unexpected {other:?}"),
    }
    let call = GateEvent {
        event_id: "2".to_string(),
        topic: "door:tool".to_string(),
        data: data(vec![("syscall", s("fs:read")), ("args", GateValue::Null)]),
    };
    match gate_event_to_live_message(&call, "null") {
        Some(LiveServerMessage::RoomEvent { content, .. }) => {
            assert_eq!(content, "Tool call: `fs:read`\n```json\nnull\n```")
        }
        other => panic!("unexpected {other:?}"),
    }
    let hidden = GateEvent { event_id: "3".to_string(), topic: "door:presence".to_string(), data: data(vec![]) };
    assert!(gate_event_to_live_message(&hidden, "").is_none());
}

#[test]
fn pending_table_routes_frames() {
    let mut t = PendingTable::new();
    t.insert("a".to_string(), PendingKind::Collect { syscall: "room:join".to_string(), responses: vec![] });
    t.insert("b".to_string(), PendingKind::FactoryStream);
    assert!(matches!(t.on_response(resp("zzz", ResponseOp::Item)), PendingOutcome::Unknown));
    assert!(matches!(t.on_response(resp("a", ResponseOp::Item)), PendingOutcome::Collected));
    match t.on_response(resp("a", ResponseOp::Done)) {
        PendingOutcome::Completed { request_id, responses } => {
            assert_eq!(request_id, "a");
            assert_eq!(responses.len(), 2);
        }
        other => panic!("unexpected {other:?}"),
    }
    assert!(matches!(t.on_response(resp("a", ResponseOp::Done)), PendingOutcome::Unknown));
    let mut item = resp("b", ResponseOp::Item);
    item.item = Some(ResponseItem { data: None });
    match t.on_response(item) {
        PendingOutcome::Stream { item, closed } => {
            assert!(item.is_some());
            assert!(!closed);
        }
        other => panic!("unexpected {other:?}"),
    }
    match t.on_response(resp("b", ResponseOp::Cancel)) {
        PendingOutcome::Stream { closed, .. } => assert!(closed),
        other => panic!("unexpected {other:?}"),
    }
    assert!(t.entries.is_empty());
}

#[test]
fn pending_table_reports_errors() {
    let mut t = PendingTable::new();
    t.insert("x".to_string(), PendingKind::Collect { syscall: "door:message".to_string(), responses: vec![] });
    let mut e = resp("x", ResponseOp::Error);
    e.error = Some(ErrorBody { code: "busy".to_string(), message: "later".to_string() });
    match t.on_response(e) {
        PendingOutcome::Failed { request_id, message } => {
            assert_eq!(request_id, "x");
            assert_eq!(message, "door:message failed: busy: later");
        }
        other => panic!("unexpected {other:?}"),
    }
    assert!(t.remove("x").is_none());
}

#[test]
fn envelopes_are_routed_by_body() {
    let ev = GateEvent { event_id: "e1".to_string(), topic: "door:chat".to_string(), data: None };
    assert!(matches!(route_envelope(Some(ServerBody::Event(ev))), EnvelopeRoute::Event(e) if e.event_id == "e1"));
    let resp = GateResponse { request_id: "7".to_string(), op: ResponseOp::Done, item: None, error: None };
    assert!(matches!(route_envelope(Some(ServerBody::Response(resp))), EnvelopeRoute::Response(r) if r.request_id == "7"));
    assert!(matches!(route_envelope(Some(ServerBody::Pong)), EnvelopeRoute::Ignore));
    assert!(matches!(route_envelope(Some(ServerBody::Hello(ServerHello { server_name: "g".to_string() }))), EnvelopeRoute::Ignore));
    assert!(matches!(route_envelope(None), EnvelopeRoute::Ignore));
}

#[test]
fn factory_stream_items_reach_the_browser() {
    assert!(factory_stream_message(None).is_none());
    assert!(matches!(
        factory_stream_message(Some(Ok(FactoryEvent { data: None }))),
        Some(LiveServerMessage::FactoryEvent { event }) if event.data.is_none()
    ));
    assert!(matches!(
        factory_stream_message(Some(Err("decode response item: bad".to_string()))),
        Some(LiveServerMessage::Error { message }) if message == "decode response item: bad"
    ));
}
