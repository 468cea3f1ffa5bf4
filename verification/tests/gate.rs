use prior_web::net::gate::{
    client_hello, connect_data, disconnect_with_result, extract_string_field, failure_message,
    hello_reply, history_data, i64_number_value, import_request, is_terminal, join_data,
    last_item, message_data, response_error_text, response_items, rooms_from_responses,
    run_id_data, session_from_first_item, session_from_responses, string_value, subscribe_data,
    usize_number_value, value_as_bool, value_as_string, CollectStep, ErrorBody, GateEvent,
    GateResponse, GateStruct, GateValue, RequestCollector, RequestCounter, ResponseItem,
    ResponseOp, ServerBody, ServerHello,
};

fn item_with(key: &str, value: &str) -> ResponseItem {
    ResponseItem {
        data: Some(GateStruct { fields: vec![(key.to_string(), GateValue::Str(value.to_string()))] }),
    }
}

fn response(id: &str, op: ResponseOp, item: Option<ResponseItem>) -> GateResponse {
    GateResponse { request_id: id.to_string(), op, item, error: None }
}

#[test]
fn struct_get_reads_last_occurrence() {
    let s = GateStruct {
        fields: vec![
            ("a".to_string(), GateValue::Integer(1)),
            ("b".to_string(), GateValue::Bool(true)),
            ("a".to_string(), GateValue::Integer(2)),
        ],
    };
    assert!(matches!(s.get("a"), Some(GateValue::Integer(2))));
    assert!(matches!(s.get("b"), Some(GateValue::Bool(true))));
    assert!(s.get("c").is_none());
    assert!(GateStruct::empty().fields.is_empty());
}

#[test]
fn value_accessors() {
    assert_eq!(value_as_string(&string_value("x")).as_deref(), Some("x"));
    assert_eq!(value_as_string(&GateValue::Null), None);
    assert_eq!(value_as_bool(&GateValue::Bool(false)), Some(false));
    assert_eq!(value_as_bool(&GateValue::Integer(1)), None);
}

#[test]
fn error_texts() {
    let mut r = response("1", ResponseOp::Error, None);
    assert_eq!(response_error_text(&r), "request failed");
    r.error = Some(ErrorBody { code: "denied".to_string(), message: "nope".to_string() });
    assert_eq!(response_error_text(&r), "denied: nope");
    assert_eq!(failure_message("door:rooms", &r), "door:rooms failed: denied: nope");
    assert!(is_terminal(ResponseOp::Done));
    assert!(is_terminal(ResponseOp::Cancel));
    assert!(!is_terminal(ResponseOp::Item));
    assert!(!is_terminal(ResponseOp::Error));
}

#[test]
fn hello_and_reply() {
    let h = client_hello(Some("tok".to_string()), "github:1".to_string(), "web");
    assert_eq!(h.protocol_version, "prior.gate.v1");
    assert_eq!(h.client_name, "prior-web");
    assert_eq!(h.metadata, vec![("surface".to_string(), "web".to_string())]);
    assert_eq!(h.user_id.as_deref(), Some("github:1"));
    let ok = hello_reply(Some(ServerBody::Hello(ServerHello { server_name: "gate-a".to_string() })));
    assert_eq!(ok.unwrap().server_name, "gate-a");
    assert_eq!(hello_reply(Some(ServerBody::Pong)).unwrap_err(), "expected server hello");
    assert_eq!(hello_reply(None).unwrap_err(), "expected server hello");
}

#[test]
fn collector_gathers_until_done() {
    let mut c = RequestCollector::new("r1".to_string(), "door:rooms".to_string(), None);
    let step = c.step(Some(ServerBody::Response(response("r1", ResponseOp::Item, Some(item_with("room", "a"))))));
    assert!(matches!(step, CollectStep::Pending));
    let step = c.step(Some(ServerBody::Response(response("other", ResponseOp::Done, None))));
    assert!(matches!(step, CollectStep::Pending));
    let step = c.step(Some(ServerBody::Event(GateEvent {
        event_id: "e9".to_string(),
        topic: "door:chat".to_string(),
        data: None,
    })));
    assert!(matches!(step, CollectStep::Pending));
    assert_eq!(c.last_event.as_deref(), Some("door:chat: e9"));
    match c.step(Some(ServerBody::Response(response("r1", ResponseOp::Done, None)))) {
        CollectStep::Finished(all) => {
            assert_eq!(all.len(), 2);
            assert_eq!(all[1].op, ResponseOp::Done);
        }
        other => panic!("unexpected {other:?}"),
    }
    assert!(c.responses.is_empty());
}

#[test]
fn collector_fails_on_error_frame() {
    let mut c = RequestCollector::new("r2".to_string(), "door:join".to_string(), None);
    let mut r = response("r2", ResponseOp::Error, None);
    r.error = Some(ErrorBody { code: "x".to_string(), message: "y".to_string() });
    match c.step(Some(ServerBody::Response(r))) {
        CollectStep::Failed(m) => assert_eq!(m, "door:join failed: x: y"),
        other => panic!("unexpected {other:?}"),
    }
}

#[test]
fn request_ids_count_up() {
    let mut c = RequestCounter::new();
    assert_eq!(c.allocate(), "prior-web-1");
    assert_eq!(c.allocate(), "prior-web-2");
    let mut live = RequestCounter { next: u64::MAX };
    assert_eq!(live.allocate_live(), format!("prior-web-live-{}", u64::MAX));
    assert_eq!(live.next, 0);
    assert_eq!(live.allocate_live(), "prior-web-live-0");
}

#[test]
fn rooms_are_sorted_and_unique() {
    let rs = vec![
        response("1", ResponseOp::Item, Some(item_with("room", "zeta"))),
        response("1", ResponseOp::Item, Some(item_with("room", "alpha"))),
        response("1", ResponseOp::Item, Some(item_with("other", "x"))),
        response("1", ResponseOp::Item, Some(item_with("room", "zeta"))),
        response("1", ResponseOp::Done, None),
    ];
    assert_eq!(rooms_from_responses(&rs), vec!["alpha", "zeta"]);
}

#[test]
fn session_ids() {
    let rs = vec![
        response("1", ResponseOp::Item, Some(item_with("x", "y"))),
        response("1", ResponseOp::Item, Some(item_with("session", "s-1"))),
    ];
    assert_eq!(session_from_responses(&rs).unwrap(), "s-1");
    assert_eq!(
        session_from_first_item(&rs).unwrap_err(),
        "door:connect did not return a session id"
    );
    let none: Vec<GateResponse> = vec![];
    assert_eq!(
        session_from_responses(&none).unwrap_err(),
        "door:connect did not return a session id"
    );
    assert_eq!(extract_string_field(&item_with("room", "r"), "room").as_deref(), Some("r"));
    assert_eq!(extract_string_field(&ResponseItem { data: None }, "room"), None);
}

#[test]
fn items_and_results() {
    let rs = vec![
        response("1", ResponseOp::Item, Some(item_with("a", "1"))),
        response("1", ResponseOp::Item, None),
        response("1", ResponseOp::Done, Some(item_with("b", "2"))),
    ];
    assert_eq!(response_items(rs).len(), 2);
    assert_eq!(last_item(vec![1, 2, 3], "x").unwrap(), 3);
    assert_eq!(last_item(Vec::<i32>::new(), "repo:import").unwrap_err(), "repo:import returned no items");
    assert_eq!(disconnect_with_result(Ok::<i32, String>(1), Ok(())).unwrap(), 1);
    assert_eq!(disconnect_with_result(Ok::<i32, String>(1), Err("d".to_string())).unwrap_err(), "d");
    assert_eq!(disconnect_with_result(Err::<i32, String>("r".to_string()), Err("d".to_string())).unwrap_err(), "r");
}

#[test]
fn numbers_must_be_safe_integers() {
    assert!(matches!(i64_number_value(9_007_199_254_740_991), Ok(GateValue::Integer(9_007_199_254_740_991))));
    assert_eq!(
        i64_number_value(-9_007_199_254_740_992).unwrap_err(),
        "integer -9007199254740992 exceeds protobuf Struct safe numeric range"
    );
    assert!(matches!(usize_number_value(20), Ok(GateValue::Integer(20))));
    assert!(usize_number_value(9_007_199_254_740_992).is_err());
    assert!(run_id_data("run_id", 5).is_ok());
    assert!(run_id_data("run_id", i64::MAX).is_err());
}

#[test]
fn payloads() {
    let d = connect_data("github:7");
    assert_eq!(d.fields[0].0, "from");
    let j = join_data("s", "room");
    assert_eq!(j.fields.len(), 2);
    let m = message_data("s", "room", "hi");
    assert!(matches!(&m.fields[2].1, GateValue::Str(c) if c == "hi"));
    let h = history_data(Some(10), Some(5)).unwrap();
    assert_eq!(h.fields[0].0, "before");
    assert_eq!(h.fields[1].0, "limit");
    assert!(history_data(None, None).unwrap().fields.is_empty());
    assert!(history_data(Some(i64::MIN), None).is_err());
    let (data, secrets) = import_request("u", "o", "n", None, Some("session-tok".to_string()));
    assert_eq!(data.fields.len(), 3);
    let secrets = secrets.unwrap();
    assert!(matches!(&secrets.fields[0].1, GateValue::Str(t) if t == "session-tok"));
    let (_, given) = import_request("u", "o", "n", Some("mine".to_string()), Some("s".to_string()));
    assert!(matches!(&given.unwrap().fields[0].1, GateValue::Str(t) if t == "mine"));
    let (_, none) = import_request("u", "o", "n", None, None);
    assert!(none.is_none());
    assert!(matches!(subscribe_data(None).fields[0].1, GateValue::Null));
    assert!(matches!(&subscribe_data(Some("acme/app")).fields[0].1, GateValue::Str(t) if t == "acme/app"));
}
