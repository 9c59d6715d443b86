use aci::{event_request, reply_id, request_object, route_message, tag_request, Json, JsonObject, Route};

fn obj(fields: Vec<(&str, Json)>) -> Json {
    let mut o = JsonObject::new();
    for (k, v) in fields {
        o.insert(k.to_string(), v);
    }
    Json::Object(o)
}

fn s(t: &str) -> Json {
    Json::from_str(t)
}

fn event_message() -> Json {
    obj(vec![
        ("cmd", s("event")),
        ("event_id", s("EVENT_3_a->b")),
        ("data", Json::from_usize(5)),
        ("origin", s("a")),
        ("destination", s("b")),
    ])
}

#[test]
fn reply_id_reads_unique_id() {
    assert_eq!(reply_id(&obj(vec![("unique_id", Json::from_usize(12))])), Some(12));
    assert_eq!(reply_id(&obj(vec![("unique_id", s("12"))])), None);
    assert_eq!(reply_id(&obj(vec![])), None);
    assert_eq!(reply_id(&Json::Null), None);
}

#[test]
fn waiting_reply_goes_back_unchanged() {
    match route_message(obj(vec![("unique_id", Json::from_usize(3)), ("mode", s("ok"))]), true) {
        Route::Reply(3, Json::Object(o)) => assert!(o.get("mode").unwrap().is_str("ok")),
        other => panic!("unexpected {:?}", other),
    }
}

#[test]
fn reply_nobody_waits_for_is_dropped() {
    assert!(matches!(route_message(obj(vec![("unique_id", Json::from_usize(3)), ("mode", s("ok"))]), false), Route::Ignore));
}

#[test]
fn event_is_delivered() {
    match route_message(event_message(), false) {
        Route::Event(ev) => {
            assert_eq!(ev.source, "a");
            assert_eq!(ev.destination, "b");
            assert!(ev.event_id.is_str("EVENT_3_a->b"));
            match ev.consume() {
                Json::Number(n) => assert_eq!(n.as_u64(), Some(5)),
                other => panic!("unexpected {:?}", other),
            }
        }
        other => panic!("unexpected {:?}", other),
    }
}

#[test]
fn event_with_missing_or_bad_parts_is_dropped() {
    let mut without_data = event_message();
    if let Json::Object(o) = &mut without_data {
        o.remove("data");
    }
    assert!(matches!(route_message(without_data, false), Route::Ignore));
    let mut bad_origin = event_message();
    if let Json::Object(o) = &mut bad_origin {
        o.insert("origin".to_string(), Json::from_usize(1));
    }
    assert!(matches!(route_message(bad_origin, false), Route::Ignore));
    let mut other_cmd = event_message();
    if let Json::Object(o) = &mut other_cmd {
        o.insert("cmd".to_string(), s("note"));
    }
    assert!(matches!(route_message(other_cmd, false), Route::Ignore));
    assert!(matches!(route_message(Json::Array(vec![]), true), Route::Ignore));
}

#[test]
fn sent_event_comes_back_as_the_same_event() {
    let req = event_request("EVENT_0_a->b", "a", "b", s("payload"));
    let packet = match request_object(req) {
        Ok(o) => tag_request(o, 8),
        Err(_) => panic!("an event request is an object"),
    };
    assert_eq!(reply_id(&packet), Some(8));
    match route_message(packet, false) {
        Route::Event(ev) => {
            assert_eq!(ev.source, "a");
            assert_eq!(ev.destination, "b");
            assert!(ev.event_id.is_str("EVENT_0_a->b"));
            assert!(ev.consume().is_str("payload"));
        }
        other => panic!("unexpected {:?}", other),
    }
}

#[test]
fn tagged_request_reply_finds_its_request() {
    let packet = match request_object(obj(vec![("cmd", s("list_keys"))])) {
        Ok(o) => tag_request(o, 41),
        Err(_) => panic!("an object"),
    };
    let id = reply_id(&packet).unwrap();
    assert!(matches!(route_message(packet, true), Route::Reply(41, _)));
    assert_eq!(id, 41);
}
