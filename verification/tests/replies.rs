use aci::{
    ack_reply, auth_reply, check_reply, keys_reply, length_reply, next_index_reply, ok_reply,
    value_reply, ACIError, Json, JsonNumber, JsonObject, ReplyFault,
};

fn obj(fields: Vec<(&str, Json)>) -> Json {
    let mut o = JsonObject::new();
    for (k, v) in fields {
        o.insert(k.to_string(), v);
    }
    Json::Object(o)
}

fn s(t: &str) -> Json {
    Json::from_str(t)
}

fn server_text(r: Result<Json, ACIError>) -> String {
    match r {
        Err(ACIError::ServerError(e)) => e.to_string(),
        Err(ACIError::ClientError(e)) => panic!("client error {}", e.to_string()),
        Ok(j) => panic!("passed: {:?}", j),
    }
}

fn is_malformed<T: std::fmt::Debug>(r: Result<T, ReplyFault>) -> bool {
    matches!(r, Err(ReplyFault::Malformed(_)))
}

#[test]
fn ok_reply_passes_unchanged() {
    match check_reply(obj(vec![("mode", s("ok")), ("val", Json::from_usize(1))])) {
        Ok(Json::Object(o)) => {
            assert!(o.get("mode").unwrap().is_str("ok"));
            assert!(o.contains_key("val"));
        }
        other => panic!("unexpected {:?}", other),
    }
}

#[test]
fn non_object_reply_passes() {
    assert!(matches!(check_reply(Json::Null), Ok(Json::Null)));
}

#[test]
fn refused_request_gives_server_error_with_its_message() {
    assert_eq!(server_text(check_reply(obj(vec![("mode", s("error")), ("msg", s("no such db"))]))), "no such db");
}

#[test]
fn refused_request_without_message() {
    assert_eq!(server_text(check_reply(obj(vec![("mode", s("error"))]))), "Unknown Error: No msg field");
    assert_eq!(
        server_text(check_reply(obj(vec![("mode", s("error")), ("msg", Json::from_usize(3))]))),
        "Unknown Error: Malformed msg field"
    );
}

#[test]
fn reply_without_string_mode_is_refused() {
    assert_eq!(server_text(check_reply(obj(vec![("val", s("x"))]))), "Malformed packet, no `mode` field");
    assert_eq!(
        server_text(check_reply(obj(vec![("mode", Json::Bool(true))]))),
        "Malformed packet, `mode` field is not a string"
    );
}

#[test]
fn auth_reply_reads_success() {
    assert!(matches!(auth_reply(obj(vec![("mode", s("ok")), ("msg", s("success"))])), Ok(true)));
    assert!(matches!(auth_reply(obj(vec![("mode", s("ok")), ("msg", s("denied"))])), Ok(false)));
    assert!(is_malformed(auth_reply(obj(vec![("mode", s("ok"))]))));
    assert!(is_malformed(auth_reply(obj(vec![("mode", s("ack")), ("msg", s("success"))]))));
    assert!(is_malformed(auth_reply(obj(vec![("mode", s("ok")), ("msg", Json::Null)]))));
}

#[test]
fn ok_and_ack_replies() {
    assert!(ok_reply(obj(vec![("mode", s("ok"))])).is_ok());
    assert!(is_malformed(ok_reply(obj(vec![("mode", s("ack"))]))));
    assert!(ack_reply(obj(vec![("mode", s("ack"))])).is_ok());
    assert!(is_malformed(ack_reply(obj(vec![("mode", s("ok"))]))));
    assert!(is_malformed(ok_reply(Json::Null)));
}

#[test]
fn value_reply_hands_out_the_value() {
    match value_reply(obj(vec![("mode", s("ok")), ("val", s("hello"))])) {
        Ok(v) => assert!(v.is_str("hello")),
        Err(f) => panic!("unexpected {:?}", f),
    }
    assert!(matches!(value_reply(obj(vec![("mode", s("ok")), ("val", Json::Null)])), Ok(Json::Null)));
    assert!(is_malformed(value_reply(obj(vec![("mode", s("ok"))]))));
}

#[test]
fn malformed_reply_keeps_the_whole_reply() {
    match value_reply(obj(vec![("mode", s("nope")), ("val", s("x"))])) {
        Err(ReplyFault::Malformed(Json::Object(o))) => {
            assert!(o.get("mode").unwrap().is_str("nope"));
            assert!(o.get("val").unwrap().is_str("x"));
        }
        other => panic!("unexpected {:?}", other),
    }
}

#[test]
fn counts_are_read_as_usize() {
    assert_eq!(next_index_reply(obj(vec![("mode", s("ok")), ("next", Json::from_usize(4))])).unwrap(), 4);
    assert_eq!(length_reply(obj(vec![("mode", s("ok")), ("length", Json::from_usize(0))])).unwrap(), 0);
    assert!(is_malformed(length_reply(obj(vec![("mode", s("ok")), ("length", Json::Number(JsonNumber::from_i64(-1)))]))));
    assert!(is_malformed(length_reply(obj(vec![("mode", s("ok")), ("next", Json::from_usize(4))]))));
}

#[test]
fn key_lists_are_read_in_order() {
    let r = keys_reply(obj(vec![("mode", s("ok")), ("val", Json::Array(vec![s("b"), s("a")]))]));
    assert_eq!(r.unwrap(), vec!["b".to_string(), "a".to_string()]);
    let r = keys_reply(obj(vec![("mode", s("ok")), ("val", Json::Array(vec![]))]));
    assert!(r.unwrap().is_empty());
}

#[test]
fn first_non_string_key_is_reported() {
    let r = keys_reply(obj(vec![(
        "mode",
        s("ok"),
    ), ("val", Json::Array(vec![s("a"), Json::from_usize(1), Json::Null]))]));
    match r {
        Err(ReplyFault::NonStringKey(Json::Number(n))) => assert_eq!(n.as_u64(), Some(1)),
        other => panic!("unexpected {:?}", other),
    }
}

#[test]
fn key_list_that_is_not_a_list_is_malformed() {
    assert!(is_malformed(keys_reply(obj(vec![("mode", s("ok")), ("val", s("a"))]))));
    assert!(is_malformed(keys_reply(obj(vec![("mode", s("error")), ("val", Json::Array(vec![]))]))));
}

#[test]
fn faults_become_client_errors() {
    let f = ReplyFault::Malformed(Json::Null);
    assert!(matches!(f.payload(), Json::Null));
    match f.to_error("null") {
        ACIError::ClientError(e) => assert_eq!(e.to_string(), "Response is malformed, `null`"),
        _ => panic!("expected a client error"),
    }
    match ReplyFault::NonStringKey(Json::from_usize(1)).to_error("1") {
        ACIError::ClientError(e) => assert_eq!(e.to_string(), "Key is not a string, `1`"),
        _ => panic!("expected a client error"),
    }
}
