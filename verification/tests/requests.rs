use aci::{
    append_list_request, auth_request, create_database_request, event_request, get_index_request,
    get_list_length_request, get_recent_request, get_value_request, list_databases_request,
    list_keys_request, read_from_disk_request, request_object, set_index_request,
    set_value_request, tag_request, write_to_disk_request, ACIError, Json, JsonObject,
};

fn fields(j: Json) -> Vec<(String, Json)> {
    match j {
        Json::Object(o) => {
            let mut es = o.into_entries();
            es.sort_by(|a, b| a.0.cmp(&b.0));
            es
        }
        other => panic!("not an object: {:?}", other),
    }
}

fn describe(j: &Json) -> String {
    match j {
        Json::String(s) => format!("s:{}", s),
        Json::Number(n) => format!("n:{:?}", n.as_u64()),
        Json::Bool(b) => format!("b:{}", b),
        Json::Null => "null".to_string(),
        Json::Array(a) => format!("a:{}", a.len()),
        Json::Object(_) => "obj".to_string(),
    }
}

fn shape(j: Json) -> Vec<String> {
    fields(j).iter().map(|(k, v)| format!("{}={}", k, describe(v))).collect()
}

#[test]
fn auth_request_fields() {
    assert_eq!(shape(auth_request("USERNAME", "PASSWORD")), vec!["cmd=s:a_auth", "id=s:USERNAME", "token=s:PASSWORD"]);
}

#[test]
fn database_requests_fields() {
    assert_eq!(shape(read_from_disk_request("db")), vec!["cmd=s:read_from_disk", "db_key=s:db"]);
    assert_eq!(shape(write_to_disk_request("db")), vec!["cmd=s:write_to_disk", "db_key=s:db"]);
    assert_eq!(shape(list_keys_request("db")), vec!["cmd=s:list_keys", "db_key=s:db"]);
    assert_eq!(shape(create_database_request("db")), vec!["cmd=s:create_database", "db_key=s:db"]);
}

#[test]
fn list_databases_sends_list_keys_without_a_database() {
    assert_eq!(shape(list_databases_request()), vec!["cmd=s:list_keys"]);
}

#[test]
fn key_requests_fields() {
    assert_eq!(shape(get_value_request("db", "k")), vec!["cmd=s:get_value", "db_key=s:db", "key=s:k"]);
    assert_eq!(shape(get_list_length_request("db", "k")), vec!["cmd=s:get_list_length", "db_key=s:db", "key=s:k"]);
    assert_eq!(shape(set_value_request("db", "k", Json::Bool(true))), vec!["cmd=s:set_value", "db_key=s:db", "key=s:k", "val=b:true"]);
    assert_eq!(shape(append_list_request("db", "k", Json::Null)), vec!["cmd=s:append_list", "db_key=s:db", "key=s:k", "val=null"]);
}

#[test]
fn index_requests_fields() {
    assert_eq!(shape(get_index_request("db", "k", 3)), vec!["cmd=s:get_index", "db_key=s:db", "index=n:Some(3)", "key=s:k"]);
    assert_eq!(
        shape(set_index_request("db", "k", 4, Json::from_str("v"))),
        vec!["cmd=s:set_index", "db_key=s:db", "index=n:Some(4)", "key=s:k", "val=s:v"]
    );
}

#[test]
fn get_recent_asks_get_index_with_a_count() {
    assert_eq!(shape(get_recent_request("db", "k", 5)), vec!["cmd=s:get_index", "db_key=s:db", "key=s:k", "num=n:Some(5)"]);
}

#[test]
fn event_request_fields() {
    assert_eq!(
        shape(event_request("EVENT_0_a->b", "a", "b", Json::from_usize(9))),
        vec!["cmd=s:event", "data=n:Some(9)", "destination=s:b", "event_id=s:EVENT_0_a->b", "origin=s:a"]
    );
}

#[test]
fn only_objects_can_be_sent() {
    match request_object(Json::from_str("x")) {
        Err(ACIError::ClientError(e)) => assert_eq!(e.to_string(), "Bad JSON Packet"),
        _ => panic!("expected a client error"),
    }
    assert!(request_object(Json::Object(JsonObject::new())).is_ok());
}

#[test]
fn tagging_adds_the_unique_id() {
    let obj = match request_object(list_keys_request("db")) {
        Ok(o) => o,
        Err(_) => panic!("expected an object"),
    };
    assert_eq!(shape(tag_request(obj, 17)), vec!["cmd=s:list_keys", "db_key=s:db", "unique_id=n:Some(17)"]);
}
