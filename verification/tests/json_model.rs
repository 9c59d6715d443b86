use aci::{Json, JsonNumber, JsonObject};

fn text(j: Option<&Json>) -> Option<String> {
    match j {
        Some(Json::String(s)) => Some(s.clone()),
        _ => None,
    }
}

#[test]
fn insert_then_get_gives_back_the_value() {
    let mut o = JsonObject::new();
    assert!(o.insert("a".to_string(), Json::from_str("one")).is_none());
    assert!(o.insert("b".to_string(), Json::from_usize(2)).is_none());
    assert_eq!(text(o.get("a")), Some("one".to_string()));
    match o.get("b") {
        Some(Json::Number(n)) => assert_eq!(n.as_u64(), Some(2)),
        other => panic!("unexpected {:?}", other),
    }
    assert!(o.get("c").is_none());
}

#[test]
fn insert_over_a_key_replaces_and_returns_old_value() {
    let mut o = JsonObject::new();
    o.insert("k".to_string(), Json::from_str("old"));
    let previous = o.insert("k".to_string(), Json::from_str("new"));
    assert_eq!(text(previous.as_ref()), Some("old".to_string()));
    assert_eq!(text(o.get("k")), Some("new".to_string()));
    assert_eq!(o.into_entries().len(), 1);
}

#[test]
fn remove_takes_the_value_out() {
    let mut o = JsonObject::new();
    o.insert("x".to_string(), Json::Bool(true));
    o.insert("y".to_string(), Json::Null);
    match o.remove("x") {
        Some(Json::Bool(true)) => {}
        other => panic!("unexpected {:?}", other),
    }
    assert!(!o.contains_key("x"));
    assert!(o.contains_key("y"));
    assert!(o.remove("x").is_none());
    assert_eq!(o.into_entries().len(), 1);
}

#[test]
fn numbers_other_than_unsigned_are_not_u64() {
    assert_eq!(JsonNumber::from_u64(7).as_u64(), Some(7));
    assert!(JsonNumber::from_u64(7).is_u64());
    assert_eq!(JsonNumber::from_i64(-7).as_u64(), None);
    assert_eq!(JsonNumber::from_i64(-7).as_i64(), Some(-7));
    assert!(!JsonNumber::from_i64(-7).is_u64());
    let d = JsonNumber::from_decimal("1.5".to_string());
    assert_eq!(d.as_u64(), None);
    assert_eq!(d.as_i64(), None);
    assert_eq!(d.as_decimal().map(|t| t.as_str()), Some("1.5"));
}

#[test]
fn non_negative_signed_integers_are_held_unsigned() {
    assert_eq!(JsonNumber::from_i64(5).as_u64(), Some(5));
    assert_eq!(JsonNumber::from_u64(u64::MAX).as_i64(), None);
    assert_eq!(JsonNumber::from_u64(3).as_i64(), Some(3));
}

#[test]
fn numbers_from_parser_parts() {
    assert_eq!(JsonNumber::from_parts(Some(4), Some(4), "4".to_string()).as_u64(), Some(4));
    let neg = JsonNumber::from_parts(None, Some(-2), "-2".to_string());
    assert_eq!((neg.as_u64(), neg.as_i64()), (None, Some(-2)));
    let dec = JsonNumber::from_parts(None, None, "2.5".to_string());
    assert_eq!(dec.as_decimal().map(|t| t.as_str()), Some("2.5"));
}

#[test]
fn is_str_and_is_object() {
    assert!(Json::from_str("ok").is_str("ok"));
    assert!(!Json::from_str("ok").is_str("ack"));
    assert!(!Json::Null.is_str("ok"));
    assert!(Json::Object(JsonObject::new()).is_object());
    assert!(!Json::Array(vec![]).is_object());
}
