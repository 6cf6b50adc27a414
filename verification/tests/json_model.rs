use zed_oxc::json::{JsonObject, JsonValue};

fn text(s: &str) -> JsonValue {
    JsonValue::String(s.to_string())
}

#[test]
fn object_reads_back_what_was_written() {
    let mut o = JsonObject::new();
    assert!(o.get("a").is_none());
    assert_eq!(o.insert("a".to_string(), text("one")), None);
    assert_eq!(o.insert("b".to_string(), JsonValue::Bool(true)), None);
    assert_eq!(o.get("a"), Some(&text("one")));
    assert_eq!(o.insert("a".to_string(), text("two")), Some(text("one")));
    assert_eq!(o.get("a"), Some(&text("two")));
    assert_eq!(o.entries().len(), 2);
    assert_eq!(o.remove("a"), Some(text("two")));
    assert!(o.get("a").is_none());
    assert_eq!(o.remove("a"), None);
    assert_eq!(o.get("b"), Some(&JsonValue::Bool(true)));
}

#[test]
fn object_extend_prefers_the_other_object() {
    let mut target = JsonObject::new();
    target.insert("keep".to_string(), text("mine"));
    target.insert("shared".to_string(), text("mine"));
    let mut other = JsonObject::new();
    other.insert("shared".to_string(), text("theirs"));
    other.insert("new".to_string(), JsonValue::Null);
    target.extend(other);
    assert_eq!(target.get("keep"), Some(&text("mine")));
    assert_eq!(target.get("shared"), Some(&text("theirs")));
    assert_eq!(target.get("new"), Some(&JsonValue::Null));
    assert_eq!(target.into_entries().len(), 3);
}

#[test]
fn value_accessors_follow_the_value_kind() {
    let mut o = JsonObject::new();
    o.insert("k".to_string(), text("v"));
    let object = JsonValue::Object(o);
    assert!(object.is_object());
    assert_eq!(object.get("k").and_then(|v| v.as_str()), Some("v"));
    assert!(object.get("missing").is_none());
    assert!(text("k").get("k").is_none());
    assert!(JsonValue::Null.get("k").is_none());
    assert_eq!(text("x").as_str(), Some("x"));
    assert_eq!(JsonValue::Number("1".to_string()).as_str(), None);
    assert!(JsonValue::Array(vec![]).as_array().is_some());
    assert!(object.as_array().is_none());
    assert!(JsonValue::Bool(true).is_true());
    assert!(!JsonValue::Bool(false).is_true());
    assert!(!text("true").is_true());
}
