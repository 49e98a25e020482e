use regis::json::{merge_json_values, parse_json_text, JsonValue};
use regis::parser::{auth_methods_from_document, session_authorization_from_document};
use regis::registry::status_from_document;
use regis::tokens::{expiring_by, parse_rfc3339, sign_in_from_document, token_from_access};

fn doc(text: &str) -> JsonValue {
    parse_json_text(text).unwrap()
}

fn field<'a>(v: &'a JsonValue, key: &str) -> &'a JsonValue {
    v.get_field(key).unwrap()
}

#[test]
fn user_values_override_and_nested_objects_merge() {
    let base = doc(r#"{"a":1,"nested":{"x":"keep","y":"old"},"list":[1,2,3]}"#);
    let user = doc(r#"{"nested":{"y":"new","z":true},"list":[9],"extra":"added"}"#);
    let merged = merge_json_values(base, user);
    assert_eq!(merged.get_u64("a"), Some(1));
    let nested = field(&merged, "nested");
    assert_eq!(nested.get_str("x").as_deref(), Some("keep"));
    assert_eq!(nested.get_str("y").as_deref(), Some("new"));
    assert!(matches!(nested.get_field("z"), Some(JsonValue::Bool(true))));
    match field(&merged, "list") {
        JsonValue::Array(items) => assert_eq!(items.len(), 1),
        _ => panic!("expected an array"),
    }
    assert_eq!(merged.get_str("extra").as_deref(), Some("added"));
}

#[test]
fn non_object_user_value_replaces() {
    let merged = merge_json_values(doc(r#"{"a":1}"#), doc("5"));
    assert!(matches!(merged, JsonValue::Number(n) if n.as_u64 == Some(5)));
    let merged = merge_json_values(doc("[1]"), doc(r#"{"b":2}"#));
    assert_eq!(merged.get_u64("b"), Some(2));
}

#[test]
fn documents_read_directly() {
    let members = vec![("items".to_string(), JsonValue::Array(vec![JsonValue::Object(vec![(
        "type".to_string(),
        JsonValue::Str("oidc".to_string()),
    )])]))];
    let methods = auth_methods_from_document(&JsonValue::Object(members)).unwrap();
    assert_eq!(methods.len(), 1);
    assert_eq!(methods[0].method_type, "oidc");
    assert_eq!(methods[0].id, "");
    assert!(auth_methods_from_document(&JsonValue::Bool(true)).is_err());
    assert!(session_authorization_from_document(&doc(r#"{"authorization_token":"a"}"#)).is_err());
    assert_eq!(status_from_document(&doc(r#"{"status":"active"}"#)), "healthy");
    assert_eq!(status_from_document(&doc(r#"{"status":"canceling"}"#)), "session_status_canceling");
    let s = sign_in_from_document(&doc(r#"{"token":"","user_id":"u"}"#));
    assert!(s.access_token.is_none());
    let t = token_from_access("tok".to_string(), s, "srv", "c".to_string());
    assert_eq!(t.access_token, "tok");
    assert_eq!(t.user_id, "u");
    assert_eq!(t.refresh_token, None);
}

#[test]
fn expiry_window_arithmetic() {
    let now = parse_rfc3339("2024-06-01T12:00:00.5Z").unwrap();
    let expiry = parse_rfc3339("2024-06-01T12:05:00.5Z").unwrap();
    assert!(expiring_by(expiry, 5, now));
    assert!(!expiring_by(expiry, 4, now));
    assert_eq!(now.nanos, 500_000_000);
}
