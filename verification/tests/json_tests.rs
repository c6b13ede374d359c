use mcp_server_context7::json::lookup;
use mcp_server_context7::json::JsonValue;

#[test]
fn lookup_finds_a_field_by_name() {
    let fields = vec![
        ("alpha".to_string(), JsonValue::Number),
        ("beta".to_string(), JsonValue::Null),
    ];
    assert!(matches!(
        lookup(&fields, &"beta".to_string()),
        Some(JsonValue::Null)
    ));
    assert!(lookup(&fields, &"gamma".to_string()).is_none());
}

#[test]
fn lookup_takes_the_first_occurrence() {
    let fields = vec![
        ("key".to_string(), JsonValue::JsonString("first".to_string())),
        ("key".to_string(), JsonValue::JsonString("second".to_string())),
    ];
    match lookup(&fields, &"key".to_string()) {
        Some(JsonValue::JsonString(v)) => assert_eq!(v, "first"),
        other => panic!("unexpected lookup result: {:?}", other),
    }
}
