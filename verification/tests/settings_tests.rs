use mcp_server_context7::json::JsonValue;
use mcp_server_context7::settings::resolve_settings;
use mcp_server_context7::settings::SettingsDecodeError;

fn obj(fields: Vec<(&str, JsonValue)>) -> JsonValue {
    JsonValue::Object(
        fields
            .into_iter()
            .map(|(k, v)| (k.to_string(), v))
            .collect(),
    )
}

fn s(v: &str) -> JsonValue {
    JsonValue::JsonString(v.to_string())
}

#[test]
fn absent_raw_value_resolves_to_all_absent() {
    let settings = resolve_settings(None).unwrap();
    assert_eq!(settings.api_key, None);
    assert_eq!(settings.default_minimum_tokens, None);
}

#[test]
fn empty_object_resolves_to_all_absent() {
    let raw = obj(vec![]);
    let settings = resolve_settings(Some(&raw)).unwrap();
    assert_eq!(settings.api_key, None);
    assert_eq!(settings.default_minimum_tokens, None);
}

#[test]
fn present_string_fields_are_taken() {
    let raw = obj(vec![
        ("context7_api_key", s("my-key")),
        ("default_minimum_tokens", s("5000")),
    ]);
    let settings = resolve_settings(Some(&raw)).unwrap();
    assert_eq!(settings.api_key, Some("my-key".to_string()));
    assert_eq!(settings.default_minimum_tokens, Some("5000".to_string()));
}

#[test]
fn null_field_counts_as_absent() {
    let raw = obj(vec![("context7_api_key", JsonValue::Null)]);
    let settings = resolve_settings(Some(&raw)).unwrap();
    assert_eq!(settings.api_key, None);
}

#[test]
fn unknown_fields_are_ignored() {
    let raw = obj(vec![
        ("some_future_option", JsonValue::Bool(true)),
        ("context7_api_key", s("k")),
        ("another", JsonValue::Array(vec![JsonValue::Number])),
    ]);
    let settings = resolve_settings(Some(&raw)).unwrap();
    assert_eq!(settings.api_key, Some("k".to_string()));
}

#[test]
fn empty_string_value_is_kept_not_treated_as_absent() {
    let raw = obj(vec![("context7_api_key", s(""))]);
    let settings = resolve_settings(Some(&raw)).unwrap();
    assert_eq!(settings.api_key, Some(String::new()));
}

#[test]
fn non_object_raw_values_are_rejected() {
    for raw in [
        s("just a string"),
        JsonValue::Number,
        JsonValue::Bool(false),
        JsonValue::Null,
        JsonValue::Array(vec![]),
    ] {
        assert_eq!(
            resolve_settings(Some(&raw)),
            Err(SettingsDecodeError::NotAnObject)
        );
    }
}

#[test]
fn wrong_typed_api_key_is_rejected_with_its_field_name() {
    let raw = obj(vec![("context7_api_key", JsonValue::Number)]);
    assert_eq!(
        resolve_settings(Some(&raw)),
        Err(SettingsDecodeError::InvalidFieldType(
            "context7_api_key".to_string()
        ))
    );
}

#[test]
fn wrong_typed_minimum_tokens_is_rejected_with_its_field_name() {
    let raw = obj(vec![("default_minimum_tokens", JsonValue::Bool(true))]);
    assert_eq!(
        resolve_settings(Some(&raw)),
        Err(SettingsDecodeError::InvalidFieldType(
            "default_minimum_tokens".to_string()
        ))
    );
}

#[test]
fn first_bad_field_in_declaration_order_wins() {
    let raw = obj(vec![
        ("default_minimum_tokens", JsonValue::Number),
        ("context7_api_key", JsonValue::Number),
    ]);
    assert_eq!(
        resolve_settings(Some(&raw)),
        Err(SettingsDecodeError::InvalidFieldType(
            "context7_api_key".to_string()
        ))
    );
}

#[test]
fn error_descriptions_name_the_mismatch() {
    assert_eq!(
        SettingsDecodeError::NotAnObject.description(),
        "settings must be an object"
    );
    assert_eq!(
        SettingsDecodeError::InvalidFieldType("context7_api_key".to_string()).description(),
        "settings field must be a string or null: context7_api_key"
    );
}
