use mcp_server_context7::descriptor::api_sentinel;
use mcp_server_context7::descriptor::build_descriptor;
use mcp_server_context7::descriptor::default_settings_template;
use mcp_server_context7::descriptor::installation_instructions;
use mcp_server_context7::descriptor::tokens_sentinel;
use mcp_server_context7::settings::Settings;

const TEMPLATE: &str = "{\n  \"context7_api_key\": \"YOUR_CONTEXT7_API_KEY\",\n  \"default_minimum_tokens\": \"YOUR_DEFAULT_MINIMUM_TOKENS\"\n}\n";

fn absent() -> Settings {
    Settings {
        api_key: None,
        default_minimum_tokens: None,
    }
}

#[test]
fn template_text_is_exactly_the_fixed_document() {
    assert_eq!(default_settings_template(), TEMPLATE);
    assert_eq!(api_sentinel(), "\"YOUR_CONTEXT7_API_KEY\"");
    assert_eq!(tokens_sentinel(), "\"YOUR_DEFAULT_MINIMUM_TOKENS\"");
}

#[test]
fn unresolved_settings_fall_back_to_the_unmodified_template() {
    let descriptor = build_descriptor(None);
    assert_eq!(descriptor.default_settings, TEMPLATE);
}

#[test]
fn absent_api_key_becomes_empty_string_literal_never_the_sentinel() {
    let descriptor = build_descriptor(Some(&absent()));
    assert_eq!(
        descriptor.default_settings,
        "{\n  \"context7_api_key\": \"\",\n  \"default_minimum_tokens\": \"YOUR_DEFAULT_MINIMUM_TOKENS\"\n}\n"
    );
    assert!(!descriptor.default_settings.contains("YOUR_CONTEXT7_API_KEY"));
}

#[test]
fn absent_api_key_with_tokens_present_still_shows_no_api_sentinel() {
    let settings = Settings {
        api_key: None,
        default_minimum_tokens: Some("5000".to_string()),
    };
    let descriptor = build_descriptor(Some(&settings));
    assert!(!descriptor.default_settings.contains("YOUR_CONTEXT7_API_KEY"));
}

#[test]
fn minimum_tokens_5000_replaces_its_placeholder_and_nothing_else() {
    let settings = Settings {
        api_key: None,
        default_minimum_tokens: Some("5000".to_string()),
    };
    let descriptor = build_descriptor(Some(&settings));
    assert_eq!(
        descriptor.default_settings,
        "{\n  \"context7_api_key\": \"\",\n  \"default_minimum_tokens\": \"5000\"\n}\n"
    );
}

#[test]
fn present_api_key_is_requoted_into_the_document() {
    let settings = Settings {
        api_key: Some("secret-key".to_string()),
        default_minimum_tokens: None,
    };
    let descriptor = build_descriptor(Some(&settings));
    assert_eq!(
        descriptor.default_settings,
        "{\n  \"context7_api_key\": \"secret-key\",\n  \"default_minimum_tokens\": \"YOUR_DEFAULT_MINIMUM_TOKENS\"\n}\n"
    );
}

#[test]
fn instructions_and_schema_do_not_depend_on_settings() {
    let with_settings = build_descriptor(Some(&Settings {
        api_key: Some("k".to_string()),
        default_minimum_tokens: Some("1".to_string()),
    }));
    let without = build_descriptor(None);
    assert_eq!(
        with_settings.installation_instructions,
        without.installation_instructions
    );
    assert_eq!(with_settings.settings_schema, without.settings_schema);
    assert_eq!(without.installation_instructions, installation_instructions());
}
