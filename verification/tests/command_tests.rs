use mcp_server_context7::command::build_command;
use mcp_server_context7::command::entry_script_path;
use mcp_server_context7::command::minimum_tokens_env_key;
use mcp_server_context7::command::server_script_relative_path;
use mcp_server_context7::settings::Settings;

fn absent() -> Settings {
    Settings {
        api_key: None,
        default_minimum_tokens: None,
    }
}

#[test]
fn all_absent_gives_entry_path_only_and_empty_env() {
    let cmd = build_command("node".to_string(), "/work", &absent());
    assert_eq!(cmd.executable, "node");
    assert_eq!(
        cmd.args,
        vec!["/work/node_modules/@upstash/context7-mcp/dist/index.js".to_string()]
    );
    assert!(cmd.env.is_empty());
}

#[test]
fn api_key_adds_one_flag_after_entry_path() {
    let settings = Settings {
        api_key: Some("K".to_string()),
        default_minimum_tokens: None,
    };
    let cmd = build_command("node".to_string(), "/work", &settings);
    assert_eq!(
        cmd.args,
        vec![
            "/work/node_modules/@upstash/context7-mcp/dist/index.js".to_string(),
            "--api-key=K".to_string(),
        ]
    );
    assert!(cmd.env.is_empty());
}

#[test]
fn minimum_tokens_goes_to_env_not_args() {
    let settings = Settings {
        api_key: None,
        default_minimum_tokens: Some("N".to_string()),
    };
    let cmd = build_command("node".to_string(), "/work", &settings);
    assert_eq!(cmd.args.len(), 1);
    assert_eq!(
        cmd.env,
        vec![("DEFAULT_MINIMUM_TOKENS".to_string(), "N".to_string())]
    );
}

#[test]
fn both_fields_present() {
    let settings = Settings {
        api_key: Some("abc".to_string()),
        default_minimum_tokens: Some("9000".to_string()),
    };
    let cmd = build_command("/usr/bin/node".to_string(), "/proj", &settings);
    assert_eq!(cmd.executable, "/usr/bin/node");
    assert_eq!(
        cmd.args,
        vec![
            "/proj/node_modules/@upstash/context7-mcp/dist/index.js".to_string(),
            "--api-key=abc".to_string(),
        ]
    );
    assert_eq!(
        cmd.env,
        vec![("DEFAULT_MINIMUM_TOKENS".to_string(), "9000".to_string())]
    );
}

#[test]
fn entry_path_keeps_single_separator() {
    assert_eq!(
        entry_script_path("/work/"),
        "/work/node_modules/@upstash/context7-mcp/dist/index.js"
    );
    assert_eq!(
        entry_script_path(""),
        "/node_modules/@upstash/context7-mcp/dist/index.js"
    );
}

#[test]
fn fixed_names_are_stable() {
    assert_eq!(
        server_script_relative_path(),
        "node_modules/@upstash/context7-mcp/dist/index.js"
    );
    assert_eq!(minimum_tokens_env_key(), "DEFAULT_MINIMUM_TOKENS");
}

#[test]
fn empty_string_value_is_used_verbatim() {
    let settings = Settings {
        api_key: Some(String::new()),
        default_minimum_tokens: None,
    };
    let cmd = build_command("node".to_string(), "/w", &settings);
    assert_eq!(cmd.args[1], "--api-key=");
}
