use mcp_server_context7::provision::needs_install;
use mcp_server_context7::provision::package_name;
use mcp_server_context7::provision::package_version;
use mcp_server_context7::provision::server_package_spec;

#[test]
fn never_installed_triggers_an_install() {
    let spec = server_package_spec();
    assert!(needs_install(&None, &spec));
}

#[test]
fn echoed_pinned_version_triggers_no_reinstall() {
    let spec = server_package_spec();
    assert!(!needs_install(&Some("latest".to_string()), &spec));
}

#[test]
fn resolved_concrete_version_reinstalls_every_time() {
    let spec = server_package_spec();
    assert!(needs_install(&Some("1.0.14".to_string()), &spec));
    assert!(needs_install(&Some("1.0.14".to_string()), &spec));
}

#[test]
fn comparison_is_textual_not_semantic() {
    let spec = server_package_spec();
    assert!(needs_install(&Some("Latest".to_string()), &spec));
    assert!(needs_install(&Some("latest ".to_string()), &spec));
    assert!(needs_install(&Some(String::new()), &spec));
}

#[test]
fn package_identity_is_fixed() {
    assert_eq!(package_name(), "@upstash/context7-mcp");
    assert_eq!(package_version(), "latest");
    let spec = server_package_spec();
    assert_eq!(spec.name, "@upstash/context7-mcp");
    assert_eq!(spec.version, "latest");
}
