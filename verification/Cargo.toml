[package]
name = "mcp_server_context7"
version = "0.1.0"
edition = "2021"
publish = false

[dependencies]
zed_extension_api = "*"

[dev-dependencies]
serde_json = "*"
