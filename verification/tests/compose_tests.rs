//! The spinc front end: new project configuration and command texts.

use ftl::compose::{construct_add_lines, construct_list_lines, init_config, next_steps_lines, GITIGNORE};

#[test]
fn new_project_configuration() {
    let expected = format!(
        r#"# spin-compose configuration
name: {}
version: 0.1.0
description: MCP application

# Template
template: mcp

# Authentication (set enabled: false to disable)
auth:
  enabled: true
  issuer: https://auth.example.com
  audience:
    - api.example.com

# MCP configuration
mcp:
  gateway: ghcr.io/fastertools/mcp-gateway:latest
  authorizer: ghcr.io/fastertools/mcp-authorizer:latest
  validate_arguments: false

# Components
components:
  # example-tool:
  #   source: ./build/example.wasm
  #   route: /example
  #   build:
  #     command: cargo build --target wasm32-wasip1 --release
  #     watch:
  #       - src/**/*.rs
  #       - Cargo.toml
"#,
        "my-app"
    );
    assert_eq!(init_config("my-app", "mcp"), Ok(expected));
    assert_eq!(init_config("my-app", "web"), Err("Unknown template 'web'".to_string()));
    assert_eq!(GITIGNORE, "spin.toml\n.spin/\n");
    assert_eq!(next_steps_lines()[1], "Next steps:");
    assert_eq!(next_steps_lines().len(), 5);
}

#[test]
fn construct_texts() {
    let list = construct_list_lines();
    assert_eq!(list[0], "Available constructs:");
    assert_eq!(list[2], "  mcp - MCP application (authentication, gateway, components)");
    assert_eq!(list.last().unwrap(), "More constructs coming soon!");
    assert_eq!(
        construct_add_lines("fermyon/mcp"),
        vec![
            "Adding construct 'fermyon/mcp'",
            "Info: Construct registry not yet implemented",
            "Available constructs are bundled with spin-compose",
        ]
    );
}
