//! ftl.toml read into the configuration model, its rules and its auth settings.

use ftl::ftl_config::{
    default_version, BuildConfig, ComponentConfig, ComponentProblem, ConfigError, FtlConfig,
    McpConfig, OauthConfig, ProjectConfig,
};
use ftl::strmap::StrMap;

fn text(t: &toml::Table, key: &str) -> Option<String> {
    t.get(key).and_then(|v| v.as_str()).map(|s| s.to_string())
}

fn texts(t: &toml::Table, key: &str) -> Vec<String> {
    t.get(key)
        .and_then(|v| v.as_array())
        .map(|a| a.iter().filter_map(|s| s.as_str().map(|s| s.to_string())).collect())
        .unwrap_or_default()
}

fn component_of(t: &toml::Table) -> ComponentConfig {
    ComponentConfig {
        path: text(t, "path"),
        wasm: text(t, "wasm"),
        repo: text(t, "repo"),
        build: t.get("build").and_then(|b| b.as_table()).map(|b| BuildConfig {
            command: text(b, "command").unwrap_or_default(),
            watch: texts(b, "watch"),
            env: StrMap::new(),
        }),
        profiles: None,
        up: None,
        deploy: None,
        allowed_outbound_hosts: texts(t, "allowed_outbound_hosts"),
        variables: StrMap::new(),
    }
}

fn message(e: &ConfigError) -> String {
    match e {
        ConfigError::Component { name, problem: ComponentProblem::Invalid(c) } => format!("component.{name}: {}", c.message()),
        other => format!("{other:?}"),
    }
}

/// Reads ftl.toml text into the model (with the defaults that a missing
/// key takes) and checks its rules, as `FtlConfig::parse` does.
fn parse(content: &str) -> Result<FtlConfig, String> {
    let t: toml::Table = content.parse().map_err(|e| format!("Failed to parse FTL configuration: {e}"))?;
    let p = t.get("project").and_then(|p| p.as_table()).ok_or("missing field `project`")?;
    let mut component = StrMap::new();
    if let Some(cs) = t.get("component").and_then(|c| c.as_table()) {
        for (name, c) in cs {
            component.insert(name.clone(), component_of(c.as_table().unwrap()));
        }
    }
    let defaults = McpConfig::default();
    let mcp = match t.get("mcp").and_then(|m| m.as_table()) {
        Some(m) => McpConfig {
            gateway: text(m, "gateway").unwrap_or(defaults.gateway),
            authorizer: text(m, "authorizer").unwrap_or(defaults.authorizer),
            validate_arguments: m.get("validate_arguments").and_then(|v| v.as_bool()).unwrap_or(defaults.validate_arguments),
        },
        None => defaults,
    };
    let config = FtlConfig {
        project: ProjectConfig {
            name: text(p, "name").ok_or("missing field `name`")?,
            version: text(p, "version").unwrap_or_else(default_version),
            description: text(p, "description").unwrap_or_default(),
            authors: texts(p, "authors"),
            default_registry: text(p, "default_registry"),
        },
        oauth: t.get("oauth").and_then(|o| o.as_table()).map(|o| OauthConfig {
            issuer: text(o, "issuer").unwrap_or_default(),
            audience: text(o, "audience").unwrap_or_default(),
            jwks_uri: text(o, "jwks_uri").unwrap_or_default(),
            public_key: text(o, "public_key").unwrap_or_default(),
            algorithm: text(o, "algorithm").unwrap_or_default(),
            required_scopes: text(o, "required_scopes").unwrap_or_default(),
            authorize_endpoint: text(o, "authorize_endpoint").unwrap_or_default(),
            token_endpoint: text(o, "token_endpoint").unwrap_or_default(),
            userinfo_endpoint: text(o, "userinfo_endpoint").unwrap_or_default(),
            allowed_subjects: texts(o, "allowed_subjects"),
        }),
        component,
        mcp,
        variables: StrMap::new(),
    };
    match config.validate() {
        Ok(()) => Ok(config),
        Err(errors) => Err(format!(
            "FTL configuration validation failed: {}",
            errors.iter().map(message).collect::<Vec<_>>().join("\n")
        )),
    }
}

#[test]
fn test_minimal_config() {
    let config = r#"
[project]
name = "test-project"
"#;
    let ftl_config = parse(config).unwrap();
    assert_eq!(ftl_config.project.name, "test-project");
    assert_eq!(ftl_config.project.version, "0.1.0");
    assert!(!ftl_config.is_auth_enabled());
}

#[test]
fn test_private_without_oauth() {
    let config = r#"
[project]
name = "test-project"
version = "0.1.0"
"#;
    let ftl_config = parse(config).unwrap();
    assert!(!ftl_config.is_auth_enabled());
    assert_eq!(ftl_config.auth_issuer(), "");
    assert_eq!(ftl_config.auth_provider_type(), "");
}

#[test]
fn test_private_with_oauth() {
    let config = r#"
[project]
name = "test-project"
version = "0.1.0"

[oauth]
issuer = "https://auth.example.com"
audience = "my-api"
"#;
    let ftl_config = parse(config).unwrap();
    assert!(ftl_config.is_auth_enabled());
    assert_eq!(ftl_config.auth_issuer(), "https://auth.example.com");
    assert_eq!(ftl_config.auth_audience(), "my-api");
    assert_eq!(ftl_config.auth_provider_type(), "jwt");
}

#[test]
fn test_org_access_control() {
    let config = r#"
[project]
name = "test-project"
version = "0.1.0"
"#;
    let ftl_config = parse(config).unwrap();
    assert!(!ftl_config.is_auth_enabled());
    assert_eq!(ftl_config.auth_issuer(), "");
}

#[test]
fn test_custom_access_control() {
    let config = r#"
[project]
name = "test-project"
version = "0.1.0"

[oauth]
issuer = "https://custom-auth.example.com"
audience = "custom-api"
"#;
    let ftl_config = parse(config).unwrap();
    assert!(ftl_config.is_auth_enabled());
    assert_eq!(ftl_config.auth_issuer(), "https://custom-auth.example.com");
    assert_eq!(ftl_config.auth_audience(), "custom-api");
}

#[test]
fn test_invalid_access_control() {
    let config = r#"
[project]
name = "test-project"
version = "1.0.0"
access_control = "public"
"#;
    let _result = parse(config);
    let invalid_config = r#"
[project]
name = "test-project"
version = 
"#;
    let result = parse(invalid_config);
    assert!(result.is_err());
}

#[test]
fn test_mixed_local_and_registry_components() {
    let config = r#"
[project]
name = "py-tools"
version = "0.1.0"
description = "FTL MCP server for hosting MCP tools"
default_registry = "ghcr.io/fastertools"

[component.example-py]
path = "example-py"
wasm = "example-py/app.wasm"
allowed_outbound_hosts = []

[component.example-py.build]
command = "make build"
watch = [
    "src/**/*.py",
    "pyproject.toml",
]

[component.example-rs]
repo = "ghcr.io/fastertools/example-rs:latest"

[mcp]
gateway = "ghcr.io/fastertools/mcp-gateway:0.0.11"
authorizer = "ghcr.io/fastertools/mcp-authorizer:0.0.13"
validate_arguments = false
"#;
    let ftl_config = parse(config).unwrap();
    assert_eq!(ftl_config.project.name, "py-tools");

    let py_component = ftl_config.component.get("example-py").unwrap();
    assert_eq!(py_component.wasm, Some("example-py/app.wasm".to_string()));
    assert!(py_component.repo.is_none());
    assert!(py_component.build.is_some());

    let rs_component = ftl_config.component.get("example-rs").unwrap();
    assert!(rs_component.wasm.is_none());
    assert_eq!(rs_component.repo, Some("ghcr.io/fastertools/example-rs:latest".to_string()));
    assert!(rs_component.build.is_none());
}

#[test]
fn test_component_validation_errors() {
    let config = r#"
[project]
name = "test"

[component.broken]
path = "broken"
"#;
    let result = parse(config);
    assert!(result.is_err());
    let err = result.err().unwrap();
    assert!(err.contains("must specify either 'wasm'") || err.contains("must specify either 'wasm'"));

    let config = r#"
[project]
name = "test"

[component.broken]
wasm = "broken/app.wasm"
repo = "ghcr.io/org/broken:latest"
"#;
    let result = parse(config);
    assert!(result.is_err());
    assert!(result.err().unwrap().contains("cannot specify both"));

    let config = r#"
[project]
name = "test"

[component.broken]
wasm = "broken/app.wasm"
"#;
    let result = parse(config);
    assert!(result.is_err());
    assert!(result.err().unwrap().contains("must include a 'build' configuration"));

    let config = r#"
[project]
name = "test"

[component.broken]
repo = "ghcr.io/org/broken:latest"

[component.broken.build]
command = "make build"
"#;
    let result = parse(config);
    assert!(result.is_err());
    assert!(result.err().unwrap().contains("should not include a 'build' configuration"));
}
