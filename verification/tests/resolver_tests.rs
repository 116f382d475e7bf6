//! Registry component resolution rules.

use ftl::ftl_config::{ComponentConfig, FtlConfig, McpConfig, ProjectConfig};
use ftl::resolver::{
    cache_action, collect_resolutions, components_to_resolve, is_registry_ref, parse_registry_ref,
    registry_download_path, resolution_notice, CacheAction,
};
use ftl::strmap::StrMap;

fn project() -> ProjectConfig {
    ProjectConfig {
        name: "p".to_string(),
        version: "0.1.0".to_string(),
        description: String::new(),
        authors: vec![],
        default_registry: None,
    }
}

fn component(repo: Option<&str>, wasm: Option<&str>) -> ComponentConfig {
    ComponentConfig {
        path: None,
        wasm: wasm.map(|w| w.to_string()),
        repo: repo.map(|r| r.to_string()),
        build: None,
        profiles: None,
        up: None,
        deploy: None,
        allowed_outbound_hosts: vec![],
        variables: StrMap::new(),
    }
}

#[test]
fn test_parse_registry_ref() {
    let (url, filename) = parse_registry_ref("ghcr.io/fastertools/mcp-gateway:1.0.0").unwrap();
    assert_eq!(url, "ghcr.io/fastertools/mcp-gateway:1.0.0");
    assert_eq!(filename, "mcp-gateway-1.0.0.wasm");

    let (url, filename) = parse_registry_ref("docker.io/myorg/myapp:2.1.0-alpha").unwrap();
    assert_eq!(url, "docker.io/myorg/myapp:2.1.0-alpha");
    assert_eq!(filename, "myapp-2.1.0-alpha.wasm");
}

#[test]
fn test_is_registry_ref() {
    assert!(is_registry_ref("ghcr.io/fastertools/mcp-gateway:1.0.0"));
    assert!(is_registry_ref("docker.io/library/nginx:latest"));
    assert!(!is_registry_ref("./local/path/to/component.wasm"));
    assert!(!is_registry_ref("component.wasm"));
    assert!(!is_registry_ref("/absolute/path/to/component.wasm"));
}

#[test]
fn registry_refs_without_version_are_refused() {
    assert_eq!(
        parse_registry_ref("ghcr.io/org/tool"),
        Err("Invalid registry reference: missing version".to_string())
    );
    let (_, file) = parse_registry_ref("tool:3").unwrap();
    assert_eq!(file, "tool-3.wasm");
    assert_eq!(
        registry_download_path("ghcr.io/o/t:1.0", "/tmp/w"),
        Ok("/tmp/w/t-1.0.wasm".to_string())
    );
    assert!(registry_download_path("nope", "/tmp/w").is_err());
}

#[test]
fn what_needs_resolving() {
    let mut comps = StrMap::new();
    comps.insert("local".to_string(), component(None, Some("a.wasm")));
    comps.insert("remote".to_string(), component(Some("ghcr.io/o/r:1.0.0"), None));
    let ftl = FtlConfig {
        project: project(),
        oauth: None,
        component: comps,
        mcp: McpConfig {
            gateway: "ghcr.io/fastertools/mcp-gateway:0.0.11".to_string(),
            authorizer: "./authorizer.wasm".to_string(),
            validate_arguments: false,
        },
        variables: StrMap::new(),
    };
    assert_eq!(
        components_to_resolve(&ftl),
        vec![
            ("mcp-gateway".to_string(), "ghcr.io/fastertools/mcp-gateway:0.0.11".to_string()),
            ("remote".to_string(), "ghcr.io/o/r:1.0.0".to_string()),
        ]
    );
}

#[test]
fn resolution_notices() {
    assert_eq!(resolution_notice(0, false, false), None);
    assert_eq!(
        resolution_notice(1, true, false),
        Some("Downloading 1 component (ignoring cache)...".to_string())
    );
    assert_eq!(
        resolution_notice(12, true, true),
        Some("Downloading 12 components in parallel (ignoring cache)...".to_string())
    );
    assert_eq!(resolution_notice(1, false, true), Some("Using cached component...".to_string()));
    assert_eq!(resolution_notice(3, false, true), Some("Using 3 cached components...".to_string()));
    assert_eq!(resolution_notice(1, false, false), Some("Resolving 1 component...".to_string()));
    assert_eq!(
        resolution_notice(105, false, false),
        Some("Resolving 105 components in parallel...".to_string())
    );
}

#[test]
fn resolution_outcomes_are_gathered() {
    let ok = vec![
        ("a".to_string(), Ok("/w/a.wasm".to_string())),
        ("b".to_string(), Ok("/w/b.wasm".to_string())),
    ];
    let files = collect_resolutions(&ok).unwrap();
    assert_eq!(files.get("a"), Some(&"/w/a.wasm".to_string()));
    assert_eq!(files.get("b"), Some(&"/w/b.wasm".to_string()));
    let bad = vec![
        ("a".to_string(), Err("boom".to_string())),
        ("b".to_string(), Ok("/w/b.wasm".to_string())),
        ("c".to_string(), Err("bang".to_string())),
    ];
    match collect_resolutions(&bad) {
        Err(m) => assert_eq!(
            m,
            "Failed to resolve components:\nFailed to resolve a: boom\nFailed to resolve c: bang"
        ),
        Ok(_) => panic!("expected an error"),
    }
}

#[test]
fn cache_decisions() {
    assert_eq!(cache_action(false, true), CacheAction::UseCached);
    assert_eq!(cache_action(true, true), CacheAction::RemoveThenPull);
    assert_eq!(cache_action(true, false), CacheAction::Pull);
    assert_eq!(cache_action(false, false), CacheAction::Pull);
}
