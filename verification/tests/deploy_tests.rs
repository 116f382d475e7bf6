//! What a deployment sends and how its progress is followed.

use std::collections::HashMap;

use ftl::deploy::{
    cargo_package_version, deploy_manifest, package_version, repository_result, wkg_check,
    check_components, component_dir, deployment_success_lines, docker_login_arguments, ecr_password,
    extract_component_version, pushing_line, DeployConfig, credentials_error, deployable_components, gather_pushes,
    is_deployable_source, parse_deploy_config, poll_step, poll_timeout, progress_message,
    push_arguments, push_result, ComponentInfo, DeployManifest, DeploymentSnapshot,
    DeploymentState, ManifestEntry, PollStep, Stage, StageKind, VersionFile,
};
use ftl::strmap::StrMap;

/// Reads the parts of a spin.toml the deploy command uses.
fn manifest_from_toml(content: &str) -> DeployManifest {
    deploy_manifest(content).unwrap()
}

/// What a version file at `path` among `files` gives.
fn version_file(
    files: &HashMap<String, String>,
    path: &str,
    read: fn(&str) -> Result<Option<String>, String>,
) -> VersionFile {
    match files.get(path) {
        None => VersionFile::Missing,
        Some(c) => match read(c) {
            Err(e) => VersionFile::Failed(e),
            Ok(v) => VersionFile::Read(v),
        },
    }
}

/// The version of a component, found in the given files.
fn version_from(files: &HashMap<String, String>, name: &str, source: &str) -> String {
    let dir = component_dir(name, source);
    let join = |f: &str| {
        if dir.is_empty() { f.to_string() } else { format!("{dir}/{f}") }
    };
    let cargo = version_file(files, &join("Cargo.toml"), cargo_package_version);
    let package = version_file(files, &join("package.json"), package_version);
    extract_component_version(&cargo, &package).unwrap()
}

#[test]
fn test_parse_deploy_config() {
    let spin_toml = r#"
[application]
name = "test-app"

[component.api]
source = "api/target/wasm32-wasi/release/api.wasm"
allowed_outbound_hosts = ["https://*.amazonaws.com"]

[component.worker]
source = "worker/target/wasm32-wasi/release/worker.wasm"

[component.system]
source = { registry = "ghcr.io/example/system:latest" }
"#;
    let mut files = HashMap::new();
    files.insert(
        "api/Cargo.toml".to_string(),
        "\n[package]\nname = \"api\"\nversion = \"1.2.3\"\n".to_string(),
    );
    files.insert(
        "worker/package.json".to_string(),
        r#"{"name": "worker", "version": "2.0.0"}"#.to_string(),
    );

    let manifest = manifest_from_toml(spin_toml);
    let mut versions = StrMap::new();
    for (name, source) in deployable_components(&manifest) {
        versions.insert(name.clone(), version_from(&files, &name, &source));
    }
    let config = parse_deploy_config(&manifest, &versions).unwrap();

    assert_eq!(config.app_name, "test-app");
    assert_eq!(config.components.len(), 2);

    let api = &config.components[0];
    assert_eq!(api.name, "api");
    assert_eq!(api.source_path, "api/target/wasm32-wasi/release/api.wasm");
    assert_eq!(api.version, "1.2.3");
    assert_eq!(api.allowed_hosts, Some(vec!["https://*.amazonaws.com".to_string()]));

    let worker = &config.components[1];
    assert_eq!(worker.name, "worker");
    assert_eq!(worker.source_path, "worker/target/wasm32-wasi/release/worker.wasm");
    assert_eq!(worker.version, "2.0.0");
    assert_eq!(worker.allowed_hosts, None);
}

#[test]
fn test_extract_component_version_default() {
    let files = HashMap::new();
    let version = version_from(&files, "test", "test.wasm");
    assert_eq!(version, "0.1.0");
}

#[test]
fn deploy_selection_rules() {
    assert!(is_deployable_source("a/b.WASM"));
    assert!(!is_deployable_source("ghcr.io/x/y.wasm"));
    assert!(!is_deployable_source("a/b.wat"));
    assert_eq!(component_dir("api", "api/target/x.wasm"), "api");
    assert_eq!(component_dir("api", "apix/target/x.wasm"), "apix/target");
    assert_eq!(component_dir("api", "x.wasm"), "");
    let read = |v: &str| VersionFile::Read(Some(v.to_string()));
    assert_eq!(extract_component_version(&read("1"), &read("2")), Ok("1".to_string()));
    assert_eq!(extract_component_version(&VersionFile::Missing, &read("2")), Ok("2".to_string()));
    assert_eq!(extract_component_version(&VersionFile::Read(None), &read("2")), Ok("2".to_string()));
    assert_eq!(extract_component_version(&VersionFile::Read(None), &VersionFile::Missing), Ok("0.1.0".to_string()));
    assert_eq!(
        extract_component_version(&VersionFile::Failed("bad toml".to_string()), &read("2")),
        Err("bad toml".to_string())
    );
    assert_eq!(
        extract_component_version(&VersionFile::Missing, &VersionFile::Failed("bad json".to_string())),
        Err("bad json".to_string())
    );
    let manifest = DeployManifest { app_name: None, components: StrMap::new() };
    assert_eq!(
        parse_deploy_config(&manifest, &StrMap::new()).err(),
        Some("No application name found in spin.toml".to_string())
    );
    // non-string hosts are dropped
    let manifest = manifest_from_toml(
        "[application]\nname = \"a\"\n[component.c]\nsource = \"c.wasm\"\nallowed_outbound_hosts = [\"https://x\", 3]\n",
    );
    let mut versions = StrMap::new();
    versions.insert("c".to_string(), "0.1.0".to_string());
    let config = parse_deploy_config(&manifest, &versions).unwrap();
    assert_eq!(config.components[0].allowed_hosts, Some(vec!["https://x".to_string()]));
}

fn info(hosts: Option<Vec<&str>>) -> ComponentInfo {
    ComponentInfo {
        name: "api".to_string(),
        source_path: "api/x.wasm".to_string(),
        version: "1.0.0".to_string(),
        allowed_hosts: hosts.map(|h| h.iter().map(|s| s.to_string()).collect()),
    }
}

#[test]
fn pushing_components() {
    let c = info(Some(vec!["https://a"]));
    assert_eq!(
        push_arguments(&c, "123.dkr.ecr/api"),
        vec!["oci", "push", "123.dkr.ecr/api:1.0.0", "api/x.wasm"]
    );
    let tool = push_result(&c, true, "").unwrap();
    assert_eq!(tool.name, "api");
    assert_eq!(tool.tag, "1.0.0");
    assert_eq!(tool.allowed_hosts, vec!["https://a".to_string()]);
    let tool = push_result(&info(None), true, "").unwrap();
    assert!(tool.allowed_hosts.is_empty());
    assert_eq!(push_result(&c, false, "denied"), Err("Failed to push api: denied".to_string()));
    let all = gather_pushes(vec![push_result(&c, true, ""), push_result(&c, true, "")]).unwrap();
    assert_eq!(all.len(), 2);
    assert_eq!(
        gather_pushes(vec![
            push_result(&c, true, ""),
            Err("first".to_string()),
            Err("second".to_string()),
        ]),
        Err("first".to_string())
    );
}

fn snapshot(state: DeploymentState, stages: Vec<(StageKind, bool)>, error: Option<&str>) -> DeploymentSnapshot {
    DeploymentSnapshot {
        state,
        status_text: "pending".to_string(),
        stages: stages.into_iter().map(|(stage, completed)| Stage { stage, completed }).collect(),
        error: error.map(|e| e.to_string()),
    }
}

#[test]
fn following_a_deployment() {
    assert_eq!(progress_message(&snapshot(DeploymentState::InProgress, vec![], None)), "Status: pending");
    assert_eq!(
        progress_message(&snapshot(
            DeploymentState::InProgress,
            vec![(StageKind::ImageBuild, true), (StageKind::PlatformUpload, false), (StageKind::Validation, false)],
            None
        )),
        "Uploading to platform..."
    );
    assert_eq!(
        progress_message(&snapshot(
            DeploymentState::Deployed,
            vec![(StageKind::ImageBuild, true), (StageKind::Validation, true)],
            None
        )),
        "Validating deployment..."
    );
    assert_eq!(poll_timeout(59), None);
    assert_eq!(poll_timeout(60), Some("Deployment timeout after 5 minutes".to_string()));
    assert_eq!(poll_step(&Ok(snapshot(DeploymentState::Deployed, vec![], None))), PollStep::Deployed);
    assert_eq!(poll_step(&Ok(snapshot(DeploymentState::InProgress, vec![], None))), PollStep::Wait);
    assert_eq!(
        poll_step(&Ok(snapshot(DeploymentState::Failed, vec![], Some("quota")))),
        PollStep::Fail("Deployment failed: quota".to_string())
    );
    assert_eq!(
        poll_step(&Ok(snapshot(DeploymentState::Cancelled, vec![], None))),
        PollStep::Fail("Deployment failed: Deployment failed".to_string())
    );
    assert_eq!(
        poll_step(&Err("timeout".to_string())),
        PollStep::Fail("Failed to get deployment status: timeout".to_string())
    );
    assert_eq!(
        credentials_error("token expired at noon"),
        "Authentication token has expired. Please run 'ftl login' to re-authenticate."
    );
    assert_eq!(credentials_error("no entry"), "Not logged in to FTL. Run 'ftl login' first.");
}

#[test]
fn registry_login() {
    assert_eq!(ecr_password("QVdTOnNlY3JldA=="), Ok("secret".to_string()));
    assert_eq!(ecr_password("QVdTOg=="), Ok("".to_string()));
    assert_eq!(ecr_password("!!!"), Err("Failed to decode ECR authorization token".to_string()));
    assert_eq!(ecr_password("/w=="), Err("Invalid UTF-8 in authorization token".to_string()));
    assert_eq!(ecr_password("dXNlcjp4"), Err("Invalid ECR token format".to_string()));
    assert_eq!(
        docker_login_arguments("123.dkr.ecr.us-west-2.amazonaws.com"),
        vec!["login", "--username", "AWS", "--password-stdin", "123.dkr.ecr.us-west-2.amazonaws.com"]
    );
}

#[test]
fn deployment_texts() {
    let empty = DeployConfig { app_name: "a".to_string(), components: vec![] };
    assert_eq!(check_components(&empty), Err("No user components found in spin.toml".to_string()));
    let one = DeployConfig {
        app_name: "a".to_string(),
        components: vec![ComponentInfo {
            name: "c".to_string(),
            source_path: "c.wasm".to_string(),
            version: "1".to_string(),
            allowed_hosts: None,
        }],
    };
    assert_eq!(check_components(&one), Ok(()));
    assert_eq!(pushing_line(3), "→ Pushing 3 components in parallel");
    assert_eq!(deployment_success_lines(&None), vec!["", "✓ Deployment successful!"]);
    assert_eq!(
        deployment_success_lines(&Some("https://x.example/mcp".to_string())),
        vec!["", "✓ Deployment successful!", "", "  MCP URL: https://x.example/mcp", ""]
    );
}

#[test]
fn reading_deploy_manifests() {
    assert_eq!(deploy_manifest("[application\nname = 1").err(), Some("Failed to parse spin.toml".to_string()));
    let m = deploy_manifest("[application]\nname = 7\n[component]\nx = 1\n").unwrap();
    assert_eq!(m.app_name, None);
    assert_eq!(m.components.len(), 1);
    assert_eq!(m.components.get("x").unwrap().source, None);
    let m = deploy_manifest("component = [1]\n").unwrap();
    assert_eq!(m.components.len(), 0);
    let m = deploy_manifest(
        "[application]\nname = \"app\"\n[component.b]\nsource = { registry = \"r\" }\n[component.a]\nsource = \"a.wasm\"\nallowed_outbound_hosts = \"none\"\n",
    )
    .unwrap();
    assert_eq!(m.app_name, Some("app".to_string()));
    assert_eq!(m.components.keys(), vec!["a".to_string(), "b".to_string()]);
    let a = m.components.get("a").unwrap();
    assert_eq!(a.source, Some("a.wasm".to_string()));
    assert_eq!(a.allowed_outbound_hosts, None);
    assert_eq!(m.components.get("b").unwrap().source, None);
}

#[test]
fn reading_component_versions() {
    assert_eq!(cargo_package_version("[package]\nversion = \"1.2.3\"\n"), Ok(Some("1.2.3".to_string())));
    assert_eq!(cargo_package_version("[package]\nversion = 3\n"), Ok(None));
    assert_eq!(cargo_package_version("[dependencies]\n"), Ok(None));
    assert!(cargo_package_version("[package\n").is_err());
    assert_eq!(package_version("{\"version\": \"2.0.0\"}"), Ok(Some("2.0.0".to_string())));
    assert_eq!(package_version("{\"version\": 2}"), Ok(None));
    assert_eq!(package_version("[1, 2]"), Ok(None));
    assert!(package_version("{version").is_err());
}

#[test]
fn missing_version_is_an_error() {
    let manifest = manifest_from_toml("[application]\nname = \"a\"\n[component.c]\nsource = \"c.wasm\"\n");
    assert_eq!(
        parse_deploy_config(&manifest, &StrMap::new()).err(),
        Some("No version found for component c".to_string())
    );
}

#[test]
fn pushing_steps() {
    assert_eq!(wkg_check(Ok(())), Ok(()));
    assert_eq!(
        wkg_check(Err("not on PATH".to_string())),
        Err("wkg not found. Install from: https://github.com/bytecodealliance/wasm-pkg-tools".to_string())
    );
    assert_eq!(repository_result(Ok("uri".to_string())), Ok("uri".to_string()));
    assert_eq!(
        repository_result(Err("denied".to_string())),
        Err("Failed to create repository: denied".to_string())
    );
}

#[test]
fn test_parse_component_versions() {
    let mut files = HashMap::new();
    files.insert(
        "api/Cargo.toml".to_string(),
        "\n[package]\nname = \"api\"\nversion = \"1.2.3\"\n".to_string(),
    );
    let version = version_from(&files, "api", "api/api.wasm");
    assert_eq!(version, "1.2.3");
}

#[test]
fn test_parse_package_json_version() {
    let mut files = HashMap::new();
    files.insert(
        "worker/package.json".to_string(),
        r#"{"name": "worker", "version": "2.0.0"}"#.to_string(),
    );
    let version = version_from(&files, "worker", "worker/worker.wasm");
    assert_eq!(version, "2.0.0");
}
