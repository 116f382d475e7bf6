//! Component references: registry URLs, image/tag splitting and versions.

use ftl::registry::{
    get_registry_components, parse_image_and_tag, resolve_latest_version, resolve_registry_url,
    trim_leading_vs, validate_and_normalize_semver, RegistryComponents, RegistryError,
};

fn tags(list: &[&str]) -> Vec<String> {
    list.iter().map(|t| t.to_string()).collect()
}

#[test]
fn test_resolve_registry_url() {
    // Test with full URLs
    assert_eq!(
        resolve_registry_url("ghcr.io/org/tool:1.0.0", None),
        "ghcr.io/org/tool:1.0.0"
    );

    // Test with short names and default registry
    assert_eq!(
        resolve_registry_url("my-tool:1.0.0", Some("ghcr.io/myorg")),
        "ghcr.io/myorg/my-tool:1.0.0"
    );

    // Test Docker Hub library handling
    assert_eq!(
        resolve_registry_url("nginx", Some("docker.io")),
        "docker.io/library/nginx"
    );

    // Test local WASM file
    assert_eq!(
        resolve_registry_url("target/my-component.wasm", None),
        "target/my-component.wasm"
    );
}

#[test]
fn test_parse_image_and_tag() {
    assert_eq!(
        parse_image_and_tag("nginx"),
        ("nginx".to_string(), "latest".to_string())
    );
    assert_eq!(
        parse_image_and_tag("nginx:1.21"),
        ("nginx".to_string(), "1.21".to_string())
    );
    assert_eq!(
        parse_image_and_tag("user/app:v1.0"),
        ("user/app".to_string(), "v1.0".to_string())
    );
}

#[test]
fn test_validate_and_normalize_semver() {
    // Valid semantic versions
    assert_eq!(validate_and_normalize_semver("1.0.0").unwrap(), "1.0.0");
    assert_eq!(validate_and_normalize_semver("v1.0.0").unwrap(), "1.0.0");
    assert_eq!(
        validate_and_normalize_semver("2.1.3-alpha").unwrap(),
        "2.1.3-alpha"
    );

    // Auto-completion of versions
    assert_eq!(validate_and_normalize_semver("1").unwrap(), "1.0.0");
    assert_eq!(validate_and_normalize_semver("1.2").unwrap(), "1.2.0");

    // Invalid versions should return error
    assert!(validate_and_normalize_semver("latest").is_err());
    assert!(validate_and_normalize_semver("main").is_err());
}

#[test]
fn semver_errors_name_the_version_as_given() {
    assert_eq!(
        validate_and_normalize_semver("vlatest"),
        Err(RegistryError::InvalidVersion("vlatest".to_string()))
    );
    assert_eq!(
        validate_and_normalize_semver("1.2.3.4"),
        Err(RegistryError::InvalidVersion("1.2.3.4".to_string()))
    );
    assert_eq!(
        validate_and_normalize_semver("abc"),
        Err(RegistryError::InvalidVersion("abc".to_string()))
    );
    // every leading `v` goes
    assert_eq!(validate_and_normalize_semver("vv2.0.1").unwrap(), "2.0.1");
    // build metadata is kept as semver displays it
    assert_eq!(validate_and_normalize_semver("1.0.0+build.5").unwrap(), "1.0.0+build.5");
}

#[test]
fn trim_leading_vs_removes_every_leading_v() {
    assert_eq!(trim_leading_vs("vvv1"), "1");
    assert_eq!(trim_leading_vs("1v"), "1v");
    assert_eq!(trim_leading_vs(""), "");
}

#[test]
fn image_and_tag_split_at_the_last_colon() {
    assert_eq!(
        parse_image_and_tag("localhost:5000/app:2.0"),
        ("localhost:5000/app".to_string(), "2.0".to_string())
    );
    assert_eq!(parse_image_and_tag("app:"), ("app".to_string(), String::new()));
    let (image, tag) = parse_image_and_tag("a/b:c");
    assert_eq!(format!("{image}:{tag}"), "a/b:c");
}

#[test]
fn registry_urls_of_other_forms() {
    // default registry when none is given
    assert_eq!(resolve_registry_url("my-tool:1.0.0", None), "ghcr.io/fastertools/my-tool:1.0.0");
    // upper-case extension is still a local file
    assert_eq!(resolve_registry_url("Tool.WASM", None), "Tool.WASM");
    // a registry/org/repo path stays
    assert_eq!(resolve_registry_url("reg.io/org/tool:1", None), "reg.io/org/tool:1");
    // schemes and ECR hosts stay
    assert_eq!(resolve_registry_url("oci://x/y", None), "oci://x/y");
    assert_eq!(
        resolve_registry_url("1.dkr.ecr.us-east-1.amazonaws.com/tool:1", None),
        "1.dkr.ecr.us-east-1.amazonaws.com/tool:1"
    );
    // docker.io default with an org prefix gets no `library/`
    assert_eq!(resolve_registry_url("org/tool", Some("docker.io")), "docker.io/org/tool");
    // a second resolution changes nothing
    let once = resolve_registry_url("my-tool:1.0.0", Some("ghcr.io/myorg"));
    assert_eq!(resolve_registry_url(&once, Some("ghcr.io/myorg")), once);
}

#[test]
fn latest_version_is_the_greatest_semantic_tag() {
    let t = tags(&["latest", "main", "v1.2.0", "1.10.0", "1.9.9", "junk", "2.0.0-rc.1"]);
    assert_eq!(resolve_latest_version("ghcr.io/o/t", &t).unwrap(), "2.0.0-rc.1");
    let t = tags(&["0.1.0", "v0.3.0", "0.2.0"]);
    assert_eq!(resolve_latest_version("ghcr.io/o/t", &t).unwrap(), "0.3.0");
    let t = tags(&["latest", "dev", "edge", "master"]);
    assert_eq!(
        resolve_latest_version("ghcr.io/o/t", &t),
        Err(RegistryError::NoSemanticVersions("ghcr.io/o/t".to_string()))
    );
}

#[test]
fn registry_components_are_settled_against_the_tags() {
    let t = tags(&["1.0.0", "v1.1.0", "latest"]);
    assert_eq!(
        get_registry_components("my-tool:1.0.0", Some("ghcr.io/myorg"), &t),
        Ok(RegistryComponents {
            registry_url: "ghcr.io/myorg/my-tool".to_string(),
            version: "1.0.0".to_string(),
        })
    );
    // found with a `v` prefix
    assert_eq!(
        get_registry_components("ghcr.io/org/tool:1.1", None, &t),
        Ok(RegistryComponents {
            registry_url: "ghcr.io/org/tool".to_string(),
            version: "1.1.0".to_string(),
        })
    );
    // `latest` settles on the greatest version
    assert_eq!(
        get_registry_components("ghcr.io/org/tool", None, &t),
        Ok(RegistryComponents {
            registry_url: "ghcr.io/org/tool".to_string(),
            version: "1.1.0".to_string(),
        })
    );
    // absent version
    assert_eq!(
        get_registry_components("ghcr.io/org/tool:2.0.0", None, &t),
        Err(RegistryError::ComponentNotFound(
            "ghcr.io/org/tool".to_string(),
            "2.0.0".to_string()
        ))
    );
    // moving tags other than `latest` are refused as versions
    assert_eq!(
        get_registry_components("ghcr.io/org/tool:main", None, &t),
        Err(RegistryError::InvalidVersion("main".to_string()))
    );
    // `latest` with no semantic tag
    assert_eq!(
        get_registry_components("ghcr.io/org/tool", None, &tags(&["dev"])),
        Err(RegistryError::NoSemanticVersions("ghcr.io/org/tool".to_string()))
    );
}
