//! Validation of Spin manifests and their parts.

use ftl::manifest_text::component_string;
use ftl::spin_config::{
    ApplicationRedisTriggerConfig, ComponentBuildConfig, ComponentConfig, ComponentDependency,
    ComponentSource, ExecutorConfig, FileMount, HttpTrigger, RedisTrigger, RouteConfig,
    SpinConfig, SpinVariable, TriggerConfig,
};
use ftl::spin_validation::{
    is_app_name, is_version_text, validate_outbound_hosts, validate_variables, ComponentProblem,
    FieldProblem, SourceProblem, SpinProblem,
};
use ftl::strmap::StrMap;

fn map(pairs: &[(&str, &str)]) -> StrMap<String> {
    let mut m = StrMap::new();
    for (k, v) in pairs {
        m.insert(k.to_string(), v.to_string());
    }
    m
}

fn plain_component(source: &str) -> ComponentConfig {
    ComponentConfig {
        description: String::new(),
        source: ComponentSource::Local(source.to_string()),
        files: Vec::new(),
        exclude_files: Vec::new(),
        allowed_outbound_hosts: Vec::new(),
        key_value_stores: Vec::new(),
        environment: StrMap::new(),
        build: None,
        variables: StrMap::new(),
        dependencies_inherit_configuration: false,
        dependencies: StrMap::new(),
    }
}

fn hosts(list: &[&str]) -> Vec<String> {
    list.iter().map(|h| h.to_string()).collect()
}

#[test]
fn test_spin_config_creation() {
    let config = SpinConfig::new("test-app".to_string());
    assert_eq!(config.application.name, "test-app");
    assert_eq!(config.spin_manifest_version, 2);
}

#[test]
fn test_component_source_serialization() {
    let component = plain_component("my-app.wasm");
    let serialized = component_string("c", &component);
    assert!(serialized.contains("source = \"my-app.wasm\""));

    let component = plain_component("ghcr.io/myorg/myapp:1.0.0");
    let serialized = component_string("c", &component);
    assert!(serialized.contains("source = \"ghcr.io/myorg/myapp:1.0.0\""));
}

#[test]
fn test_spin_config_validation() {
    // Valid minimal config
    let config = SpinConfig::new("test-app".to_string());
    assert!(config.validate().is_ok());

    // Test invalid manifest version
    let mut invalid_config = SpinConfig::new("test-app".to_string());
    invalid_config.spin_manifest_version = 1;
    assert!(invalid_config.validate().is_err());

    // Test invalid app name
    let invalid_config = SpinConfig::new("123-invalid".to_string());
    assert!(invalid_config.validate().is_err());
}

#[test]
fn spin_config_test_component_source_validation() {
    // Valid local source
    let source = ComponentSource::Local("my-app.wasm".to_string());
    assert!(source.validate().is_ok());

    // Invalid empty local source
    let source = ComponentSource::Local(String::new());
    assert!(source.validate().is_err());

    // Valid remote source
    let source = ComponentSource::Remote {
        url: "https://example.com/app.wasm".to_string(),
        digest: "sha256:abcdef123456".to_string(),
    };
    assert!(source.validate().is_ok());

    // Invalid remote source (bad URL)
    let source = ComponentSource::Remote {
        url: "ftp://example.com/app.wasm".to_string(),
        digest: "sha256:abcdef123456".to_string(),
    };
    assert!(source.validate().is_err());

    // Valid registry source
    let source = ComponentSource::Registry {
        registry: "ghcr.io".to_string(),
        package: "myorg:myapp".to_string(),
        version: "1.0.0".to_string(),
    };
    assert!(source.validate().is_ok());

    // Invalid registry source (bad package format)
    let source = ComponentSource::Registry {
        registry: "ghcr.io".to_string(),
        package: "myorg-myapp".to_string(),
        version: "1.0.0".to_string(),
    };
    assert!(source.validate().is_err());
}

#[test]
fn spin_config_test_variable_validation() {
    let mut vars = StrMap::new();

    // Valid default variable
    vars.insert("my_var".to_string(), SpinVariable::Default { default: "value".to_string() });
    assert!(validate_variables(&vars).is_ok());

    // Valid required variable
    vars.insert("required_var".to_string(), SpinVariable::Required { required: true });
    assert!(validate_variables(&vars).is_ok());

    // Invalid required variable (required: false)
    vars.insert("bad_required".to_string(), SpinVariable::Required { required: false });
    assert!(validate_variables(&vars).is_err());
}

#[test]
fn spin_config_test_outbound_hosts_validation() {
    // Valid hosts
    let list = hosts(&[
        "http://example.com",
        "https://api.example.com:8080",
        "redis://localhost:6379",
        "*://example.com:*",
    ]);
    assert!(validate_outbound_hosts(&list).is_ok());

    // Invalid host (no scheme)
    let list = hosts(&["example.com"]);
    assert!(validate_outbound_hosts(&list).is_err());

    // Empty host
    let list = vec![String::new()];
    assert!(validate_outbound_hosts(&list).is_err());
}

#[test]
fn test_invalid_manifest_version() {
    let mut config = SpinConfig::new("test-app".to_string());

    // Test version too low
    config.spin_manifest_version = 1;
    assert!(config.validate().is_err());

    // Test version too high
    config.spin_manifest_version = 3;
    assert!(config.validate().is_err());

    // Test correct version
    config.spin_manifest_version = 2;
    assert!(config.validate().is_ok());
}

#[test]
fn test_invalid_application_names() {
    let invalid_names = vec![
        "", "123app", "-app", "_app", "my app", "my.app", "my@app", "my/app", "my\\app", "my:app",
        "my;app", "my,app", "my|app", "my?app", "my*app", "my[app]", "my{app}", "my(app)",
        "my<app>", "my'app'", "my\"app\"", "my`app`", "my~app", "my!app", "my#app", "my$app",
        "my%app", "my^app", "my&app", "my=app", "my+app",
    ];

    for name in invalid_names {
        let config = SpinConfig::new(name.to_string());
        let result = config.validate();
        assert!(result.is_err(), "Application name '{name}' should be invalid but validation passed");
    }

    let valid_names = vec![
        "a", "A", "myapp", "MyApp", "my-app", "my_app", "my-app_123", "app123", "APP-123_test",
        "a1b2c3", "test-123-app_v2",
    ];

    for name in valid_names {
        let config = SpinConfig::new(name.to_string());
        let result = config.validate();
        assert!(
            result.is_ok(),
            "Application name '{}' should be valid but validation failed: {:?}",
            name,
            result.err()
        );
    }
}

#[test]
fn test_invalid_version_format() {
    let mut config = SpinConfig::new("test-app".to_string());

    let invalid_versions = vec![
        "", "1", "1.0", "1.0.0.0", "v1.0.0", "1.0.0-beta", "1.a.0", "1.0.a", "a.0.0", "1.0.0 ",
        " 1.0.0", "1.0.0\n", "1.0.0\t", "1..0", ".1.0.0", "1.0.0.", "1.0.0.0.0", "1_0_0", "1-0-0",
        "1,0,0", "1/0/0",
    ];

    for version in invalid_versions {
        config.application.version = version.to_string();
        let result = config.validate();
        assert!(result.is_err(), "Version '{version}' should be invalid but validation passed");
    }

    let valid_versions =
        vec!["0.0.0", "0.1.0", "1.0.0", "1.2.3", "10.20.30", "999.999.999", "2.0.0", "0.0.1"];

    for version in valid_versions {
        config.application.version = version.to_string();
        let result = config.validate();
        assert!(result.is_ok(), "Version '{version}' should be valid but validation failed");
    }
}

#[test]
fn test_component_name_validation() {
    let mut config = SpinConfig::new("test-app".to_string());

    let invalid_names = vec![
        "my_component", "my.component", "my component", "123component", "-component",
        "my/component", "my@component", "",
    ];

    for name in invalid_names {
        config.component.clear();
        config.component.insert(name.to_string(), plain_component("test.wasm"));

        let result = config.validate();
        assert!(result.is_err(), "Component name '{name}' should be invalid but validation passed");
    }

    let valid_names = vec![
        "my-component", "component", "a", "component-123", "test-tool-v2", "my-long-component-name",
    ];

    for name in valid_names {
        config.component.clear();
        config.component.insert(name.to_string(), plain_component("test.wasm"));

        let result = config.validate();
        assert!(result.is_ok(), "Component name '{name}' should be valid but validation failed");
    }
}

#[test]
fn spin_config_validation_tests_test_component_source_validation() {
    let source = ComponentSource::Local(String::new());
    assert!(source.validate().is_err());

    let source = ComponentSource::Local("my-app.wasm".to_string());
    assert!(source.validate().is_ok());

    let invalid_remotes = vec![
        ("", "sha256:abcdef"),
        ("ftp://example.com/app.wasm", "sha256:abcdef"),
        ("http://example.com/app.wasm", ""),
        ("http://example.com/app.wasm", "abcdef"),
        ("http://example.com/app.wasm", "md5:abcdef"),
        ("://example.com/app.wasm", "sha256:abcdef"),
        ("http://", "sha256:abcdef"),
    ];

    for (url, digest) in invalid_remotes {
        let source = ComponentSource::Remote { url: url.to_string(), digest: digest.to_string() };
        assert!(
            source.validate().is_err(),
            "Remote source with URL '{url}' and digest '{digest}' should be invalid"
        );
    }

    let valid_remotes = vec![
        ("http://example.com/app.wasm", "sha256:abcdef123456"),
        ("https://example.com/app.wasm", "sha256:0123456789abcdef"),
        ("http://example.com:8080/path/to/app.wasm", "sha256:fedcba987654321"),
        ("https://cdn.example.com/v1/app.wasm?token=abc", "sha256:123456"),
    ];

    for (url, digest) in valid_remotes {
        let source = ComponentSource::Remote { url: url.to_string(), digest: digest.to_string() };
        assert!(
            source.validate().is_ok(),
            "Remote source with URL '{url}' and digest '{digest}' should be valid"
        );
    }

    let invalid_registries = vec![
        ("", "myorg:myapp", "1.0.0"),
        ("ghcr.io", "", "1.0.0"),
        ("ghcr.io", "myorg/myapp", "1.0.0"),
        ("ghcr.io", "myapp", "1.0.0"),
        ("ghcr.io", "myorg:myapp", ""),
    ];

    for (registry, package, version) in invalid_registries {
        let source = ComponentSource::Registry {
            registry: registry.to_string(),
            package: package.to_string(),
            version: version.to_string(),
        };
        assert!(
            source.validate().is_err(),
            "Registry source '{registry}' / '{package}' / '{version}' should be invalid"
        );
    }

    let valid_registries = vec![
        ("ghcr.io", "myorg:myapp", "1.0.0"),
        ("docker.io", "namespace:component", "v2.1.0-beta"),
        ("registry.example.com:5000", "org:suborg:tool", "latest"),
        ("ttl.sh", "user:app", "1.0.0"),
        ("localhost:5000", "test:app", "dev"),
    ];

    for (registry, package, version) in valid_registries {
        let source = ComponentSource::Registry {
            registry: registry.to_string(),
            package: package.to_string(),
            version: version.to_string(),
        };
        assert!(
            source.validate().is_ok(),
            "Registry source '{registry}' / '{package}' / '{version}' should be valid"
        );
    }
}

#[test]
fn spin_config_validation_tests_test_variable_validation() {
    let mut vars = StrMap::new();
    vars.insert("bad_required".to_string(), SpinVariable::Required { required: false });
    assert!(validate_variables(&vars).is_err());

    vars.clear();
    vars.insert(
        "bad_secret_required".to_string(),
        SpinVariable::SecretRequired { required: false, secret: true },
    );
    assert!(validate_variables(&vars).is_err());

    vars.clear();
    vars.insert("default_var".to_string(), SpinVariable::Default { default: "value".to_string() });
    vars.insert("required_var".to_string(), SpinVariable::Required { required: true });
    vars.insert(
        "secret_default".to_string(),
        SpinVariable::SecretDefault { default: "secret_value".to_string(), secret: true },
    );
    vars.insert(
        "secret_required".to_string(),
        SpinVariable::SecretRequired { required: true, secret: true },
    );
    assert!(validate_variables(&vars).is_ok());

    vars.clear();
    vars.insert(String::new(), SpinVariable::Default { default: "value".to_string() });
    assert!(validate_variables(&vars).is_err());
}

#[test]
fn spin_config_validation_tests_test_outbound_hosts_validation() {
    let list = vec![String::new()];
    assert!(validate_outbound_hosts(&list).is_err());

    let list = hosts(&["example.com"]);
    assert!(validate_outbound_hosts(&list).is_err());

    let list = hosts(&["http://"]);
    assert!(validate_outbound_hosts(&list).is_ok());

    let list = hosts(&[
        "http://example.com",
        "https://api.example.com:8080",
        "redis://localhost:6379",
        "mysql://db.example.com",
        "postgres://db.example.com:5432",
        "*://example.com:*",
        "http://127.0.0.1:*",
        "https://*.example.com",
        "http://*",
    ]);
    assert!(validate_outbound_hosts(&list).is_ok());
}

#[test]
fn test_build_config_validation() {
    let build = ComponentBuildConfig {
        command: String::new(),
        workdir: String::new(),
        watch: Vec::new(),
        environment: StrMap::new(),
    };
    assert!(build.validate().is_err());

    let build = ComponentBuildConfig {
        command: "cargo build --target wasm32-wasip1 --release".to_string(),
        workdir: "/path/to/project".to_string(),
        watch: vec!["src/**/*.rs".to_string(), "Cargo.toml".to_string()],
        environment: map(&[("RUST_LOG", "debug"), ("CARGO_BUILD_JOBS", "4")]),
    };
    assert!(build.validate().is_ok());
}

#[test]
fn test_route_config_validation() {
    let route = RouteConfig::Path(String::new());
    assert!(route.validate().is_ok());

    let valid_routes = vec![
        RouteConfig::Path("/".to_string()),
        RouteConfig::Path("/api".to_string()),
        RouteConfig::Path("/api/v1".to_string()),
        RouteConfig::Path("/api/...".to_string()),
        RouteConfig::Path("/users/:id".to_string()),
        RouteConfig::Path("/.well-known/oauth".to_string()),
        RouteConfig::Private { private: true },
    ];

    for route in valid_routes {
        assert!(route.validate().is_ok());
    }

    let route = RouteConfig::Private { private: false };
    assert!(route.validate().is_err());
}

#[test]
fn test_redis_trigger_validation() {
    let trigger = RedisTrigger {
        address: Some("redis://localhost:6379".to_string()),
        channel: String::new(),
        component: "my-component".to_string(),
    };
    assert!(trigger.validate().is_err());

    let trigger = RedisTrigger {
        address: Some("redis://localhost:6379".to_string()),
        channel: "my-channel".to_string(),
        component: String::new(),
    };
    assert!(trigger.validate().is_err());

    let trigger = RedisTrigger {
        address: Some("redis://localhost:6379".to_string()),
        channel: "my-channel".to_string(),
        component: "my-component".to_string(),
    };
    assert!(trigger.validate().is_ok());

    let trigger = RedisTrigger {
        address: None,
        channel: "my-channel".to_string(),
        component: "my-component".to_string(),
    };
    assert!(trigger.validate().is_ok());
}

#[test]
fn test_http_trigger_validation() {
    let trigger = HttpTrigger {
        route: RouteConfig::Path("/test".to_string()),
        component: String::new(),
        executor: None,
    };
    assert!(trigger.validate().is_err());

    let valid_triggers = vec![
        HttpTrigger {
            route: RouteConfig::Path("/api".to_string()),
            component: "my-component".to_string(),
            executor: None,
        },
        HttpTrigger {
            route: RouteConfig::Path("/api".to_string()),
            component: "my-component".to_string(),
            executor: Some(ExecutorConfig::Spin),
        },
        HttpTrigger {
            route: RouteConfig::Path("/api".to_string()),
            component: "my-component".to_string(),
            executor: Some(ExecutorConfig::Wagi {
                argv: Some("${SCRIPT_NAME} ${ARGS}".to_string()),
                entrypoint: Some("_start".to_string()),
            }),
        },
    ];

    for trigger in valid_triggers {
        assert!(trigger.validate().is_ok());
    }
}

#[test]
fn test_full_config_validation() {
    let mut config = SpinConfig::new("complex-app".to_string());
    config.application.version = "1.2.3".to_string();
    config.application.description = "A complex application".to_string();
    config.application.authors = vec!["Author 1".to_string(), "Author 2".to_string()];

    config.variables.insert("api_key".to_string(), SpinVariable::Required { required: true });
    config.variables.insert("debug".to_string(), SpinVariable::Default { default: "false".to_string() });

    let mut dependencies = StrMap::new();
    dependencies.insert(
        "utils:logger".to_string(),
        ComponentDependency {
            registry: "ghcr.io".to_string(),
            package: "myorg:logger".to_string(),
            version: "1.0.0".to_string(),
        },
    );
    config.component.insert(
        "api-handler".to_string(),
        ComponentConfig {
            description: "Handles API requests".to_string(),
            source: ComponentSource::Local("api/handler.wasm".to_string()),
            files: vec![
                FileMount::Pattern("static/**/*".to_string()),
                FileMount::Mapping { source: "config".to_string(), destination: "/app/config".to_string() },
            ],
            exclude_files: vec!["**/*.test.js".to_string()],
            allowed_outbound_hosts: hosts(&["https://api.example.com", "redis://cache.example.com:6379"]),
            key_value_stores: vec!["default".to_string()],
            environment: map(&[("NODE_ENV", "production"), ("API_VERSION", "v2")]),
            build: Some(ComponentBuildConfig {
                command: "npm run build".to_string(),
                workdir: "api".to_string(),
                watch: vec!["src/**/*.ts".to_string(), "package.json".to_string()],
                environment: map(&[("BUILD_TARGET", "wasm")]),
            }),
            variables: map(&[("api_key", "{{ api_key }}"), ("debug_mode", "{{ debug }}")]),
            dependencies_inherit_configuration: false,
            dependencies,
        },
    );

    assert!(config.validate().is_ok());

    config.spin_manifest_version = 3;
    assert!(config.validate().is_err());
    config.spin_manifest_version = 2;

    config.application.name = "123-invalid".to_string();
    assert!(config.validate().is_err());
    config.application.name = "complex-app".to_string();

    config.application.version = "1.2".to_string();
    assert!(config.validate().is_err());
    config.application.version = "1.2.3".to_string();

    config.variables.insert("broken".to_string(), SpinVariable::Required { required: false });
    assert!(config.validate().is_err());
    config.variables.remove("broken");

    config.component.insert("invalid_component_name".to_string(), plain_component("test.wasm"));
    assert!(config.validate().is_err());
    config.component.remove("invalid_component_name");

    assert!(config.validate().is_ok());
}

#[test]
fn test_toml_generation_with_triggers() {
    let config = SpinConfig::new("test-app".to_string());

    let triggers = TriggerConfig {
        http: vec![
            HttpTrigger {
                route: RouteConfig::Path("/api".to_string()),
                component: "api-handler".to_string(),
                executor: None,
            },
            HttpTrigger {
                route: RouteConfig::Private { private: true },
                component: "internal".to_string(),
                executor: None,
            },
        ],
        redis: vec![RedisTrigger {
            address: Some("redis://localhost:6379".to_string()),
            channel: "events".to_string(),
            component: "event-handler".to_string(),
        }],
    };

    let toml = config.to_toml_string_with_triggers(&triggers).unwrap();

    assert!(toml.contains("spin_manifest_version = 2"));
    assert!(toml.contains("[application]"));
    assert!(toml.contains("[[trigger.http]]"));
    assert!(toml.contains("route = \"/api\""));
    assert!(toml.contains("route = { private = true }"));
    assert!(toml.contains("[[trigger.redis]]"));
    assert!(toml.contains("channel = \"events\""));
}

#[test]
fn every_problem_of_a_manifest_is_reported_in_order() {
    let mut config = SpinConfig::new(String::new());
    config.spin_manifest_version = 1;
    config.application.version = String::new();
    match config.validate() {
        Err(ps) => {
            let kinds: Vec<String> = ps.iter().map(|p| format!("{p:?}")).collect();
            assert_eq!(
                kinds,
                vec!["ManifestVersion", "EmptyAppName", "AppNamePattern", "EmptyAppVersion", "AppVersionPattern"]
            );
        }
        Ok(()) => panic!("expected problems"),
    }
}

#[test]
fn problem_details() {
    let source = ComponentSource::Remote { url: "http://".to_string(), digest: String::new() };
    assert_eq!(
        source.validate(),
        Err(vec![SourceProblem::UrlWithoutHost, SourceProblem::EmptyDigest, SourceProblem::DigestPrefix])
    );
    let source = ComponentSource::Registry {
        registry: String::new(),
        package: String::new(),
        version: String::new(),
    };
    assert_eq!(
        source.validate(),
        Err(vec![
            SourceProblem::EmptyRegistry,
            SourceProblem::EmptyPackage,
            SourceProblem::PackageFormat,
            SourceProblem::EmptyVersion
        ])
    );
    assert!(matches!(
        validate_outbound_hosts(&hosts(&["{{ api_url }}", "db.local", ""])),
        Err(ComponentProblem::HostWithoutScheme(h)) if h == "db.local"
    ));
    assert_eq!(
        RedisTrigger { address: None, channel: String::new(), component: String::new() }.validate(),
        Err(vec![FieldProblem::EmptyChannel, FieldProblem::EmptyTriggerComponent])
    );
    assert_eq!(
        ApplicationRedisTriggerConfig { address: "localhost:6379".to_string() }.validate(),
        Err(vec![FieldProblem::RedisAddressScheme])
    );
    assert_eq!(
        ApplicationRedisTriggerConfig { address: String::new() }.validate(),
        Err(vec![FieldProblem::EmptyRedisAddress, FieldProblem::RedisAddressScheme])
    );
    assert!(ApplicationRedisTriggerConfig { address: "redis://h".to_string() }.validate().is_ok());

    let mut component = plain_component("");
    component.allowed_outbound_hosts = hosts(&["nohost"]);
    component.build = Some(ComponentBuildConfig {
        command: String::new(),
        workdir: String::new(),
        watch: Vec::new(),
        environment: StrMap::new(),
    });
    let mut config = SpinConfig::new("app".to_string());
    config.component.insert("ok".to_string(), component);
    match config.validate() {
        Err(ps) => {
            assert_eq!(ps.len(), 1);
            match &ps[0] {
                SpinProblem::Component(name, problems) => {
                    assert_eq!(name, "ok");
                    assert_eq!(problems.len(), 3);
                    assert!(matches!(problems[0], ComponentProblem::Source(SourceProblem::EmptyLocalPath)));
                    assert!(matches!(&problems[1], ComponentProblem::HostWithoutScheme(h) if h == "nohost"));
                    assert!(matches!(problems[2], ComponentProblem::EmptyBuildCommand));
                }
                other => panic!("unexpected {other:?}"),
            }
        }
        Ok(()) => panic!("expected a problem"),
    }
}

#[test]
fn name_and_version_shapes() {
    assert!(is_app_name("a-b_c9"));
    assert!(!is_app_name("9a"));
    assert!(!is_app_name("ä"));
    assert!(is_version_text("1.22.333"));
    assert!(!is_version_text("1.2"));
    assert!(!is_version_text("1.2.3.4"));
    assert!(!is_version_text("1..2"));
    // component names accept any alphabetic first character
    let mut config = SpinConfig::new("app".to_string());
    config.component.insert("été".to_string(), plain_component("x.wasm"));
    assert!(config.validate().is_ok());
}
