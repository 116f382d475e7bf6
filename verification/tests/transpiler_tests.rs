//! Transpilation of ftl.toml configurations into spin.toml text.

use ftl::ftl_config::{
    ApplicationVariable, BuildConfig, BuildProfile, BuildProfiles, ComponentConfig, DeployConfig,
    FtlConfig, McpConfig, OauthConfig, ProjectConfig, UpConfig,
};
use ftl::spin_config::{
    ApplicationConfig, ComponentBuildConfig, ComponentConfig as SpinComponent, ComponentSource,
    SpinConfig, SpinVariable,
};
use ftl::strmap::StrMap;
use ftl::transpiler::{create_mcp_component, parse_component_source, transpile_ftl_to_spin, validate_local_auth};

fn strings(v: Option<&toml::Value>) -> Vec<String> {
    v.and_then(|x| x.as_array())
        .map(|a| a.iter().map(|s| s.as_str().unwrap().to_string()).collect())
        .unwrap_or_default()
}

fn string_map(v: Option<&toml::Value>) -> StrMap<String> {
    let mut m = StrMap::new();
    if let Some(t) = v.and_then(|x| x.as_table()) {
        for (k, x) in t {
            m.insert(k.clone(), x.as_str().unwrap().to_string());
        }
    }
    m
}

/// Reads a spin.toml table back into a manifest, as Spin would.
fn spin_config_of(t: &toml::Table) -> SpinConfig {
    let app = &t["application"];
    let mut variables = StrMap::new();
    if let Some(vars) = t.get("variables").and_then(|v| v.as_table()) {
        for (name, v) in vars {
            let default = v.get("default").and_then(|d| d.as_str()).map(|d| d.to_string());
            let required = v.get("required").and_then(|r| r.as_bool());
            let secret = v.get("secret").and_then(|s| s.as_bool());
            let var = match (default, required, secret) {
                (Some(default), _, None) => SpinVariable::Default { default },
                (Some(default), _, Some(secret)) => SpinVariable::SecretDefault { default, secret },
                (None, Some(required), None) => SpinVariable::Required { required },
                (None, Some(required), Some(secret)) => SpinVariable::SecretRequired { required, secret },
                _ => panic!("unexpected variable {name}"),
            };
            variables.insert(name.clone(), var);
        }
    }
    let mut component = StrMap::new();
    if let Some(comps) = t.get("component").and_then(|c| c.as_table()) {
        for (name, c) in comps {
            let build = c.get("build").map(|b| ComponentBuildConfig {
                command: b["command"].as_str().unwrap().to_string(),
                workdir: b.get("workdir").and_then(|w| w.as_str()).unwrap_or("").to_string(),
                watch: strings(b.get("watch")),
                environment: string_map(b.get("environment")),
            });
            component.insert(
                name.clone(),
                SpinComponent {
                    description: c.get("description").and_then(|d| d.as_str()).unwrap_or("").to_string(),
                    source: ComponentSource::Local(c["source"].as_str().unwrap().to_string()),
                    files: Vec::new(),
                    exclude_files: strings(c.get("exclude_files")),
                    allowed_outbound_hosts: strings(c.get("allowed_outbound_hosts")),
                    key_value_stores: strings(c.get("key_value_stores")),
                    environment: string_map(c.get("environment")),
                    build,
                    variables: string_map(c.get("variables")),
                    dependencies_inherit_configuration: false,
                    dependencies: StrMap::new(),
                },
            );
        }
    }
    SpinConfig {
        spin_manifest_version: t["spin_manifest_version"].as_integer().unwrap(),
        application: ApplicationConfig {
            name: app["name"].as_str().unwrap().to_string(),
            version: app.get("version").and_then(|v| v.as_str()).unwrap_or("0.1.0").to_string(),
            description: app.get("description").and_then(|d| d.as_str()).unwrap_or("").to_string(),
            authors: strings(app.get("authors")),
            trigger: None,
        },
        variables,
        component,
    }
}

/// Parses generated spin.toml text and checks it against the Spin
/// manifest rules.
fn validate_spin_toml(spin_toml: &str) -> Result<toml::Table, String> {
    let table = spin_toml.parse::<toml::Table>().map_err(|e| e.to_string())?;
    spin_config_of(&table).validate().map_err(|e| format!("{e:?}"))?;
    Ok(table)
}

fn var_default<'a>(t: &'a toml::Table, name: &str) -> Option<&'a str> {
    t["variables"].get(name)?.get("default")?.as_str()
}

fn components(t: &toml::Table) -> &toml::Table {
    t["component"].as_table().unwrap()
}

fn project(name: &str, version: &str, description: &str, authors: Vec<String>) -> ProjectConfig {
    ProjectConfig {
        name: name.to_string(),
        version: version.to_string(),
        description: description.to_string(),
        authors,
        default_registry: None,
    }
}

fn oauth(
    issuer: &str,
    audience: &str,
    jwks_uri: &str,
    authorize: &str,
    token: &str,
    userinfo: &str,
    allowed_subjects: Vec<String>,
) -> OauthConfig {
    OauthConfig {
        issuer: issuer.to_string(),
        audience: audience.to_string(),
        jwks_uri: jwks_uri.to_string(),
        public_key: String::new(),
        algorithm: String::new(),
        required_scopes: String::new(),
        authorize_endpoint: authorize.to_string(),
        token_endpoint: token.to_string(),
        userinfo_endpoint: userinfo.to_string(),
        allowed_subjects,
    }
}

fn local_component(
    path: &str,
    wasm: &str,
    command: &str,
    watch: Vec<String>,
    env: StrMap<String>,
    hosts: Vec<String>,
    variables: StrMap<String>,
) -> ComponentConfig {
    ComponentConfig {
        path: Some(path.to_string()),
        wasm: Some(wasm.to_string()),
        repo: None,
        build: Some(BuildConfig { command: command.to_string(), watch, env }),
        profiles: None,
        up: None,
        deploy: None,
        allowed_outbound_hosts: hosts,
        variables,
    }
}

#[test]
fn test_transpile_minimal_config() {
    let config = FtlConfig {
        project: project("test-project", "0.1.0", "Test project", vec![]),
        oauth: None,
        component: StrMap::new(),
        mcp: McpConfig::default(),
        variables: StrMap::new(),
    };

    let result = transpile_ftl_to_spin(&config).unwrap();
    println!("Generated TOML:\n{result}");

    assert!(result.contains("spin_manifest_version = 2"));
    assert!(result.contains("[application]"));
    assert!(result.contains("name = \"test-project\""));
    assert!(result.contains("version = \"0.1.0\""));
    assert!(result.contains("[variables]"));
    assert!(result.contains("component_names"));
    assert!(result.contains("[[trigger.http]]"));

    assert!(result.contains("[component.mcp]"));
    assert!(!result.contains("[component.ftl-mcp-gateway]"));

    let spin_config = validate_spin_toml(&result).unwrap();
    assert_eq!(spin_config["spin_manifest_version"].as_integer(), Some(2));
    assert_eq!(spin_config["application"]["name"].as_str(), Some("test-project"));
    assert_eq!(spin_config["application"]["version"].as_str(), Some("0.1.0"));
    assert_eq!(spin_config["application"]["description"].as_str(), Some("Test project"));
}

#[test]
fn test_transpile_with_components() {
    let mut component = StrMap::new();
    component.insert(
        "echo-tool".to_string(),
        local_component(
            "echo-tool",
            "echo-tool/target/wasm32-wasip1/release/echo_tool.wasm",
            "cargo build --target wasm32-wasip1 --release",
            vec!["src/**/*.rs".to_string(), "Cargo.toml".to_string()],
            StrMap::new(),
            vec![],
            StrMap::new(),
        ),
    );
    component.insert(
        "weather".to_string(),
        local_component(
            "weather-ts",
            "weather-ts/dist/weather.wasm",
            "npm run build:custom",
            vec!["src/**/*.ts".to_string()],
            StrMap::new(),
            vec!["https://api.weather.com".to_string()],
            StrMap::new(),
        ),
    );

    let config = FtlConfig {
        project: project("test-project", "0.1.0", "", vec!["Test Author <test@example.com>".to_string()]),
        oauth: None,
        component,
        mcp: McpConfig::default(),
        variables: StrMap::new(),
    };

    let result = transpile_ftl_to_spin(&config).unwrap();
    println!("Generated TOML with component:\n{result}");

    assert!(result.contains("echo-tool") && result.contains("weather"));
    assert!(result.contains("[component.echo-tool]"));
    assert!(result.contains("echo-tool/target/wasm32-wasip1/release/echo_tool.wasm"));
    assert!(result.contains("[component.weather]"));
    assert!(result.contains("weather-ts/dist/weather.wasm"));
    assert!(result.contains("npm run build:custom"));
    assert!(result.contains("https://api.weather.com"));

    let spin_config = validate_spin_toml(&result).unwrap();
    assert!(components(&spin_config).contains_key("echo-tool"));
    assert!(components(&spin_config).contains_key("weather"));

    let names = var_default(&spin_config, "component_names").expect("component_names should be a default variable");
    assert!(names.contains("echo-tool"));
    assert!(names.contains("weather"));
}

#[test]
fn test_transpile_with_variables() {
    let mut component = StrMap::new();
    let mut variables = StrMap::new();
    variables.insert("API_KEY".to_string(), "test-key".to_string());
    variables.insert("DEBUG".to_string(), "true".to_string());

    component.insert(
        "api-tool".to_string(),
        local_component(
            "api-tool",
            "api-tool/target/wasm32-wasip1/release/api_tool.wasm",
            "cargo build --target wasm32-wasip1 --release",
            vec![],
            StrMap::new(),
            vec![],
            variables,
        ),
    );

    let config = FtlConfig {
        project: project("test-project", "0.1.0", "", vec![]),
        oauth: None,
        component,
        mcp: McpConfig::default(),
        variables: StrMap::new(),
    };

    let result = transpile_ftl_to_spin(&config).unwrap();
    println!("Generated TOML with variables:\n{result}");

    assert!(result.contains("[component.api-tool.variables]"));
    assert!(result.contains("API_KEY = \"test-key\""));
    assert!(result.contains("DEBUG = \"true\""));

    let spin_config = validate_spin_toml(&result).unwrap();
    let api_component = &components(&spin_config)["api-tool"];
    assert_eq!(api_component["variables"]["API_KEY"].as_str(), Some("test-key"));
    assert_eq!(api_component["variables"]["DEBUG"].as_str(), Some("true"));
}

#[test]
fn test_transpile_with_auth() {
    let config = FtlConfig {
        project: project("auth-project", "1.0.0", "", vec![]),
        oauth: None,
        component: StrMap::new(),
        mcp: McpConfig::default(),
        variables: StrMap::new(),
    };

    let result = transpile_ftl_to_spin(&config).unwrap();

    assert!(result.contains("auth_enabled = { default = \"false\" }"));
    assert!(result.contains("mcp_auth_allowed_subjects = { default = \"\" }"));
    assert!(result.contains("mcp_auth_required_claims = { default = \"\" }"));

    let spin_config = validate_spin_toml(&result).unwrap();
    assert_eq!(var_default(&spin_config, "auth_enabled"), Some("false"));
    assert_eq!(var_default(&spin_config, "mcp_jwt_issuer"), Some(""));
    assert_eq!(var_default(&spin_config, "mcp_auth_allowed_subjects"), Some(""));
    assert_eq!(var_default(&spin_config, "mcp_auth_required_claims"), Some(""));
}

#[test]
fn test_transpile_with_oauth_auth() {
    let config = FtlConfig {
        project: project("oauth-project", "1.0.0", "", vec![]),
        oauth: Some(oauth(
            "https://auth.example.com",
            "api",
            "https://auth.example.com/.well-known/jwks.json",
            "https://auth.example.com/authorize",
            "https://auth.example.com/token",
            "https://auth.example.com/userinfo",
            vec![],
        )),
        component: StrMap::new(),
        mcp: McpConfig::default(),
        variables: StrMap::new(),
    };

    let result = transpile_ftl_to_spin(&config).unwrap();

    assert!(result.contains("auth_enabled = { default = \"true\" }"));
    assert!(result.contains("mcp_provider_type = { default = \"jwt\" }"));
    assert!(result.contains(
        "mcp_jwt_jwks_uri = { default = \"https://auth.example.com/.well-known/jwks.json\" }"
    ));
    assert!(result.contains("mcp_jwt_issuer = { default = \"https://auth.example.com\" }"));
    assert!(result.contains("mcp_auth_allowed_subjects = { default = \"\" }"));

    let spin_config = validate_spin_toml(&result).unwrap();
    assert_eq!(var_default(&spin_config, "mcp_provider_type"), Some("jwt"));
    assert_eq!(var_default(&spin_config, "mcp_jwt_issuer"), Some("https://auth.example.com"));
    assert_eq!(var_default(&spin_config, "mcp_auth_allowed_subjects"), Some(""));
}

#[test]
fn test_transpile_with_allowed_subjects() {
    let config = FtlConfig {
        project: project("restricted-project", "1.0.0", "", vec![]),
        oauth: Some(oauth(
            "https://auth.example.com",
            "api",
            "https://auth.example.com/.well-known/jwks.json",
            "",
            "",
            "",
            vec![
                "alice@example.com".to_string(),
                "bob@example.com".to_string(),
                "service-account-123".to_string(),
            ],
        )),
        component: StrMap::new(),
        mcp: McpConfig::default(),
        variables: StrMap::new(),
    };

    let result = transpile_ftl_to_spin(&config).unwrap();

    assert!(result.contains(
        "mcp_auth_allowed_subjects = { default = \"alice@example.com,bob@example.com,service-account-123\" }"
    ));

    let spin_config = validate_spin_toml(&result).unwrap();
    assert_eq!(
        var_default(&spin_config, "mcp_auth_allowed_subjects"),
        Some("alice@example.com,bob@example.com,service-account-123")
    );
}

#[test]
fn test_transpile_with_public_access() {
    let config = FtlConfig {
        project: project("public-project", "0.1.0", "", vec![]),
        oauth: None,
        component: StrMap::new(),
        mcp: McpConfig::default(),
        variables: StrMap::new(),
    };

    let result = transpile_ftl_to_spin(&config).unwrap();
    println!("Generated TOML with public access:\n{result}");

    assert!(result.contains("auth_enabled = { default = \"false\" }"));
    assert!(result.contains("[component.mcp]"));
    assert!(!result.contains("[component.ftl-mcp-gateway]"));

    let spin_config = validate_spin_toml(&result).unwrap();
    assert_eq!(var_default(&spin_config, "auth_enabled"), Some("false"));
}

#[test]
fn test_transpile_with_custom_gateway_uris() {
    let config = FtlConfig {
        project: project("custom-gateway-project", "1.0.0", "", vec![]),
        oauth: None,
        component: StrMap::new(),
        mcp: McpConfig {
            gateway: "ghcr.io/myorg/custom-gateway:2.0.0".to_string(),
            authorizer: "ghcr.io/myorg/custom-authorizer:2.0.0".to_string(),
            validate_arguments: true,
        },
        variables: StrMap::new(),
    };

    let result = transpile_ftl_to_spin(&config).unwrap();
    println!("Generated TOML with custom gateway URIs:\n{result}");

    assert!(result.contains("[[trigger.http]]"));
    assert!(result.contains("component = \"mcp\""));
    assert!(!result.contains("component = \"ftl-mcp-gateway\""));
    assert!(result.contains("[component.mcp]"));
    assert!(result.contains("source = \"ghcr.io/myorg/custom-gateway:2.0.0\""));

    let spin_config = validate_spin_toml(&result).unwrap();
    assert!(components(&spin_config).contains_key("mcp"));
    assert!(!components(&spin_config).contains_key("ftl-mcp-gateway"));
    let gateway_component = &components(&spin_config)["mcp"];
    assert_eq!(
        gateway_component["source"].as_str(),
        Some("ghcr.io/myorg/custom-gateway:2.0.0"),
        "Expected gateway component to have local source"
    );
}

#[test]
fn test_transpile_with_application_variables() {
    let mut app_vars = StrMap::new();
    app_vars.insert("api_token".to_string(), ApplicationVariable::Required { required: true });
    app_vars.insert(
        "api_url".to_string(),
        ApplicationVariable::Default { default: "https://api.example.com".to_string() },
    );

    let mut component = StrMap::new();
    let mut component_vars = StrMap::new();
    component_vars.insert("token".to_string(), "{{ api_token }}".to_string());
    component_vars.insert("url".to_string(), "{{ api_url }}".to_string());
    component_vars.insert("version".to_string(), "v1".to_string());

    component.insert(
        "api-consumer".to_string(),
        local_component(
            "api-consumer",
            "api-consumer/target/wasm32-wasip1/release/api_consumer.wasm",
            "cargo build --target wasm32-wasip1 --release",
            vec![],
            StrMap::new(),
            vec!["{{ api_url }}".to_string()],
            component_vars,
        ),
    );

    let config = FtlConfig {
        project: project("test-project", "0.1.0", "", vec![]),
        oauth: None,
        component,
        mcp: McpConfig::default(),
        variables: app_vars,
    };

    let result = transpile_ftl_to_spin(&config).unwrap();
    println!("Generated TOML with app variables:\n{result}");

    assert!(result.contains("api_token = { required = true }"));
    assert!(result.contains("api_url = { default = \"https://api.example.com\" }"));
    assert!(result.contains("[component.api-consumer.variables]"));
    assert!(result.contains("token = \"{{ api_token }}\""));
    assert!(result.contains("url = \"{{ api_url }}\""));
    assert!(result.contains("version = \"v1\""));
    assert!(result.contains("allowed_outbound_hosts = [\"{{ api_url }}\"]"));

    let spin_config = validate_spin_toml(&result).unwrap();
    assert_eq!(spin_config["variables"]["api_token"]["required"].as_bool(), Some(true));
    assert_eq!(var_default(&spin_config, "api_url"), Some("https://api.example.com"));
}

#[test]
fn test_transpile_complete_example() {
    let mut app_vars = StrMap::new();
    app_vars.insert("database_url".to_string(), ApplicationVariable::Required { required: true });
    app_vars.insert("log_level".to_string(), ApplicationVariable::Default { default: "info".to_string() });

    let mut component = StrMap::new();

    let mut db_vars = StrMap::new();
    db_vars.insert("db_url".to_string(), "{{ database_url }}".to_string());
    db_vars.insert("pool_size".to_string(), "10".to_string());

    let mut db_env = StrMap::new();
    db_env.insert("RUST_LOG".to_string(), "debug".to_string());

    component.insert(
        "database".to_string(),
        local_component(
            "tools/database",
            "tools/database/target/wasm32-wasip1/release/database.wasm",
            "cargo build --target wasm32-wasip1 --release",
            vec!["src/**/*.rs".to_string(), "Cargo.toml".to_string()],
            db_env,
            vec!["postgres://db.example.com:5432".to_string()],
            db_vars,
        ),
    );

    let mut api_component_vars = StrMap::new();
    api_component_vars.insert("api_key".to_string(), "{{ api_key }}".to_string());
    api_component_vars.insert("log_level".to_string(), "{{ log_level }}".to_string());

    component.insert(
        "api-client".to_string(),
        local_component(
            "tools/api",
            "tools/api/dist/api.wasm",
            "npm run build",
            vec!["src/**/*.ts".to_string(), "package.json".to_string()],
            StrMap::new(),
            vec![
                "https://api.example.com".to_string(),
                "https://backup.example.com".to_string(),
                "*://cdn.example.com:*".to_string(),
            ],
            api_component_vars,
        ),
    );

    let config = FtlConfig {
        project: project(
            "complete-example",
            "2.1.0",
            "A complete example with all features",
            vec!["John Doe <john@example.com>".to_string(), "Jane Smith <jane@example.com>".to_string()],
        ),
        oauth: None,
        component,
        mcp: McpConfig {
            gateway: "ghcr.io/example/gateway:3.0.0".to_string(),
            authorizer: "ghcr.io/example/auth:3.0.0".to_string(),
            validate_arguments: false,
        },
        variables: app_vars,
    };

    let result = transpile_ftl_to_spin(&config).unwrap();
    println!("Generated complete TOML:\n{result}");

    let spin_config = validate_spin_toml(&result).unwrap();

    assert_eq!(spin_config["application"]["name"].as_str(), Some("complete-example"));
    assert_eq!(spin_config["application"]["version"].as_str(), Some("2.1.0"));
    assert_eq!(
        spin_config["application"]["description"].as_str(),
        Some("A complete example with all features")
    );
    assert_eq!(spin_config["application"]["authors"].as_array().unwrap().len(), 2);

    assert!(components(&spin_config).contains_key("mcp"));
    assert!(components(&spin_config).contains_key("database"));
    assert!(components(&spin_config).contains_key("api-client"));

    let db_component = &components(&spin_config)["database"];
    let db_hosts = db_component["allowed_outbound_hosts"].as_array().unwrap();
    assert_eq!(db_hosts.len(), 1);
    assert_eq!(db_hosts[0].as_str(), Some("postgres://db.example.com:5432"));
    assert!(db_component.get("build").is_some());
    assert_eq!(db_component["build"]["environment"]["RUST_LOG"].as_str(), Some("debug"));

    let api_component = &components(&spin_config)["api-client"];
    let api_hosts = api_component["allowed_outbound_hosts"].as_array().unwrap();
    assert_eq!(api_hosts.len(), 3);
    assert!(api_hosts.iter().any(|h| h.as_str() == Some("https://api.example.com")));

    assert_eq!(spin_config["variables"]["database_url"]["required"].as_bool(), Some(true));
    assert_eq!(var_default(&spin_config, "log_level"), Some("info"));
    assert_eq!(var_default(&spin_config, "auth_enabled"), Some("false"));
}

#[test]
fn test_transpile_with_build_profiles() {
    let mut component = StrMap::new();

    let mut profiles = StrMap::new();
    profiles.insert(
        "dev".to_string(),
        BuildProfile {
            command: "cargo build --target wasm32-wasip1".to_string(),
            watch: vec!["src/**/*.rs".to_string()],
            env: StrMap::from_pairs(vec![("RUST_LOG".to_string(), "debug".to_string())]),
        },
    );
    profiles.insert(
        "release".to_string(),
        BuildProfile {
            command: "cargo build --target wasm32-wasip1 --release".to_string(),
            watch: vec![],
            env: StrMap::from_pairs(vec![("RUST_LOG".to_string(), "warn".to_string())]),
        },
    );

    component.insert(
        "profiled-tool".to_string(),
        ComponentConfig {
            path: Some("profiled".to_string()),
            wasm: Some("profiled/target/wasm32-wasip1/release/profiled.wasm".to_string()),
            repo: None,
            build: Some(BuildConfig {
                command: "cargo build --target wasm32-wasip1".to_string(),
                watch: vec!["src/**/*.rs".to_string()],
                env: StrMap::new(),
            }),
            profiles: Some(BuildProfiles { profiles }),
            up: Some(UpConfig { profile: "dev".to_string() }),
            deploy: Some(DeployConfig { profile: "release".to_string(), name: None }),
            allowed_outbound_hosts: vec![],
            variables: StrMap::new(),
        },
    );

    let config = FtlConfig {
        project: project("profile-test", "0.1.0", "", vec![]),
        oauth: None,
        component,
        mcp: McpConfig::default(),
        variables: StrMap::new(),
    };

    let result = transpile_ftl_to_spin(&config).unwrap();

    assert!(result.contains("[component.profiled-tool.build]"));
    assert!(result.contains("command = \"cargo build --target wasm32-wasip1\""));

    let spin_config = validate_spin_toml(&result).unwrap();
    assert!(components(&spin_config).contains_key("profiled-tool"));
}

#[test]
fn test_transpile_with_special_characters() {
    let mut app_vars = StrMap::new();
    app_vars.insert(
        "special-var-name".to_string(),
        ApplicationVariable::Default { default: "value with \"quotes\" and 'apostrophes'".to_string() },
    );

    let mut component = StrMap::new();
    let mut component_vars = StrMap::new();
    component_vars.insert("path".to_string(), "/path/with spaces/file.txt".to_string());
    component_vars.insert("url".to_string(), "https://example.com/api?key=value&foo=bar".to_string());

    component.insert(
        "special-chars".to_string(),
        local_component(
            "tools/special",
            "tools/special/output.wasm",
            "npm run build -- --config=\"production\"",
            vec!["src/**/*.{ts,tsx}".to_string()],
            StrMap::from_pairs(vec![
                ("NODE_ENV".to_string(), "production".to_string()),
                ("API_URL".to_string(), "https://api.example.com/v1".to_string()),
            ]),
            vec!["https://api.example.com:8443".to_string()],
            component_vars,
        ),
    );

    let config = FtlConfig {
        project: project(
            "special-chars-test",
            "0.1.0",
            "Testing \"special\" characters & symbols",
            vec!["Author <test@example.com> (Company & Co.)".to_string()],
        ),
        oauth: None,
        component,
        mcp: McpConfig::default(),
        variables: app_vars,
    };

    let result = transpile_ftl_to_spin(&config).unwrap();

    let spin_config = validate_spin_toml(&result).unwrap();
    assert_eq!(
        spin_config["application"]["description"].as_str(),
        Some("Testing \"special\" characters & symbols")
    );
    assert_eq!(
        var_default(&spin_config, "special-var-name"),
        Some("value with \"quotes\" and 'apostrophes'"),
        "special-var-name should be a default variable"
    );
}

#[test]
fn test_transpile_empty_collections() {
    let config = FtlConfig {
        project: project("empty-test", "0.1.0", "", vec![]),
        oauth: None,
        component: StrMap::new(),
        mcp: McpConfig::default(),
        variables: StrMap::new(),
    };

    let result = transpile_ftl_to_spin(&config).unwrap();

    let spin_config = validate_spin_toml(&result).unwrap();
    assert_eq!(spin_config["application"]["name"].as_str(), Some("empty-test"));
    assert!(spin_config["application"].get("description").map_or(true, |d| d.as_str() == Some("")));
    assert!(spin_config["application"]
        .get("authors")
        .map_or(true, |a| a.as_array().unwrap().is_empty()));

    assert!(components(&spin_config).contains_key("mcp"));
    assert!(!components(&spin_config).contains_key("ftl-mcp-gateway"));

    assert!(spin_config["variables"].get("component_names").is_some());
    assert!(spin_config["variables"].get("auth_enabled").is_some());
}

#[test]
fn test_parse_component_source() {
    let test_cases = vec![
        ("app.wasm", "app.wasm"),
        ("/path/to/app.wasm", "/path/to/app.wasm"),
        ("ghcr.io/myorg/my-component:1.0.0", "ghcr.io/myorg/my-component:1.0.0"),
    ];

    for (input, expected) in test_cases {
        let result = parse_component_source(input, None);
        match result {
            ComponentSource::Local(path) => {
                assert_eq!(path, expected, "Path mismatch for input: {input}");
            }
            _ => panic!("Expected Local source for input: {input}"),
        }
    }
}

#[test]
fn test_http_trigger_generation() {
    let mut component = StrMap::new();
    component.insert(
        "tool1".to_string(),
        local_component("tool1", "tool1/output.wasm", "make", vec![], StrMap::new(), vec![], StrMap::new()),
    );
    component.insert(
        "tool2".to_string(),
        local_component("tool2", "tool2/output.wasm", "make", vec![], StrMap::new(), vec![], StrMap::new()),
    );

    let config = FtlConfig {
        project: project("trigger-test", "0.1.0", "", vec![]),
        oauth: None,
        component,
        mcp: McpConfig::default(),
        variables: StrMap::new(),
    };

    let result = transpile_ftl_to_spin(&config).unwrap();

    assert!(result.contains("[[trigger.http]]"));
    assert!(result.contains("route = \"/...\""));
    assert!(!result.contains("route = \"/.well-known/oauth-protected-resource\""));
    assert!(!result.contains("route = \"/.well-known/oauth-authorization-server\""));

    let private_count = result.matches("route = { private = true }").count();
    assert_eq!(private_count, 2);

    let tool1_triggers = result.matches("component = \"tool1\"").count();
    let tool2_triggers = result.matches("component = \"tool2\"").count();
    assert_eq!(tool1_triggers, 1);
    assert_eq!(tool2_triggers, 1);
}

#[test]
fn test_auth_disabled_omits_authorizer() {
    let config = FtlConfig {
        project: project("no-auth-project", "1.0.0", "", vec![]),
        oauth: None,
        component: StrMap::new(),
        mcp: McpConfig::default(),
        variables: StrMap::new(),
    };

    let result = transpile_ftl_to_spin(&config).unwrap();
    println!("Generated TOML with auth disabled:\n{result}");

    assert!(result.contains("auth_enabled = { default = \"false\" }"));
    assert!(result.contains("[component.mcp]"));
    assert!(!result.contains("[component.ftl-mcp-gateway]"));
    assert!(!result.contains("/.well-known/oauth-protected-resource"));
    assert!(!result.contains("/.well-known/oauth-authorization-server"));

    assert!(result.contains("mcp_provider_type = { default = \"\" }"));
    assert!(result.contains("mcp_jwt_issuer = { default = \"\" }"));
    assert!(result.contains("mcp_jwt_audience = { default = \"\" }"));
    assert!(result.contains("mcp_jwt_jwks_uri = { default = \"\" }"));
    assert!(result.contains("mcp_gateway_url = { default = \"none\" }"));
    assert!(result.contains("mcp_trace_header = { default = \"x-trace-id\" }"));

    assert!(result.contains("route = \"/...\""));
    assert!(result.contains("component = \"mcp\""));

    let spin_config = validate_spin_toml(&result).unwrap();
    assert!(components(&spin_config).contains_key("mcp"));
    assert!(!components(&spin_config).contains_key("ftl-mcp-gateway"));
    assert_eq!(var_default(&spin_config, "auth_enabled"), Some("false"));
}

#[test]
fn test_auth_enabled_includes_authorizer() {
    let config = FtlConfig {
        project: project("auth-project", "1.0.0", "", vec![]),
        oauth: Some(oauth("https://auth.example.com", "", "", "", "", "", vec![])),
        component: StrMap::new(),
        mcp: McpConfig::default(),
        variables: StrMap::new(),
    };

    let result = transpile_ftl_to_spin(&config).unwrap();
    println!("Generated TOML with auth enabled:\n{result}");

    assert!(result.contains("auth_enabled = { default = \"true\" }"));
    assert!(result.contains("[component.mcp]"));
    assert!(result.contains("[component.ftl-mcp-gateway]"));
    assert!(result.contains("route = \"/...\""));
    assert!(result.contains("mcp_provider_type"));
    assert!(result.contains("mcp_jwt_issuer"));
    assert!(result.contains("mcp_jwt_audience"));
    assert!(result.contains("mcp_gateway_url"));
    assert!(result.contains("mcp_trace_header"));

    let wildcard_route_matches: Vec<_> = result.match_indices("route = \"/...\"").collect();
    assert!(!wildcard_route_matches.is_empty(), "Should have wildcard route");
    let wildcard_route_pos = wildcard_route_matches[0].0;
    let after_route = &result[wildcard_route_pos..];
    assert!(after_route.contains("component = \"mcp\""));

    assert!(result.contains("route = { private = true }"));
    assert!(result.contains("component = \"ftl-mcp-gateway\""));

    let spin_config = validate_spin_toml(&result).unwrap();
    assert!(components(&spin_config).contains_key("mcp"));
    assert_eq!(var_default(&spin_config, "auth_enabled"), Some("true"));
}

#[test]
fn test_validate_local_auth() {
    let public_config = FtlConfig {
        project: project("test", "1.0.0", "", vec![]),
        oauth: None,
        component: StrMap::new(),
        mcp: McpConfig::default(),
        variables: StrMap::new(),
    };
    assert!(validate_local_auth(&public_config).is_ok());

    let custom_with_oauth = FtlConfig {
        project: project("test", "1.0.0", "", vec![]),
        oauth: Some(oauth("https://example.com", "", "https://example.com/jwks", "", "", "", vec![])),
        component: StrMap::new(),
        mcp: McpConfig::default(),
        variables: StrMap::new(),
    };
    assert!(validate_local_auth(&custom_with_oauth).is_ok());

    let no_oauth_config = FtlConfig {
        project: project("test", "1.0.0", "", vec![]),
        oauth: None,
        component: StrMap::new(),
        mcp: McpConfig::default(),
        variables: StrMap::new(),
    };
    assert!(validate_local_auth(&no_oauth_config).is_ok());
}

#[test]
fn test_auth_disabled_with_components() {
    let mut component = StrMap::new();
    component.insert(
        "my-component".to_string(),
        local_component(
            "my-component",
            "my-component/output.wasm",
            "make",
            vec![],
            StrMap::new(),
            vec!["https://api.example.com".to_string()],
            StrMap::new(),
        ),
    );

    let config = FtlConfig {
        project: project("no-auth-with-tools", "1.0.0", "", vec![]),
        oauth: None,
        component,
        mcp: McpConfig::default(),
        variables: StrMap::new(),
    };

    let result = transpile_ftl_to_spin(&config).unwrap();
    println!("Generated TOML with auth disabled and component:\n{result}");

    assert!(result.contains("auth_enabled = { default = \"false\" }"));
    assert!(result.contains("[component.mcp]"));
    assert!(!result.contains("[component.ftl-mcp-gateway]"));
    assert!(result.contains("[component.my-component]"));

    let wildcard_routes: Vec<_> = result.match_indices("route = \"/...\"").collect();
    assert_eq!(wildcard_routes.len(), 1, "Should have exactly one wildcard route");
    let after_wildcard = &result[wildcard_routes[0].0..];
    assert!(after_wildcard.contains("component = \"mcp\""));
    assert!(result.contains("component = \"my-component\""));

    let spin_config = validate_spin_toml(&result).unwrap();
    assert!(components(&spin_config).contains_key("mcp"));
    assert!(!components(&spin_config).contains_key("ftl-mcp-gateway"));
    assert!(components(&spin_config).contains_key("my-component"));
}

#[test]
fn authorizer_component_defaults() {
    let c = create_mcp_component("", None);
    match &c.source {
        ComponentSource::Local(p) => assert_eq!(p, "ghcr.io/fastertools/mcp-authorizer:0.0.13"),
        _ => panic!("expected a local source"),
    }
    assert_eq!(c.allowed_outbound_hosts, vec!["http://*.spin.internal", "https://*.authkit.app", "https://*.workos.com"]);
    assert_eq!(c.key_value_stores, vec!["default"]);
    assert!(c.build.is_none());
    let names = [
        "mcp_gateway_url", "mcp_trace_header", "mcp_provider_type", "mcp_jwt_issuer", "mcp_jwt_audience",
        "mcp_jwt_jwks_uri", "mcp_jwt_public_key", "mcp_jwt_algorithm", "mcp_jwt_required_scopes",
        "mcp_oauth_authorize_endpoint", "mcp_oauth_token_endpoint", "mcp_oauth_userinfo_endpoint",
        "mcp_static_tokens", "mcp_tenant_id",
    ];
    assert_eq!(c.variables.len(), names.len());
    for n in names {
        assert_eq!(c.variables.get(n), Some(&format!("{{{{ {n} }}}}")));
    }
    let custom = create_mcp_component("ghcr.io/org/auth:1.2.3", Some("ghcr.io/other"));
    match &custom.source {
        ComponentSource::Local(p) => assert_eq!(p, "ghcr.io/org/auth:1.2.3"),
        _ => panic!("expected a local source"),
    }
}

#[test]
fn authorizer_variables_are_defined_with_auth() {
    let config = FtlConfig {
        project: project("p", "1.0.0", "", vec![]),
        oauth: Some(oauth("https://a.example", "api", "", "", "", "", vec![])),
        component: StrMap::new(),
        mcp: McpConfig::default(),
        variables: StrMap::new(),
    };
    let result = transpile_ftl_to_spin(&config).unwrap();
    assert!(result.contains("mcp_static_tokens = { default = \"\" }"));
    assert!(result.contains("mcp_tenant_id = { default = \"\" }"));
    let public = FtlConfig { oauth: None, ..config };
    let result = transpile_ftl_to_spin(&public).unwrap();
    assert!(!result.contains("mcp_tenant_id"));
}

#[test]
fn toml_encodings_of_plain_text() {
    assert_eq!(ftl::text::toml_string_repr("ghcr.io/org/tool:1.0 x"), "\"ghcr.io/org/tool:1.0 x\"");
    assert_eq!(ftl::text::toml_string_repr(""), "\"\"");
    assert_eq!(ftl::text::toml_key_repr("mcp_tenant_id"), "mcp_tenant_id");
    assert_eq!(ftl::text::toml_key_repr("a.b"), "\"a.b\"");
}
