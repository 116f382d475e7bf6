//! Watched files, tool manifest versions, subcommand arguments and texts.

use ftl::commands::{
    changes_need_rebuild, info_with_deps, is_u32_text, is_valid_version, list_with_deps,
    registry_lines, search_with_deps, server_exit, server_intro_lines, should_watch_file,
    spin_up_arguments, watch_intro_lines, watch_step, OutputFormat, RegistryArgs, RegistryCommand,
    UpArgs, UpConfig, WatchAction, WatchEvent,
};
use ftl::process::{ExitStatus, MessageStyle};
use ftl::settings::{
    load_or_create_section, AuthConfig, ConfigSection, RegistryConfig, TelemetryConfig,
};

#[test]
fn test_version_validation() {
    assert!(is_valid_version("1.0.0"));
    assert!(is_valid_version("0.0.1"));
    assert!(is_valid_version("10.20.30"));

    assert!(!is_valid_version("1.0"));
    assert!(!is_valid_version("1.0.0.0"));
    assert!(!is_valid_version("1.a.0"));
    assert!(!is_valid_version(""));
}

#[test]
fn version_parts_follow_u32_parsing() {
    assert!(is_valid_version("+1.2.3"));
    assert!(is_valid_version("4294967295.0.0"));
    assert!(!is_valid_version("4294967296.0.0"));
    assert!(!is_valid_version("1..0"));
    assert!(!is_valid_version("-1.0.0"));
    assert!(!is_valid_version("1.0.0 "));
    for s in ["0", "+7", "007", "4294967295", "", "+", "-1", "1_0", "42x", "99999999999"] {
        let chars: Vec<char> = s.chars().collect();
        assert_eq!(is_u32_text(&chars), s.parse::<u32>().is_ok(), "{s:?}");
    }
}

#[test]
fn watched_files() {
    assert!(should_watch_file("src/main.rs"));
    assert!(should_watch_file("Cargo.toml"));
    assert!(should_watch_file("web/app.tsx"));
    assert!(should_watch_file("lib/x.h"));
    assert!(!should_watch_file("target/debug/main.rs"));
    assert!(!should_watch_file("dist\\bundle.js"));
    assert!(!should_watch_file("app/node_modules/x/index.js"));
    assert!(!should_watch_file("Cargo.lock"));
    assert!(!should_watch_file("out.wasm"));
    assert!(!should_watch_file("README.md"));
    assert!(!should_watch_file("Makefile"));
    assert!(!should_watch_file(".spin/log.json"));
}

#[test]
fn registry_subcommand_lines() {
    assert_eq!(
        list_with_deps(None),
        vec![
            "→ Listing components from ghcr.io",
            "",
            "! Registry listing not yet implemented",
            "",
            "For now, you can browse components at:",
            "  - GitHub Container Registry: https://github.com/orgs/YOUR_ORG/packages",
            "  - Docker Hub: https://hub.docker.com/",
        ]
    );
    let s = search_with_deps("weather", Some("docker.io"));
    assert_eq!(s[0], "→ Searching for 'weather' in docker.io");
    assert_eq!(
        s[5],
        "  - GitHub: https://github.com/search?q=mcp+weather&type=registrypackages"
    );
    let i = info_with_deps("ghcr.io/a/b:1");
    assert_eq!(i[0], "→ Getting info for component: ghcr.io/a/b:1");
    assert_eq!(i.len(), 8);
    let args = RegistryArgs {
        command: RegistryCommand::Info { component: "ghcr.io/a/b:1".to_string() },
    };
    assert_eq!(registry_lines(&args), i);
}

#[test]
fn output_formats() {
    assert_eq!(OutputFormat::from_string("table"), Ok(OutputFormat::Table));
    assert_eq!(OutputFormat::from_string("json"), Ok(OutputFormat::Json));
    assert_eq!(
        OutputFormat::from_string("yaml"),
        Err("Invalid output format: yaml".to_string())
    );
    assert!(OutputFormat::from_string("JSON").is_err());
}

#[test]
fn up_settings_default_the_port() {
    let args = UpArgs { path: None, port: None, build: true, watch: false, clear: false };
    let config = UpConfig::from_args(args);
    assert_eq!(config.port, 3000);
    assert!(config.build);
    let args = UpArgs { path: Some(".".to_string()), port: Some(8080), build: false, watch: true, clear: true };
    let config = UpConfig::from_args(args);
    assert_eq!(config.port, 8080);
    assert_eq!(config.path, Some(".".to_string()));
}

#[test]
fn exit_status() {
    assert!(ExitStatus::new(Some(0)).success());
    assert!(!ExitStatus::new(Some(1)).success());
    assert!(!ExitStatus::new(None).success());
    assert_eq!(ExitStatus::new(Some(3)).code(), Some(3));
    assert_eq!(ExitStatus::new(None).code(), None);
}

#[test]
fn configuration_sections() {
    assert_eq!(TelemetryConfig::section_name(), "telemetry");
    assert_eq!(AuthConfig::section_name(), "auth");
    assert_eq!(RegistryConfig::section_name(), "registry");
    let existing = AuthConfig {
        access_token: Some("t".to_string()),
        refresh_token: None,
        expires_at: Some(5),
    };
    let fresh = AuthConfig { access_token: None, refresh_token: None, expires_at: None };
    let (s, created) = load_or_create_section(Some(existing), fresh.clone());
    assert!(!created);
    assert_eq!(s.access_token, Some("t".to_string()));
    let (s, created) = load_or_create_section(None, fresh);
    assert!(created);
    assert_eq!(s.access_token, None);
    let r = RegistryConfig::default();
    assert_eq!(r.default_registry, "ghcr.io");
    assert_eq!(r.registries.len(), 1);
    assert_eq!(r.registries[0].url, "https://ghcr.io");
    assert!(r.registries[0].auth_required);
}

#[test]
fn up_decisions() {
    assert_eq!(spin_up_arguments(3000), vec!["up", "--listen", "127.0.0.1:3000"]);
    assert!(changes_need_rebuild(&vec!["target/x.rs".to_string(), "src/lib.rs".to_string()]));
    assert!(!changes_need_rebuild(&vec!["target/x.rs".to_string(), "README.md".to_string()]));
    assert!(!changes_need_rebuild(&vec![]));
    assert_eq!(server_exit(true, &ExitStatus::new(Some(1))), Ok(Some("■ Stopping server...".to_string())));
    assert_eq!(server_exit(false, &ExitStatus::new(Some(0))), Ok(None));
    assert_eq!(
        server_exit(false, &ExitStatus::new(Some(2))),
        Err("Spin exited with status: 2".to_string())
    );
    assert_eq!(
        server_exit(false, &ExitStatus::new(None)),
        Err("Spin exited with status: -1".to_string())
    );
}

#[test]
fn watch_loop_steps() {
    let ignored = watch_step(true, &WatchEvent::FilesChanged(vec!["target/debug/x.rs".to_string(), "a.wasm".to_string()]));
    assert_eq!(ignored.action, WatchAction::Wait);
    assert!(ignored.lines.is_empty());

    let rebuild = watch_step(true, &WatchEvent::FilesChanged(vec!["README.md".to_string(), "src/lib.rs".to_string()]));
    assert_eq!(rebuild.action, WatchAction::Rebuild { clear_screen: true });
    assert_eq!(rebuild.lines.len(), 2);
    assert_eq!(rebuild.lines[0].text, "🔄 File change detected, rebuilding...");
    assert_eq!(rebuild.lines[0].style, Some(MessageStyle::Yellow));
    assert_eq!(rebuild.lines[1].text, "");
    let quiet = watch_step(false, &WatchEvent::FilesChanged(vec!["Cargo.toml".to_string()]));
    assert_eq!(quiet.action, WatchAction::Rebuild { clear_screen: false });

    let restart = watch_step(false, &WatchEvent::BuildFinished(Ok(())));
    assert_eq!(restart.action, WatchAction::Restart);
    let texts: Vec<&str> = restart.lines.iter().map(|l| l.text.as_str()).collect();
    assert_eq!(texts, vec!["", "→ Restarting server..."]);

    let failed = watch_step(false, &WatchEvent::BuildFinished(Err("exit 101".to_string())));
    assert_eq!(failed.action, WatchAction::Wait);
    assert_eq!(failed.lines.len(), 3);
    assert_eq!(failed.lines[1].text, "✗ Build failed: exit 101");
    assert_eq!(failed.lines[1].style, Some(MessageStyle::Red));
    assert_eq!(failed.lines[2].text, "⏸ Waiting for file changes...");

    let stop = watch_step(true, &WatchEvent::Interrupted);
    assert_eq!(stop.action, WatchAction::Stop);
    assert_eq!(stop.lines[1].text, "■ Stopping development server...");
    assert_eq!(stop.lines[1].style, Some(MessageStyle::Red));
}

#[test]
fn up_intro_lines() {
    let w = watch_intro_lines(3000);
    assert_eq!(w.len(), 7);
    assert_eq!(w[0], "→ Starting development server with auto-rebuild...");
    assert_eq!(w[3], "🌐 Server will start at http://127.0.0.1:3000");
    assert_eq!(w[6], "→ Running initial build...");
    let s = server_intro_lines(8080);
    assert_eq!(
        s,
        vec!["→ Starting server...", "", "🌐 Server will start at http://127.0.0.1:8080", "⏹ Press Ctrl+C to stop", ""]
    );
}
