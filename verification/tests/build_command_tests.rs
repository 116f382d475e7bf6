//! Components to build, release commands and the shell lines that run them.

use ftl::build_command::{
    build_announcement, build_directory, build_failure, build_invocation, component_builds, parse_component_builds,
    prepare_build_command, shell_command, BuildSection,
};
use ftl::process::MessageStyle;
use ftl::strmap::StrMap;

#[test]
fn components_with_build_commands() {
    let mut components: StrMap<Option<BuildSection>> = StrMap::new();
    components.insert(
        "api".to_string(),
        Some(BuildSection { command: Some("cargo build --target wasm32-wasip1".to_string()), workdir: Some("api".to_string()) }),
    );
    components.insert("static".to_string(), None);
    components.insert("odd".to_string(), Some(BuildSection { command: None, workdir: Some("x".to_string()) }));
    components.insert("web".to_string(), Some(BuildSection { command: Some("npm run build".to_string()), workdir: None }));
    let builds = parse_component_builds(&components);
    assert_eq!(builds.len(), 2);
    assert_eq!(builds[0].name, "api");
    assert_eq!(builds[0].build_command.as_deref(), Some("cargo build --target wasm32-wasip1"));
    assert_eq!(builds[0].workdir.as_deref(), Some("api"));
    assert_eq!(builds[1].name, "web");
    assert_eq!(builds[1].workdir, None);
}

#[test]
fn release_commands() {
    assert_eq!(prepare_build_command("cargo build --target wasm32-wasip1", true), "cargo build --release --target wasm32-wasip1");
    assert_eq!(prepare_build_command("cargo build --target wasm32-wasip1", false), "cargo build --target wasm32-wasip1");
    assert_eq!(prepare_build_command("cargo build --release", true), "cargo build --release");
    assert_eq!(prepare_build_command("npm run build", true), "npm run build");
    assert_eq!(
        prepare_build_command("cargo build -p a && cargo build -p b", true),
        "cargo build --release -p a && cargo build --release -p b"
    );
    assert_eq!(prepare_build_command("make && cargo build", true), "make && cargo build");
    let once = prepare_build_command("cargo build", true);
    assert_eq!(once, "cargo build --release");
    assert_eq!(prepare_build_command(&once, true), once);
}

#[test]
fn shell_lines() {
    let (shell, args) = shell_command("make all", false);
    assert_eq!(shell, "sh");
    assert_eq!(args, vec!["-c", "make all"]);
    let (shell, args) = shell_command("make all", true);
    assert_eq!(shell, "cmd");
    assert_eq!(args, vec!["/C", "make all"]);
    let (_, args) = shell_command("make all", false);
    assert_eq!(build_invocation(&args, "/p/api"), vec!["-c", "cd /p/api && make all"]);
    assert_eq!(build_invocation(&vec!["-c".to_string()], "/p"), vec!["cd /p && "]);
    assert_eq!(build_directory("/p", &Some("api".to_string())), "/p/api");
    assert_eq!(build_directory("/p", &None), "/p");
    assert_eq!(build_failure("oops"), "Build failed:\noops");
}

#[test]
fn build_announcements() {
    let none = build_announcement(0);
    assert_eq!(none.text, "→ No components with build commands found in spin.toml");
    assert_eq!(none.style, Some(MessageStyle::Cyan));
    assert_eq!(build_announcement(1).text, "→ Building 1 component in parallel");
    let many = build_announcement(3);
    assert_eq!(many.text, "→ Building 3 components in parallel");
    assert_eq!(many.style, None);
}

#[test]
fn builds_read_from_spin_toml() {
    assert_eq!(component_builds("[component").err(), Some("Failed to parse spin.toml".to_string()));
    assert!(component_builds("[application]\nname = \"x\"\n").unwrap().is_empty());
    let builds = component_builds(
        "[component.web]\nsource = \"w.wasm\"\n[component.web.build]\ncommand = \"npm run build\"\n\
         [component.api.build]\ncommand = \"cargo build\"\nworkdir = \"api\"\n\
         [component.odd]\nbuild = \"make\"\n[component.none.build]\nworkdir = \"n\"\n",
    )
    .unwrap();
    assert_eq!(builds.len(), 2);
    assert_eq!(builds[0].name, "api");
    assert_eq!(builds[0].build_command, Some("cargo build".to_string()));
    assert_eq!(builds[0].workdir, Some("api".to_string()));
    assert_eq!(builds[1].name, "web");
    assert_eq!(builds[1].build_command, Some("npm run build".to_string()));
    assert_eq!(builds[1].workdir, None);
}
