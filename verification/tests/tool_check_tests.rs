//! The checks of a tool directory and their report.

use ftl::tool_check::{
    cargo_facts, manifest_facts, tool_findings, validation_report, CargoFacts, CheckFacts, Findings, ManifestFacts, SourceFacts,
};

fn good_cargo() -> CargoFacts {
    CargoFacts::Read {
        dependencies: Some(vec!["serde".to_string(), "ftl-core".to_string()]),
        lib: Some(Some(Some("cdylib".to_string()))),
    }
}

fn good_manifest() -> ManifestFacts {
    ManifestFacts::Loaded {
        name: "echo".to_string(),
        description: "Echoes".to_string(),
        version: "0.1.0".to_string(),
    }
}

fn good_source() -> SourceFacts {
    SourceFacts::Read("impl Tool for Echo {}\nftl_mcp_server!(Echo);".to_string())
}

#[test]
fn a_sound_tool_passes() {
    let f = tool_findings(&good_manifest(), &good_cargo(), &good_source(), &CheckFacts::Passed);
    assert!(f.errors.is_empty());
    assert!(f.warnings.is_empty());
    let (lines, err) = validation_report(&f);
    assert_eq!(lines, vec!["\n📋 Validation Results:", "✅ All checks passed!"]);
    assert_eq!(err, None);
}

#[test]
fn every_finding_is_reported_in_order() {
    let manifest = ManifestFacts::Loaded {
        name: String::new(),
        description: String::new(),
        version: "1.0".to_string(),
    };
    let cargo = CargoFacts::Read { dependencies: None, lib: Some(Some(Some("rlib".to_string()))) };
    let source = SourceFacts::Read("fn main() {}".to_string());
    let f = tool_findings(&manifest, &cargo, &source, &CheckFacts::NotRun("no cargo".to_string()));
    assert_eq!(
        f.errors,
        vec![
            "Tool name cannot be empty",
            "Invalid version format: 1.0",
            "No dependencies section in Cargo.toml",
            "Library crate-type must be [\"cdylib\"] for WebAssembly",
            "Missing ftl_mcp_server! macro invocation in src/lib.rs",
        ]
    );
    assert_eq!(
        f.warnings,
        vec![
            "Tool description is empty",
            "No Tool trait implementation found in src/lib.rs",
            "Could not run cargo check: no cargo",
        ]
    );
    let (lines, err) = validation_report(&f);
    assert_eq!(lines[1], "\n⚠️  Warnings (3)");
    assert_eq!(lines[2], "   - Tool description is empty");
    assert_eq!(lines[5], "\n❌ Errors (5)");
    assert_eq!(lines.len(), 11);
    assert_eq!(err, Some("Validation failed with 5 error(s)".to_string()));
}

#[test]
fn missing_and_unreadable_files() {
    let f = tool_findings(
        &ManifestFacts::Missing,
        &CargoFacts::Missing,
        &SourceFacts::Missing,
        &CheckFacts::Failed("boom".to_string()),
    );
    assert_eq!(
        f.errors,
        vec![
            "Missing ftl.toml manifest file",
            "Missing Cargo.toml file",
            "Missing src/lib.rs file",
            "Cargo check failed:\nboom",
        ]
    );
    let f = tool_findings(
        &ManifestFacts::Invalid("bad key".to_string()),
        &CargoFacts::Unreadable("denied".to_string()),
        &SourceFacts::Unreadable("gone".to_string()),
        &CheckFacts::Passed,
    );
    assert_eq!(
        f.errors,
        vec!["Invalid ftl.toml: bad key", "Failed to read Cargo.toml: denied", "Failed to read src/lib.rs: gone"]
    );
    let f = tool_findings(
        &good_manifest(),
        &CargoFacts::Read { dependencies: Some(vec![]), lib: Some(None) },
        &good_source(),
        &CheckFacts::Passed,
    );
    assert_eq!(
        f.errors,
        vec!["Missing ftl-core dependency in Cargo.toml", "Missing crate-type in [lib] section"]
    );
    let f = tool_findings(
        &good_manifest(),
        &CargoFacts::Read { dependencies: Some(vec!["ftl-core".to_string()]), lib: None },
        &good_source(),
        &CheckFacts::Passed,
    );
    assert_eq!(f.errors, vec!["Missing [lib] section in Cargo.toml"]);
    let only_warnings = Findings { errors: vec![], warnings: vec!["w".to_string()] };
    let (lines, err) = validation_report(&only_warnings);
    assert_eq!(lines, vec!["\n📋 Validation Results:", "\n⚠️  Warnings (1)", "   - w"]);
    assert_eq!(err, None);
}

#[test]
fn reading_cargo_toml() {
    assert_eq!(cargo_facts("[package\n").err(), Some("Failed to parse Cargo.toml".to_string()));
    match cargo_facts("[package]\nname = \"t\"\n[dependencies]\nserde = \"1\"\nftl-core = \"0.1\"\n[lib]\ncrate-type = [\"cdylib\", \"rlib\"]\n").unwrap() {
        CargoFacts::Read { dependencies, lib } => {
            assert_eq!(dependencies, Some(vec!["ftl-core".to_string(), "serde".to_string()]));
            assert_eq!(lib, Some(Some(Some("cdylib".to_string()))));
        },
        other => panic!("unexpected {other:?}"),
    }
    match cargo_facts("dependencies = 3\n[lib]\ncrate-type = \"cdylib\"\n").unwrap() {
        CargoFacts::Read { dependencies, lib } => {
            assert_eq!(dependencies, Some(vec![]));
            assert_eq!(lib, Some(Some(None)));
        },
        other => panic!("unexpected {other:?}"),
    }
    match cargo_facts("[lib]\nname = \"x\"\n").unwrap() {
        CargoFacts::Read { dependencies, lib } => {
            assert_eq!(dependencies, None);
            assert_eq!(lib, Some(None));
        },
        other => panic!("unexpected {other:?}"),
    }
}

#[test]
fn reading_ftl_toml() {
    match manifest_facts("[tool]\nname = \"echo\"\ndescription = \"\"\nversion = \"0.1.0\"\n") {
        ManifestFacts::Loaded { name, description, version } => {
            assert_eq!(name, "echo");
            assert_eq!(description, "");
            assert_eq!(version, "0.1.0");
        },
        other => panic!("unexpected {other:?}"),
    }
    assert!(matches!(
        manifest_facts("[tool]\nname = \"echo\"\nversion = \"0.1.0\"\n"),
        ManifestFacts::Invalid(m) if m == "missing field in [tool]"
    ));
    assert!(matches!(manifest_facts("[tool"), ManifestFacts::Invalid(m) if !m.is_empty()));
}
