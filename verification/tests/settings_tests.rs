//! The configuration file and its sections.

use ftl::documents::TomlValue;
use ftl::settings::{Config, ConfigSection};

struct TestSection;

impl ConfigSection for TestSection {
    fn section_name() -> &'static str {
        "test"
    }
}

struct AnotherSection;

impl ConfigSection for AnotherSection {
    fn section_name() -> &'static str {
        "another"
    }
}

/// A `[test]` section with the given fields.
fn test_section(value: &str, enabled: bool) -> TomlValue {
    TomlValue::Table(vec![
        ("enabled".to_string(), TomlValue::Bool(enabled)),
        ("value".to_string(), TomlValue::Str(value.to_string())),
    ])
}

/// The default `[test]` section.
fn default_section() -> TomlValue {
    test_section("default", true)
}

fn to_toml(v: &TomlValue) -> toml::Value {
    match v {
        TomlValue::Str(s) => toml::Value::String(s.clone()),
        TomlValue::Int(i) => toml::Value::Integer(*i),
        TomlValue::Bool(b) => toml::Value::Boolean(*b),
        TomlValue::Array(a) => toml::Value::Array(a.iter().map(to_toml).collect()),
        TomlValue::Table(t) => toml::Value::Table(t.iter().map(|(k, x)| (k.clone(), to_toml(x))).collect()),
        TomlValue::Other => toml::Value::Float(0.0),
    }
}

/// The text a save writes for `config`.
fn saved_text(config: &Config) -> String {
    let mut table = toml::Table::new();
    for name in config.section_names() {
        table.insert(name.clone(), to_toml(config.section(&name).unwrap()));
    }
    toml::to_string(&table).unwrap()
}

/// Loads what a save of `config` wrote.
fn reload(config: &Config) -> Config {
    let text = saved_text(config);
    Config::from_file_contents(config.path().to_string(), Some(&text)).unwrap()
}

fn fresh() -> Config {
    Config::from_file_contents("config.toml".to_string(), None).unwrap()
}

#[test]
fn test_empty_config() {
    let config = fresh();
    assert!(config.section_names().is_empty());
}

#[test]
fn test_section_management() {
    let mut config = fresh();
    assert!(config.section(TestSection::section_name()).is_none());
    let section = test_section("test_value", false);
    config.set_section(TestSection::section_name(), test_section("test_value", false));
    let retrieved = config.section(TestSection::section_name()).unwrap();
    assert_eq!(format!("{retrieved:?}"), format!("{section:?}"));
    assert!(config.has_section(TestSection::section_name()));
    let config2 = reload(&config);
    let retrieved2 = config2.section(TestSection::section_name()).unwrap();
    assert_eq!(format!("{retrieved2:?}"), format!("{section:?}"));
}

#[test]
fn test_multiple_sections() {
    let mut config = fresh();
    config.set_section(TestSection::section_name(), default_section());
    config.set_section(AnotherSection::section_name(), TomlValue::Table(vec![(
        "name".to_string(),
        TomlValue::Str("test".to_string()),
    )]));
    assert_eq!(config.section_names().len(), 2);
    assert!(config.has_section(TestSection::section_name()));
    assert!(config.has_section(AnotherSection::section_name()));
}

#[test]
fn test_remove_section() {
    let mut config = fresh();
    config.set_section(TestSection::section_name(), default_section());
    assert!(config.has_section(TestSection::section_name()));
    let removed = config.remove_section(TestSection::section_name());
    assert!(removed.is_some());
    assert!(!config.has_section(TestSection::section_name()));
    let config2 = reload(&config);
    assert!(!config2.has_section(TestSection::section_name()));
}

#[test]
fn test_clear_config() {
    let mut config = fresh();
    config.set_section(TestSection::section_name(), default_section());
    assert!(!config.section_names().is_empty());
    config.clear();
    assert!(config.section_names().is_empty());
    let config2 = reload(&config);
    assert!(config2.section_names().is_empty());
}

#[test]
fn test_load_or_create_with_default() {
    let mut config = fresh();
    assert!(config.section(TestSection::section_name()).is_none());
    config.set_section(TestSection::section_name(), default_section());
    let config2 = reload(&config);
    let section = config2.section(TestSection::section_name()).unwrap();
    assert_eq!(format!("{section:?}"), format!("{:?}", default_section()));
}

#[test]
fn test_empty_file_handling() {
    let config = Config::from_file_contents("config.toml".to_string(), Some("")).unwrap();
    assert!(config.section_names().is_empty());
}

#[test]
fn test_malformed_json_error() {
    let result = Config::from_file_contents("config.toml".to_string(), Some("[invalid toml"));
    assert!(result.is_err());
    assert!(result.err().unwrap().contains("Failed to parse config file"));
}

#[test]
fn config_file_details() {
    let config = Config::from_file_contents("/home/u/.ftl/config.toml".to_string(), Some("  \n\t")).unwrap();
    assert!(config.section_names().is_empty());
    assert_eq!(config.path(), "/home/u/.ftl/config.toml");
    assert_eq!(
        Config::from_file_contents("c.toml".to_string(), Some("x = ")).err(),
        Some("Failed to parse config file at c.toml".to_string())
    );
    let config = Config::from_file_contents(
        "c.toml".to_string(),
        Some("[b]\nk = 1\n[a]\nflag = true\n"),
    )
    .unwrap();
    assert_eq!(config.section_names(), vec!["a".to_string(), "b".to_string()]);
    assert!(matches!(config.section("b"), Some(TomlValue::Table(t)) if matches!(t[0].1, TomlValue::Int(1))));
    let mut config = config;
    config.set_section(TestSection::section_name(), TomlValue::Int(3));
    config.set_section(TestSection::section_name(), TomlValue::Int(4));
    assert_eq!(config.section_names(), vec!["a".to_string(), "b".to_string(), "test".to_string()]);
    assert!(matches!(config.section(TestSection::section_name()), Some(TomlValue::Int(4))));
    assert!(matches!(config.remove_section(AnotherSection::section_name()), None));
}
