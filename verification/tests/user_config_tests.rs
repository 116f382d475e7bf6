//! The user's organization setting.

use ftl::credentials::Timestamp;
use ftl::user_config::UserConfig;

#[test]
fn test_default_config() {
    let config = UserConfig::default();
    assert!(config.selected_org.is_none());
}

#[test]
fn organization_selection() {
    let mut config = UserConfig::default();
    let at = Timestamp { secs: 1_700_000_000, nanos: 5 };
    config.set_selected_org_at("org_123".to_string(), "Test Org".to_string(), at);
    let org = config.selected_org.clone().unwrap();
    assert_eq!(org.id, "org_123");
    assert_eq!(org.name, "Test Org");
    assert_eq!(org.selected_at, at);
    assert_eq!(config.set_selected_org("org_456".to_string(), "Other".to_string()), Ok(()));
    let org = config.selected_org.clone().unwrap();
    assert_eq!(org.id, "org_456");
    assert!(org.selected_at.secs > 1_700_000_000);
    config.clear_selected_org();
    assert!(config.selected_org.is_none());
}
