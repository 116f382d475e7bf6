//! What the app command shows.

use ftl::app_display::{
    app_status_lines, apps_list_lines, confirmation_outcome, confirmation_request, delete_preview_lines,
    delete_step, deleted_lines, AppStatus, AppSummary, DeleteStep, DeploymentInfo,
};
use ftl::commands::StyledLine;
use ftl::process::MessageStyle;

fn texts(lines: &[StyledLine]) -> Vec<&str> {
    lines.iter().map(|l| l.text.as_str()).collect()
}

#[test]
fn application_list() {
    let none = apps_list_lines(&vec![]);
    assert_eq!(texts(&none), vec!["No applications found."]);
    assert_eq!(none[0].style, Some(MessageStyle::Yellow));

    let one = apps_list_lines(&vec![AppSummary { name: "a".to_string(), url: "https://a.example".to_string() }]);
    assert_eq!(texts(&one), vec!["", "a", "  https://a.example", "", "Total: 1 application"]);
    assert_eq!(one[1].style, Some(MessageStyle::Bold));

    let two = apps_list_lines(&vec![
        AppSummary { name: "a".to_string(), url: "u1".to_string() },
        AppSummary { name: "b".to_string(), url: "u2".to_string() },
    ]);
    assert_eq!(texts(&two), vec!["", "a", "  u1", "", "b", "  u2", "", "Total: 2 applications"]);
}

#[test]
fn application_status() {
    let app = AppStatus {
        name: "demo".to_string(),
        id: "id-1".to_string(),
        url: "https://demo.example".to_string(),
        status: None,
        created_at: Some("2024-01-02 03:04:05 UTC".to_string()),
        last_deployment: None,
        deployment_count: 3,
        invocations: None,
        last_deployment_info: Some(DeploymentInfo {
            deployment_id: "dep-9".to_string(),
            status: "failed".to_string(),
            created_at: "2024-01-03 00:00:00 UTC".to_string(),
            completed_at: None,
            error: Some("boom".to_string()),
        }),
    };
    let lines = app_status_lines(&app);
    assert_eq!(
        texts(&lines),
        vec![
            "",
            "Application Details",
            "  Name:         demo",
            "  ID:           id-1",
            "  URL:          https://demo.example",
            "  Status:       unknown",
            "  Created:      2024-01-02 03:04:05 UTC",
            "  Deployments:  3",
            "",
            "Last Deployment",
            "  ID:           dep-9",
            "  Status:       failed",
            "  Started:      2024-01-03 00:00:00 UTC",
            "  Error:        boom",
            "",
        ]
    );
    assert_eq!(lines[13].style, Some(MessageStyle::Red));
    let plain = AppStatus { status: Some("active".to_string()), last_deployment_info: None, ..app };
    let lines = app_status_lines(&plain);
    assert_eq!(lines.len(), 9);
    assert_eq!(lines[5].text, "  Status:       active");
}

#[test]
fn application_deletion() {
    assert_eq!(
        texts(&delete_preview_lines("demo", "https://d")),
        vec!["Application to be deleted:", "  Name: demo", "  URL: https://d", ""]
    );
    assert_eq!(delete_step(false, true), DeleteStep::AskForName);
    assert_eq!(delete_step(true, true), DeleteStep::Proceed);
    assert_eq!(delete_step(false, false), DeleteStep::Proceed);
    let (warning, prompt) = confirmation_request("demo");
    assert_eq!(warning.text, "⚠️  This action cannot be undone!");
    assert_eq!(prompt, "Type 'demo' to confirm deletion");
    assert!(confirmation_outcome("demo", "demo").is_none());
    assert_eq!(confirmation_outcome("demo", "dem").unwrap().text, "Deletion cancelled.");
    assert_eq!(texts(&deleted_lines("Deleted", "")), vec!["✓ Deleted"]);
    assert_eq!(texts(&deleted_lines("Deleted", "DNS may lag")), vec!["✓ Deleted", "", "DNS may lag"]);
}

#[test]
fn bare_application_status() {
    let app = AppStatus {
        name: "n".to_string(),
        id: "i".to_string(),
        url: "u".to_string(),
        status: None,
        created_at: None,
        last_deployment: None,
        deployment_count: 0,
        invocations: None,
        last_deployment_info: None,
    };
    assert_eq!(
        texts(&app_status_lines(&app)),
        vec!["", "Application Details", "  Name:         n", "  ID:           i", "  URL:          u", "  Status:       unknown", "  Deployments:  0", ""]
    );
}
