//! Lines, trimming, listings and line comparison.

use ftl::auth_status::{status_with_deps, CredentialsInfo, TokenValidity};
use ftl::lines::{change_texts, diff_report, line_changes, listing_items, text_lines, trim_text, LineChange};

#[test]
fn lines_follow_str_lines() {
    let samples = [
        "", "a", "a\n", "a\nb", "a\r\nb\r\n", "\n", "\n\n", "a\n\nb", "a\r", "a\rb\n", " x \n\ty\t", "é\n☃",
    ];
    for s in samples {
        let expected: Vec<String> = s.lines().map(|l| l.to_string()).collect();
        assert_eq!(text_lines(s), expected, "{s:?}");
    }
}

#[test]
fn trimming_follows_str_trim() {
    for s in ["", "  ", " a ", "\ta b\n", "\u{3000}x\u{3000}", "x"] {
        assert_eq!(trim_text(s), s.trim(), "{s:?}");
    }
}

#[test]
fn listings_skip_blank_lines() {
    assert_eq!(
        listing_items("1.0.0\n  v1.1.0 \n\n latest\r\n"),
        vec!["1.0.0".to_string(), "v1.1.0".to_string(), "latest".to_string()]
    );
    assert!(listing_items("\n \n").is_empty());
}

#[test]
fn line_comparison() {
    assert!(line_changes("a\nb", "a\nb").is_empty());
    assert_eq!(
        line_changes("a\nb\nc", "a\nB"),
        vec![
            LineChange::Changed { index: 1, old: "b".to_string(), new: "B".to_string() },
            LineChange::Removed("c".to_string()),
        ]
    );
    assert_eq!(
        line_changes("x", "y\nz\nw"),
        vec![
            LineChange::Changed { index: 0, old: "x".to_string(), new: "y".to_string() },
            LineChange::Added("z".to_string()),
            LineChange::Added("w".to_string()),
        ]
    );
}

#[test]
fn auth_status_lines() {
    let info = CredentialsInfo {
        authkit_domain: "auth.example.com".to_string(),
        token: TokenValidity::ValidFor(125),
        has_refresh_token: true,
    };
    assert_eq!(
        status_with_deps(&Ok(info)),
        vec![
            "→ Authentication Status",
            "",
            "✅ Logged in",
            "",
            "AuthKit Domain: auth.example.com",
            "Access Token: Valid for 2h 5m",
            "Refresh Token: Available",
        ]
    );
    let info = CredentialsInfo {
        authkit_domain: "d".to_string(),
        token: TokenValidity::Expired,
        has_refresh_token: false,
    };
    let lines = status_with_deps(&Ok(info));
    assert_eq!(lines[5], "Access Token: ⚠️  Expired");
    assert_eq!(lines.len(), 6);
    assert_eq!(
        status_with_deps(&Err("No matching entry found in secure storage".to_string()))[2],
        "🔐 Not logged in"
    );
    assert_eq!(
        status_with_deps(&Err("keyring locked".to_string()))[4],
        "Run ftl login to re-authenticate"
    );
}

#[test]
fn diff_reports() {
    assert_eq!(diff_report("a\nb\n", "a\nb\n"), vec!["No changes detected"]);
    assert_eq!(
        diff_report("a\nb\nc", "a\nB"),
        vec!["Changes detected:", "", "Line 2: - b", "      : + B", "- c"]
    );
    assert_eq!(diff_report("", "x\ny"), vec!["Changes detected:", "", "+ x", "+ y"]);
    let mut current = String::new();
    let mut new = String::new();
    for i in 0..12 {
        current.push_str(&format!("l{i}\n"));
        new.push_str(&format!("{}\n", if i == 10 { "changed".to_string() } else { format!("l{i}") }));
    }
    assert_eq!(diff_report(&current, &new), vec!["Changes detected:", "", "Line 11: - l10", "       : + changed"]);
    // Text that differs only in line endings has no line changes.
    assert_eq!(diff_report("a\r\n", "a\n"), vec!["Changes detected:", ""]);
    let last = LineChange::Changed { index: usize::MAX, old: "o".to_string(), new: "n".to_string() };
    let texts = change_texts(&last);
    assert_eq!(texts[0], format!("Line {}: - o", usize::MAX as u128 + 1));
    assert_eq!(texts[1], format!("     {}: + n", " ".repeat(usize::MAX.to_string().len())));
}
