//! Token validity, refresh decisions and refresh requests.

use ftl::auth_status::TokenValidity;
use ftl::credentials::{
    auth_status_lines, refresh_outcome,
    after_failed_refresh, credentials_info, refresh_due, refresh_form, refresh_refused,
    expiry_after, refreshed_credentials, token_url, token_validity, StoredCredentials, Timestamp,
};

fn at(secs: i64) -> Timestamp {
    Timestamp { secs, nanos: 0 }
}

fn creds(expires_at: Option<Timestamp>, refresh: Option<&str>) -> StoredCredentials {
    StoredCredentials {
        access_token: "access".to_string(),
        refresh_token: refresh.map(|s| s.to_string()),
        id_token: None,
        expires_at,
        authkit_domain: "auth.example".to_string(),
    }
}

#[test]
fn validity() {
    assert_eq!(token_validity(None, at(100)), TokenValidity::NoExpiry);
    assert_eq!(token_validity(Some(at(99)), at(100)), TokenValidity::Expired);
    assert_eq!(token_validity(Some(Timestamp { secs: 100, nanos: 1 }), Timestamp { secs: 100, nanos: 2 }), TokenValidity::Expired);
    assert_eq!(token_validity(Some(at(100)), at(100)), TokenValidity::ValidFor(0));
    assert_eq!(token_validity(Some(at(100 + 2 * 3600 + 5 * 60 + 59)), at(100)), TokenValidity::ValidFor(125));
    assert_eq!(token_validity(Some(at(i64::MAX)), at(i64::MIN)), TokenValidity::ValidFor(307445734561825860));
    let info = credentials_info(&creds(Some(at(700)), Some("r")), at(100));
    assert_eq!(info.authkit_domain, "auth.example");
    assert_eq!(info.token, TokenValidity::ValidFor(10));
    assert!(info.has_refresh_token);
}

#[test]
fn refresh_decisions() {
    assert_eq!(refresh_due(&creds(Some(at(129)), Some("r")), at(100)), Some("r".to_string()));
    assert_eq!(refresh_due(&creds(Some(at(130)), Some("r")), at(100)), None);
    assert_eq!(refresh_due(&creds(Some(at(50)), None), at(100)), None);
    assert_eq!(refresh_due(&creds(None, Some("r")), at(100)), None);

    assert_eq!(after_failed_refresh(&creds(Some(at(110)), Some("r")), at(100), "boom"), Ok(()));
    assert_eq!(
        after_failed_refresh(&creds(Some(at(90)), Some("r")), at(100), "boom"),
        Err("Token expired and refresh failed: boom".to_string())
    );
    assert_eq!(after_failed_refresh(&creds(None, Some("r")), at(100), "boom"), Ok(()));
}

#[test]
fn refresh_requests() {
    assert_eq!(token_url("auth.example"), "https://auth.example/oauth2/token");
    let form = refresh_form("tok");
    assert_eq!(form[0], ("grant_type".to_string(), "refresh_token".to_string()));
    assert_eq!(form[1], ("refresh_token".to_string(), "tok".to_string()));
    assert_eq!(form[2], ("client_id".to_string(), "client_01K06E1DRP26N8A3T9CGMB1YSP".to_string()));
    assert_eq!(refresh_refused("400 Bad Request", "nope"), "Failed to refresh token: 400 Bad Request - nope");
    let now = Timestamp { secs: 1_000, nanos: 7 };
    let kept = refreshed_credentials("new".to_string(), None, None, now, Some(3600), "old", "d");
    assert_eq!(kept.refresh_token.as_deref(), Some("old"));
    assert_eq!(kept.access_token, "new");
    assert_eq!(kept.expires_at, Some(Timestamp { secs: 4_600, nanos: 7 }));
    let fresh = refreshed_credentials("new".to_string(), Some("r2".to_string()), Some("id".to_string()), now, None, "old", "d");
    assert_eq!(fresh.expires_at, None);
    assert_eq!(fresh.refresh_token.as_deref(), Some("r2"));
    assert_eq!(fresh.id_token.as_deref(), Some("id"));
    assert_eq!(fresh.authkit_domain, "d");
}

#[test]
fn expiry_times() {
    let now = Timestamp { secs: 1_700_000_000, nanos: 500 };
    assert_eq!(expiry_after(now, None), None);
    assert_eq!(expiry_after(now, Some(0)), Some(now));
    assert_eq!(expiry_after(now, Some(3600)), Some(Timestamp { secs: 1_700_003_600, nanos: 500 }));
    assert_eq!(expiry_after(now, Some(u64::MAX)), None);
    assert_eq!(expiry_after(now, Some(i64::MAX as u64 + 1)), None);
}

#[test]
fn status_and_refresh_outcomes() {
    let now = at(1_000);
    let lines = auth_status_lines(&Ok(creds(Some(at(1_000 + 2 * 3600 + 5 * 60 + 59)), Some("r"))), now);
    assert_eq!(
        lines,
        vec![
            "→ Authentication Status",
            "",
            "✅ Logged in",
            "",
            "AuthKit Domain: auth.example",
            "Access Token: Valid for 2h 5m",
            "Refresh Token: Available",
        ]
    );
    let expired = auth_status_lines(&Ok(creds(Some(at(999)), None)), now);
    assert_eq!(expired[5], "Access Token: ⚠️  Expired");
    assert_eq!(expired.len(), 6);
    let missing = auth_status_lines(&Err("No matching entry found in secure storage".to_string()), now);
    assert_eq!(missing[2], "🔐 Not logged in");

    let stored = creds(Some(at(1_010)), Some("r"));
    let fresh = creds(Some(at(5_000)), Some("r2"));
    match refresh_outcome(&stored, now, Ok(fresh)) {
        Ok(Some(n)) => assert_eq!(n.refresh_token.as_deref(), Some("r2")),
        _ => panic!("expected the new credentials"),
    }
    assert!(matches!(refresh_outcome(&stored, now, Err("offline".to_string())), Ok(None)));
    let old = creds(Some(at(990)), Some("r"));
    match refresh_outcome(&old, now, Err("offline".to_string())) {
        Err(m) => assert_eq!(m, "Token expired and refresh failed: offline"),
        _ => panic!("expected an error"),
    }
}
