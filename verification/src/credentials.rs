//! Stored login credentials: how long the access token stays valid, when
//! it is refreshed, and what a refresh asks for and gives back.
use vstd::prelude::*;
use crate::auth_status::{status_lines, status_with_deps, token_line, CredentialsInfo, TokenValidity};
use crate::manifest_text::nat_text;
use crate::text::push_str;

verus! {

/// An instant: whole seconds since the Unix epoch and the nanoseconds past
/// that second.
#[derive(Debug, Clone, Copy, PartialEq, Eq, Structural)]
pub struct Timestamp {
    /// Seconds since the Unix epoch
    pub secs: i64,
    /// Nanoseconds past the second
    pub nanos: u32,
}

/// Reads the system clock: `SystemTime::now().duration_since(UNIX_EPOCH)`,
/// with its whole seconds and the nanoseconds past them. `None` when the
/// clock reads before the Unix epoch (or so far after it that the seconds
/// do not fit an `i64`). Nothing else is promised of the instant: it is
/// whatever the clock says; the nanoseconds of a `Duration` stay below one
/// second.
#[verifier::external_body]
pub fn current_time() -> (r: Option<Timestamp>)
    ensures
        r matches Some(t) ==> 0 <= t.secs && t.nanos < 1_000_000_000,
{
    match std::time::SystemTime::now().duration_since(std::time::UNIX_EPOCH) {
        Ok(d) => match i64::try_from(d.as_secs()) {
            Ok(secs) => Some(Timestamp { secs, nanos: d.subsec_nanos() }),
            Err(_) => None,
        },
        Err(_) => None,
    }
}

/// The instant in nanoseconds since the Unix epoch.
pub open spec fn nanos_of(t: Timestamp) -> int {
    t.secs * 1_000_000_000 + t.nanos
}

fn nanos(t: Timestamp) -> (r: i128)
    ensures
        r == nanos_of(t),
{
    assert(-9223372036854775808 * 1_000_000_000 <= t.secs * 1_000_000_000 <= 9223372036854775807 * 1_000_000_000) by (nonlinear_arith)
        requires
            -9223372036854775808 <= t.secs <= 9223372036854775807,
    ;
    t.secs as i128 * 1_000_000_000 + t.nanos as i128
}

/// Credentials stored after logging in.
#[derive(Debug, Clone)]
pub struct StoredCredentials {
    /// Access token for the API
    pub access_token: String,
    /// Token that obtains new access tokens
    pub refresh_token: Option<String>,
    /// Token with the user's identity
    pub id_token: Option<String>,
    /// When the access token expires, if it does
    pub expires_at: Option<Timestamp>,
    /// AuthKit domain the credentials come from
    pub authkit_domain: String,
}

/// How long a token that expires at `expires_at` stays valid at `now`:
/// expired once that time has passed, else the whole minutes left.
pub open spec fn validity_of(expires_at: Option<Timestamp>, now: Timestamp) -> TokenValidity {
    match expires_at {
        None => TokenValidity::NoExpiry,
        Some(e) => if nanos_of(e) < nanos_of(now) {
            TokenValidity::Expired
        } else {
            TokenValidity::ValidFor(((nanos_of(e) - nanos_of(now)) / 60_000_000_000) as u64)
        },
    }
}

/// How long the access token stays valid at `now`; see [`validity_of`].
pub fn token_validity(expires_at: Option<Timestamp>, now: Timestamp) -> (r: TokenValidity)
    ensures
        r == validity_of(expires_at, now),
{
    match expires_at {
        None => TokenValidity::NoExpiry,
        Some(e) => {
            let a = nanos(e);
            let b = nanos(now);
            if a < b {
                TokenValidity::Expired
            } else {
                let d = a - b;
                assert(d / 60_000_000_000 <= u64::MAX) by (nonlinear_arith)
                    requires
                        0 <= d <= 2 * 9223372036854775808 * 1_000_000_000 + 1_000_000_000 * 10,
                ;
                TokenValidity::ValidFor((d / 60_000_000_000) as u64)
            }
        },
    }
}

/// What `auth status` shows of stored credentials at `now`.
pub fn credentials_info(c: &StoredCredentials, now: Timestamp) -> (r: CredentialsInfo)
    ensures
        r.authkit_domain@ == c.authkit_domain@,
        r.token == validity_of(c.expires_at, now),
        r.has_refresh_token == c.refresh_token is Some,
{
    CredentialsInfo {
        authkit_domain: c.authkit_domain.clone(),
        token: token_validity(c.expires_at, now),
        has_refresh_token: c.refresh_token.is_some(),
    }
}

// ---------------------------------------------------------------------------
// Refreshing
// ---------------------------------------------------------------------------

/// The access token is refreshed when it expires within 30 seconds of
/// `now` and a refresh token is stored.
pub open spec fn needs_refresh(c: StoredCredentials, now: Timestamp) -> bool {
    &&& c.expires_at matches Some(e) && nanos_of(e) < nanos_of(now) + 30_000_000_000
    &&& c.refresh_token is Some
}

/// The refresh token to use at `now`, when the credentials are due for a
/// refresh; `None` when the stored credentials are used as they are.
pub fn refresh_due(c: &StoredCredentials, now: Timestamp) -> (r: Option<String>)
    ensures
        r is Some <==> needs_refresh(*c, now),
        r matches Some(t) ==> c.refresh_token matches Some(s) && t@ == s@,
{
    match (&c.expires_at, &c.refresh_token) {
        (Some(e), Some(t)) => {
            if nanos(*e) < nanos(now) + 30_000_000_000 {
                Some(t.clone())
            } else {
                None
            }
        },
        _ => None,
    }
}

/// After a failed refresh at `now`: the stored credentials are still used
/// while their token has not expired; once it has, the refresh error is
/// the answer.
pub fn after_failed_refresh(c: &StoredCredentials, now: Timestamp, error: &str) -> (r: Result<(), String>)
    ensures
        (c.expires_at matches Some(e) && nanos_of(e) < nanos_of(now)) <==> r is Err,
        r matches Err(m) ==> m@ == "Token expired and refresh failed: "@ + error@,
{
    match &c.expires_at {
        Some(e) => {
            if nanos(*e) < nanos(now) {
                let mut m = "Token expired and refresh failed: ".to_owned();
                push_str(&mut m, error);
                Err(m)
            } else {
                Ok(())
            }
        },
        None => Ok(()),
    }
}

/// The OAuth token endpoint of an AuthKit domain.
pub fn token_url(authkit_domain: &str) -> (r: String)
    ensures
        r@ == "https://"@ + authkit_domain@ + "/oauth2/token"@,
{
    let mut u = "https://".to_owned();
    push_str(&mut u, authkit_domain);
    push_str(&mut u, "/oauth2/token");
    u
}

/// The client id of the FTL command line at AuthKit.
pub const FTL_CLIENT_ID: &'static str = "client_01K06E1DRP26N8A3T9CGMB1YSP";

/// The form fields of a refresh request.
pub fn refresh_form(refresh_token: &str) -> (r: Vec<(String, String)>)
    ensures
        r@.len() == 3,
        r@[0].0@ == "grant_type"@ && r@[0].1@ == "refresh_token"@,
        r@[1].0@ == "refresh_token"@ && r@[1].1@ == refresh_token@,
        r@[2].0@ == "client_id"@ && r@[2].1@ == FTL_CLIENT_ID@,
{
    let mut out: Vec<(String, String)> = Vec::new();
    out.push(("grant_type".to_owned(), "refresh_token".to_owned()));
    out.push(("refresh_token".to_owned(), refresh_token.to_owned()));
    out.push(("client_id".to_owned(), FTL_CLIENT_ID.to_owned()));
    out
}

/// The error of a refresh that the endpoint refused with `status` and
/// `body`.
pub fn refresh_refused(status: &str, body: &str) -> (r: String)
    ensures
        r@ == "Failed to refresh token: "@ + status@ + " - "@ + body@,
{
    let mut m = "Failed to refresh token: ".to_owned();
    push_str(&mut m, status);
    push_str(&mut m, " - ");
    push_str(&mut m, body);
    m
}

/// The last whole second that chrono's `DateTime<Utc>` holds (the end of
/// the year 262142).
pub const MAX_UTC_SECS: i64 = 8210266876799;

/// The expiry of a token that lives `expires_in` seconds from `now`: none
/// without a lifetime or when the lifetime does not fit an `i64`.
pub open spec fn expiry_of(now: Timestamp, expires_in: Option<u64>) -> Option<Timestamp> {
    match expires_in {
        Some(e) => if e <= i64::MAX {
            Some(Timestamp { secs: (now.secs + e) as i64, nanos: now.nanos })
        } else {
            None
        },
        None => None,
    }
}

/// A lifetime whose expiry chrono can compute: the seconds fit a
/// `TimeDelta` and the sum stays within `DateTime<Utc>`.
pub open spec fn expiry_computable(now: Timestamp, expires_in: Option<u64>) -> bool {
    match expires_in {
        Some(e) => e <= i64::MAX ==> (e <= i64::MAX / 1000 && now.secs + e <= MAX_UTC_SECS),
        None => true,
    }
}

/// The expiry of a token that lives `expires_in` seconds from `now`; see
/// [`expiry_of`].
pub fn expiry_after(now: Timestamp, expires_in: Option<u64>) -> (r: Option<Timestamp>)
    requires
        expiry_computable(now, expires_in),
    ensures
        r == expiry_of(now, expires_in),
{
    match expires_in {
        Some(e) => {
            if e <= 9223372036854775807u64 {
                Some(Timestamp { secs: now.secs + e as i64, nanos: now.nanos })
            } else {
                None
            }
        },
        None => None,
    }
}

/// The credentials a successful refresh at `now` gives: the new tokens, the
/// old refresh token when no new one came, and the expiry `expires_in`
/// seconds after `now`.
pub fn refreshed_credentials(
    access_token: String,
    new_refresh_token: Option<String>,
    id_token: Option<String>,
    now: Timestamp,
    expires_in: Option<u64>,
    refresh_token: &str,
    authkit_domain: &str,
) -> (r: StoredCredentials)
    requires
        expiry_computable(now, expires_in),
    ensures
        r.access_token == access_token,
        r.refresh_token matches Some(t) && t@ == match new_refresh_token {
            Some(n) => n@,
            None => refresh_token@,
        },
        r.id_token == id_token,
        r.expires_at == expiry_of(now, expires_in),
        r.authkit_domain@ == authkit_domain@,
{
    StoredCredentials {
        access_token,
        refresh_token: match new_refresh_token {
            Some(n) => Some(n),
            None => Some(refresh_token.to_owned()),
        },
        id_token,
        expires_at: expiry_after(now, expires_in),
        authkit_domain: authkit_domain.to_owned(),
    }
}

/// What `auth status` shows at `now` for what reading the stored
/// credentials gave: the credentials, or the error of the store.
pub fn auth_status_lines(stored: &Result<StoredCredentials, String>, now: Timestamp) -> (r: Vec<String>)
    ensures
        r.deep_view() == status_lines(
            match stored {
                Ok(c) => Ok((c.authkit_domain@, validity_of(c.expires_at, now), c.refresh_token is Some)),
                Err(e) => Err(e@),
            },
        ),
{
    match stored {
        Ok(c) => status_with_deps(&Ok(credentials_info(c, now))),
        Err(e) => status_with_deps(&Err(e.clone())),
    }
}

/// Law: the token line of `auth status` for a token that has not expired
/// gives the whole hours left, then the whole minutes past those hours.
pub proof fn law_valid_token_line(e: Timestamp, now: Timestamp)
    requires
        nanos_of(e) >= nanos_of(now),
    ensures
        ({
            let d = nanos_of(e) - nanos_of(now);
            token_line(validity_of(Some(e), now)) == "Access Token: Valid for "@ + nat_text(
                (d / 3_600_000_000_000) as nat,
            ) + "h "@ + nat_text(((d / 60_000_000_000) % 60) as nat) + "m"@
        }),
{
    let d = nanos_of(e) - nanos_of(now);
    let m = d / 60_000_000_000;
    assert(0 <= d <= 2 * 9223372036854775808 * 1_000_000_000 + 1_000_000_000 * 10) by (nonlinear_arith)
        requires
            d == e.secs * 1_000_000_000 + e.nanos - (now.secs * 1_000_000_000 + now.nanos),
            d >= 0,
            -9223372036854775808 <= e.secs <= 9223372036854775807,
            -9223372036854775808 <= now.secs <= 9223372036854775807,
            e.nanos <= 4294967295,
            now.nanos <= 4294967295,
    ;
    assert(0 <= m <= u64::MAX) by (nonlinear_arith)
        requires
            m == d / 60_000_000_000,
            0 <= d <= 2 * 9223372036854775808 * 1_000_000_000 + 1_000_000_000 * 10,
    ;
    assert(m / 60 == d / 3_600_000_000_000) by {
        vstd::arithmetic::div_mod::lemma_div_denominator(d, 60_000_000_000, 60);
    }
}

/// After a refresh at `now` that was due: the new credentials (to be
/// stored) when it succeeded; otherwise the stored credentials while their
/// token has not expired (`None`: keep them), and the refresh error once
/// it has.
pub fn refresh_outcome(
    c: &StoredCredentials,
    now: Timestamp,
    refreshed: Result<StoredCredentials, String>,
) -> (r: Result<Option<StoredCredentials>, String>)
    ensures
        match refreshed {
            Ok(n) => r == Ok::<Option<StoredCredentials>, String>(Some(n)),
            Err(e) => if c.expires_at matches Some(t) && nanos_of(t) < nanos_of(now) {
                r matches Err(m) && m@ == "Token expired and refresh failed: "@ + e@
            } else {
                r matches Ok(None)
            },
        },
{
    match refreshed {
        Ok(n) => Ok(Some(n)),
        Err(e) => match after_failed_refresh(c, now, e.as_str()) {
            Ok(()) => Ok(None),
            Err(m) => Err(m),
        },
    }
}

} // verus!
