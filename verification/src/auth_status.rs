//! What the `auth status` command shows for the stored credentials.
use vstd::prelude::*;
use crate::manifest_text::{nat_string, nat_text};
use crate::text::{has_infix, push_str, str_has_infix};

verus! {

/// How long the stored access token stays valid.
#[derive(Debug, Clone, Copy, PartialEq, Eq, Structural)]
pub enum TokenValidity {
    /// The token has no expiry time
    NoExpiry,
    /// The expiry time has passed
    Expired,
    /// The token is valid for this many more whole minutes
    ValidFor(u64),
}

/// The parts of stored credentials that the status shows.
#[derive(Debug, Clone)]
pub struct CredentialsInfo {
    /// The AuthKit domain the credentials belong to
    pub authkit_domain: String,
    /// How long the access token stays valid
    pub token: TokenValidity,
    /// Whether a refresh token is stored
    pub has_refresh_token: bool,
}

/// The line about the access token.
pub open spec fn token_line(t: TokenValidity) -> Seq<char> {
    match t {
        TokenValidity::NoExpiry => "Access Token: Valid"@,
        TokenValidity::Expired => "Access Token: ⚠️  Expired"@,
        TokenValidity::ValidFor(m) => "Access Token: Valid for "@ + nat_text((m / 60) as nat) + "h "@
            + nat_text((m % 60) as nat) + "m"@,
    }
}

/// The lines of the status, for stored credentials or the error met while
/// reading them.
pub open spec fn status_lines(
    stored: Result<(Seq<char>, TokenValidity, bool), Seq<char>>,
) -> Seq<Seq<char>> {
    let head = seq!["→ Authentication Status"@, ""@];
    match stored {
        Ok((domain, token, refresh)) => head + seq![
            "✅ Logged in"@,
            ""@,
            "AuthKit Domain: "@ + domain,
            token_line(token),
        ] + if refresh {
            seq!["Refresh Token: Available"@]
        } else {
            Seq::empty()
        },
        Err(e) => if has_infix(e, "No matching entry found"@) {
            head + seq!["🔐 Not logged in"@, ""@, "Run ftl login to authenticate"@]
        } else {
            head + seq![
                "⚠️  Error checking authentication status"@,
                ""@,
                "Run ftl login to re-authenticate"@,
            ]
        },
    }
}

/// The view of what reading the credentials gave.
pub open spec fn stored_view(r: Result<CredentialsInfo, String>) -> Result<
    (Seq<char>, TokenValidity, bool),
    Seq<char>,
> {
    match r {
        Ok(c) => Ok((c.authkit_domain@, c.token, c.has_refresh_token)),
        Err(e) => Err(e@),
    }
}

/// The lines `auth status` shows; see [`status_lines`].
pub fn status_with_deps(stored: &Result<CredentialsInfo, String>) -> (r: Vec<String>)
    ensures
        r.deep_view() == status_lines(stored_view(*stored)),
{
    let mut out: Vec<String> = Vec::new();
    out.push("→ Authentication Status".to_owned());
    out.push("".to_owned());
    match stored {
        Ok(c) => {
            out.push("✅ Logged in".to_owned());
            out.push("".to_owned());
            let mut domain = "AuthKit Domain: ".to_owned();
            push_str(&mut domain, c.authkit_domain.as_str());
            out.push(domain);
            let token = match c.token {
                TokenValidity::NoExpiry => "Access Token: Valid".to_owned(),
                TokenValidity::Expired => "Access Token: ⚠️  Expired".to_owned(),
                TokenValidity::ValidFor(m) => {
                    let mut t = "Access Token: Valid for ".to_owned();
                    let h = nat_string(m / 60);
                    push_str(&mut t, h.as_str());
                    push_str(&mut t, "h ");
                    let mm = nat_string(m % 60);
                    push_str(&mut t, mm.as_str());
                    push_str(&mut t, "m");
                    t
                },
            };
            out.push(token);
            if c.has_refresh_token {
                out.push("Refresh Token: Available".to_owned());
            }
        },
        Err(e) => {
            if str_has_infix(e.as_str(), "No matching entry found") {
                out.push("🔐 Not logged in".to_owned());
                out.push("".to_owned());
                out.push("Run ftl login to authenticate".to_owned());
            } else {
                out.push("⚠️  Error checking authentication status".to_owned());
                out.push("".to_owned());
                out.push("Run ftl login to re-authenticate".to_owned());
            }
        },
    }
    assert(out.deep_view() =~= status_lines(stored_view(*stored)));
    out
}

} // verus!
