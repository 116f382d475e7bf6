//! What the `app` command shows: the list of applications, the status of
//! one, and the steps of deleting one.
use vstd::prelude::*;
use crate::commands::StyledLine;
use crate::manifest_text::{int_text, nat_text};
use crate::process::MessageStyle;
use crate::text::{push_str, str_eq, str_is_empty};

verus! {

/// A line as its text and style.
pub type LineModel = (Seq<char>, Option<MessageStyle>);

/// The model of each line.
pub open spec fn line_views(s: Seq<StyledLine>) -> Seq<LineModel> {
    s.map_values(|l: StyledLine| l@)
}

/// A plain line.
pub open spec fn plain(t: Seq<char>) -> LineModel {
    (t, None)
}

/// A styled line.
pub open spec fn styled_as(t: Seq<char>, s: MessageStyle) -> LineModel {
    (t, Some(s))
}

fn line(text: String, style: Option<MessageStyle>) -> (r: StyledLine)
    ensures
        r@ == (text@, style),
{
    StyledLine { text, style }
}

fn push_line(out: &mut Vec<StyledLine>, text: String, style: Option<MessageStyle>)
    ensures
        line_views(final(out)@) == line_views(old(out)@).push((text@, style)),
{
    let ghost before = out@;
    out.push(line(text, style));
    assert(line_views(out@) =~= line_views(before).push((text@, style)));
}

// ---------------------------------------------------------------------------
// Listing
// ---------------------------------------------------------------------------

/// An application as the list shows it.
#[derive(Debug, Clone)]
pub struct AppSummary {
    /// Application name
    pub name: String,
    /// Application URL
    pub url: String,
}

/// The entries of the listed applications: for each, its name in bold,
/// its indented URL and a blank line.
pub open spec fn app_entries(apps: Seq<AppSummary>) -> Seq<LineModel>
    decreases apps.len(),
{
    if apps.len() == 0 {
        Seq::empty()
    } else {
        let a = apps.last();
        app_entries(apps.drop_last()) + seq![
            styled_as(a.name@, MessageStyle::Bold),
            plain("  "@ + a.url@),
            plain(""@),
        ]
    }
}

/// The lines of the application list: a notice when there is none, else a
/// blank line, the entries and the total.
pub open spec fn apps_list_of(apps: Seq<AppSummary>) -> Seq<LineModel> {
    if apps.len() == 0 {
        seq![styled_as("No applications found."@, MessageStyle::Yellow)]
    } else {
        seq![plain(""@)] + app_entries(apps) + seq![
            plain(
                "Total: "@ + nat_text(apps.len()) + " application"@ + (if apps.len() == 1 {
                    ""@
                } else {
                    "s"@
                }),
            ),
        ]
    }
}

/// The lines that list the applications; see [`apps_list_of`].
pub fn apps_list_lines(apps: &Vec<AppSummary>) -> (r: Vec<StyledLine>)
    ensures
        line_views(r@) == apps_list_of(apps@),
{
    let mut out: Vec<StyledLine> = Vec::new();
    if apps.len() == 0 {
        push_line(&mut out, "No applications found.".to_owned(), Some(MessageStyle::Yellow));
        assert(line_views(out@) =~= apps_list_of(apps@));
        return out;
    }
    push_line(&mut out, "".to_owned(), None);
    let mut i: usize = 0;
    while i < apps.len()
        invariant
            i <= apps@.len(),
            line_views(out@) == seq![plain(""@)] + app_entries(apps@.subrange(0, i as int)),
        decreases apps@.len() - i,
    {
        assert(apps@.subrange(0, i + 1).drop_last() =~= apps@.subrange(0, i as int));
        let a = &apps[i];
        let ghost before = line_views(out@);
        push_line(&mut out, a.name.clone(), Some(MessageStyle::Bold));
        let mut u = "  ".to_owned();
        push_str(&mut u, a.url.as_str());
        push_line(&mut out, u, None);
        push_line(&mut out, "".to_owned(), None);
        assert(line_views(out@) =~= before + seq![
            styled_as(a.name@, MessageStyle::Bold),
            plain("  "@ + a.url@),
            plain(""@),
        ]);
        i = i + 1;
    }
    assert(apps@.subrange(0, apps@.len() as int) =~= apps@);
    let mut total = "Total: ".to_owned();
    push_str(&mut total, crate::manifest_text::nat_string(apps.len() as u64).as_str());
    push_str(&mut total, " application");
    if apps.len() == 1 {
        push_str(&mut total, "");
    } else {
        push_str(&mut total, "s");
    }
    push_line(&mut out, total, None);
    assert(line_views(out@) =~= apps_list_of(apps@));
    out
}

// ---------------------------------------------------------------------------
// Status
// ---------------------------------------------------------------------------

/// The last deployment of an application, with its times already written
/// as text.
#[derive(Debug, Clone)]
pub struct DeploymentInfo {
    /// Deployment identifier
    pub deployment_id: String,
    /// Deployment status
    pub status: String,
    /// When it started
    pub created_at: String,
    /// When it completed, if it did
    pub completed_at: Option<String>,
    /// Its error, if it failed
    pub error: Option<String>,
}

/// The status of an application, with its times and counters already
/// written as text where the service leaves their form open.
#[derive(Debug, Clone)]
pub struct AppStatus {
    /// Application name
    pub name: String,
    /// Application identifier
    pub id: String,
    /// Application URL
    pub url: String,
    /// Status, if known
    pub status: Option<String>,
    /// Creation time, if known
    pub created_at: Option<String>,
    /// Time of the last deployment, if any
    pub last_deployment: Option<String>,
    /// Number of deployments
    pub deployment_count: i64,
    /// Number of invocations, if known
    pub invocations: Option<String>,
    /// The last deployment, if any
    pub last_deployment_info: Option<DeploymentInfo>,
}

/// `label` then `value`, when there is a value.
pub open spec fn optional_line(label: Seq<char>, value: Option<String>) -> Seq<LineModel> {
    match value {
        Some(v) => seq![plain(label + v@)],
        None => Seq::empty(),
    }
}

/// The lines about the last deployment.
pub open spec fn deployment_lines(d: DeploymentInfo) -> Seq<LineModel> {
    seq![
        plain(""@),
        styled_as("Last Deployment"@, MessageStyle::Bold),
        plain("  ID:           "@ + d.deployment_id@),
        plain("  Status:       "@ + d.status@),
        plain("  Started:      "@ + d.created_at@),
    ] + optional_line("  Completed:    "@, d.completed_at) + match d.error {
        Some(e) => seq![styled_as("  Error:        "@ + e@, MessageStyle::Red)],
        None => Seq::empty(),
    }
}

/// The first lines of an application's status: its name, id, URL and status.
pub open spec fn status_head_of(a: AppStatus) -> Seq<LineModel> {
    seq![
        plain(""@),
        styled_as("Application Details"@, MessageStyle::Bold),
        plain("  Name:         "@ + a.name@),
        plain("  ID:           "@ + a.id@),
        plain("  URL:          "@ + a.url@),
        plain(
            "  Status:       "@ + match a.status {
                Some(s) => s@,
                None => "unknown"@,
            },
        ),
    ]
}

/// The lines of an application's times and counters.
pub open spec fn status_counts_of(a: AppStatus) -> Seq<LineModel> {
    optional_line("  Created:      "@, a.created_at) + optional_line(
        "  Last Deploy:  "@,
        a.last_deployment,
    ) + seq![plain("  Deployments:  "@ + int_text(a.deployment_count as int))] + optional_line(
        "  Invocations:  "@,
        a.invocations,
    )
}

/// The lines of an application's status.
pub open spec fn app_status_of(a: AppStatus) -> Seq<LineModel> {
    status_head_of(a) + status_counts_of(a) + match a.last_deployment_info {
        Some(d) => deployment_lines(d),
        None => Seq::empty(),
    } + seq![plain(""@)]
}

fn labelled(label: &str, value: &str) -> (r: String)
    ensures
        r@ == label@ + value@,
{
    let mut t = label.to_owned();
    push_str(&mut t, value);
    t
}

fn push_optional(out: &mut Vec<StyledLine>, label: &str, value: &Option<String>)
    ensures
        line_views(final(out)@) == line_views(old(out)@) + optional_line(label@, *value),
{
    match value {
        Some(v) => {
            push_line(out, labelled(label, v.as_str()), None);
        },
        None => {
            assert(line_views(out@) + Seq::<LineModel>::empty() =~= line_views(out@));
        },
    }
}

fn status_head(app: &AppStatus) -> (r: Vec<StyledLine>)
    ensures
        line_views(r@) == status_head_of(*app),
{
    let mut out: Vec<StyledLine> = Vec::new();
    push_line(&mut out, "".to_owned(), None);
    push_line(&mut out, "Application Details".to_owned(), Some(MessageStyle::Bold));
    push_line(&mut out, labelled("  Name:         ", app.name.as_str()), None);
    push_line(&mut out, labelled("  ID:           ", app.id.as_str()), None);
    push_line(&mut out, labelled("  URL:          ", app.url.as_str()), None);
    let status = match &app.status {
        Some(s) => labelled("  Status:       ", s.as_str()),
        None => labelled("  Status:       ", "unknown"),
    };
    push_line(&mut out, status, None);
    assert(line_views(out@) =~= status_head_of(*app));
    out
}

fn push_counts(out: &mut Vec<StyledLine>, app: &AppStatus)
    ensures
        line_views(final(out)@) == line_views(old(out)@) + status_counts_of(*app),
{
    let ghost start = line_views(out@);
    push_optional(out, "  Created:      ", &app.created_at);
    push_optional(out, "  Last Deploy:  ", &app.last_deployment);
    push_line(
        out,
        labelled("  Deployments:  ", crate::manifest_text::int_string(app.deployment_count).as_str()),
        None,
    );
    push_optional(out, "  Invocations:  ", &app.invocations);
    assert(line_views(out@) =~= start + status_counts_of(*app));
}

fn push_deployment(out: &mut Vec<StyledLine>, d: &DeploymentInfo)
    ensures
        line_views(final(out)@) == line_views(old(out)@) + deployment_lines(*d),
{
    let ghost start = line_views(out@);
    push_line(out, "".to_owned(), None);
    push_line(out, "Last Deployment".to_owned(), Some(MessageStyle::Bold));
    push_line(out, labelled("  ID:           ", d.deployment_id.as_str()), None);
    push_line(out, labelled("  Status:       ", d.status.as_str()), None);
    push_line(out, labelled("  Started:      ", d.created_at.as_str()), None);
    push_optional(out, "  Completed:    ", &d.completed_at);
    match &d.error {
        Some(e) => {
            push_line(out, labelled("  Error:        ", e.as_str()), Some(MessageStyle::Red));
        },
        None => {},
    }
    assert(line_views(out@) =~= start + deployment_lines(*d));
}

/// The lines of an application's status; see [`app_status_of`].
pub fn app_status_lines(app: &AppStatus) -> (r: Vec<StyledLine>)
    ensures
        line_views(r@) == app_status_of(*app),
{
    let mut out = status_head(app);
    push_counts(&mut out, app);
    let ghost mid = line_views(out@);
    match &app.last_deployment_info {
        Some(d) => {
            push_deployment(&mut out, d);
        },
        None => {
            assert(mid + Seq::<LineModel>::empty() =~= mid);
        },
    }
    push_line(&mut out, "".to_owned(), None);
    assert(line_views(out@) =~= app_status_of(*app));
    out
}

// ---------------------------------------------------------------------------
// Deleting
// ---------------------------------------------------------------------------

/// The lines shown before an application is deleted.
pub fn delete_preview_lines(name: &str, url: &str) -> (r: Vec<StyledLine>)
    ensures
        line_views(r@) == seq![
            styled_as("Application to be deleted:"@, MessageStyle::Yellow),
            plain("  Name: "@ + name@),
            plain("  URL: "@ + url@),
            plain(""@),
        ],
{
    let mut out: Vec<StyledLine> = Vec::new();
    push_line(&mut out, "Application to be deleted:".to_owned(), Some(MessageStyle::Yellow));
    push_line(&mut out, labelled("  Name: ", name), None);
    push_line(&mut out, labelled("  URL: ", url), None);
    push_line(&mut out, "".to_owned(), None);
    out
}

/// How a deletion is confirmed.
#[derive(Debug, Clone, Copy, PartialEq, Eq, Structural)]
pub enum DeleteStep {
    /// Delete without asking
    Proceed,
    /// Warn that the deletion cannot be undone and ask for the name
    AskForName,
}

/// Whether to ask before deleting: only without `--force` and with a user
/// at the terminal.
pub fn delete_step(force: bool, interactive: bool) -> (r: DeleteStep)
    ensures
        r == (if !force && interactive {
            DeleteStep::AskForName
        } else {
            DeleteStep::Proceed
        }),
{
    if !force && interactive {
        DeleteStep::AskForName
    } else {
        DeleteStep::Proceed
    }
}

/// The warning and the prompt that ask for the application's name.
pub fn confirmation_request(app_name: &str) -> (r: (StyledLine, String))
    ensures
        r.0@ == styled_as("⚠️  This action cannot be undone!"@, MessageStyle::Warning),
        r.1@ == "Type '"@ + app_name@ + "' to confirm deletion"@,
{
    let mut prompt = "Type '".to_owned();
    push_str(&mut prompt, app_name);
    push_str(&mut prompt, "' to confirm deletion");
    (line("⚠️  This action cannot be undone!".to_owned(), Some(MessageStyle::Warning)), prompt)
}

/// The answer to the prompt decides: the deletion goes ahead exactly when
/// the answer is the application's name; otherwise it is cancelled with
/// the returned notice.
pub fn confirmation_outcome(app_name: &str, answer: &str) -> (r: Option<StyledLine>)
    ensures
        answer@ == app_name@ <==> r is None,
        r matches Some(l) ==> l@ == styled_as("Deletion cancelled."@, MessageStyle::Yellow),
{
    if str_eq(answer, app_name) {
        None
    } else {
        Some(line("Deletion cancelled.".to_owned(), Some(MessageStyle::Yellow)))
    }
}

/// The lines shown once the service has deleted the application: its
/// message, and its warning when there is one.
pub fn deleted_lines(message: &str, warning: &str) -> (r: Vec<StyledLine>)
    ensures
        line_views(r@) == seq![styled_as("✓ "@ + message@, MessageStyle::Success)]
            + if warning@.len() == 0 {
            Seq::<LineModel>::empty()
        } else {
            seq![plain(""@), styled_as(warning@, MessageStyle::Warning)]
        },
{
    let mut out: Vec<StyledLine> = Vec::new();
    push_line(&mut out, labelled("✓ ", message), Some(MessageStyle::Success));
    if !str_is_empty(warning) {
        push_line(&mut out, "".to_owned(), None);
        push_line(&mut out, warning.to_owned(), Some(MessageStyle::Warning));
    } else {
        assert(line_views(out@) + Seq::<LineModel>::empty() =~= line_views(out@));
    }
    out
}

/// Law: the status of an application with no status, times, invocations
/// or last deployment is its name, id, URL, `unknown` status and
/// deployment count under the heading, between blank lines — nothing else.
pub proof fn law_bare_status_lines(a: AppStatus)
    requires
        a.status is None,
        a.created_at is None,
        a.last_deployment is None,
        a.invocations is None,
        a.last_deployment_info is None,
    ensures
        app_status_of(a) == seq![
            plain(""@),
            styled_as("Application Details"@, MessageStyle::Bold),
            plain("  Name:         "@ + a.name@),
            plain("  ID:           "@ + a.id@),
            plain("  URL:          "@ + a.url@),
            plain("  Status:       unknown"@),
            plain("  Deployments:  "@ + int_text(a.deployment_count as int)),
            plain(""@),
        ],
{
    reveal_strlit("  Status:       ");
    reveal_strlit("unknown");
    reveal_strlit("  Status:       unknown");
    assert("  Status:       "@ + "unknown"@ =~= "  Status:       unknown"@);
    assert(app_status_of(a) =~= seq![
        plain(""@),
        styled_as("Application Details"@, MessageStyle::Bold),
        plain("  Name:         "@ + a.name@),
        plain("  ID:           "@ + a.id@),
        plain("  URL:          "@ + a.url@),
        plain("  Status:       unknown"@),
        plain("  Deployments:  "@ + int_text(a.deployment_count as int)),
        plain(""@),
    ]);
}

} // verus!
