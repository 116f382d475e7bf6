//! The build command: which components of spin.toml have a build command,
//! how each command is adjusted for release builds, and the shell line that
//! runs it in its directory.
use vstd::prelude::*;
use crate::commands::StyledLine;
use crate::manifest_text::nat_text;
use crate::process::MessageStyle;
use crate::strmap::StrMap;
use crate::documents::{get_value, parse_toml, str_of, toml_parsed_of, value_get, value_str, TomlValue};
use crate::text::{chars_occur_at, chars_of, has_infix, has_prefix, occurs_at, path_join, path_join_of, push_str, str_has_infix, str_has_prefix, string_of};

verus! {

/// The `build` table of a spin.toml component, as the build command reads it.
#[derive(Debug, Clone)]
pub struct BuildSection {
    /// `command`, when it is a string
    pub command: Option<String>,
    /// `workdir`, when it is a string
    pub workdir: Option<String>,
}

/// Model of [`BuildSection`].
pub struct BuildSectionModel {
    pub command: Option<Seq<char>>,
    pub workdir: Option<Seq<char>>,
}

impl View for BuildSection {
    type V = BuildSectionModel;

    open spec fn view(&self) -> BuildSectionModel {
        BuildSectionModel { command: self.command.deep_view(), workdir: self.workdir.deep_view() }
    }
}

/// A component to build.
#[derive(Debug, Clone)]
pub struct ComponentBuildInfo {
    /// Component name
    pub name: String,
    /// Build command to run
    pub build_command: Option<String>,
    /// Working directory of the build, relative to the project
    pub workdir: Option<String>,
}

/// Model of [`ComponentBuildInfo`].
pub struct ComponentBuildInfoModel {
    pub name: Seq<char>,
    pub build_command: Option<Seq<char>>,
    pub workdir: Option<Seq<char>>,
}

impl View for ComponentBuildInfo {
    type V = ComponentBuildInfoModel;

    open spec fn view(&self) -> ComponentBuildInfoModel {
        ComponentBuildInfoModel {
            name: self.name@,
            build_command: self.build_command.deep_view(),
            workdir: self.workdir.deep_view(),
        }
    }
}

/// The components to build, in table order: those whose `build` table has
/// a string `command`.
pub open spec fn builds_of(entries: Seq<(Seq<char>, Option<BuildSectionModel>)>) -> Seq<
    ComponentBuildInfoModel,
>
    decreases entries.len(),
{
    if entries.len() == 0 {
        Seq::empty()
    } else {
        let rest = builds_of(entries.drop_last());
        match entries.last().1 {
            Some(b) => match b.command {
                Some(c) => rest.push(
                    ComponentBuildInfoModel {
                        name: entries.last().0,
                        build_command: Some(c),
                        workdir: b.workdir,
                    },
                ),
                None => rest,
            },
            None => rest,
        }
    }
}

/// The model of each component to build.
pub open spec fn build_views(s: Seq<ComponentBuildInfo>) -> Seq<ComponentBuildInfoModel> {
    s.map_values(|c: ComponentBuildInfo| c@)
}

/// Model of the component table: each component's `build` table, if any.
pub open spec fn section_views(s: Seq<(Seq<char>, Option<BuildSection>)>) -> Seq<
    (Seq<char>, Option<BuildSectionModel>),
> {
    s.map_values(
        |e: (Seq<char>, Option<BuildSection>)|
            (
                e.0,
                match e.1 {
                    Some(b) => Some(b@),
                    None => None,
                },
            ),
    )
}

/// The components of spin.toml that have a build command, by the `build`
/// table of each component (`None` where the component has none).
pub fn parse_component_builds(components: &StrMap<Option<BuildSection>>) -> (r: Vec<ComponentBuildInfo>)
    ensures
        build_views(r@) == builds_of(section_views(components@)),
{
    let ghost es = section_views(components@);
    let mut out: Vec<ComponentBuildInfo> = Vec::new();
    let mut i: usize = 0;
    while i < components.len()
        invariant
            i <= components@.len(),
            es == section_views(components@),
            build_views(out@) == builds_of(es.subrange(0, i as int)),
        decreases components@.len() - i,
    {
        assert(es.subrange(0, i + 1).drop_last() =~= es.subrange(0, i as int));
        let name = components.key_at(i);
        let entry = components.value_at(i);
        match entry {
            Some(b) => match &b.command {
                Some(c) => {
                    let ghost before = build_views(out@);
                    out.push(
                        ComponentBuildInfo {
                            name: name.clone(),
                            build_command: Some(c.clone()),
                            workdir: b.workdir.clone(),
                        },
                    );
                    assert(build_views(out@) =~= before.push(out@.last()@));
                },
                None => {},
            },
            None => {},
        }
        i = i + 1;
    }
    assert(es.subrange(0, es.len() as int) =~= es);
    out
}

/// The `build` table of a component, as the build command reads it (none
/// when `build` is not a table).
pub open spec fn build_section_of(c: TomlValue) -> Option<BuildSectionModel> {
    match value_get(c, "build"@) {
        Some(b) => if b is Table {
            Some(
                BuildSectionModel {
                    command: value_str(value_get(b, "command"@)),
                    workdir: value_str(value_get(b, "workdir"@)),
                },
            )
        } else {
            None
        },
        None => None,
    }
}

/// Each component of a `[component]` table with its `build` table.
pub open spec fn build_tables(entries: Seq<(String, TomlValue)>) -> Seq<(Seq<char>, Option<BuildSectionModel>)> {
    entries.map_values(|e: (String, TomlValue)| (e.0@, build_section_of(e.1)))
}

/// The components to build of a spin.toml document, in table order.
pub open spec fn document_builds(doc: TomlValue) -> Seq<ComponentBuildInfoModel> {
    match value_get(doc, "component"@) {
        Some(TomlValue::Table(entries)) => builds_of(build_tables(entries@)),
        _ => Seq::empty(),
    }
}

/// The components of a spin.toml that have a build command, from its text;
/// an error when the text is not TOML.
pub fn component_builds(content: &str) -> (r: Result<Vec<ComponentBuildInfo>, String>)
    ensures
        match toml_parsed_of(content@) {
            Err(_) => r matches Err(m) && m@ == "Failed to parse spin.toml"@,
            Ok(doc) => r matches Ok(v) && build_views(v@) == document_builds(doc),
        },
{
    let doc = match parse_toml(content) {
        Ok(d) => d,
        Err(_) => {
            return Err("Failed to parse spin.toml".to_owned());
        },
    };
    let mut out: Vec<ComponentBuildInfo> = Vec::new();
    match get_value(&doc, "component") {
        Some(TomlValue::Table(entries)) => {
            let ghost es = build_tables(entries@);
            let mut i: usize = 0;
            while i < entries.len()
                invariant
                    i <= entries@.len(),
                    es == build_tables(entries@),
                    build_views(out@) == builds_of(es.subrange(0, i as int)),
                decreases entries@.len() - i,
            {
                assert(es.subrange(0, i + 1).drop_last() =~= es.subrange(0, i as int));
                let c = &entries[i].1;
                match get_value(c, "build") {
                    Some(b) => match b {
                        TomlValue::Table(_) => {
                            let command = str_of(get_value(b, "command"));
                            match command {
                                Some(cmd) => {
                                    let workdir = str_of(get_value(b, "workdir"));
                                    let ghost before = build_views(out@);
                                    out.push(
                                        ComponentBuildInfo {
                                            name: entries[i].0.clone(),
                                            build_command: Some(cmd),
                                            workdir,
                                        },
                                    );
                                    assert(build_views(out@) =~= before.push(out@.last()@));
                                },
                                None => {},
                            }
                        },
                        _ => {},
                    },
                    None => {},
                }
                i = i + 1;
            }
            assert(es.subrange(0, es.len() as int) =~= es);
        },
        _ => {},
    }
    Ok(out)
}

/// What the build command shows before building `n` components: that
/// there is nothing to build, or how many components it builds.
pub open spec fn build_announcement_of(n: nat) -> (Seq<char>, Option<MessageStyle>) {
    if n == 0 {
        ("→ No components with build commands found in spin.toml"@, Some(MessageStyle::Cyan))
    } else {
        (
            "→ Building "@ + nat_text(n) + " component"@ + (if n > 1 { "s"@ } else { ""@ })
                + " in parallel"@,
            None,
        )
    }
}

/// The line the build command shows for `n` components to build.
pub fn build_announcement(n: usize) -> (r: StyledLine)
    ensures
        r@ == build_announcement_of(n as nat),
{
    if n == 0 {
        return StyledLine {
            text: "→ No components with build commands found in spin.toml".to_owned(),
            style: Some(MessageStyle::Cyan),
        };
    }
    let mut t = "→ Building ".to_owned();
    push_str(&mut t, crate::manifest_text::nat_string(n as u64).as_str());
    push_str(&mut t, " component");
    if n > 1 {
        push_str(&mut t, "s");
    } else {
        push_str(&mut t, "");
    }
    push_str(&mut t, " in parallel");
    StyledLine { text: t, style: None }
}

// ---------------------------------------------------------------------------
// Release builds
// ---------------------------------------------------------------------------

/// `s` with each occurrence of `p` replaced by `r`, taking occurrences
/// from left to right without overlap (for a nonempty `p`).
pub open spec fn replace_all(s: Seq<char>, p: Seq<char>, r: Seq<char>) -> Seq<char>
    decreases s.len(),
{
    if p.len() == 0 || s.len() == 0 {
        s
    } else if has_prefix(s, p) {
        r + replace_all(s.subrange(p.len() as int, s.len() as int), p, r)
    } else {
        seq![s[0]] + replace_all(s.subrange(1, s.len() as int), p, r)
    }
}

/// The command a build runs: for a release build of a command that starts
/// with `cargo build` and does not mention `--release`, each `cargo build`
/// becomes `cargo build --release`; any other command is run as written.
pub open spec fn prepared_command(c: Seq<char>, release: bool) -> Seq<char> {
    if release && !has_infix(c, "--release"@) && has_prefix(c, "cargo build"@) {
        replace_all(c, "cargo build"@, "cargo build --release"@)
    } else {
        c
    }
}

/// Replaces each occurrence of `p` in `s` by `r`, as `str::replace` does.
fn replace_text(s: &str, p: &str, r: &str) -> (out: String)
    requires
        p@.len() > 0,
    ensures
        out@ == replace_all(s@, p@, r@),
{
    let sc = chars_of(s);
    let pc = chars_of(p);
    let n = sc.len();
    let mut out = String::new();
    let mut i: usize = 0;
    assert(s@.subrange(0, n as int) =~= s@);
    assert(out@ + s@ =~= s@);
    while i < n
        invariant
            n == sc@.len(),
            sc@ == s@,
            pc@ == p@,
            p@.len() > 0,
            i <= n,
            replace_all(s@, p@, r@) == out@ + replace_all(s@.subrange(i as int, n as int), p@, r@),
        decreases n - i,
    {
        let ghost t = s@.subrange(i as int, n as int);
        if chars_occur_at(sc.as_slice(), pc.as_slice(), i) {
            assert(has_prefix(t, p@)) by {
                assert(t.subrange(0, p@.len() as int) =~= s@.subrange(i as int, i + p@.len()));
            }
            assert(t.subrange(p@.len() as int, t.len() as int) =~= s@.subrange(i + p@.len(), n as int));
            push_str(&mut out, r);
            i = i + pc.len();
        } else {
            assert(!has_prefix(t, p@)) by {
                if has_prefix(t, p@) {
                    assert(t.subrange(0, p@.len() as int) =~= s@.subrange(i as int, i + p@.len()));
                    assert(occurs_at(s@, p@, i as int));
                }
            }
            assert(t.subrange(1, t.len() as int) =~= s@.subrange(i + 1, n as int));
            let ghost before = out@;
            out.append(string_of(&sc.as_slice()[i..i + 1]).as_str());
            assert(sc@.subrange(i as int, i + 1) =~= seq![t[0]]);
            assert(out@ == before + seq![t[0]]);
            assert(before + (seq![t[0]] + replace_all(t.subrange(1, t.len() as int), p@, r@)) =~= out@
                + replace_all(t.subrange(1, t.len() as int), p@, r@));
            i = i + 1;
        }
    }
    assert(s@.subrange(n as int, n as int) =~= Seq::<char>::empty());
    assert(out@ + Seq::<char>::empty() =~= out@);
    out
}

/// The command a build runs; see [`prepared_command`].
pub fn prepare_build_command(build_command: &str, release: bool) -> (r: String)
    ensures
        r@ == prepared_command(build_command@, release),
{
    if release && !str_has_infix(build_command, "--release") {
        if str_has_prefix(build_command, "cargo build") {
            proof {
                reveal_strlit("cargo build");
            }
            replace_text(build_command, "cargo build", "cargo build --release")
        } else {
            build_command.to_owned()
        }
    } else {
        build_command.to_owned()
    }
}

/// Preparing a command twice changes nothing more: a prepared release
/// command mentions `--release` when it was changed.
pub proof fn law_prepare_idempotent(c: Seq<char>, release: bool)
    ensures
        prepared_command(prepared_command(c, release), release) == prepared_command(c, release),
{
    let p = prepared_command(c, release);
    if release && !has_infix(c, "--release"@) && has_prefix(c, "cargo build"@) {
        reveal_strlit("cargo build");
        reveal_strlit("cargo build --release");
        reveal_strlit("--release");
        let rest = replace_all(c.subrange(11, c.len() as int), "cargo build"@, "cargo build --release"@);
        assert(p == "cargo build --release"@ + rest);
        assert(occurs_at(p, "--release"@, 12)) by {
            assert(p.subrange(12, 21) =~= "--release"@);
        }
    }
}

// ---------------------------------------------------------------------------
// Running a build
// ---------------------------------------------------------------------------

/// The shell and its arguments that run `command`: `cmd /C` on Windows,
/// `sh -c` elsewhere.
pub fn shell_command(command: &str, windows: bool) -> (r: (String, Vec<String>))
    ensures
        r.0@ == (if windows { "cmd"@ } else { "sh"@ }),
        r.1.deep_view() == seq![if windows { "/C"@ } else { "-c"@ }, command@],
{
    let mut args: Vec<String> = Vec::new();
    if windows {
        args.push("/C".to_owned());
        args.push(command.to_owned());
        assert(args.deep_view() =~= seq!["/C"@, command@]);
        ("cmd".to_owned(), args)
    } else {
        args.push("-c".to_owned());
        args.push(command.to_owned());
        assert(args.deep_view() =~= seq!["-c"@, command@]);
        ("sh".to_owned(), args)
    }
}

/// The directory a component builds in: its `workdir` under the project
/// directory, else the project directory.
pub fn build_directory(working_path: &str, workdir: &Option<String>) -> (r: String)
    ensures
        r@ == match workdir {
            Some(w) => path_join_of(working_path@, w@),
            None => working_path@,
        },
{
    match workdir {
        Some(w) => path_join(working_path, w.as_str()),
        None => working_path.to_owned(),
    }
}

/// The shell arguments that run the command of `shell_args` (its second
/// argument, empty when there is none) after changing to `build_dir`:
/// the first argument, then `cd <dir> && <command>`.
pub fn build_invocation(shell_args: &Vec<String>, build_dir: &str) -> (r: Vec<String>)
    ensures
        ({
            let a = shell_args.deep_view();
            let run = "cd "@ + build_dir@ + " && "@ + (if a.len() >= 2 { a[1] } else { ""@ });
            r.deep_view() == if a.len() >= 2 { seq![a[0], run] } else { seq![run] }
        }),
{
    let ghost a = shell_args.deep_view();
    let mut run = "cd ".to_owned();
    push_str(&mut run, build_dir);
    push_str(&mut run, " && ");
    if shell_args.len() >= 2 {
        assert(a[1] == shell_args@[1]@);
        push_str(&mut run, shell_args[1].as_str());
    } else {
        push_str(&mut run, "");
    }
    let mut out: Vec<String> = Vec::new();
    if shell_args.len() >= 2 {
        assert(a[0] == shell_args@[0]@);
        out.push(shell_args[0].clone());
        out.push(run);
        assert(out.deep_view() =~= seq![a[0], out@[1]@]);
    } else {
        out.push(run);
        assert(out.deep_view() =~= seq![out@[0]@]);
    }
    out
}

/// The error of a build whose command failed with `stderr`.
pub fn build_failure(stderr: &str) -> (r: String)
    ensures
        r@ == "Build failed:\n"@ + stderr@,
{
    let mut m = "Build failed:\n".to_owned();
    push_str(&mut m, stderr);
    m
}

} // verus!
