//! The checks `ftl validate` makes of a tool directory: what the manifest,
//! `Cargo.toml`, `src/lib.rs` and `cargo check` must show, and the report.
use vstd::prelude::*;
use crate::commands::{is_valid_version, tool_version_shape};
use crate::manifest_text::{nat_string, nat_text};
use crate::text::{has_infix, push_str, str_eq, str_has_infix};
use crate::documents::{
    entry_keys, first_str, first_string, get_in, get_value, keys_of_entries, opt_get, parse_toml, str_of,
    toml_parsed_of, value_get, value_str, TomlValue,
};

verus! {

/// What loading `ftl.toml` gave.
#[derive(Debug, Clone)]
pub enum ManifestFacts {
    /// There is no `ftl.toml`
    Missing,
    /// It could not be loaded; the loader's error
    Invalid(String),
    /// It was loaded: the tool's name, description and version
    Loaded {
        /// Tool name
        name: String,
        /// Tool description
        description: String,
        /// Tool version
        version: String,
    },
}

/// What `Cargo.toml` shows.
#[derive(Debug, Clone)]
pub enum CargoFacts {
    /// There is no `Cargo.toml`
    Missing,
    /// It could not be read; the read error
    Unreadable(String),
    /// It was read
    Read {
        /// The keys of `[dependencies]`, when the section is there
        dependencies: Option<Vec<String>>,
        /// The `[lib]` section, when it is there: its `crate-type` when that
        /// is there, as the first item of the array when that is a string
        lib: Option<Option<Option<String>>>,
    },
}

/// What `src/lib.rs` shows.
#[derive(Debug, Clone)]
pub enum SourceFacts {
    /// There is no `src/lib.rs`
    Missing,
    /// It could not be read; the read error
    Unreadable(String),
    /// Its content
    Read(String),
}

/// What running `cargo check` gave.
#[derive(Debug, Clone)]
pub enum CheckFacts {
    /// It passed
    Passed,
    /// It failed; its standard error
    Failed(String),
    /// It could not be run; the error
    NotRun(String),
}

/// Errors and warnings found, each in the order the checks run.
#[derive(Debug, Clone)]
pub struct Findings {
    /// Errors
    pub errors: Vec<String>,
    /// Warnings
    pub warnings: Vec<String>,
}

/// `s` when `b` holds.
pub open spec fn line_if(b: bool, s: Seq<char>) -> Seq<Seq<char>> {
    if b {
        seq![s]
    } else {
        Seq::empty()
    }
}

/// Errors about the manifest.
pub open spec fn manifest_errors(m: ManifestFacts) -> Seq<Seq<char>> {
    match m {
        ManifestFacts::Missing => seq!["Missing ftl.toml manifest file"@],
        ManifestFacts::Invalid(e) => seq!["Invalid ftl.toml: "@ + e@],
        ManifestFacts::Loaded { name, description, version } => line_if(
            name@.len() == 0,
            "Tool name cannot be empty"@,
        ) + line_if(!tool_version_shape(version@), "Invalid version format: "@ + version@),
    }
}

/// Warnings about the manifest.
pub open spec fn manifest_warnings(m: ManifestFacts) -> Seq<Seq<char>> {
    match m {
        ManifestFacts::Loaded { name, description, version } => line_if(
            description@.len() == 0,
            "Tool description is empty"@,
        ),
        _ => Seq::empty(),
    }
}

/// Errors about the dependencies of `Cargo.toml`.
pub open spec fn dependency_errors(dependencies: Option<Vec<String>>) -> Seq<Seq<char>> {
    match dependencies {
        Some(d) => line_if(
            !d.deep_view().contains("ftl-core"@),
            "Missing ftl-core dependency in Cargo.toml"@,
        ),
        None => seq!["No dependencies section in Cargo.toml"@],
    }
}

/// Errors about the `[lib]` section of `Cargo.toml`.
pub open spec fn lib_errors(lib: Option<Option<Option<String>>>) -> Seq<Seq<char>> {
    match lib {
        Some(Some(t)) => line_if(
            t.deep_view() != Some("cdylib"@),
            "Library crate-type must be [\"cdylib\"] for WebAssembly"@,
        ),
        Some(None) => seq!["Missing crate-type in [lib] section"@],
        None => seq!["Missing [lib] section in Cargo.toml"@],
    }
}

/// Errors about `Cargo.toml`.
pub open spec fn cargo_errors(c: CargoFacts) -> Seq<Seq<char>> {
    match c {
        CargoFacts::Missing => seq!["Missing Cargo.toml file"@],
        CargoFacts::Unreadable(e) => seq!["Failed to read Cargo.toml: "@ + e@],
        CargoFacts::Read { dependencies, lib } => dependency_errors(dependencies) + lib_errors(lib),
    }
}

/// Errors about `src/lib.rs`.
pub open spec fn source_errors(s: SourceFacts) -> Seq<Seq<char>> {
    match s {
        SourceFacts::Missing => seq!["Missing src/lib.rs file"@],
        SourceFacts::Unreadable(e) => seq!["Failed to read src/lib.rs: "@ + e@],
        SourceFacts::Read(content) => line_if(
            !has_infix(content@, "ftl_mcp_server!"@),
            "Missing ftl_mcp_server! macro invocation in src/lib.rs"@,
        ),
    }
}

/// Warnings about `src/lib.rs`.
pub open spec fn source_warnings(s: SourceFacts) -> Seq<Seq<char>> {
    match s {
        SourceFacts::Read(content) => line_if(
            !has_infix(content@, "impl Tool for"@),
            "No Tool trait implementation found in src/lib.rs"@,
        ),
        _ => Seq::empty(),
    }
}

/// Errors about `cargo check`.
pub open spec fn check_errors(c: CheckFacts) -> Seq<Seq<char>> {
    match c {
        CheckFacts::Failed(e) => seq!["Cargo check failed:\n"@ + e@],
        _ => Seq::empty(),
    }
}

/// Warnings about `cargo check`.
pub open spec fn check_warnings(c: CheckFacts) -> Seq<Seq<char>> {
    match c {
        CheckFacts::NotRun(e) => seq!["Could not run cargo check: "@ + e@],
        _ => Seq::empty(),
    }
}

/// Appends `s` to `out` when `b` holds.
fn push_line_if(out: &mut Vec<String>, b: bool, s: String)
    ensures
        final(out).deep_view() == old(out).deep_view() + line_if(b, s@),
{
    let ghost before = out.deep_view();
    if b {
        out.push(s);
        assert(out.deep_view() =~= before + line_if(b, s@));
    } else {
        assert(out.deep_view() =~= before + line_if(b, s@));
    }
}

/// `prefix` followed by `s`.
fn prefixed(prefix: &str, s: &str) -> (r: String)
    ensures
        r@ == prefix@ + s@,
{
    let mut out = prefix.to_owned();
    push_str(&mut out, s);
    out
}

/// Whether `v` holds `x`.
fn holds_text(v: &Vec<String>, x: &str) -> (r: bool)
    ensures
        r == v.deep_view().contains(x@),
{
    let mut i: usize = 0;
    while i < v.len()
        invariant
            i <= v@.len(),
            forall|j: int| 0 <= j < i ==> v.deep_view()[j] != x@,
        decreases v.len() - i,
    {
        if str_eq(v[i].as_str(), x) {
            assert(v.deep_view()[i as int] == x@);
            return true;
        }
        i = i + 1;
    }
    proof {
        if v.deep_view().contains(x@) {
            let k = choose|k: int| 0 <= k < v.deep_view().len() && v.deep_view()[k] == x@;
            assert(v.deep_view()[k] != x@);
        }
    }
    false
}

/// Appends the findings about the manifest.
fn check_manifest(manifest: &ManifestFacts, errors: &mut Vec<String>, warnings: &mut Vec<String>)
    ensures
        final(errors).deep_view() == old(errors).deep_view() + manifest_errors(*manifest),
        final(warnings).deep_view() == old(warnings).deep_view() + manifest_warnings(*manifest),
{
    let ghost e0 = errors.deep_view();
    let ghost w0 = warnings.deep_view();
    match manifest {
        ManifestFacts::Missing => {
            push_line_if(errors, true, "Missing ftl.toml manifest file".to_owned());
            assert(warnings.deep_view() =~= w0 + manifest_warnings(*manifest));
        },
        ManifestFacts::Invalid(e) => {
            push_line_if(errors, true, prefixed("Invalid ftl.toml: ", e.as_str()));
            assert(warnings.deep_view() =~= w0 + manifest_warnings(*manifest));
        },
        ManifestFacts::Loaded { name, description, version } => {
            push_line_if(errors, name.as_str().is_empty(), "Tool name cannot be empty".to_owned());
            push_line_if(warnings, description.as_str().is_empty(), "Tool description is empty".to_owned());
            let bad = !is_valid_version(version.as_str());
            push_line_if(errors, bad, prefixed("Invalid version format: ", version.as_str()));
        },
    }
    assert(errors.deep_view() =~= e0 + manifest_errors(*manifest));
}

/// Appends the findings about `Cargo.toml`.
fn check_cargo(cargo: &CargoFacts, errors: &mut Vec<String>)
    ensures
        final(errors).deep_view() == old(errors).deep_view() + cargo_errors(*cargo),
{
    let ghost e0 = errors.deep_view();
    match cargo {
        CargoFacts::Missing => {
            push_line_if(errors, true, "Missing Cargo.toml file".to_owned());
        },
        CargoFacts::Unreadable(e) => {
            push_line_if(errors, true, prefixed("Failed to read Cargo.toml: ", e.as_str()));
        },
        CargoFacts::Read { dependencies, lib } => {
            match dependencies {
                Some(d) => {
                    let found = holds_text(d, "ftl-core");
                    push_line_if(errors, !found, "Missing ftl-core dependency in Cargo.toml".to_owned());
                },
                None => {
                    push_line_if(errors, true, "No dependencies section in Cargo.toml".to_owned());
                },
            }
            let ghost e1 = errors.deep_view();
            assert(e1 =~= e0 + dependency_errors(*dependencies));
            match lib {
                Some(Some(t)) => {
                    let cdylib = match t {
                        Some(x) => str_eq(x.as_str(), "cdylib"),
                        None => false,
                    };
                    assert(cdylib == (t.deep_view() == Some("cdylib"@)));
                    push_line_if(
                        errors,
                        !cdylib,
                        "Library crate-type must be [\"cdylib\"] for WebAssembly".to_owned(),
                    );
                },
                Some(None) => {
                    push_line_if(errors, true, "Missing crate-type in [lib] section".to_owned());
                },
                None => {
                    push_line_if(errors, true, "Missing [lib] section in Cargo.toml".to_owned());
                },
            }
            assert(errors.deep_view() =~= e1 + lib_errors(*lib));
        },
    }
    assert(errors.deep_view() =~= e0 + cargo_errors(*cargo));
}

/// Appends the findings about `src/lib.rs` and `cargo check`.
fn check_source(source: &SourceFacts, check: &CheckFacts, errors: &mut Vec<String>, warnings: &mut Vec<String>)
    ensures
        final(errors).deep_view() == old(errors).deep_view() + source_errors(*source) + check_errors(*check),
        final(warnings).deep_view() == old(warnings).deep_view() + source_warnings(*source)
            + check_warnings(*check),
{
    let ghost e0 = errors.deep_view();
    let ghost w0 = warnings.deep_view();
    match source {
        SourceFacts::Missing => {
            push_line_if(errors, true, "Missing src/lib.rs file".to_owned());
        },
        SourceFacts::Unreadable(e) => {
            push_line_if(errors, true, prefixed("Failed to read src/lib.rs: ", e.as_str()));
        },
        SourceFacts::Read(content) => {
            let tool_impl = str_has_infix(content.as_str(), "impl Tool for");
            push_line_if(warnings, !tool_impl, "No Tool trait implementation found in src/lib.rs".to_owned());
            let server = str_has_infix(content.as_str(), "ftl_mcp_server!");
            push_line_if(errors, !server, "Missing ftl_mcp_server! macro invocation in src/lib.rs".to_owned());
        },
    }
    let ghost e1 = errors.deep_view();
    let ghost w1 = warnings.deep_view();
    assert(e1 =~= e0 + source_errors(*source));
    assert(w1 =~= w0 + source_warnings(*source));
    match check {
        CheckFacts::Passed => {},
        CheckFacts::Failed(e) => {
            push_line_if(errors, true, prefixed("Cargo check failed:\n", e.as_str()));
        },
        CheckFacts::NotRun(e) => {
            push_line_if(warnings, true, prefixed("Could not run cargo check: ", e.as_str()));
        },
    }
    assert(errors.deep_view() =~= e1 + check_errors(*check));
    assert(warnings.deep_view() =~= w1 + check_warnings(*check));
}

/// What the checks of a tool directory find; see the `*_errors` and
/// `*_warnings` rules, applied to the manifest, `Cargo.toml`, `src/lib.rs`
/// and `cargo check` in that order.
pub fn tool_findings(
    manifest: &ManifestFacts,
    cargo: &CargoFacts,
    source: &SourceFacts,
    check: &CheckFacts,
) -> (r: Findings)
    ensures
        r.errors.deep_view() == manifest_errors(*manifest) + cargo_errors(*cargo) + source_errors(
            *source,
        ) + check_errors(*check),
        r.warnings.deep_view() == manifest_warnings(*manifest) + source_warnings(*source)
            + check_warnings(*check),
{
    let mut errors: Vec<String> = Vec::new();
    let mut warnings: Vec<String> = Vec::new();
    assert(errors.deep_view() =~= Seq::<Seq<char>>::empty());
    assert(warnings.deep_view() =~= Seq::<Seq<char>>::empty());
    check_manifest(manifest, &mut errors, &mut warnings);
    check_cargo(cargo, &mut errors);
    check_source(source, check, &mut errors, &mut warnings);
    assert(errors.deep_view() =~= manifest_errors(*manifest) + cargo_errors(*cargo) + source_errors(
        *source,
    ) + check_errors(*check));
    assert(warnings.deep_view() =~= manifest_warnings(*manifest) + source_warnings(*source)
        + check_warnings(*check));
    Findings { errors, warnings }
}

/// `items` as `   - item` lines.
pub open spec fn bullet_lines(items: Seq<Seq<char>>) -> Seq<Seq<char>> {
    items.map_values(|x: Seq<char>| "   - "@ + x)
}

/// The report lines of the findings, and the error the command ends with
/// when there are errors.
pub open spec fn report_of(errors: Seq<Seq<char>>, warnings: Seq<Seq<char>>) -> (Seq<Seq<char>>, Option<Seq<char>>) {
    let head = seq!["\n📋 Validation Results:"@];
    if errors.len() == 0 && warnings.len() == 0 {
        (head + seq!["✅ All checks passed!"@], None)
    } else {
        let w = if warnings.len() > 0 {
            seq!["\n⚠️  Warnings ("@ + nat_text(warnings.len()) + ")"@] + bullet_lines(warnings)
        } else {
            Seq::empty()
        };
        let e = if errors.len() > 0 {
            seq!["\n❌ Errors ("@ + nat_text(errors.len()) + ")"@] + bullet_lines(errors)
        } else {
            Seq::empty()
        };
        (
            head + w + e,
            if errors.len() > 0 {
                Some("Validation failed with "@ + nat_text(errors.len()) + " error(s)"@)
            } else {
                None
            },
        )
    }
}

/// Appends the `   - item` lines of `items` to `out`.
fn push_bullets(out: &mut Vec<String>, items: &Vec<String>)
    ensures
        final(out).deep_view() == old(out).deep_view() + bullet_lines(items.deep_view()),
{
    let ghost start = out.deep_view();
    let mut i: usize = 0;
    while i < items.len()
        invariant
            i <= items@.len(),
            out.deep_view() == start + bullet_lines(items.deep_view().subrange(0, i as int)),
        decreases items.len() - i,
    {
        let ghost before = out.deep_view();
        let line = prefixed("   - ", items[i].as_str());
        out.push(line);
        assert(out.deep_view() =~= before.push(line@));
        assert(bullet_lines(items.deep_view().subrange(0, i + 1)) =~= bullet_lines(
            items.deep_view().subrange(0, i as int),
        ).push(line@));
        i = i + 1;
    }
    assert(items.deep_view().subrange(0, items@.len() as int) =~= items.deep_view());
}

/// The report of the findings; see [`report_of`].
pub fn validation_report(findings: &Findings) -> (r: (Vec<String>, Option<String>))
    ensures
        (r.0.deep_view(), r.1.deep_view()) == report_of(
            findings.errors.deep_view(),
            findings.warnings.deep_view(),
        ),
{
    let mut out: Vec<String> = Vec::new();
    out.push("\n📋 Validation Results:".to_owned());
    let ne = findings.errors.len();
    let nw = findings.warnings.len();
    if ne == 0 && nw == 0 {
        out.push("✅ All checks passed!".to_owned());
        assert(out.deep_view() =~= seq!["\n📋 Validation Results:"@, "✅ All checks passed!"@]);
        return (out, None);
    }
    let ghost head = out.deep_view();
    let ghost ws = findings.warnings.deep_view();
    let ghost es = findings.errors.deep_view();
    let ghost w = if ws.len() > 0 {
        seq!["\n⚠️  Warnings ("@ + nat_text(ws.len()) + ")"@] + bullet_lines(ws)
    } else {
        Seq::empty()
    };
    let ghost e = if es.len() > 0 {
        seq!["\n❌ Errors ("@ + nat_text(es.len()) + ")"@] + bullet_lines(es)
    } else {
        Seq::empty()
    };
    if nw > 0 {
        let mut t = "\n⚠️  Warnings (".to_owned();
        let n = nat_string(nw as u64);
        push_str(&mut t, n.as_str());
        push_str(&mut t, ")");
        let ghost before = out.deep_view();
        out.push(t);
        assert(out.deep_view() =~= before.push(t@));
        push_bullets(&mut out, &findings.warnings);
    }
    assert(out.deep_view() =~= head + w);
    let ghost mid = out.deep_view();
    if ne > 0 {
        let mut t = "\n❌ Errors (".to_owned();
        let n = nat_string(ne as u64);
        push_str(&mut t, n.as_str());
        push_str(&mut t, ")");
        let ghost before = out.deep_view();
        out.push(t);
        assert(out.deep_view() =~= before.push(t@));
        push_bullets(&mut out, &findings.errors);
        assert(out.deep_view() =~= head + w + e);
        let mut m = "Validation failed with ".to_owned();
        push_str(&mut m, n.as_str());
        push_str(&mut m, " error(s)");
        let ghost rep = report_of(findings.errors.deep_view(), findings.warnings.deep_view());
        assert(out.deep_view() =~= rep.0);
        (out, Some(m))
    } else {
        let ghost rep = report_of(findings.errors.deep_view(), findings.warnings.deep_view());
        assert(out.deep_view() =~= rep.0);
        (out, None)
    }
}

// ---------------------------------------------------------------------------
// Reading the files
// ---------------------------------------------------------------------------

/// The keys of `[dependencies]` when the section is there (none when it is
/// not a table).
pub open spec fn dependency_keys(doc: TomlValue) -> Option<Seq<Seq<char>>> {
    match value_get(doc, "dependencies"@) {
        None => None,
        Some(TomlValue::Table(entries)) => Some(entry_keys(entries@)),
        Some(_) => Some(Seq::empty()),
    }
}

/// The `[lib]` section when it is there: its `crate-type` when that is
/// there, as the first item of the array when that is a string.
pub open spec fn lib_crate_type(doc: TomlValue) -> Option<Option<Option<Seq<char>>>> {
    match value_get(doc, "lib"@) {
        None => None,
        Some(l) => Some(
            match value_get(l, "crate-type"@) {
                None => None,
                Some(t) => Some(first_str(t)),
            },
        ),
    }
}

/// What a tool's `Cargo.toml` shows, from its text; an error when the text
/// is not TOML.
pub fn cargo_facts(content: &str) -> (r: Result<CargoFacts, String>)
    ensures
        match toml_parsed_of(content@) {
            Err(_) => r matches Err(m) && m@ == "Failed to parse Cargo.toml"@,
            Ok(doc) => r matches Ok(CargoFacts::Read { dependencies, lib })
                && dependencies.deep_view() == dependency_keys(doc)
                && lib.deep_view() == lib_crate_type(doc),
        },
{
    let doc = match parse_toml(content) {
        Ok(d) => d,
        Err(_) => {
            return Err("Failed to parse Cargo.toml".to_owned());
        },
    };
    let dependencies = match get_value(&doc, "dependencies") {
        None => None,
        Some(TomlValue::Table(entries)) => Some(keys_of_entries(entries)),
        Some(_) => {
            let none: Vec<String> = Vec::new();
            assert(none.deep_view() =~= Seq::<Seq<char>>::empty());
            Some(none)
        },
    };
    let lib = match get_value(&doc, "lib") {
        None => None,
        Some(l) => Some(
            match get_value(l, "crate-type") {
                None => None,
                Some(t) => Some(first_string(t)),
            },
        ),
    };
    Ok(CargoFacts::Read { dependencies, lib })
}

/// The `[tool]` field `k` of a manifest, when it is a string.
pub open spec fn tool_field(doc: TomlValue, k: Seq<char>) -> Option<Seq<char>> {
    value_str(opt_get(value_get(doc, "tool"@), k))
}

/// What loading a tool's `ftl.toml` gives, from its text: the parser's
/// error, or the name, description and version of `[tool]`, each of which
/// must be a string.
pub fn manifest_facts(content: &str) -> (r: ManifestFacts)
    ensures
        match toml_parsed_of(content@) {
            Err(e) => r matches ManifestFacts::Invalid(m) && m@ == e,
            Ok(doc) => match (tool_field(doc, "name"@), tool_field(doc, "description"@), tool_field(doc, "version"@)) {
                (Some(n), Some(d), Some(v)) => r matches ManifestFacts::Loaded { name, description, version }
                    && name@ == n && description@ == d && version@ == v,
                _ => r matches ManifestFacts::Invalid(m) && m@ == "missing field in [tool]"@,
            },
        },
{
    let doc = match parse_toml(content) {
        Ok(d) => d,
        Err(e) => {
            return ManifestFacts::Invalid(e);
        },
    };
    let tool = get_value(&doc, "tool");
    let name = str_of(get_in(tool, "name"));
    let description = str_of(get_in(tool, "description"));
    let version = str_of(get_in(tool, "version"));
    match (name, description, version) {
        (Some(name), Some(description), Some(version)) => ManifestFacts::Loaded { name, description, version },
        _ => ManifestFacts::Invalid("missing field in [tool]".to_owned()),
    }
}

} // verus!
