//! Command-line level rules: which changed files trigger a rebuild, which
//! version texts a tool manifest accepts, the arguments of the subcommands,
//! and the text the registry subcommands show.
use vstd::prelude::*;
use crate::manifest_text::{int_text, nat_text};
use crate::process::{ExitStatus, MessageStyle};
use crate::text::{
    chars_count, chars_last_index, chars_of, count_char, has_infix, has_suffix, is_ascii_digit,
    last_index_of, lemma_last_index, path_extension, path_extension_of, push_str, str_eq,
    str_has_infix, str_has_suffix, sub_chars,
};

verus! {

// ---------------------------------------------------------------------------
// Watched files
// ---------------------------------------------------------------------------

/// The path lies in a build or output directory, or is a build artefact or
/// a lock file.
pub open spec fn is_excluded_path(p: Seq<char>) -> bool {
    has_infix(p, "target/"@) || has_infix(p, "target\\"@) || has_infix(p, "dist/"@) || has_infix(
        p,
        "dist\\"@,
    ) || has_infix(p, "build/"@) || has_infix(p, "build\\"@) || has_infix(p, ".spin/"@)
        || has_infix(p, ".spin\\"@) || has_infix(p, "node_modules/"@) || has_infix(
        p,
        "node_modules\\"@,
    ) || has_suffix(p, ".wasm"@) || has_suffix(p, ".wat"@) || has_suffix(p, "package-lock.json"@)
        || has_suffix(p, "yarn.lock"@) || has_suffix(p, "pnpm-lock.yaml"@) || has_suffix(
        p,
        "Cargo.lock"@,
    )
}

/// A source file extension.
pub open spec fn is_source_extension(e: Seq<char>) -> bool {
    e == "rs"@ || e == "toml"@ || e == "js"@ || e == "ts"@ || e == "jsx"@ || e == "tsx"@ || e
        == "json"@ || e == "go"@ || e == "py"@ || e == "c"@ || e == "cpp"@ || e == "h"@
}

/// A change of the file at `p` triggers a rebuild: it is not excluded and
/// has a source extension.
pub open spec fn watched(p: Seq<char>) -> bool {
    !is_excluded_path(p) && match path_extension_of(p) {
        Some(e) => is_source_extension(e) && !(e == "wasm"@ || e == "wat"@),
        None => false,
    }
}

/// Law: which changes trigger a rebuild. A file outside the excluded build
/// and output directories (and not an artefact or lock file) is watched
/// exactly when its extension is one of `rs`, `toml`, `js`, `ts`, `jsx`,
/// `tsx`, `json`, `go`, `py`, `c`, `cpp` and `h`; nothing under `target/`,
/// `dist/`, `build/`, `.spin/` or `node_modules/`, and no `.wasm` file, is
/// watched.
pub proof fn law_watched_files(p: Seq<char>)
    ensures
        match path_extension_of(p) {
            Some(e) => !(has_infix(p, "target/"@) || has_infix(p, "target\\"@) || has_infix(p, "dist/"@)
                || has_infix(p, "dist\\"@) || has_infix(p, "build/"@) || has_infix(p, "build\\"@)
                || has_infix(p, ".spin/"@) || has_infix(p, ".spin\\"@) || has_infix(p, "node_modules/"@)
                || has_infix(p, "node_modules\\"@) || has_suffix(p, ".wasm"@) || has_suffix(p, ".wat"@)
                || has_suffix(p, "package-lock.json"@) || has_suffix(p, "yarn.lock"@)
                || has_suffix(p, "pnpm-lock.yaml"@) || has_suffix(p, "Cargo.lock"@)) ==> (watched(p) <==> (e == "rs"@ || e == "toml"@ || e == "js"@ || e == "ts"@ || e == "jsx"@ || e == "tsx"@ || e == "json"@ || e == "go"@ || e == "py"@ || e == "c"@ || e == "cpp"@ || e == "h"@)),
            None => !watched(p),
        },
        has_infix(p, "target/"@) || has_infix(p, "dist/"@) || has_infix(p, "build/"@) || has_infix(p, ".spin/"@)
            || has_infix(p, "node_modules/"@) || has_suffix(p, ".wasm"@) ==> !watched(p),
{
    reveal_strlit("rs");
    reveal_strlit("toml");
    reveal_strlit("js");
    reveal_strlit("ts");
    reveal_strlit("jsx");
    reveal_strlit("tsx");
    reveal_strlit("json");
    reveal_strlit("go");
    reveal_strlit("py");
    reveal_strlit("c");
    reveal_strlit("cpp");
    reveal_strlit("h");
    reveal_strlit("wasm");
    reveal_strlit("wat");
    assert("rs"@[0] != "wasm"@[0] && "rs"@[0] != "wat"@[0]);
    assert("toml"@[0] != "wasm"@[0] && "toml"@[0] != "wat"@[0]);
    assert("js"@[0] != "wasm"@[0] && "js"@[0] != "wat"@[0]);
    assert("ts"@[0] != "wasm"@[0] && "ts"@[0] != "wat"@[0]);
    assert("jsx"@[0] != "wasm"@[0] && "jsx"@[0] != "wat"@[0]);
    assert("tsx"@[0] != "wasm"@[0] && "tsx"@[0] != "wat"@[0]);
    assert("json"@[0] != "wasm"@[0] && "json"@[0] != "wat"@[0]);
    assert("go"@[0] != "wasm"@[0] && "go"@[0] != "wat"@[0]);
    assert("py"@[0] != "wasm"@[0] && "py"@[0] != "wat"@[0]);
    assert("c"@[0] != "wasm"@[0] && "c"@[0] != "wat"@[0]);
    assert("cpp"@[0] != "wasm"@[0] && "cpp"@[0] != "wat"@[0]);
    assert("h"@[0] != "wasm"@[0] && "h"@[0] != "wat"@[0]);
}

/// Whether a change of the file at `path` should trigger a rebuild.
pub fn should_watch_file(path: &str) -> (r: bool)
    ensures
        r == watched(path@),
{
    if str_has_infix(path, "target/") || str_has_infix(path, "target\\") || str_has_infix(
        path,
        "dist/",
    ) || str_has_infix(path, "dist\\") || str_has_infix(path, "build/") || str_has_infix(
        path,
        "build\\",
    ) || str_has_infix(path, ".spin/") || str_has_infix(path, ".spin\\") || str_has_infix(
        path,
        "node_modules/",
    ) || str_has_infix(path, "node_modules\\") || str_has_suffix(path, ".wasm") || str_has_suffix(
        path,
        ".wat",
    ) || str_has_suffix(path, "package-lock.json") || str_has_suffix(path, "yarn.lock")
        || str_has_suffix(path, "pnpm-lock.yaml") || str_has_suffix(path, "Cargo.lock") {
        return false;
    }
    match path_extension(path) {
        Some(ext) => {
            let e = ext.as_str();
            let source = str_eq(e, "rs") || str_eq(e, "toml") || str_eq(e, "js") || str_eq(e, "ts")
                || str_eq(e, "jsx") || str_eq(e, "tsx") || str_eq(e, "json") || str_eq(e, "go")
                || str_eq(e, "py") || str_eq(e, "c") || str_eq(e, "cpp") || str_eq(e, "h");
            source && !(str_eq(e, "wasm") || str_eq(e, "wat"))
        },
        None => false,
    }
}

// ---------------------------------------------------------------------------
// Tool manifest versions
// ---------------------------------------------------------------------------

/// The number an ASCII digit stands for.
pub open spec fn digit_value(c: char) -> nat {
    ((c as u32) - ('0' as u32)) as nat
}

/// The number a run of ASCII digits stands for.
pub open spec fn digits_value(s: Seq<char>) -> nat
    decreases s.len(),
{
    if s.len() == 0 {
        0
    } else {
        digits_value(s.drop_last()) * 10 + digit_value(s.last())
    }
}

/// Every character is an ASCII digit.
pub open spec fn all_ascii_digits(s: Seq<char>) -> bool {
    forall|i: int| 0 <= i < s.len() ==> is_ascii_digit(s[i])
}

/// `s` is what `str::parse::<u32>` accepts: an optional `+`, then one or
/// more ASCII digits whose value fits in a `u32`.
pub open spec fn u32_text(s: Seq<char>) -> bool {
    let d = unsigned_digits(s);
    d.len() > 0 && all_ascii_digits(d) && digits_value(d) <= u32::MAX
}

/// `s` without one leading `+`.
pub open spec fn unsigned_digits(s: Seq<char>) -> Seq<char> {
    if s.len() > 0 && s[0] == '+' {
        s.drop_first()
    } else {
        s
    }
}

/// `v` has exactly three `.`-separated parts, each a `u32` text.
pub open spec fn tool_version_shape(v: Seq<char>) -> bool {
    let j = last_index_of(v, '.');
    let i = last_index_of(v.subrange(0, j), '.');
    count_char(v, '.') == 2 && u32_text(v.subrange(0, i)) && u32_text(v.subrange(i + 1, j))
        && u32_text(v.subrange(j + 1, v.len() as int))
}

/// Lemma: appending digits never makes the value smaller.
pub proof fn lemma_digits_grow(s: Seq<char>, n: int)
    requires
        0 <= n <= s.len(),
    ensures
        digits_value(s.subrange(0, n)) <= digits_value(s),
    decreases s.len() - n,
{
    if n < s.len() {
        lemma_digits_grow(s, n + 1);
        assert(s.subrange(0, n + 1).drop_last() =~= s.subrange(0, n));
    } else {
        assert(s.subrange(0, n) =~= s);
    }
}

/// The value of a `u32` text, as `str::parse::<u32>` gives it; `None` for
/// any other text.
pub fn u32_value(s: &[char]) -> (r: Option<u32>)
    ensures
        r is Some <==> u32_text(s@),
        r matches Some(v) ==> v == digits_value(unsigned_digits(s@)),
{
    let start: usize = if s.len() > 0 && s[0] == '+' {
        1
    } else {
        0
    };
    let d = sub_chars(s, start, s.len());
    assert(d@ =~= unsigned_digits(s@));
    if d.len() == 0 {
        return None;
    }
    let mut value: u64 = 0;
    let mut i: usize = 0;
    while i < d.len()
        invariant
            i <= d@.len(),
            d@ == unsigned_digits(s@),
            value == digits_value(d@.subrange(0, i as int)),
            value <= u32::MAX,
            forall|k: int| 0 <= k < i ==> is_ascii_digit(d@[k]),
        decreases d.len() - i,
    {
        let c = d[i];
        if !('0' <= c && c <= '9') {
            assert(!is_ascii_digit(d@[i as int]));
            assert(!all_ascii_digits(d@));
            return None;
        }
        assert(d@.subrange(0, i + 1).drop_last() =~= d@.subrange(0, i as int));
        assert(d@.subrange(0, i + 1).last() == c);
        let dv = (c as u32 - '0' as u32) as u64;
        assert(dv == digit_value(c));
        value = value * 10 + dv;
        assert(value == digits_value(d@.subrange(0, i + 1)));
        if value > 4294967295u64 {
            proof {
                lemma_digits_grow(d@, i + 1);
            }
            assert(digits_value(d@) > u32::MAX);
            return None;
        }
        i = i + 1;
    }
    assert(d@.subrange(0, d@.len() as int) =~= d@);
    Some(value as u32)
}

/// Whether the characters form a `u32` text.
pub fn is_u32_text(s: &[char]) -> (r: bool)
    ensures
        r == u32_text(s@),
{
    u32_value(s).is_some()
}

/// Whether a tool manifest version is three `.`-separated `u32` numbers.
pub fn is_valid_version(version: &str) -> (r: bool)
    ensures
        r == tool_version_shape(version@),
{
    let cs = chars_of(version);
    let all = cs.as_slice();
    if chars_count(all, '.') != 2 {
        return false;
    }
    proof {
        lemma_last_index(all@, '.');
    }
    let j = match chars_last_index(all, '.') {
        Some(j) => j,
        None => {
            proof {
                crate::text::lemma_count_zero(all@, '.');
            }
            return false;
        },
    };
    assert(j == last_index_of(all@, '.'));
    assert(last_index_of(all@, '.') < all@.len());
    assert(j < all.len());
    let head = sub_chars(all, 0, j);
    let hs = head.as_slice();
    proof {
        lemma_last_index(hs@, '.');
    }
    proof {
        crate::text::lemma_count_before_last(all@, '.');
        assert(hs@ == all@.subrange(0, j as int));
        if !hs@.contains('.') {
            crate::text::lemma_count_zero(hs@, '.');
        }
    }
    let i = match chars_last_index(hs, '.') {
        Some(i) => i,
        None => {
            return false;
        },
    };
    assert(i < j);
    assert(j < all@.len());
    let a = sub_chars(all, 0, i);
    let b = sub_chars(all, i + 1, j);
    let c = sub_chars(all, j + 1, all.len());
    assert(a@ =~= hs@.subrange(0, i as int));
    is_u32_text(a.as_slice()) && is_u32_text(b.as_slice()) && is_u32_text(c.as_slice())
}

// ---------------------------------------------------------------------------
// Registry subcommand
// ---------------------------------------------------------------------------

/// The registry shown when none is given.
pub open spec fn shown_registry(registry: Option<Seq<char>>) -> Seq<char> {
    match registry {
        Some(r) => r,
        None => "ghcr.io"@,
    }
}

/// `prefix` followed by `s`, as a new string.
fn joined(prefix: &str, s: &str) -> (r: String)
    ensures
        r@ == prefix@ + s@,
{
    let mut out = prefix.to_owned();
    push_str(&mut out, s);
    out
}

/// The lines the `registry list` subcommand shows.
pub fn list_with_deps(registry: Option<&str>) -> (r: Vec<String>)
    ensures
        r.deep_view() == seq![
            "→ Listing components from "@ + shown_registry(registry.deep_view()),
            ""@,
            "! Registry listing not yet implemented"@,
            ""@,
            "For now, you can browse components at:"@,
            "  - GitHub Container Registry: https://github.com/orgs/YOUR_ORG/packages"@,
            "  - Docker Hub: https://hub.docker.com/"@,
        ],
{
    let registry_url: &str = match registry {
        Some(r) => r,
        None => "ghcr.io",
    };
    let mut out: Vec<String> = Vec::new();
    out.push(joined("→ Listing components from ", registry_url));
    out.push("".to_owned());
    out.push("! Registry listing not yet implemented".to_owned());
    out.push("".to_owned());
    out.push("For now, you can browse components at:".to_owned());
    out.push("  - GitHub Container Registry: https://github.com/orgs/YOUR_ORG/packages".to_owned());
    out.push("  - Docker Hub: https://hub.docker.com/".to_owned());
    assert(out.deep_view() =~= seq![
        "→ Listing components from "@ + shown_registry(registry.deep_view()),
        ""@,
        "! Registry listing not yet implemented"@,
        ""@,
        "For now, you can browse components at:"@,
        "  - GitHub Container Registry: https://github.com/orgs/YOUR_ORG/packages"@,
        "  - Docker Hub: https://hub.docker.com/"@,
    ]);
    out
}

/// The lines the `registry search` subcommand shows for `query`.
pub fn search_with_deps(query: &str, registry: Option<&str>) -> (r: Vec<String>)
    ensures
        r.deep_view() == seq![
            "→ Searching for '"@ + query@ + "' in "@ + shown_registry(registry.deep_view()),
            ""@,
            "! Registry search not yet implemented"@,
            ""@,
            "For now, you can search at:"@,
            "  - GitHub: https://github.com/search?q=mcp+"@ + query@ + "&type=registrypackages"@,
        ],
{
    let registry_url: &str = match registry {
        Some(r) => r,
        None => "ghcr.io",
    };
    let mut first = joined("→ Searching for '", query);
    push_str(&mut first, "' in ");
    push_str(&mut first, registry_url);
    let mut link = joined("  - GitHub: https://github.com/search?q=mcp+", query);
    push_str(&mut link, "&type=registrypackages");
    let mut out: Vec<String> = Vec::new();
    out.push(first);
    out.push("".to_owned());
    out.push("! Registry search not yet implemented".to_owned());
    out.push("".to_owned());
    out.push("For now, you can search at:".to_owned());
    out.push(link);
    assert(out.deep_view() =~= seq![
        "→ Searching for '"@ + query@ + "' in "@ + shown_registry(registry.deep_view()),
        ""@,
        "! Registry search not yet implemented"@,
        ""@,
        "For now, you can search at:"@,
        "  - GitHub: https://github.com/search?q=mcp+"@ + query@ + "&type=registrypackages"@,
    ]);
    out
}

/// The lines the `registry info` subcommand shows for `component`.
pub fn info_with_deps(component: &str) -> (r: Vec<String>)
    ensures
        r.deep_view() == seq![
            "→ Getting info for component: "@ + component@,
            ""@,
            "! Registry info not yet implemented"@,
            ""@,
            "Component reference formats:"@,
            "  - ghcr.io/username/component:version"@,
            "  - docker.io/username/component:version"@,
            "  - component-name (searches default registry)"@,
        ],
{
    let mut out: Vec<String> = Vec::new();
    out.push(joined("→ Getting info for component: ", component));
    out.push("".to_owned());
    out.push("! Registry info not yet implemented".to_owned());
    out.push("".to_owned());
    out.push("Component reference formats:".to_owned());
    out.push("  - ghcr.io/username/component:version".to_owned());
    out.push("  - docker.io/username/component:version".to_owned());
    out.push("  - component-name (searches default registry)".to_owned());
    assert(out.deep_view() =~= seq![
        "→ Getting info for component: "@ + component@,
        ""@,
        "! Registry info not yet implemented"@,
        ""@,
        "Component reference formats:"@,
        "  - ghcr.io/username/component:version"@,
        "  - docker.io/username/component:version"@,
        "  - component-name (searches default registry)"@,
    ]);
    out
}

/// Registry command arguments.
#[derive(Debug, Clone)]
pub struct RegistryArgs {
    /// Subcommand
    pub command: RegistryCommand,
}

/// Registry subcommands.
#[derive(Debug, Clone)]
pub enum RegistryCommand {
    /// List available components
    List {
        /// Registry URL
        registry: Option<String>,
    },
    /// Search for components
    Search {
        /// Search query
        query: String,
        /// Registry URL
        registry: Option<String>,
    },
    /// Get info about a component
    Info {
        /// Component name
        component: String,
    },
}

/// The lines the registry command shows for its subcommand.
pub fn registry_lines(args: &RegistryArgs) -> (r: Vec<String>)
    ensures
        r.deep_view() == match &args.command {
            RegistryCommand::List { registry } => seq![
                "→ Listing components from "@ + shown_registry(registry.deep_view()),
                ""@,
                "! Registry listing not yet implemented"@,
                ""@,
                "For now, you can browse components at:"@,
                "  - GitHub Container Registry: https://github.com/orgs/YOUR_ORG/packages"@,
                "  - Docker Hub: https://hub.docker.com/"@,
            ],
            RegistryCommand::Search { query, registry } => seq![
                "→ Searching for '"@ + query@ + "' in "@ + shown_registry(registry.deep_view()),
                ""@,
                "! Registry search not yet implemented"@,
                ""@,
                "For now, you can search at:"@,
                "  - GitHub: https://github.com/search?q=mcp+"@ + query@ + "&type=registrypackages"@,
            ],
            RegistryCommand::Info { component } => seq![
                "→ Getting info for component: "@ + component@,
                ""@,
                "! Registry info not yet implemented"@,
                ""@,
                "Component reference formats:"@,
                "  - ghcr.io/username/component:version"@,
                "  - docker.io/username/component:version"@,
                "  - component-name (searches default registry)"@,
            ],
        },
{
    match &args.command {
        RegistryCommand::List { registry } => {
            let reg: Option<&str> = match registry {
                Some(r) => Some(r.as_str()),
                None => None,
            };
            list_with_deps(reg)
        },
        RegistryCommand::Search { query, registry } => {
            let reg: Option<&str> = match registry {
                Some(r) => Some(r.as_str()),
                None => None,
            };
            search_with_deps(query.as_str(), reg)
        },
        RegistryCommand::Info { component } => info_with_deps(component.as_str()),
    }
}

// ---------------------------------------------------------------------------
// Other subcommands' arguments
// ---------------------------------------------------------------------------

/// Output format of the app listing.
#[derive(Debug, Clone, Copy, PartialEq, Eq, Structural)]
pub enum OutputFormat {
    /// A formatted table
    Table,
    /// JSON
    Json,
}

impl OutputFormat {
    /// Parses `table` or `json`; the error names the refused text.
    pub fn from_string(s: &str) -> (r: Result<OutputFormat, String>)
        ensures
            match r {
                Ok(f) => (s@ == "table"@ && f == OutputFormat::Table) || (s@ == "json"@ && f
                    == OutputFormat::Json),
                Err(m) => s@ != "table"@ && s@ != "json"@ && m@ == "Invalid output format: "@ + s@,
            },
    {
        if str_eq(s, "table") {
            Ok(OutputFormat::Table)
        } else if str_eq(s, "json") {
            Ok(OutputFormat::Json)
        } else {
            Err(joined("Invalid output format: ", s))
        }
    }
}

/// App command arguments.
#[derive(Debug, Clone)]
pub struct AppArgs {
    /// Subcommand
    pub command: AppCommand,
}

/// App subcommands.
#[derive(Debug, Clone)]
pub enum AppCommand {
    /// List all applications
    List {
        /// Output format
        format: OutputFormat,
    },
    /// Status of an application
    Status {
        /// Application name
        app_name: String,
        /// Output format
        format: OutputFormat,
    },
    /// Delete an application
    Delete {
        /// Application name
        app_name: String,
        /// Delete without asking
        force: bool,
    },
}

/// Auth command arguments.
#[derive(Debug, Clone)]
pub struct AuthArgs {
    /// Subcommand
    pub command: AuthCommand,
}

/// Auth subcommands.
#[derive(Debug, Clone, Copy, PartialEq, Eq, Structural)]
pub enum AuthCommand {
    /// Show authentication status
    Status,
}

/// Up command arguments.
#[derive(Debug, Clone)]
pub struct UpArgs {
    /// Path of the Spin application
    pub path: Option<String>,
    /// Port to listen on
    pub port: Option<u16>,
    /// Build before starting
    pub build: bool,
    /// Watch files and rebuild
    pub watch: bool,
    /// Clear the screen on rebuild
    pub clear: bool,
}

/// Settings of the up command.
#[derive(Debug, Clone)]
pub struct UpConfig {
    /// Path of the Spin application
    pub path: Option<String>,
    /// Port to listen on
    pub port: u16,
    /// Build before starting
    pub build: bool,
    /// Watch files and rebuild
    pub watch: bool,
    /// Clear the screen on rebuild
    pub clear: bool,
}

impl UpConfig {
    /// The settings for `args`: port 3000 unless another is given.
    pub fn from_args(args: UpArgs) -> (r: UpConfig)
        ensures
            r.path == args.path,
            r.port == match args.port {
                Some(p) => p,
                None => 3000u16,
            },
            r.build == args.build,
            r.watch == args.watch,
            r.clear == args.clear,
    {
        UpConfig {
            path: args.path,
            port: match args.port {
                Some(p) => p,
                None => 3000,
            },
            build: args.build,
            watch: args.watch,
            clear: args.clear,
        }
    }
}

/// The arguments of `spin up` for `port`: listen on 127.0.0.1 at that port.
pub fn spin_up_arguments(port: u16) -> (r: Vec<String>)
    ensures
        r.deep_view() == seq!["up"@, "--listen"@, "127.0.0.1:"@ + nat_text(port as nat)],
{
    let mut addr = "127.0.0.1:".to_owned();
    push_str(&mut addr, crate::manifest_text::nat_string(port as u64).as_str());
    let mut out: Vec<String> = Vec::new();
    out.push("up".to_owned());
    out.push("--listen".to_owned());
    out.push(addr);
    assert(out.deep_view() =~= seq!["up"@, "--listen"@, "127.0.0.1:"@ + nat_text(port as nat)]);
    out
}

/// Whether a batch of changed files calls for a rebuild: some file in it
/// is watched.
pub fn changes_need_rebuild(paths: &Vec<String>) -> (r: bool)
    ensures
        r == exists|i: int| 0 <= i < paths@.len() && watched(#[trigger] paths@[i]@),
{
    let mut i: usize = 0;
    while i < paths.len()
        invariant
            i <= paths@.len(),
            forall|j: int| 0 <= j < i ==> !watched(#[trigger] paths@[j]@),
        decreases paths.len() - i,
    {
        if should_watch_file(paths[i].as_str()) {
            return true;
        }
        i = i + 1;
    }
    false
}

/// How a foreground `spin up` ends: when it was interrupted, with the stop
/// notice; otherwise quietly on success, and with an error naming the exit
/// code (-1 without one) on failure.
pub fn server_exit(interrupted: bool, status: &ExitStatus) -> (r: Result<Option<String>, String>)
    ensures
        interrupted ==> (r matches Ok(Some(m)) && m@ == "■ Stopping server..."@),
        !interrupted && status@ == Some(0i32) ==> r matches Ok(None),
        !interrupted && status@ != Some(0i32) ==> (r matches Err(m) && m@ == "Spin exited with status: "@
            + int_text(match status@ {
            Some(c) => c as int,
            None => -1,
        })),
{
    if interrupted {
        return Ok(Some("■ Stopping server...".to_owned()));
    }
    if status.success() {
        Ok(None)
    } else {
        let code: i64 = match status.code() {
            Some(c) => c as i64,
            None => -1,
        };
        let mut m = "Spin exited with status: ".to_owned();
        push_str(&mut m, crate::manifest_text::int_string(code).as_str());
        Err(m)
    }
}

// ---------------------------------------------------------------------------
// The watch loop of `up --watch`
// ---------------------------------------------------------------------------

/// The lines `up` shows before it starts the server in the foreground.
pub fn server_intro_lines(port: u16) -> (r: Vec<String>)
    ensures
        r.deep_view() == seq![
            "→ Starting server..."@,
            ""@,
            "🌐 Server will start at http://127.0.0.1:"@ + nat_text(port as nat),
            "⏹ Press Ctrl+C to stop"@,
            ""@,
        ],
{
    let mut at = "🌐 Server will start at http://127.0.0.1:".to_owned();
    push_str(&mut at, crate::manifest_text::nat_string(port as u64).as_str());
    let mut out: Vec<String> = Vec::new();
    out.push("→ Starting server...".to_owned());
    out.push("".to_owned());
    out.push(at);
    out.push("⏹ Press Ctrl+C to stop".to_owned());
    out.push("".to_owned());
    out
}

/// The lines `up --watch` shows before its initial build.
pub fn watch_intro_lines(port: u16) -> (r: Vec<String>)
    ensures
        r.deep_view() == seq![
            "→ Starting development server with auto-rebuild..."@,
            ""@,
            "👀 Watching for file changes"@,
            "🌐 Server will start at http://127.0.0.1:"@ + nat_text(port as nat),
            "⏹ Press Ctrl+C to stop"@,
            ""@,
            "→ Running initial build..."@,
        ],
{
    let mut at = "🌐 Server will start at http://127.0.0.1:".to_owned();
    push_str(&mut at, crate::manifest_text::nat_string(port as u64).as_str());
    let mut out: Vec<String> = Vec::new();
    out.push("→ Starting development server with auto-rebuild...".to_owned());
    out.push("".to_owned());
    out.push("👀 Watching for file changes".to_owned());
    out.push(at);
    out.push("⏹ Press Ctrl+C to stop".to_owned());
    out.push("".to_owned());
    out.push("→ Running initial build...".to_owned());
    out
}

/// What the watch loop learns while the server runs.
#[derive(Debug)]
pub enum WatchEvent {
    /// The watcher reported these changed files
    FilesChanged(Vec<String>),
    /// A rebuild finished: `Ok` or the build error
    BuildFinished(Result<(), String>),
    /// The user asked to stop (Ctrl+C)
    Interrupted,
}

/// Model of [`WatchEvent`].
pub enum WatchEventModel {
    FilesChanged(Seq<Seq<char>>),
    BuildFinished(Result<(), Seq<char>>),
    Interrupted,
}

impl View for WatchEvent {
    type V = WatchEventModel;

    open spec fn view(&self) -> WatchEventModel {
        match self {
            WatchEvent::FilesChanged(v) => WatchEventModel::FilesChanged(v.deep_view()),
            WatchEvent::BuildFinished(Ok(())) => WatchEventModel::BuildFinished(Ok(())),
            WatchEvent::BuildFinished(Err(e)) => WatchEventModel::BuildFinished(Err(e@)),
            WatchEvent::Interrupted => WatchEventModel::Interrupted,
        }
    }
}

/// What the watch loop does after showing the step's lines.
#[derive(Debug, Clone, Copy, PartialEq, Eq, Structural)]
pub enum WatchAction {
    /// Keep waiting for events
    Wait,
    /// Wait for the changes to settle, clear the screen when `clear_screen`,
    /// show the lines, stop the server, pause, and rebuild
    Rebuild {
        /// Clear the screen first
        clear_screen: bool,
    },
    /// Show the lines and start the server again
    Restart,
    /// Show the lines, stop the server and leave the loop
    Stop,
}

/// A line to show, plain or in a style.
#[derive(Debug, Clone)]
pub struct StyledLine {
    /// The text
    pub text: String,
    /// Its style; `None` for plain text
    pub style: Option<MessageStyle>,
}

impl View for StyledLine {
    type V = (Seq<char>, Option<MessageStyle>);

    open spec fn view(&self) -> (Seq<char>, Option<MessageStyle>) {
        (self.text@, self.style)
    }
}

/// One step of the watch loop: the lines to show and what to do.
#[derive(Debug, Clone)]
pub struct WatchStep {
    /// Lines to show, in order
    pub lines: Vec<StyledLine>,
    /// What to do next
    pub action: WatchAction,
}

/// Some path of the batch is watched.
pub open spec fn some_watched(paths: Seq<Seq<char>>) -> bool {
    exists|i: int| 0 <= i < paths.len() && watched(#[trigger] paths[i])
}

/// The step for an event: a batch of changes with a watched file rebuilds
/// (any other batch is ignored), a finished build restarts the server or
/// reports the failure and waits, and an interrupt stops.
pub open spec fn watch_step_of(clear: bool, e: WatchEventModel) -> (
    Seq<(Seq<char>, Option<MessageStyle>)>,
    WatchAction,
) {
    match e {
        WatchEventModel::FilesChanged(paths) => if some_watched(paths) {
            (
                seq![
                    ("🔄 File change detected, rebuilding..."@, Some(MessageStyle::Yellow)),
                    (""@, None),
                ],
                WatchAction::Rebuild { clear_screen: clear },
            )
        } else {
            (Seq::empty(), WatchAction::Wait)
        },
        WatchEventModel::BuildFinished(Ok(())) => (
            seq![(""@, None), ("→ Restarting server..."@, None)],
            WatchAction::Restart,
        ),
        WatchEventModel::BuildFinished(Err(err)) => (
            seq![
                (""@, None),
                ("✗ Build failed: "@ + err, Some(MessageStyle::Red)),
                ("⏸ Waiting for file changes..."@, Some(MessageStyle::Yellow)),
            ],
            WatchAction::Wait,
        ),
        WatchEventModel::Interrupted => (
            seq![(""@, None), ("■ Stopping development server..."@, Some(MessageStyle::Red))],
            WatchAction::Stop,
        ),
    }
}

fn styled(text: String, style: Option<MessageStyle>) -> (r: StyledLine)
    ensures
        r@ == (text@, style),
{
    StyledLine { text, style }
}

/// The decision of the watch loop for one event; see [`watch_step_of`].
pub fn watch_step(clear: bool, event: &WatchEvent) -> (r: WatchStep)
    ensures
        r.lines@.map_values(|l: StyledLine| l@) == watch_step_of(clear, event@).0,
        r.action == watch_step_of(clear, event@).1,
{
    let mut lines: Vec<StyledLine> = Vec::new();
    let action = match event {
        WatchEvent::FilesChanged(paths) => {
            let ghost pv = paths.deep_view();
            if changes_need_rebuild(paths) {
                proof {
                    let i = choose|i: int| 0 <= i < paths@.len() && watched(#[trigger] paths@[i]@);
                    assert(pv[i] == paths@[i]@);
                    assert(watched(pv[i]));
                    assert(some_watched(pv));
                }
                lines.push(styled("🔄 File change detected, rebuilding...".to_owned(), Some(MessageStyle::Yellow)));
                lines.push(styled("".to_owned(), None));
                WatchAction::Rebuild { clear_screen: clear }
            } else {
                proof {
                    assert forall|i: int| 0 <= i < pv.len() implies !watched(#[trigger] pv[i]) by {
                        assert(pv[i] == paths@[i]@);
                    }
                }
                WatchAction::Wait
            }
        },
        WatchEvent::BuildFinished(Ok(())) => {
            lines.push(styled("".to_owned(), None));
            lines.push(styled("→ Restarting server...".to_owned(), None));
            WatchAction::Restart
        },
        WatchEvent::BuildFinished(Err(e)) => {
            let mut failed = "✗ Build failed: ".to_owned();
            push_str(&mut failed, e.as_str());
            lines.push(styled("".to_owned(), None));
            lines.push(styled(failed, Some(MessageStyle::Red)));
            lines.push(styled("⏸ Waiting for file changes...".to_owned(), Some(MessageStyle::Yellow)));
            WatchAction::Wait
        },
        WatchEvent::Interrupted => {
            lines.push(styled("".to_owned(), None));
            lines.push(styled("■ Stopping development server...".to_owned(), Some(MessageStyle::Red)));
            WatchAction::Stop
        },
    };
    assert(lines@.map_values(|l: StyledLine| l@) =~= watch_step_of(clear, event@).0);
    WatchStep { lines, action }
}

} // verus!
