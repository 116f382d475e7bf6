//! Resolution of registry components to local Wasm files: which references
//! are registry references, where a downloaded component is kept, which
//! components of a configuration need resolving, and what is reported.
use vstd::prelude::*;
use crate::ftl_config::{FtlConfig, FtlModel};
use crate::strmap::{StrMap, has_key, insert_pair, keys_distinct, lemma_insert_pair, lookup};
use crate::manifest_text::{nat_string, nat_text};
use crate::text::{
    chars_last_index, chars_of, has_suffix, last_index_of, lemma_last_index, path_join,
    path_join_of, push_str, str_has_suffix, str_contains_char, string_of, sub_chars, join,
};

verus! {

// ---------------------------------------------------------------------------
// Registry references
// ---------------------------------------------------------------------------

/// A registry reference such as `ghcr.io/org/name:1.0.0`: it has a `/` and
/// a `:` and is not a `.wasm` file.
pub open spec fn registry_ref(s: Seq<char>) -> bool {
    s.contains('/') && s.contains(':') && !has_suffix(s, ".wasm"@)
}

/// Whether `s` is a registry reference.
pub fn is_registry_ref(s: &str) -> (r: bool)
    ensures
        r == registry_ref(s@),
{
    str_contains_char(s, '/') && str_contains_char(s, ':') && !str_has_suffix(s, ".wasm")
}

/// The text after the last `/` of `s` (all of `s` when it has none).
pub open spec fn last_segment(s: Seq<char>) -> Seq<char> {
    s.subrange(last_index_of(s, '/') + 1, s.len() as int)
}

/// The file a registry reference is downloaded to: `{package}-{version}.wasm`,
/// where the version follows the last `:` and the package is the last
/// `/`-separated segment before it; `None` without a `:`.
pub open spec fn registry_file_name(r: Seq<char>) -> Option<Seq<char>> {
    let p = last_index_of(r, ':');
    if p < 0 {
        None
    } else {
        Some(last_segment(r.subrange(0, p)) + "-"@ + r.subrange(p + 1, r.len() as int) + ".wasm"@)
    }
}

/// The reference itself and the file it is downloaded to; an error when the
/// reference has no version.
pub fn parse_registry_ref(registry_ref: &str) -> (r: Result<(String, String), String>)
    ensures
        match r {
            Ok((u, f)) => u@ == registry_ref@ && registry_file_name(registry_ref@) == Some(f@),
            Err(m) => registry_file_name(registry_ref@) is None && m@
                == "Invalid registry reference: missing version"@,
        },
{
    let cs = chars_of(registry_ref);
    let all = cs.as_slice();
    proof {
        lemma_last_index(all@, ':');
    }
    let p = match chars_last_index(all, ':') {
        Some(p) => p,
        None => {
            return Err("Invalid registry reference: missing version".to_owned());
        },
    };
    assert(p == last_index_of(all@, ':'));
    assert(p < all@.len());
    let package_part = sub_chars(all, 0, p);
    let version = sub_chars(all, p + 1, all.len());
    let pp = package_part.as_slice();
    proof {
        lemma_last_index(pp@, '/');
    }
    let start: usize = match chars_last_index(pp, '/') {
        Some(s) => s + 1,
        None => 0,
    };
    let package_name = sub_chars(pp, start, pp.len());
    let mut file = string_of(package_name.as_slice());
    push_str(&mut file, "-");
    let v = string_of(version.as_slice());
    push_str(&mut file, v.as_str());
    push_str(&mut file, ".wasm");
    Ok((registry_ref.to_owned(), file))
}

/// Where a registry reference is downloaded under `output_dir`; an error
/// when the reference has no version.
pub fn registry_download_path(registry_ref: &str, output_dir: &str) -> (r: Result<String, String>)
    ensures
        match r {
            Ok(p) => registry_file_name(registry_ref@) matches Some(f) && p@ == path_join_of(
                output_dir@,
                f,
            ),
            Err(m) => registry_file_name(registry_ref@) is None && m@
                == "Invalid registry reference: missing version"@,
        },
{
    match parse_registry_ref(registry_ref) {
        Ok((_, file)) => Ok(path_join(output_dir, file.as_str())),
        Err(m) => Err(m),
    }
}

/// What to do with the download location of a component.
#[derive(Debug, Clone, Copy, PartialEq, Eq, Structural)]
pub enum CacheAction {
    /// The file is there and the cache may be used: use it
    UseCached,
    /// The file is there but the cache is to be ignored: remove it, then pull
    RemoveThenPull,
    /// The file is not there: pull
    Pull,
}

/// The cache decision: use an existing file unless the cache is ignored, in
/// which case the file is removed and pulled again.
pub fn cache_action(no_cache: bool, exists: bool) -> (r: CacheAction)
    ensures
        r == (if !exists {
            CacheAction::Pull
        } else if no_cache {
            CacheAction::RemoveThenPull
        } else {
            CacheAction::UseCached
        }),
{
    if !exists {
        CacheAction::Pull
    } else if no_cache {
        CacheAction::RemoveThenPull
    } else {
        CacheAction::UseCached
    }
}

// ---------------------------------------------------------------------------
// What to resolve
// ---------------------------------------------------------------------------

/// The registry references of user components that have one, in order.
pub open spec fn repo_refs(comps: Seq<(Seq<char>, crate::ftl_config::ComponentModel)>) -> Seq<
    (Seq<char>, Seq<char>),
>
    decreases comps.len(),
{
    if comps.len() == 0 {
        Seq::empty()
    } else {
        let rest = repo_refs(comps.drop_last());
        match comps.last().1.repo {
            Some(r) => rest.push((comps.last().0, r)),
            None => rest,
        }
    }
}

/// The components to resolve: the gateway and the authorizer when they are
/// registry references (as `mcp-gateway` and `mcp-authorizer`), then every
/// user component that names a repository.
pub open spec fn to_resolve(m: FtlModel) -> Seq<(Seq<char>, Seq<char>)> {
    let g = if registry_ref(m.mcp.gateway) {
        seq![("mcp-gateway"@, m.mcp.gateway)]
    } else {
        Seq::empty()
    };
    let a = if registry_ref(m.mcp.authorizer) {
        seq![("mcp-authorizer"@, m.mcp.authorizer)]
    } else {
        Seq::empty()
    };
    g + a + repo_refs(m.component)
}

/// Every user component with a repository is listed with it, and every
/// listed pair is such a component with its repository.
proof fn lemma_repo_refs(comps: Seq<(Seq<char>, crate::ftl_config::ComponentModel)>)
    ensures
        forall|i: int|
            0 <= i < comps.len() && (#[trigger] comps[i]).1.repo is Some ==> repo_refs(comps).contains(
                (comps[i].0, comps[i].1.repo->0),
            ),
        forall|j: int|
            0 <= j < repo_refs(comps).len() ==> exists|i: int|
                0 <= i < comps.len() && comps[i].0 == (#[trigger] repo_refs(comps)[j]).0
                    && comps[i].1.repo == Some(repo_refs(comps)[j].1),
    decreases comps.len(),
{
    if comps.len() > 0 {
        let init = comps.drop_last();
        lemma_repo_refs(init);
        let rest = repo_refs(init);
        let n = comps.len() - 1;
        assert forall|i: int|
            0 <= i < comps.len() && (#[trigger] comps[i]).1.repo is Some implies repo_refs(comps).contains(
                (comps[i].0, comps[i].1.repo->0),
            ) by {
            if i < n {
                assert(init[i] == comps[i]);
                assert(rest.contains((init[i].0, init[i].1.repo->0)));
                let k = choose|k: int| 0 <= k < rest.len() && rest[k] == (init[i].0, init[i].1.repo->0);
                assert(repo_refs(comps)[k] == rest[k]);
            } else {
                assert(repo_refs(comps)[rest.len() as int] == (comps[i].0, comps[i].1.repo->0));
            }
        }
        assert forall|j: int| 0 <= j < repo_refs(comps).len() implies exists|i: int|
            0 <= i < comps.len() && comps[i].0 == (#[trigger] repo_refs(comps)[j]).0
                && comps[i].1.repo == Some(repo_refs(comps)[j].1) by {
            if j < rest.len() {
                assert(repo_refs(comps)[j] == rest[j]);
                let i = choose|i: int|
                    0 <= i < init.len() && init[i].0 == rest[j].0 && init[i].1.repo == Some(rest[j].1);
                assert(comps[i] == init[i]);
            } else {
                assert(comps[n].0 == repo_refs(comps)[j].0);
            }
        }
    }
}

/// Law: what a configuration needs resolved. The gateway is listed as
/// `mcp-gateway` whenever it is a registry reference (it has a `/` and a
/// `:` and does not end in `.wasm`), the authorizer likewise as
/// `mcp-authorizer`, and every user component that names a repository is
/// listed with it; nothing else is listed.
pub proof fn law_components_to_resolve(m: FtlModel)
    ensures
        m.mcp.gateway.contains('/') && m.mcp.gateway.contains(':') && !has_suffix(m.mcp.gateway, ".wasm"@)
            ==> to_resolve(m).contains(("mcp-gateway"@, m.mcp.gateway)),
        m.mcp.authorizer.contains('/') && m.mcp.authorizer.contains(':') && !has_suffix(
            m.mcp.authorizer,
            ".wasm"@,
        ) ==> to_resolve(m).contains(("mcp-authorizer"@, m.mcp.authorizer)),
        forall|i: int|
            0 <= i < m.component.len() && (#[trigger] m.component[i]).1.repo is Some ==> to_resolve(m).contains(
                (m.component[i].0, m.component[i].1.repo->0),
            ),
        forall|j: int|
            0 <= j < to_resolve(m).len() ==> {
                let p = #[trigger] to_resolve(m)[j];
                ||| p == ("mcp-gateway"@, m.mcp.gateway) && m.mcp.gateway.contains('/') && m.mcp.gateway.contains(':')
                    && !has_suffix(m.mcp.gateway, ".wasm"@)
                ||| p == ("mcp-authorizer"@, m.mcp.authorizer) && m.mcp.authorizer.contains('/')
                    && m.mcp.authorizer.contains(':') && !has_suffix(m.mcp.authorizer, ".wasm"@)
                ||| exists|i: int|
                    0 <= i < m.component.len() && m.component[i].0 == p.0 && m.component[i].1.repo == Some(p.1)
            },
{
    let g = if registry_ref(m.mcp.gateway) {
        seq![("mcp-gateway"@, m.mcp.gateway)]
    } else {
        Seq::empty()
    };
    let a = if registry_ref(m.mcp.authorizer) {
        seq![("mcp-authorizer"@, m.mcp.authorizer)]
    } else {
        Seq::empty()
    };
    let r = repo_refs(m.component);
    let all = to_resolve(m);
    assert(all =~= g + a + r);
    lemma_repo_refs(m.component);
    if registry_ref(m.mcp.gateway) {
        assert(all[0] == ("mcp-gateway"@, m.mcp.gateway));
    }
    if registry_ref(m.mcp.authorizer) {
        assert(all[g.len() as int] == ("mcp-authorizer"@, m.mcp.authorizer));
    }
    assert forall|i: int|
        0 <= i < m.component.len() && (#[trigger] m.component[i]).1.repo is Some implies all.contains(
            (m.component[i].0, m.component[i].1.repo->0),
        ) by {
        assert(r.contains((m.component[i].0, m.component[i].1.repo->0)));
        let k = choose|k: int| 0 <= k < r.len() && r[k] == (m.component[i].0, m.component[i].1.repo->0);
        assert(all[g.len() + a.len() + k] == r[k]);
    }
    assert forall|j: int| 0 <= j < all.len() implies {
        let p = #[trigger] all[j];
        ||| p == ("mcp-gateway"@, m.mcp.gateway) && m.mcp.gateway.contains('/') && m.mcp.gateway.contains(':')
            && !has_suffix(m.mcp.gateway, ".wasm"@)
        ||| p == ("mcp-authorizer"@, m.mcp.authorizer) && m.mcp.authorizer.contains('/')
            && m.mcp.authorizer.contains(':') && !has_suffix(m.mcp.authorizer, ".wasm"@)
        ||| exists|i: int|
            0 <= i < m.component.len() && m.component[i].0 == p.0 && m.component[i].1.repo == Some(p.1)
    } by {
        if j >= g.len() + a.len() {
            let k = j - g.len() - a.len();
            assert(all[j] == r[k]);
        } else if j >= g.len() {
            assert(all[j] == a[j - g.len()]);
        } else {
            assert(all[j] == g[j]);
        }
    }
}

/// The (name, registry reference) pairs a configuration needs resolved.
pub fn components_to_resolve(ftl: &FtlConfig) -> (r: Vec<(String, String)>)
    ensures
        r.deep_view() == to_resolve(ftl@),
{
    let mut out: Vec<(String, String)> = Vec::new();
    if is_registry_ref(ftl.mcp.gateway.as_str()) {
        out.push(("mcp-gateway".to_owned(), ftl.mcp.gateway.clone()));
    }
    if is_registry_ref(ftl.mcp.authorizer.as_str()) {
        out.push(("mcp-authorizer".to_owned(), ftl.mcp.authorizer.clone()));
    }
    let ghost head = out.deep_view();
    let ghost m = ftl@;
    assert(head =~= to_resolve(m).subrange(0, head.len() as int)) by {
        assert(to_resolve(m) =~= head + repo_refs(m.component));
    }
    let mut i: usize = 0;
    while i < ftl.component.len()
        invariant
            i <= ftl.component@.len(),
            m == ftl@,
            out.deep_view() == head + repo_refs(m.component.subrange(0, i as int)),
        decreases ftl.component@.len() - i,
    {
        assert(m.component.subrange(0, i + 1).drop_last() =~= m.component.subrange(0, i as int));
        let c = ftl.component.value_at(i);
        match &c.repo {
            Some(repo) => {
                let name = ftl.component.key_at(i).clone();
                let ghost before = out.deep_view();
                out.push((name, repo.clone()));
                assert(out.deep_view() =~= before.push((m.component[i as int].0, repo@)));
            },
            None => {},
        }
        i = i + 1;
    }
    assert(m.component.subrange(0, m.component.len() as int) =~= m.component);
    out
}

// ---------------------------------------------------------------------------
// Reports
// ---------------------------------------------------------------------------

/// The line announcing what resolution does, for `n` components; none when
/// there is nothing to resolve.
pub open spec fn resolution_notice_text(n: nat, no_cache: bool, all_cached: bool) -> Option<Seq<char>> {
    if n == 0 {
        None
    } else if no_cache {
        if n == 1 {
            Some("Downloading 1 component (ignoring cache)..."@)
        } else {
            Some("Downloading "@ + nat_text(n) + " components in parallel (ignoring cache)..."@)
        }
    } else if all_cached {
        if n == 1 {
            Some("Using cached component..."@)
        } else {
            Some("Using "@ + nat_text(n) + " cached components..."@)
        }
    } else if n == 1 {
        Some("Resolving 1 component..."@)
    } else {
        Some("Resolving "@ + nat_text(n) + " components in parallel..."@)
    }
}

/// The line announcing what resolution does; see [`resolution_notice_text`].
pub fn resolution_notice(n: usize, no_cache: bool, all_cached: bool) -> (r: Option<String>)
    ensures
        r.deep_view() == resolution_notice_text(n as nat, no_cache, all_cached),
{
    if n == 0 {
        return None;
    }
    let count = nat_string(n as u64);
    let text = if no_cache {
        if n == 1 {
            "Downloading 1 component (ignoring cache)...".to_owned()
        } else {
            let mut t = "Downloading ".to_owned();
            push_str(&mut t, count.as_str());
            push_str(&mut t, " components in parallel (ignoring cache)...");
            t
        }
    } else if all_cached {
        if n == 1 {
            "Using cached component...".to_owned()
        } else {
            let mut t = "Using ".to_owned();
            push_str(&mut t, count.as_str());
            push_str(&mut t, " cached components...");
            t
        }
    } else if n == 1 {
        "Resolving 1 component...".to_owned()
    } else {
        let mut t = "Resolving ".to_owned();
        push_str(&mut t, count.as_str());
        push_str(&mut t, " components in parallel...");
        t
    };
    Some(text)
}

/// The outcome of resolving one component, by its view.
pub open spec fn outcome_view(o: (String, Result<String, String>)) -> (Seq<char>, Result<Seq<char>, Seq<char>>) {
    (o.0@, match o.1 {
        Ok(p) => Ok(p@),
        Err(e) => Err(e@),
    })
}

/// The resolved files, by component name, of the components that resolved.
pub open spec fn resolved_files(outcomes: Seq<(Seq<char>, Result<Seq<char>, Seq<char>>)>) -> Seq<
    (Seq<char>, Seq<char>),
>
    decreases outcomes.len(),
{
    if outcomes.len() == 0 {
        Seq::empty()
    } else {
        let rest = resolved_files(outcomes.drop_last());
        match outcomes.last().1 {
            Ok(p) => insert_pair(rest, outcomes.last().0, p),
            Err(_) => rest,
        }
    }
}

/// One line per component that failed to resolve, in order.
pub open spec fn failure_lines(outcomes: Seq<(Seq<char>, Result<Seq<char>, Seq<char>>)>) -> Seq<Seq<char>>
    decreases outcomes.len(),
{
    if outcomes.len() == 0 {
        Seq::empty()
    } else {
        let rest = failure_lines(outcomes.drop_last());
        match outcomes.last().1 {
            Ok(_) => rest,
            Err(e) => rest.push("Failed to resolve "@ + outcomes.last().0 + ": "@ + e),
        }
    }
}

/// The error that reports failed resolutions, one per line.
pub open spec fn resolution_error_text(errors: Seq<Seq<char>>) -> Seq<char> {
    "Failed to resolve components:\n"@ + join(errors, "\n"@)
}

/// Gathers what resolving each component gave: the files by component name
/// when every component resolved, else an error listing every failure.
pub fn collect_resolutions(outcomes: &Vec<(String, Result<String, String>)>) -> (r: Result<
    StrMap<String>,
    String,
>)
    ensures
        ({
            let os = outcomes@.map_values(|o: (String, Result<String, String>)| outcome_view(o));
            match r {
                Ok(m) => failure_lines(os).len() == 0 && m@ == resolved_files(os),
                Err(t) => failure_lines(os).len() > 0 && t@ == resolution_error_text(
                    failure_lines(os),
                ),
            }
        }),
{
    let ghost os = outcomes@.map_values(|o: (String, Result<String, String>)| outcome_view(o));
    let mut files: StrMap<String> = StrMap::new();
    let mut errors: Vec<String> = Vec::new();
    let mut i: usize = 0;
    while i < outcomes.len()
        invariant
            i <= outcomes@.len(),
            os == outcomes@.map_values(|o: (String, Result<String, String>)| outcome_view(o)),
            files@ == resolved_files(os.subrange(0, i as int)),
            errors.deep_view() == failure_lines(os.subrange(0, i as int)),
        decreases outcomes.len() - i,
    {
        assert(os.subrange(0, i + 1).drop_last() =~= os.subrange(0, i as int));
        assert(os[i as int] == outcome_view(outcomes@[i as int]));
        let name = &outcomes[i].0;
        match &outcomes[i].1 {
            Ok(path) => {
                files.insert(name.clone(), path.clone());
            },
            Err(e) => {
                let mut line = "Failed to resolve ".to_owned();
                push_str(&mut line, name.as_str());
                push_str(&mut line, ": ");
                push_str(&mut line, e.as_str());
                let ghost before = errors.deep_view();
                errors.push(line);
                assert(errors.deep_view() =~= before.push(line@));
            },
        }
        i = i + 1;
    }
    assert(os.subrange(0, os.len() as int) =~= os);
    if errors.len() == 0 {
        Ok(files)
    } else {
        let mut t = "Failed to resolve components:\n".to_owned();
        let body = crate::manifest_text::join_strings(&errors, "\n");
        push_str(&mut t, body.as_str());
        Err(t)
    }
}

/// The outcome of pulling every component that `m` needs into `dir`, each
/// to its download path, when every pull succeeds.
pub open spec fn all_pulled(
    m: FtlModel,
    dir: Seq<char>,
    outcomes: Seq<(Seq<char>, Result<Seq<char>, Seq<char>>)>,
) -> bool {
    &&& outcomes.len() == to_resolve(m).len()
    &&& forall|i: int| 0 <= i < outcomes.len() ==> {
        &&& (#[trigger] outcomes[i]).0 == to_resolve(m)[i].0
        &&& registry_file_name(to_resolve(m)[i].1) matches Some(f)
        &&& outcomes[i].1 == Ok::<Seq<char>, Seq<char>>(path_join_of(dir, f))
    }
}

/// Law: when every component resolves and no two share a name (no user
/// component is called `mcp-gateway` or `mcp-authorizer`), the resolved
/// files hold exactly one entry per component that needed resolving, under
/// its name, with the file `<package>-<version>.wasm` in `dir`; and no
/// failure is reported.
pub proof fn law_resolved_files(
    m: FtlModel,
    dir: Seq<char>,
    outcomes: Seq<(Seq<char>, Result<Seq<char>, Seq<char>>)>,
)
    requires
        all_pulled(m, dir, outcomes),
        keys_distinct(to_resolve(m)),
    ensures
        failure_lines(outcomes).len() == 0,
        keys_distinct(resolved_files(outcomes)),
        forall|k: Seq<char>| has_key(resolved_files(outcomes), k) <==> has_key(to_resolve(m), k),
        forall|i: int| 0 <= i < to_resolve(m).len() ==> (registry_file_name(#[trigger] to_resolve(m)[i].1) matches Some(f)
            && lookup(resolved_files(outcomes), to_resolve(m)[i].0) == Some(path_join_of(dir, f))),
{
    lemma_resolved_prefix(m, dir, outcomes, outcomes.len() as int);
    assert(outcomes.subrange(0, outcomes.len() as int) =~= outcomes);
    assert(to_resolve(m).subrange(0, outcomes.len() as int) =~= to_resolve(m));
}

/// The law on the first `n` outcomes.
proof fn lemma_resolved_prefix(
    m: FtlModel,
    dir: Seq<char>,
    outcomes: Seq<(Seq<char>, Result<Seq<char>, Seq<char>>)>,
    n: int,
)
    requires
        all_pulled(m, dir, outcomes),
        keys_distinct(to_resolve(m)),
        0 <= n <= outcomes.len(),
    ensures
        ({
            let os = outcomes.subrange(0, n);
            let ts = to_resolve(m).subrange(0, n);
            &&& failure_lines(os).len() == 0
            &&& keys_distinct(resolved_files(os))
            &&& forall|k: Seq<char>| has_key(resolved_files(os), k) <==> has_key(ts, k)
            &&& forall|i: int| 0 <= i < n ==> (registry_file_name(#[trigger] to_resolve(m)[i].1) matches Some(f)
                && lookup(resolved_files(os), to_resolve(m)[i].0) == Some(path_join_of(dir, f)))
        }),
    decreases n,
{
    let os = outcomes.subrange(0, n);
    let ts = to_resolve(m).subrange(0, n);
    if n == 0 {
        assert forall|k: Seq<char>| has_key(resolved_files(os), k) <==> has_key(ts, k) by {
            assert(os.len() == 0 && ts.len() == 0);
        }
    } else {
        lemma_resolved_prefix(m, dir, outcomes, n - 1);
        let prev = outcomes.subrange(0, n - 1);
        let tprev = to_resolve(m).subrange(0, n - 1);
        assert(os.drop_last() =~= prev);
        assert(os.last() == outcomes[n - 1]);
        let o = outcomes[n - 1];
        let f = registry_file_name(to_resolve(m)[n - 1].1)->0;
        assert(o.1 == Ok::<Seq<char>, Seq<char>>(path_join_of(dir, f)));
        let r = resolved_files(prev);
        assert(resolved_files(os) == insert_pair(r, o.0, path_join_of(dir, f)));
        lemma_insert_pair(r, o.0, path_join_of(dir, f));
        assert forall|k: Seq<char>| has_key(resolved_files(os), k) <==> has_key(ts, k) by {
            if has_key(ts, k) {
                let j = choose|j: int| 0 <= j < ts.len() && ts[j].0 == k;
                if j < n - 1 {
                    assert(tprev[j].0 == k);
                }
            }
            if has_key(tprev, k) {
                let j = choose|j: int| 0 <= j < tprev.len() && tprev[j].0 == k;
                assert(ts[j].0 == k);
            }
            assert(ts[n - 1].0 == o.0);
        }
        assert forall|i: int| 0 <= i < n implies (registry_file_name(#[trigger] to_resolve(m)[i].1) matches Some(g)
            && lookup(resolved_files(os), to_resolve(m)[i].0) == Some(path_join_of(dir, g))) by {
            if i < n - 1 {
                assert(to_resolve(m)[i].0 != to_resolve(m)[n - 1].0);
            }
        }
    }
}

} // verus!
