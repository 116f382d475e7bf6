//! What a deployment sends: the application name and the locally built
//! components of a spin.toml, with the version of each.
use vstd::prelude::*;
use crate::spin_config::views;
use crate::strmap::{StrMap, has_key, lookup, insert_pair};
use crate::documents::{
    get_in, get_value, item_strings, item_strs, json_parsed_of, json_str_field, json_string_field, opt_get,
    parse_json, parse_toml, str_of, toml_parsed_of, value_get, value_str, TomlValue,
};
use base64::Engine;
use crate::text::{
    ascii_lowered, is_ascii_text, has_infix, has_prefix, has_suffix, lowercase_of, path_parent, path_parent_of, path_starts_with,
    path_starts_with_of, str_has_infix, str_has_suffix, to_lowercase,
};

verus! {

/// Deploy command arguments (deploy uses the current directory).
#[derive(Debug, Clone)]
pub struct DeployArgs {}

/// A component to deploy, as read from spin.toml.
#[derive(Debug, Clone, PartialEq)]
pub struct ComponentInfo {
    /// Component name
    pub name: String,
    /// Path of the component's Wasm file
    pub source_path: String,
    /// Component version
    pub version: String,
    /// Allowed outbound hosts
    pub allowed_hosts: Option<Vec<String>>,
}

/// Model of [`ComponentInfo`].
pub struct ComponentInfoModel {
    pub name: Seq<char>,
    pub source_path: Seq<char>,
    pub version: Seq<char>,
    pub allowed_hosts: Option<Seq<Seq<char>>>,
}

impl View for ComponentInfo {
    type V = ComponentInfoModel;

    open spec fn view(&self) -> ComponentInfoModel {
        ComponentInfoModel {
            name: self.name@,
            source_path: self.source_path@,
            version: self.version@,
            allowed_hosts: self.allowed_hosts.deep_view(),
        }
    }
}

/// What a deployment sends.
#[derive(Debug, Clone)]
pub struct DeployConfig {
    /// Application name from spin.toml
    pub app_name: String,
    /// Components to deploy
    pub components: Vec<ComponentInfo>,
}

/// A component entry of spin.toml, as the deploy command reads it.
#[derive(Debug, Clone)]
pub struct ManifestEntry {
    /// `source`, when it is a string (a local path or a reference)
    pub source: Option<String>,
    /// `allowed_outbound_hosts`, when it is an array: its items, each when
    /// it is a string
    pub allowed_outbound_hosts: Option<Vec<Option<String>>>,
}

/// Model of [`ManifestEntry`].
pub struct ManifestEntryModel {
    pub source: Option<Seq<char>>,
    pub allowed_outbound_hosts: Option<Seq<Option<Seq<char>>>>,
}

impl View for ManifestEntry {
    type V = ManifestEntryModel;

    open spec fn view(&self) -> ManifestEntryModel {
        ManifestEntryModel {
            source: self.source.deep_view(),
            allowed_outbound_hosts: self.allowed_outbound_hosts.deep_view(),
        }
    }
}

/// The parts of spin.toml the deploy command reads.
pub struct DeployManifest {
    /// `application.name`, when it is a string
    pub app_name: Option<String>,
    /// The component entries, in the order of the manifest's table
    pub components: StrMap<ManifestEntry>,
}

// ---------------------------------------------------------------------------
// Rules
// ---------------------------------------------------------------------------

/// A source that is deployed: a local `.wasm` file (any letter case) that
/// is not a GHCR reference.
pub open spec fn deployable_source(s: Seq<char>) -> bool {
    !has_infix(s, "ghcr.io"@) && has_suffix(lowercase_of(s), ".wasm"@)
}

/// The string items of a list.
pub open spec fn strings_of(items: Seq<Option<Seq<char>>>) -> Seq<Seq<char>>
    decreases items.len(),
{
    if items.len() == 0 {
        Seq::empty()
    } else {
        let rest = strings_of(items.drop_last());
        match items.last() {
            Some(s) => rest.push(s),
            None => rest,
        }
    }
}

/// The deployable components among `entries`, with the versions found for
/// them in `versions`.
pub open spec fn deploy_components(
    entries: Seq<(Seq<char>, ManifestEntryModel)>,
    versions: Seq<(Seq<char>, Seq<char>)>,
) -> Seq<ComponentInfoModel>
    decreases entries.len(),
{
    if entries.len() == 0 {
        Seq::empty()
    } else {
        let rest = deploy_components(entries.drop_last(), versions);
        let (name, e) = entries.last();
        match e.source {
            Some(s) => if deployable_source(s) {
                rest.push(
                    ComponentInfoModel {
                        name: name,
                        source_path: s,
                        version: lookup(versions, name)->0,
                        allowed_hosts: match e.allowed_outbound_hosts {
                            Some(items) => Some(strings_of(items)),
                            None => None,
                        },
                    },
                )
            } else {
                rest
            },
            None => rest,
        }
    }
}

/// The first deployable component among `entries` that has no version in
/// `versions`.
pub open spec fn missing_version(
    entries: Seq<(Seq<char>, ManifestEntryModel)>,
    versions: Seq<(Seq<char>, Seq<char>)>,
) -> Option<Seq<char>>
    decreases entries.len(),
{
    if entries.len() == 0 {
        None
    } else {
        match missing_version(entries.drop_last(), versions) {
            Some(k) => Some(k),
            None => {
                let (name, e) = entries.last();
                if e.source is Some && deployable_source(e.source->0) && !has_key(versions, name) {
                    Some(name)
                } else {
                    None
                }
            },
        }
    }
}

/// Once a prefix of the entries lacks a version, so do all the entries.
proof fn lemma_missing_prefix(
    entries: Seq<(Seq<char>, ManifestEntryModel)>,
    versions: Seq<(Seq<char>, Seq<char>)>,
    n: int,
)
    requires
        0 <= n <= entries.len(),
        missing_version(entries.subrange(0, n), versions) is Some,
    ensures
        missing_version(entries, versions) == missing_version(entries.subrange(0, n), versions),
    decreases entries.len() - n,
{
    if n < entries.len() {
        let shorter = entries.drop_last();
        assert(shorter.subrange(0, n) =~= entries.subrange(0, n));
        lemma_missing_prefix(shorter, versions, n);
    } else {
        assert(entries.subrange(0, n) =~= entries);
    }
}

/// The directory holding a component's package files: the component name
/// when the source path lies under it, else the path's parent, else `.`.
pub open spec fn component_dir_of(name: Seq<char>, source: Seq<char>) -> Seq<char> {
    if path_starts_with_of(source, name) {
        name
    } else {
        match path_parent_of(source) {
            Some(p) => p,
            None => "."@,
        }
    }
}

// ---------------------------------------------------------------------------
// Functions
// ---------------------------------------------------------------------------

/// Whether a component source is deployed; see [`deployable_source`].
pub fn is_deployable_source(s: &str) -> (r: bool)
    ensures
        r == deployable_source(s@),
        is_ascii_text(s@) ==> lowercase_of(s@) == ascii_lowered(s@),
{
    let lower = to_lowercase(s);
    !str_has_infix(s, "ghcr.io") && str_has_suffix(lower.as_str(), ".wasm")
}

/// The directory holding a component's `Cargo.toml` or `package.json`.
pub fn component_dir(component_name: &str, source_path: &str) -> (r: String)
    ensures
        r@ == component_dir_of(component_name@, source_path@),
{
    if path_starts_with(source_path, component_name) {
        component_name.to_owned()
    } else {
        match path_parent(source_path) {
            Some(p) => p,
            None => ".".to_owned(),
        }
    }
}

/// What a component's `Cargo.toml` or `package.json` gave.
#[derive(Debug, Clone)]
pub enum VersionFile {
    /// The file is not there
    Missing,
    /// The file could not be read or parsed; the error
    Failed(String),
    /// The file was parsed: its version (`package.version` of `Cargo.toml`,
    /// `version` of `package.json`) when that is a string
    Read(Option<String>),
}

/// The version of a component: the one its `Cargo.toml` package names,
/// else the one of its `package.json`, else `0.1.0`; a file that is there
/// but cannot be read or parsed is an error, in that order.
pub open spec fn component_version(cargo: VersionFile, package: VersionFile) -> Result<Seq<char>, Seq<char>> {
    match cargo {
        VersionFile::Failed(e) => Err(e@),
        VersionFile::Read(Some(v)) => Ok(v@),
        _ => match package {
            VersionFile::Failed(e) => Err(e@),
            VersionFile::Read(Some(v)) => Ok(v@),
            _ => Ok("0.1.0"@),
        },
    }
}

/// The version of a component from what its manifests gave; see
/// [`component_version`].
pub fn extract_component_version(cargo: &VersionFile, package: &VersionFile) -> (r: Result<String, String>)
    ensures
        match r {
            Ok(v) => component_version(*cargo, *package) == Ok::<Seq<char>, Seq<char>>(v@),
            Err(e) => component_version(*cargo, *package) == Err::<Seq<char>, Seq<char>>(e@),
        },
{
    match cargo {
        VersionFile::Failed(e) => return Err(e.clone()),
        VersionFile::Read(Some(v)) => return Ok(v.clone()),
        _ => {},
    }
    match package {
        VersionFile::Failed(e) => Err(e.clone()),
        VersionFile::Read(Some(v)) => Ok(v.clone()),
        _ => Ok("0.1.0".to_owned()),
    }
}

/// The string items of a list, in order.
fn string_items(items: &Vec<Option<String>>) -> (r: Vec<String>)
    ensures
        r.deep_view() == strings_of(items.deep_view()),
{
    let ghost iv = items.deep_view();
    let mut out: Vec<String> = Vec::new();
    let mut i: usize = 0;
    while i < items.len()
        invariant
            i <= items@.len(),
            iv == items.deep_view(),
            out.deep_view() == strings_of(iv.subrange(0, i as int)),
        decreases items.len() - i,
    {
        assert(iv.subrange(0, i + 1).drop_last() =~= iv.subrange(0, i as int));
        match &items[i] {
            Some(s) => {
                let ghost before = out.deep_view();
                out.push(s.clone());
                assert(out.deep_view() =~= before.push(s@));
            },
            None => {},
        }
        i = i + 1;
    }
    assert(iv.subrange(0, iv.len() as int) =~= iv);
    out
}

/// The names and source paths of the components a deployment sends, in
/// manifest order.
pub fn deployable_components(manifest: &DeployManifest) -> (r: Vec<(String, String)>)
    ensures
        r.deep_view() == deploy_components(manifest.components@, Seq::empty()).map_values(
            |c: ComponentInfoModel| (c.name, c.source_path),
        ),
{
    let ghost es = manifest.components@;
    let mut out: Vec<(String, String)> = Vec::new();
    let mut i: usize = 0;
    while i < manifest.components.len()
        invariant
            i <= es.len(),
            es == manifest.components@,
            out.deep_view() == deploy_components(es.subrange(0, i as int), Seq::empty()).map_values(
                |c: ComponentInfoModel| (c.name, c.source_path),
            ),
        decreases es.len() - i,
    {
        assert(es.subrange(0, i + 1).drop_last() =~= es.subrange(0, i as int));
        let name = manifest.components.key_at(i);
        let e = manifest.components.value_at(i);
        match &e.source {
            Some(s) => {
                if is_deployable_source(s.as_str()) {
                    let ghost before = out.deep_view();
                    out.push((name.clone(), s.clone()));
                    assert(out.deep_view() =~= before.push((name@, s@)));
                }
            },
            None => {},
        }
        i = i + 1;
    }
    assert(es.subrange(0, es.len() as int) =~= es);
    out
}

/// What a deployment sends: the application name and the deployable
/// components, each with its version from `versions`; an error when the
/// manifest names no application, or when a deployable component has no
/// version in `versions`.
pub fn parse_deploy_config(manifest: &DeployManifest, versions: &StrMap<String>) -> (r: Result<
    DeployConfig,
    String,
>)
    ensures
        match manifest.app_name {
            None => r matches Err(m) && m@ == "No application name found in spin.toml"@,
            Some(n) => match missing_version(manifest.components@, versions@) {
                Some(k) => r matches Err(m) && m@ == "No version found for component "@ + k,
                None => r matches Ok(c) && c.app_name@ == n@ && views(c.components@)
                    == deploy_components(manifest.components@, versions@),
            },
        },
{
    let app_name = match &manifest.app_name {
        Some(n) => n.clone(),
        None => {
            return Err("No application name found in spin.toml".to_owned());
        },
    };
    let ghost es = manifest.components@;
    let mut components: Vec<ComponentInfo> = Vec::new();
    let mut i: usize = 0;
    while i < manifest.components.len()
        invariant
            i <= es.len(),
            es == manifest.components@,
            manifest.app_name is Some,
            missing_version(es.subrange(0, i as int), versions@) is None,
            views(components@) == deploy_components(es.subrange(0, i as int), versions@),
        decreases es.len() - i,
    {
        assert(es.subrange(0, i + 1).drop_last() =~= es.subrange(0, i as int));
        let name = manifest.components.key_at(i);
        let e = manifest.components.value_at(i);
        match &e.source {
            Some(s) => {
                if is_deployable_source(s.as_str()) {
                    assert(es[i as int].1.source == Some(s@));
                    proof {
                        crate::strmap::lemma_key_index(versions@, name@);
                    }
                    let version = match versions.get(name.as_str()) {
                        Some(v) => v.clone(),
                        None => {
                            let mut m = "No version found for component ".to_owned();
                            crate::text::push_str(&mut m, name.as_str());
                            proof {
                                assert(missing_version(es.subrange(0, i + 1), versions@) == Some(name@));
                                lemma_missing_prefix(es, versions@, i + 1);
                            }
                            return Err(m);
                        },
                    };
                    let allowed_hosts = match &e.allowed_outbound_hosts {
                        Some(items) => Some(string_items(items)),
                        None => None,
                    };
                    let info = ComponentInfo {
                        name: name.clone(),
                        source_path: s.clone(),
                        version,
                        allowed_hosts,
                    };
                    let ghost before = views(components@);
                    components.push(info);
                    assert(views(components@) =~= before.push(info@));
                }
            },
            None => {},
        }
        i = i + 1;
    }
    assert(es.subrange(0, es.len() as int) =~= es);
    Ok(DeployConfig { app_name, components })
}

// ---------------------------------------------------------------------------
// Pushing components
// ---------------------------------------------------------------------------

/// A tool of a deployment request: a pushed component.
#[derive(Debug, Clone, PartialEq)]
pub struct DeployedTool {
    /// Tool name (the component name)
    pub name: String,
    /// Image tag (the component version)
    pub tag: String,
    /// Allowed outbound hosts (none when the component names none)
    pub allowed_hosts: Vec<String>,
}

/// Model of [`DeployedTool`].
pub struct DeployedToolModel {
    pub name: Seq<char>,
    pub tag: Seq<char>,
    pub allowed_hosts: Seq<Seq<char>>,
}

impl View for DeployedTool {
    type V = DeployedToolModel;

    open spec fn view(&self) -> DeployedToolModel {
        DeployedToolModel {
            name: self.name@,
            tag: self.tag@,
            allowed_hosts: self.allowed_hosts.deep_view(),
        }
    }
}

/// The arguments of the `wkg` call that pushes `component` to the
/// repository at `repository_uri`: `oci push {uri}:{version} {source}`.
pub fn push_arguments(component: &ComponentInfo, repository_uri: &str) -> (r: Vec<String>)
    ensures
        r.deep_view() == seq![
            "oci"@,
            "push"@,
            repository_uri@ + ":"@ + component.version@,
            component.source_path@,
        ],
{
    let mut tag = repository_uri.to_owned();
    crate::text::push_str(&mut tag, ":");
    crate::text::push_str(&mut tag, component.version.as_str());
    let mut out: Vec<String> = Vec::new();
    out.push("oci".to_owned());
    out.push("push".to_owned());
    out.push(tag);
    out.push(component.source_path.clone());
    assert(out.deep_view() =~= seq![
        "oci"@,
        "push"@,
        repository_uri@ + ":"@ + component.version@,
        component.source_path@,
    ]);
    out
}

/// The tool a pushed component becomes.
pub open spec fn tool_of(c: ComponentInfoModel) -> DeployedToolModel {
    DeployedToolModel {
        name: c.name,
        tag: c.version,
        allowed_hosts: match c.allowed_hosts {
            Some(h) => h,
            None => Seq::empty(),
        },
    }
}

/// What pushing `component` gave: the deployed tool when the push
/// succeeded, else the error `Failed to push {name}: {stderr}`.
pub fn push_result(component: &ComponentInfo, success: bool, stderr: &str) -> (r: Result<
    DeployedTool,
    String,
>)
    ensures
        success ==> (r matches Ok(t) && t@ == tool_of(component@)),
        !success ==> (r matches Err(m) && m@ == "Failed to push "@ + component.name@ + ": "@ + stderr@),
{
    if success {
        let hosts = match &component.allowed_hosts {
            Some(h) => crate::ftl_config::copy_strings(h),
            None => {
                let e: Vec<String> = Vec::new();
                assert(e.deep_view() =~= Seq::<Seq<char>>::empty());
                e
            },
        };
        Ok(DeployedTool { name: component.name.clone(), tag: component.version.clone(), allowed_hosts: hosts })
    } else {
        let mut m = "Failed to push ".to_owned();
        crate::text::push_str(&mut m, component.name.as_str());
        crate::text::push_str(&mut m, ": ");
        crate::text::push_str(&mut m, stderr);
        Err(m)
    }
}

/// The view of one push result.
pub open spec fn push_result_view(r: Result<DeployedTool, String>) -> Result<DeployedToolModel, Seq<char>> {
    match r {
        Ok(t) => Ok(t@),
        Err(e) => Err(e@),
    }
}

/// The outcome of pushing all components: the tools in the order their
/// pushes finished, or the first error among them.
pub open spec fn push_outcome(results: Seq<Result<DeployedToolModel, Seq<char>>>) -> Result<
    Seq<DeployedToolModel>,
    Seq<char>,
>
    decreases results.len(),
{
    if results.len() == 0 {
        Ok(Seq::empty())
    } else {
        match push_outcome(results.drop_last()) {
            Err(e) => Err(e),
            Ok(tools) => match results.last() {
                Ok(t) => Ok(tools.push(t)),
                Err(e) => Err(e),
            },
        }
    }
}

/// Gathers the push results in the order the pushes finished; see
/// [`push_outcome`].
pub fn gather_pushes(results: Vec<Result<DeployedTool, String>>) -> (r: Result<Vec<DeployedTool>, String>)
    ensures
        match push_outcome(results@.map_values(|x: Result<DeployedTool, String>| push_result_view(x))) {
            Ok(tools) => r matches Ok(v) && views(v@) == tools,
            Err(e) => r matches Err(m) && m@ == e,
        },
{
    let ghost rs = results@.map_values(|x: Result<DeployedTool, String>| push_result_view(x));
    let mut tools: Vec<DeployedTool> = Vec::new();
    let mut first: Option<String> = None;
    let mut idx: usize = 0;
    while idx < results.len()
        invariant
            idx <= results@.len(),
            rs == results@.map_values(|x: Result<DeployedTool, String>| push_result_view(x)),
            match push_outcome(rs.subrange(0, idx as int)) {
                Ok(ts) => first is None && views(tools@) == ts,
                Err(e) => first matches Some(m) && m@ == e,
            },
        decreases results.len() - idx,
    {
        assert(rs.subrange(0, idx + 1).drop_last() =~= rs.subrange(0, idx as int));
        assert(rs[idx as int] == push_result_view(results@[idx as int]));
        if first.is_none() {
            match &results[idx] {
                Ok(t) => {
                    let copy = DeployedTool {
                        name: t.name.clone(),
                        tag: t.tag.clone(),
                        allowed_hosts: crate::ftl_config::copy_strings(&t.allowed_hosts),
                    };
                    let ghost before = views(tools@);
                    tools.push(copy);
                    assert(views(tools@) =~= before.push(copy@));
                },
                Err(e) => {
                    first = Some(e.clone());
                },
            }
        }
        idx = idx + 1;
    }
    assert(rs.subrange(0, rs.len() as int) =~= rs);
    match first {
        Some(e) => Err(e),
        None => Ok(tools),
    }
}

/// The pushes end well exactly when every push did, and then the tools are
/// the pushed ones, in order.
pub proof fn law_push_outcome_ok_iff_all(results: Seq<Result<DeployedToolModel, Seq<char>>>)
    ensures
        push_outcome(results) is Ok <==> forall|i: int| 0 <= i < results.len() ==> (#[trigger] results[i]) is Ok,
        push_outcome(results) matches Ok(tools) ==> tools.len() == results.len() && forall|i: int|
            0 <= i < results.len() ==> results[i] == Ok::<DeployedToolModel, Seq<char>>(#[trigger] tools[i]),
    decreases results.len(),
{
    if results.len() > 0 {
        let rest = results.drop_last();
        law_push_outcome_ok_iff_all(rest);
        assert forall|i: int| 0 <= i < rest.len() implies rest[i] == results[i] by {}
        if push_outcome(results) is Ok {
            assert forall|i: int| 0 <= i < results.len() implies (#[trigger] results[i]) is Ok by {
                if i < rest.len() {
                    assert(rest[i] == results[i]);
                }
            }
        }
        if forall|i: int| 0 <= i < results.len() ==> (#[trigger] results[i]) is Ok {
            assert forall|i: int| 0 <= i < rest.len() implies (#[trigger] rest[i]) is Ok by {
                assert(results[i] is Ok);
            }
            assert(results[results.len() - 1] is Ok);
        }
    }
}

/// The outcome of looking for `wkg` before any push: the install hint when
/// it is not there.
pub fn wkg_check(found: Result<(), String>) -> (r: Result<(), String>)
    ensures
        match found {
            Ok(()) => r is Ok,
            Err(_) => r matches Err(m)
                && m@ == "wkg not found. Install from: https://github.com/bytecodealliance/wasm-pkg-tools"@,
        },
{
    match found {
        Ok(()) => Ok(()),
        Err(_) => Err("wkg not found. Install from: https://github.com/bytecodealliance/wasm-pkg-tools".to_owned()),
    }
}

/// The outcome of creating a component's repository: its URI, or the
/// failure as the push reports it.
pub fn repository_result(created: Result<String, String>) -> (r: Result<String, String>)
    ensures
        match created {
            Ok(uri) => r matches Ok(u) && u@ == uri@,
            Err(e) => r matches Err(m) && m@ == "Failed to create repository: "@ + e@,
        },
{
    match created {
        Ok(uri) => Ok(uri),
        Err(e) => {
            let mut m = "Failed to create repository: ".to_owned();
            crate::text::push_str(&mut m, e.as_str());
            Err(m)
        },
    }
}

// ---------------------------------------------------------------------------
// Following a deployment
// ---------------------------------------------------------------------------

/// The state of a deployment, as the service reports it.
#[derive(Debug, Clone, Copy, PartialEq, Eq, Structural)]
pub enum DeploymentState {
    /// Deployed
    Deployed,
    /// Failed
    Failed,
    /// Cancelled
    Cancelled,
    /// Any other state: still in progress
    InProgress,
}

/// A stage of a deployment.
#[derive(Debug, Clone, Copy, PartialEq, Eq, Structural)]
pub enum StageKind {
    /// Building the container image
    ImageBuild,
    /// Uploading to the platform
    PlatformUpload,
    /// Deploying the application
    PlatformDeploy,
    /// Validating the deployment
    Validation,
}

/// A stage and whether it is completed.
#[derive(Debug, Clone, Copy, PartialEq, Eq, Structural)]
pub struct Stage {
    /// The stage
    pub stage: StageKind,
    /// Whether it is completed
    pub completed: bool,
}

/// What the service reported of a deployment.
#[derive(Debug, Clone)]
pub struct DeploymentSnapshot {
    /// Its state
    pub state: DeploymentState,
    /// Its state as the service names it
    pub status_text: String,
    /// Its stages, in order
    pub stages: Vec<Stage>,
    /// The error the service gives, if any
    pub error: Option<String>,
}

/// The message for a stage.
pub open spec fn stage_message(k: StageKind) -> Seq<char> {
    match k {
        StageKind::ImageBuild => "Building container image..."@,
        StageKind::PlatformUpload => "Uploading to platform..."@,
        StageKind::PlatformDeploy => "Deploying application..."@,
        StageKind::Validation => "Validating deployment..."@,
    }
}

/// The index of the first stage that is not completed, or the last index
/// when every stage is.
pub open spec fn current_stage_index(stages: Seq<Stage>) -> int {
    if exists|i: int| 0 <= i < stages.len() && !stages[i].completed {
        choose|i: int|
            0 <= i < stages.len() && !stages[i].completed && forall|j: int|
                0 <= j < i ==> stages[j].completed
    } else {
        stages.len() - 1
    }
}

/// The progress line for a snapshot: the current stage's message, or the
/// state's name when there are no stages.
pub open spec fn progress_text(status_text: Seq<char>, stages: Seq<Stage>) -> Seq<char> {
    if stages.len() == 0 {
        "Status: "@ + status_text
    } else {
        stage_message(stages[current_stage_index(stages)].stage)
    }
}

/// The progress line for a snapshot; see [`progress_text`].
pub fn progress_message(s: &DeploymentSnapshot) -> (r: String)
    ensures
        r@ == progress_text(s.status_text@, s.stages@),
{
    if s.stages.len() == 0 {
        let mut m = "Status: ".to_owned();
        crate::text::push_str(&mut m, s.status_text.as_str());
        return m;
    }
    let mut i: usize = 0;
    while i < s.stages.len() && s.stages[i].completed
        invariant
            i <= s.stages@.len(),
            forall|j: int| 0 <= j < i ==> s.stages@[j].completed,
        decreases s.stages.len() - i,
    {
        i = i + 1;
    }
    let k = if i < s.stages.len() {
        proof {
            let ghost c = current_stage_index(s.stages@);
            assert(c == i) by {
                assert(!s.stages@[i as int].completed);
                if c < i {
                    assert(s.stages@[c].completed);
                } else if c > i {
                }
            }
        }
        s.stages[i].stage
    } else {
        s.stages[s.stages.len() - 1].stage
    };
    match k {
        StageKind::ImageBuild => "Building container image...".to_owned(),
        StageKind::PlatformUpload => "Uploading to platform...".to_owned(),
        StageKind::PlatformDeploy => "Deploying application...".to_owned(),
        StageKind::Validation => "Validating deployment...".to_owned(),
    }
}

/// How many status requests are made before giving up (five minutes at one
/// request every five seconds).
pub const MAX_STATUS_ATTEMPTS: u32 = 60;

/// What to do after a status request.
#[derive(Debug, Clone, PartialEq)]
pub enum PollStep {
    /// The deployment is done
    Deployed,
    /// Stop with this error
    Fail(String),
    /// Wait, then ask again
    Wait,
}

/// The error once `attempts` requests have been made without an outcome.
pub fn poll_timeout(attempts: u32) -> (r: Option<String>)
    ensures
        attempts >= 60 ==> (r matches Some(m) && m@ == "Deployment timeout after 5 minutes"@),
        attempts < 60 ==> r is None,
{
    if attempts >= MAX_STATUS_ATTEMPTS {
        Some("Deployment timeout after 5 minutes".to_owned())
    } else {
        None
    }
}

/// What a status answer means: done when deployed; an error when the
/// request failed or the deployment failed or was cancelled (with the
/// service's error, or `Deployment failed`); otherwise wait.
pub fn poll_step(fetched: &Result<DeploymentSnapshot, String>) -> (r: PollStep)
    ensures
        match fetched {
            Err(e) => r matches PollStep::Fail(m) && m@ == "Failed to get deployment status: "@ + e@,
            Ok(s) => match s.state {
                DeploymentState::Deployed => r matches PollStep::Deployed,
                DeploymentState::Failed | DeploymentState::Cancelled => r matches PollStep::Fail(m)
                    && m@ == "Deployment failed: "@ + match s.error.deep_view() {
                    Some(x) => x,
                    None => "Deployment failed"@,
                },
                DeploymentState::InProgress => r matches PollStep::Wait,
            },
        },
{
    match fetched {
        Err(e) => {
            let mut m = "Failed to get deployment status: ".to_owned();
            crate::text::push_str(&mut m, e.as_str());
            PollStep::Fail(m)
        },
        Ok(s) => match s.state {
            DeploymentState::Deployed => PollStep::Deployed,
            DeploymentState::Failed | DeploymentState::Cancelled => {
                let mut m = "Deployment failed: ".to_owned();
                match &s.error {
                    Some(x) => crate::text::push_str(&mut m, x.as_str()),
                    None => crate::text::push_str(&mut m, "Deployment failed"),
                }
                PollStep::Fail(m)
            },
            DeploymentState::InProgress => PollStep::Wait,
        },
    }
}

/// The error for credentials that could not be had: an expired token, or
/// no login at all.
pub fn credentials_error(error: &str) -> (r: String)
    ensures
        crate::text::has_infix(error@, "expired"@) ==> r@
            == "Authentication token has expired. Please run 'ftl login' to re-authenticate."@,
        !crate::text::has_infix(error@, "expired"@) ==> r@
            == "Not logged in to FTL. Run 'ftl login' first."@,
{
    if str_has_infix(error, "expired") {
        "Authentication token has expired. Please run 'ftl login' to re-authenticate.".to_owned()
    } else {
        "Not logged in to FTL. Run 'ftl login' first.".to_owned()
    }
}

// ---------------------------------------------------------------------------
// Registry login
// ---------------------------------------------------------------------------

/// What `base64::engine::general_purpose::STANDARD.decode` gives for the
/// text `s`: the bytes, or `None` when it refuses the text.
pub uninterp spec fn base64_decoded_of(s: Seq<char>) -> Option<Seq<u8>>;

/// What `String::from_utf8` gives for the bytes `b`: their text, or `None`
/// when they are not UTF-8.
pub uninterp spec fn utf8_text_of(b: Seq<u8>) -> Option<Seq<char>>;

/// Calls the standard base64 engine's `decode`; the result is named
/// `base64_decoded_of` (the decode error is dropped).
#[verifier::external_body]
fn decode_base64(s: &str) -> (r: Option<Vec<u8>>)
    ensures
        match r {
            Some(v) => base64_decoded_of(s@) == Some(v@),
            None => base64_decoded_of(s@) is None,
        },
{
    match base64::engine::general_purpose::STANDARD.decode(s) {
        Ok(v) => Some(v),
        Err(_) => None,
    }
}

/// Calls `String::from_utf8`; the result is named `utf8_text_of` (the
/// error is dropped).
#[verifier::external_body]
fn utf8_string(b: Vec<u8>) -> (r: Option<String>)
    ensures
        match r {
            Some(t) => utf8_text_of(b@) == Some(t@),
            None => utf8_text_of(b@) is None,
        },
{
    match String::from_utf8(b) {
        Ok(t) => Some(t),
        Err(_) => None,
    }
}

/// The password in an ECR authorization token: the token is base64 for
/// `AWS:<password>`.
pub open spec fn ecr_password_of(token: Seq<char>) -> Result<Seq<char>, Seq<char>> {
    match base64_decoded_of(token) {
        None => Err("Failed to decode ECR authorization token"@),
        Some(bytes) => match utf8_text_of(bytes) {
            None => Err("Invalid UTF-8 in authorization token"@),
            Some(t) => if has_prefix(t, "AWS:"@) {
                Ok(t.subrange(4, t.len() as int))
            } else {
                Err("Invalid ECR token format"@)
            },
        },
    }
}

/// The password in an ECR authorization token; see [`ecr_password_of`].
pub fn ecr_password(token: &str) -> (r: Result<String, String>)
    ensures
        match r {
            Ok(p) => ecr_password_of(token@) == Ok::<Seq<char>, Seq<char>>(p@),
            Err(e) => ecr_password_of(token@) == Err::<Seq<char>, Seq<char>>(e@),
        },
{
    let bytes = match decode_base64(token) {
        Some(b) => b,
        None => return Err("Failed to decode ECR authorization token".to_owned()),
    };
    let text = match utf8_string(bytes) {
        Some(t) => t,
        None => return Err("Invalid UTF-8 in authorization token".to_owned()),
    };
    let cs = crate::text::chars_of(text.as_str());
    if crate::text::str_has_prefix(text.as_str(), "AWS:") {
        proof {
            reveal_strlit("AWS:");
        }
        Ok(crate::text::string_of(crate::text::sub_chars(cs.as_slice(), 4, cs.len()).as_slice()))
    } else {
        Err("Invalid ECR token format".to_owned())
    }
}

/// The arguments of `docker` that log in to the registry at
/// `registry_uri`, the password coming on standard input.
pub fn docker_login_arguments(registry_uri: &str) -> (r: Vec<String>)
    ensures
        r.deep_view() == seq!["login"@, "--username"@, "AWS"@, "--password-stdin"@, registry_uri@],
{
    let mut out: Vec<String> = Vec::new();
    out.push("login".to_owned());
    out.push("--username".to_owned());
    out.push("AWS".to_owned());
    out.push("--password-stdin".to_owned());
    out.push(registry_uri.to_owned());
    assert(out.deep_view() =~= seq!["login"@, "--username"@, "AWS"@, "--password-stdin"@, registry_uri@]);
    out
}

// ---------------------------------------------------------------------------
// The deployment as a whole
// ---------------------------------------------------------------------------

/// A deployment sends at least one component.
pub fn check_components(config: &DeployConfig) -> (r: Result<(), String>)
    ensures
        config.components@.len() == 0 <==> r is Err,
        r matches Err(m) ==> m@ == "No user components found in spin.toml"@,
{
    if config.components.len() == 0 {
        Err("No user components found in spin.toml".to_owned())
    } else {
        Ok(())
    }
}

/// The line that announces the pushes.
pub fn pushing_line(n: usize) -> (r: String)
    ensures
        r@ == "→ Pushing "@ + crate::manifest_text::nat_text(n as nat) + " components in parallel"@,
{
    let mut t = "→ Pushing ".to_owned();
    crate::text::push_str(&mut t, crate::manifest_text::nat_string(n as u64).as_str());
    crate::text::push_str(&mut t, " components in parallel");
    t
}

/// The lines shown once the deployment is done: success, and the MCP URL
/// when the service gives one.
pub fn deployment_success_lines(deployment_url: &Option<String>) -> (r: Vec<String>)
    ensures
        r.deep_view() == seq![""@, "✓ Deployment successful!"@] + match deployment_url {
            Some(u) => seq![""@, "  MCP URL: "@ + u@, ""@],
            None => Seq::empty(),
        },
{
    let mut out: Vec<String> = Vec::new();
    out.push("".to_owned());
    out.push("✓ Deployment successful!".to_owned());
    match deployment_url {
        Some(u) => {
            out.push("".to_owned());
            let mut l = "  MCP URL: ".to_owned();
            crate::text::push_str(&mut l, u.as_str());
            out.push(l);
            out.push("".to_owned());
        },
        None => {},
    }
    assert(out.deep_view() =~= seq![""@, "✓ Deployment successful!"@] + match deployment_url {
        Some(u) => seq![""@, "  MCP URL: "@ + u@, ""@],
        None => Seq::<Seq<char>>::empty(),
    });
    out
}

// ---------------------------------------------------------------------------
// Reading the files
// ---------------------------------------------------------------------------

/// `allowed_outbound_hosts`, when it is an array: its items, each when it
/// is a string.
pub open spec fn hosts_of(v: Option<TomlValue>) -> Option<Seq<Option<Seq<char>>>> {
    match v {
        Some(TomlValue::Array(items)) => Some(item_strs(items@)),
        _ => None,
    }
}

/// A component table as the deploy command reads it.
pub open spec fn entry_of(c: TomlValue) -> ManifestEntryModel {
    ManifestEntryModel {
        source: value_str(value_get(c, "source"@)),
        allowed_outbound_hosts: hosts_of(value_get(c, "allowed_outbound_hosts"@)),
    }
}

/// The component entries of a `[component]` table, in the table's order.
pub open spec fn manifest_entries(entries: Seq<(String, TomlValue)>) -> Seq<(Seq<char>, ManifestEntryModel)>
    decreases entries.len(),
{
    if entries.len() == 0 {
        Seq::empty()
    } else {
        insert_pair(manifest_entries(entries.drop_last()), entries.last().0@, entry_of(entries.last().1))
    }
}

/// The component entries of a spin.toml document (none when `component`
/// is not a table).
pub open spec fn component_entries(doc: TomlValue) -> Seq<(Seq<char>, ManifestEntryModel)> {
    match value_get(doc, "component"@) {
        Some(TomlValue::Table(entries)) => manifest_entries(entries@),
        _ => Seq::empty(),
    }
}

/// The parts of a spin.toml the deploy command reads, from its text; an
/// error when the text is not TOML.
pub fn deploy_manifest(content: &str) -> (r: Result<DeployManifest, String>)
    ensures
        match toml_parsed_of(content@) {
            Err(_) => r matches Err(m) && m@ == "Failed to parse spin.toml"@,
            Ok(doc) => r matches Ok(m) && m.app_name.deep_view() == value_str(
                opt_get(value_get(doc, "application"@), "name"@),
            ) && m.components@ == component_entries(doc),
        },
{
    let doc = match parse_toml(content) {
        Ok(d) => d,
        Err(_) => {
            return Err("Failed to parse spin.toml".to_owned());
        },
    };
    let app_name = str_of(get_in(get_value(&doc, "application"), "name"));
    let mut components: StrMap<ManifestEntry> = StrMap::new();
    match get_value(&doc, "component") {
        Some(TomlValue::Table(entries)) => {
            let ghost es = entries@;
            let mut i: usize = 0;
            while i < entries.len()
                invariant
                    i <= es.len(),
                    es == entries@,
                    components@ == manifest_entries(es.subrange(0, i as int)),
                decreases es.len() - i,
            {
                assert(es.subrange(0, i + 1).drop_last() =~= es.subrange(0, i as int));
                let c = &entries[i].1;
                let source = str_of(get_value(c, "source"));
                let allowed_outbound_hosts = match get_value(c, "allowed_outbound_hosts") {
                    Some(TomlValue::Array(items)) => Some(item_strings(items)),
                    _ => None,
                };
                let entry = ManifestEntry { source, allowed_outbound_hosts };
                assert(entry@ == entry_of(es[i as int].1));
                components.insert(entries[i].0.clone(), entry);
                i = i + 1;
            }
            assert(es.subrange(0, es.len() as int) =~= es);
        },
        _ => {},
    }
    Ok(DeployManifest { app_name, components })
}

/// `package.version` of a component's `Cargo.toml`, from its text, when it
/// is a string; the parser's error when the text is not TOML.
pub fn cargo_package_version(content: &str) -> (r: Result<Option<String>, String>)
    ensures
        match toml_parsed_of(content@) {
            Err(e) => r matches Err(m) && m@ == e,
            Ok(doc) => r matches Ok(v) && v.deep_view() == value_str(
                opt_get(value_get(doc, "package"@), "version"@),
            ),
        },
{
    match parse_toml(content) {
        Ok(doc) => Ok(str_of(get_in(get_value(&doc, "package"), "version"))),
        Err(e) => Err(e),
    }
}

/// `version` of a component's `package.json`, from its text, when it is a
/// string; the parser's error when the text is not JSON.
pub fn package_version(content: &str) -> (r: Result<Option<String>, String>)
    ensures
        match json_parsed_of(content@) {
            Err(e) => r matches Err(m) && m@ == e,
            Ok(doc) => r matches Ok(v) && v.deep_view() == json_str_field(doc, "version"@),
        },
{
    match parse_json(content) {
        Ok(doc) => Ok(json_string_field(&doc, "version")),
        Err(e) => Err(e),
    }
}

} // verus!
