//! The ftl.toml data model: project metadata, optional OAuth settings, user
//! components, MCP system components and application variables, with the
//! validation rules that a configuration must meet.
use vstd::prelude::*;
use crate::strmap::{StrMap, keys_distinct, has_key, lemma_key_index};
use crate::text::{alphanumeric_char, chars_of, is_alphanumeric, is_ascii_alpha, is_ascii_alnum, ascii_alpha, ascii_alnum};


verus! {

// ---------------------------------------------------------------------------
// Models
// ---------------------------------------------------------------------------

/// The view of an optional value through its own view.
pub open spec fn opt_view<T: View>(o: Option<T>) -> Option<T::V> {
    match o {
        Some(t) => Some(t@),
        None => None,
    }
}

/// Model of an application-level variable.
pub enum AppVarModel {
    Default(Seq<char>),
    Required(bool),
}

/// Model of project metadata.
pub struct ProjectModel {
    pub name: Seq<char>,
    pub version: Seq<char>,
    pub description: Seq<char>,
    pub authors: Seq<Seq<char>>,
    pub default_registry: Option<Seq<char>>,
}

/// Model of OAuth settings.
pub struct OauthModel {
    pub issuer: Seq<char>,
    pub audience: Seq<char>,
    pub jwks_uri: Seq<char>,
    pub public_key: Seq<char>,
    pub algorithm: Seq<char>,
    pub required_scopes: Seq<char>,
    pub authorize_endpoint: Seq<char>,
    pub token_endpoint: Seq<char>,
    pub userinfo_endpoint: Seq<char>,
    pub allowed_subjects: Seq<Seq<char>>,
}

/// Model of a build command with watched paths and environment.
pub struct BuildModel {
    pub command: Seq<char>,
    pub watch: Seq<Seq<char>>,
    pub env: Seq<(Seq<char>, Seq<char>)>,
}

/// Model of deployment settings of a component.
pub struct DeployModel {
    pub profile: Seq<char>,
    pub name: Option<Seq<char>>,
}

/// Model of a user component.
pub struct ComponentModel {
    pub path: Option<Seq<char>>,
    pub wasm: Option<Seq<char>>,
    pub repo: Option<Seq<char>>,
    pub build: Option<BuildModel>,
    pub profiles: Option<Seq<(Seq<char>, BuildModel)>>,
    pub up: Option<Seq<char>>,
    pub deploy: Option<DeployModel>,
    pub allowed_outbound_hosts: Seq<Seq<char>>,
    pub variables: Seq<(Seq<char>, Seq<char>)>,
}

/// Model of the MCP system components.
pub struct McpModel {
    pub gateway: Seq<char>,
    pub authorizer: Seq<char>,
    pub validate_arguments: bool,
}

/// Model of a whole ftl.toml.
pub struct FtlModel {
    pub project: ProjectModel,
    pub oauth: Option<OauthModel>,
    pub component: Seq<(Seq<char>, ComponentModel)>,
    pub mcp: McpModel,
    pub variables: Seq<(Seq<char>, AppVarModel)>,
}

// ---------------------------------------------------------------------------
// Executable types
// ---------------------------------------------------------------------------

/// Copying a value without changing its view.
pub trait Duplicate: View + Sized {
    fn duplicate(&self) -> (r: Self)
        ensures
            r@ == self@;
}

impl Duplicate for String {
    fn duplicate(&self) -> (r: String) {
        self.clone()
    }
}

/// Copies a list of strings.
pub fn copy_strings(v: &Vec<String>) -> (r: Vec<String>)
    ensures
        r.deep_view() == v.deep_view(),
{
    let mut out: Vec<String> = Vec::new();
    let mut i: usize = 0;
    while i < v.len()
        invariant
            i <= v@.len(),
            out.deep_view() == v.deep_view().subrange(0, i as int),
        decreases v@.len() - i,
    {
        let s = v[i].clone();
        let ghost before = out.deep_view();
        out.push(s);
        assert(out.deep_view() =~= before.push(v[i as int]@));
        assert(out.deep_view() =~= v.deep_view().subrange(0, i + 1));
        i = i + 1;
    }
    assert(v.deep_view().subrange(0, v@.len() as int) =~= v.deep_view());
    out
}

/// Copies an optional string.
pub fn copy_opt_string(o: &Option<String>) -> (r: Option<String>)
    ensures
        r.deep_view() == o.deep_view(),
{
    match o {
        Some(s) => Some(s.clone()),
        None => None,
    }
}

impl<V: Duplicate> Duplicate for StrMap<V> {
    fn duplicate(&self) -> (r: StrMap<V>) {
        proof {
            use_type_invariant(self);
            self.lemma_inv();
        }
        let mut out: StrMap<V> = StrMap::new();
        let mut i: usize = 0;
        while i < self.len()
            invariant
                i <= self@.len(),
                keys_distinct(self@),
                out@ == self@.subrange(0, i as int),
            decreases self@.len() - i,
        {
            let k = self.key_at(i).clone();
            let v = self.value_at(i).duplicate();
            proof {
                let pre = self@.subrange(0, i as int);
                lemma_key_index(pre, k@);
                assert(!has_key(pre, k@)) by {
                    if has_key(pre, k@) {
                        let j = choose|j: int| 0 <= j < pre.len() && pre[j].0 == k@;
                        assert(self@[j].0 == self@[i as int].0);
                    }
                }
            }
            out.insert(k, v);
            assert(out@ =~= self@.subrange(0, i + 1));
            i = i + 1;
        }
        assert(self@.subrange(0, self@.len() as int) =~= self@);
        out
    }
}

/// Root configuration of an ftl.toml file.
pub struct FtlConfig {
    /// Project metadata
    pub project: ProjectConfig,
    /// OAuth configuration; authentication is enabled exactly when present
    pub oauth: Option<OauthConfig>,
    /// User components by name
    pub component: StrMap<ComponentConfig>,
    /// MCP system component configuration
    pub mcp: McpConfig,
    /// Application-level variables
    pub variables: StrMap<ApplicationVariable>,
}

/// An application-level variable.
pub enum ApplicationVariable {
    /// Variable with a default value
    Default {
        /// The default value for the variable
        default: String,
    },
    /// Variable that must be provided at runtime
    Required {
        /// Whether the variable is required
        required: bool,
    },
}

/// Project metadata.
pub struct ProjectConfig {
    /// Project name
    pub name: String,
    /// Project version
    pub version: String,
    /// Project description
    pub description: String,
    /// Project authors
    pub authors: Vec<String>,
    /// Default registry for component references
    pub default_registry: Option<String>,
}

/// OAuth-specific configuration.
pub struct OauthConfig {
    /// OAuth issuer URL
    pub issuer: String,
    /// API audience
    pub audience: String,
    /// JWKS URI
    pub jwks_uri: String,
    /// Public key in PEM format
    pub public_key: String,
    /// JWT algorithm
    pub algorithm: String,
    /// Required scopes (comma-separated)
    pub required_scopes: String,
    /// Authorization endpoint
    pub authorize_endpoint: String,
    /// Token endpoint
    pub token_endpoint: String,
    /// User info endpoint
    pub userinfo_endpoint: String,
    /// Subjects allowed to access the resource
    pub allowed_subjects: Vec<String>,
}

/// Deployment configuration of a component.
pub struct DeployConfig {
    /// Build profile to use for deployment
    pub profile: String,
    /// Optional custom name suffix
    pub name: Option<String>,
}

/// A user component.
pub struct ComponentConfig {
    /// Component directory relative to the project root
    pub path: Option<String>,
    /// WASM file produced by the build (local components)
    pub wasm: Option<String>,
    /// Repository reference of a pre-built component
    pub repo: Option<String>,
    /// Build configuration
    pub build: Option<BuildConfig>,
    /// Named build profiles
    pub profiles: Option<BuildProfiles>,
    /// Development mode configuration
    pub up: Option<UpConfig>,
    /// Deployment configuration
    pub deploy: Option<DeployConfig>,
    /// Allowed outbound hosts
    pub allowed_outbound_hosts: Vec<String>,
    /// Variables passed to the component at runtime
    pub variables: StrMap<String>,
}

/// Build profiles of a component, by name.
pub struct BuildProfiles {
    /// Profiles by name
    pub profiles: StrMap<BuildProfile>,
}

/// One build profile.
pub struct BuildProfile {
    /// Build command
    pub command: String,
    /// Watched paths
    pub watch: Vec<String>,
    /// Build environment
    pub env: StrMap<String>,
}

/// Development mode configuration.
pub struct UpConfig {
    /// Build profile used by `ftl up`
    pub profile: String,
}

/// Build configuration of a component.
pub struct BuildConfig {
    /// Build command
    pub command: String,
    /// Watched paths
    pub watch: Vec<String>,
    /// Build environment
    pub env: StrMap<String>,
}

/// MCP system component configuration.
pub struct McpConfig {
    /// Gateway component reference
    pub gateway: String,
    /// Authorizer component reference
    pub authorizer: String,
    /// Whether tool call arguments are validated
    pub validate_arguments: bool,
}

// ---------------------------------------------------------------------------
// Views
// ---------------------------------------------------------------------------

impl View for ApplicationVariable {
    type V = AppVarModel;

    open spec fn view(&self) -> AppVarModel {
        match self {
            ApplicationVariable::Default { default } => AppVarModel::Default(default@),
            ApplicationVariable::Required { required } => AppVarModel::Required(*required),
        }
    }
}

impl View for ProjectConfig {
    type V = ProjectModel;

    open spec fn view(&self) -> ProjectModel {
        ProjectModel {
            name: self.name@,
            version: self.version@,
            description: self.description@,
            authors: self.authors.deep_view(),
            default_registry: self.default_registry.deep_view(),
        }
    }
}

impl View for OauthConfig {
    type V = OauthModel;

    open spec fn view(&self) -> OauthModel {
        OauthModel {
            issuer: self.issuer@,
            audience: self.audience@,
            jwks_uri: self.jwks_uri@,
            public_key: self.public_key@,
            algorithm: self.algorithm@,
            required_scopes: self.required_scopes@,
            authorize_endpoint: self.authorize_endpoint@,
            token_endpoint: self.token_endpoint@,
            userinfo_endpoint: self.userinfo_endpoint@,
            allowed_subjects: self.allowed_subjects.deep_view(),
        }
    }
}

impl View for BuildConfig {
    type V = BuildModel;

    open spec fn view(&self) -> BuildModel {
        BuildModel { command: self.command@, watch: self.watch.deep_view(), env: self.env@ }
    }
}

impl View for BuildProfile {
    type V = BuildModel;

    open spec fn view(&self) -> BuildModel {
        BuildModel { command: self.command@, watch: self.watch.deep_view(), env: self.env@ }
    }
}

impl View for DeployConfig {
    type V = DeployModel;

    open spec fn view(&self) -> DeployModel {
        DeployModel { profile: self.profile@, name: self.name.deep_view() }
    }
}

impl View for UpConfig {
    type V = Seq<char>;

    open spec fn view(&self) -> Seq<char> {
        self.profile@
    }
}

impl View for BuildProfiles {
    type V = Seq<(Seq<char>, BuildModel)>;

    open spec fn view(&self) -> Seq<(Seq<char>, BuildModel)> {
        self.profiles@
    }
}

impl View for ComponentConfig {
    type V = ComponentModel;

    open spec fn view(&self) -> ComponentModel {
        ComponentModel {
            path: self.path.deep_view(),
            wasm: self.wasm.deep_view(),
            repo: self.repo.deep_view(),
            build: opt_view(self.build),
            profiles: opt_view(self.profiles),
            up: opt_view(self.up),
            deploy: opt_view(self.deploy),
            allowed_outbound_hosts: self.allowed_outbound_hosts.deep_view(),
            variables: self.variables@,
        }
    }
}

impl View for McpConfig {
    type V = McpModel;

    open spec fn view(&self) -> McpModel {
        McpModel {
            gateway: self.gateway@,
            authorizer: self.authorizer@,
            validate_arguments: self.validate_arguments,
        }
    }
}

impl View for FtlConfig {
    type V = FtlModel;

    open spec fn view(&self) -> FtlModel {
        FtlModel {
            project: self.project@,
            oauth: opt_view(self.oauth),
            component: self.component@,
            mcp: self.mcp@,
            variables: self.variables@,
        }
    }
}

// ---------------------------------------------------------------------------
// Copies
// ---------------------------------------------------------------------------

impl Duplicate for ApplicationVariable {
    fn duplicate(&self) -> (r: ApplicationVariable) {
        match self {
            ApplicationVariable::Default { default } => ApplicationVariable::Default {
                default: default.clone(),
            },
            ApplicationVariable::Required { required } => ApplicationVariable::Required {
                required: *required,
            },
        }
    }
}

impl Duplicate for BuildConfig {
    fn duplicate(&self) -> (r: BuildConfig) {
        BuildConfig {
            command: self.command.clone(),
            watch: copy_strings(&self.watch),
            env: self.env.duplicate(),
        }
    }
}

impl Duplicate for BuildProfile {
    fn duplicate(&self) -> (r: BuildProfile) {
        BuildProfile {
            command: self.command.clone(),
            watch: copy_strings(&self.watch),
            env: self.env.duplicate(),
        }
    }
}

impl Duplicate for BuildProfiles {
    fn duplicate(&self) -> (r: BuildProfiles) {
        BuildProfiles { profiles: self.profiles.duplicate() }
    }
}

impl Duplicate for UpConfig {
    fn duplicate(&self) -> (r: UpConfig) {
        UpConfig { profile: self.profile.clone() }
    }
}

impl Duplicate for DeployConfig {
    fn duplicate(&self) -> (r: DeployConfig) {
        DeployConfig { profile: self.profile.clone(), name: copy_opt_string(&self.name) }
    }
}

impl Duplicate for OauthConfig {
    fn duplicate(&self) -> (r: OauthConfig) {
        OauthConfig {
            issuer: self.issuer.clone(),
            audience: self.audience.clone(),
            jwks_uri: self.jwks_uri.clone(),
            public_key: self.public_key.clone(),
            algorithm: self.algorithm.clone(),
            required_scopes: self.required_scopes.clone(),
            authorize_endpoint: self.authorize_endpoint.clone(),
            token_endpoint: self.token_endpoint.clone(),
            userinfo_endpoint: self.userinfo_endpoint.clone(),
            allowed_subjects: copy_strings(&self.allowed_subjects),
        }
    }
}

impl Duplicate for ProjectConfig {
    fn duplicate(&self) -> (r: ProjectConfig) {
        ProjectConfig {
            name: self.name.clone(),
            version: self.version.clone(),
            description: self.description.clone(),
            authors: copy_strings(&self.authors),
            default_registry: copy_opt_string(&self.default_registry),
        }
    }
}

impl Duplicate for McpConfig {
    fn duplicate(&self) -> (r: McpConfig) {
        McpConfig {
            gateway: self.gateway.clone(),
            authorizer: self.authorizer.clone(),
            validate_arguments: self.validate_arguments,
        }
    }
}

/// Copies an optional value.
pub fn copy_opt<T: Duplicate>(o: &Option<T>) -> (r: Option<T>)
    ensures
        opt_view(r) == opt_view(*o),
{
    match o {
        Some(t) => Some(t.duplicate()),
        None => None,
    }
}

impl Duplicate for ComponentConfig {
    fn duplicate(&self) -> (r: ComponentConfig) {
        ComponentConfig {
            path: copy_opt_string(&self.path),
            wasm: copy_opt_string(&self.wasm),
            repo: copy_opt_string(&self.repo),
            build: copy_opt(&self.build),
            profiles: copy_opt(&self.profiles),
            up: copy_opt(&self.up),
            deploy: copy_opt(&self.deploy),
            allowed_outbound_hosts: copy_strings(&self.allowed_outbound_hosts),
            variables: self.variables.duplicate(),
        }
    }
}

impl Duplicate for FtlConfig {
    fn duplicate(&self) -> (r: FtlConfig) {
        FtlConfig {
            project: self.project.duplicate(),
            oauth: copy_opt(&self.oauth),
            component: self.component.duplicate(),
            mcp: self.mcp.duplicate(),
            variables: self.variables.duplicate(),
        }
    }
}

} // verus!

verus! {

// ---------------------------------------------------------------------------
// Derived facts
// ---------------------------------------------------------------------------

/// Authentication is enabled exactly when OAuth settings are present.
pub open spec fn auth_enabled(m: FtlModel) -> bool {
    m.oauth is Some
}

/// The auth provider type: `jwt` when authentication is enabled, empty otherwise.
pub open spec fn provider_type_of(m: FtlModel) -> Seq<char> {
    if auth_enabled(m) {
        "jwt"@
    } else {
        Seq::empty()
    }
}

/// The OAuth issuer, or empty text without OAuth.
pub open spec fn issuer_of(m: FtlModel) -> Seq<char> {
    match m.oauth {
        Some(o) => o.issuer,
        None => Seq::empty(),
    }
}

/// The OAuth audience, or empty text without OAuth.
pub open spec fn audience_of(m: FtlModel) -> Seq<char> {
    match m.oauth {
        Some(o) => o.audience,
        None => Seq::empty(),
    }
}

/// The required scopes, or empty text without OAuth.
pub open spec fn required_scopes_of(m: FtlModel) -> Seq<char> {
    match m.oauth {
        Some(o) => o.required_scopes,
        None => Seq::empty(),
    }
}

/// The directory of a component: its `path`, or its name when no path is given.
pub open spec fn component_dir(c: ComponentModel, name: Seq<char>) -> Seq<char> {
    match c.path {
        Some(p) => p,
        None => name,
    }
}

/// Gives the fact that a string literal `""` has no characters.
pub proof fn lemma_empty_literal()
    ensures
        ""@ == Seq::<char>::empty(),
{
    reveal_strlit("");
    assert(""@ =~= Seq::<char>::empty());
}

impl FtlConfig {
    /// Names of the user components, in order.
    pub fn component_names(&self) -> (r: Vec<String>)
        ensures
            r.deep_view() == crate::strmap::keys_of(self@.component),
    {
        self.component.keys()
    }

    /// Whether authentication is enabled (OAuth settings are present).
    pub fn is_auth_enabled(&self) -> (r: bool)
        ensures
            r == auth_enabled(self@),
    {
        self.oauth.is_some()
    }

    /// The auth provider type: `jwt` with authentication, empty otherwise.
    pub fn auth_provider_type(&self) -> (r: &str)
        ensures
            r@ == provider_type_of(self@),
    {
        proof {
            lemma_empty_literal();
        }
        if self.is_auth_enabled() {
            "jwt"
        } else {
            ""
        }
    }

    /// The OAuth issuer URL, or empty.
    pub fn auth_issuer(&self) -> (r: &str)
        ensures
            r@ == issuer_of(self@),
    {
        proof {
            lemma_empty_literal();
        }
        match &self.oauth {
            Some(oauth) => oauth.issuer.as_str(),
            None => "",
        }
    }

    /// The OAuth audience, or empty.
    pub fn auth_audience(&self) -> (r: &str)
        ensures
            r@ == audience_of(self@),
    {
        proof {
            lemma_empty_literal();
        }
        match &self.oauth {
            Some(oauth) => oauth.audience.as_str(),
            None => "",
        }
    }

    /// The required scopes, or empty.
    pub fn auth_required_scopes(&self) -> (r: &str)
        ensures
            r@ == required_scopes_of(self@),
    {
        proof {
            lemma_empty_literal();
        }
        match &self.oauth {
            Some(oauth) => oauth.required_scopes.as_str(),
            None => "",
        }
    }
}

impl ComponentConfig {
    /// The component directory: `path` when given, otherwise the component name.
    pub fn get_path(&self, component_name: &str) -> (r: String)
        ensures
            r@ == component_dir(self@, component_name@),
    {
        match &self.path {
            Some(p) => p.clone(),
            None => component_name.to_owned(),
        }
    }
}

// ---------------------------------------------------------------------------
// Defaults
// ---------------------------------------------------------------------------

/// The default project version, `0.1.0`.
pub fn default_version() -> (r: String)
    ensures
        r@ == "0.1.0"@,
{
    "0.1.0".to_owned()
}

/// The default gateway component reference.
pub fn default_gateway() -> (r: String)
    ensures
        r@ == "ghcr.io/fastertools/mcp-gateway:0.0.11"@,
{
    "ghcr.io/fastertools/mcp-gateway:0.0.11".to_owned()
}

/// The default authorizer component reference.
pub fn default_authorizer() -> (r: String)
    ensures
        r@ == "ghcr.io/fastertools/mcp-authorizer:0.0.13"@,
{
    "ghcr.io/fastertools/mcp-authorizer:0.0.13".to_owned()
}

/// Tool call arguments are not validated by default.
pub fn default_validate_arguments() -> (r: bool)
    ensures
        r == false,
{
    false
}

impl McpConfig {
    /// The default MCP configuration: default gateway and authorizer, no argument validation.
    pub fn default() -> (r: McpConfig)
        ensures
            r@.gateway == "ghcr.io/fastertools/mcp-gateway:0.0.11"@,
            r@.authorizer == "ghcr.io/fastertools/mcp-authorizer:0.0.13"@,
            r@.validate_arguments == false,
    {
        McpConfig {
            gateway: default_gateway(),
            authorizer: default_authorizer(),
            validate_arguments: default_validate_arguments(),
        }
    }
}

// ---------------------------------------------------------------------------
// Validation
// ---------------------------------------------------------------------------

/// Why a component definition is rejected.
#[derive(Debug, Clone, Copy, PartialEq, Eq, Structural)]
pub enum ComponentError {
    /// Neither `wasm` nor `repo` is given
    MissingSource,
    /// Both `wasm` and `repo` are given
    BothSources,
    /// A local component (`wasm`) has no build configuration
    LocalWithoutBuild,
    /// A registry component (`repo`) has a build configuration
    RegistryWithBuild,
    /// The build command is empty
    EmptyBuildCommand,
}

/// The message that explains a component error.
pub open spec fn component_error_text(e: ComponentError) -> Seq<char> {
    match e {
        ComponentError::MissingSource =>
            "Component must specify either 'wasm' (for local) or 'repo' (for registry)"@,
        ComponentError::BothSources =>
            "Component cannot specify both 'wasm' and 'repo'. Use 'wasm' for local or 'repo' for registry"@,
        ComponentError::LocalWithoutBuild =>
            "Local components with 'wasm' field must include a 'build' configuration"@,
        ComponentError::RegistryWithBuild =>
            "Registry components with 'repo' field should not include a 'build' configuration"@,
        ComponentError::EmptyBuildCommand => "command: length is lower than 1"@,
    }
}

impl ComponentError {
    /// The message that explains the error; see [`component_error_text`].
    pub fn message(&self) -> (r: &'static str)
        ensures
            r@ == component_error_text(*self),
    {
        match self {
            ComponentError::MissingSource =>
                "Component must specify either 'wasm' (for local) or 'repo' (for registry)",
            ComponentError::BothSources =>
                "Component cannot specify both 'wasm' and 'repo'. Use 'wasm' for local or 'repo' for registry",
            ComponentError::LocalWithoutBuild =>
                "Local components with 'wasm' field must include a 'build' configuration",
            ComponentError::RegistryWithBuild =>
                "Registry components with 'repo' field should not include a 'build' configuration",
            ComponentError::EmptyBuildCommand => "command: length is lower than 1",
        }
    }
}

/// The first rule a component breaks, if any.
pub open spec fn component_error(c: ComponentModel) -> Option<ComponentError> {
    if c.wasm is None && c.repo is None {
        Some(ComponentError::MissingSource)
    } else if c.wasm is Some && c.repo is Some {
        Some(ComponentError::BothSources)
    } else if c.wasm is Some && c.build is None {
        Some(ComponentError::LocalWithoutBuild)
    } else if c.repo is Some && c.build is Some {
        Some(ComponentError::RegistryWithBuild)
    } else if c.build is Some && c.build->0.command.len() == 0 {
        Some(ComponentError::EmptyBuildCommand)
    } else {
        None
    }
}

impl ComponentConfig {
    /// Checks the component rules: exactly one of `wasm` and `repo`; local
    /// components have a build, registry components do not; a build command
    /// is not empty.
    pub fn validate(&self) -> (r: Result<(), ComponentError>)
        ensures
            match component_error(self@) {
                Some(e) => r == Err::<(), ComponentError>(e),
                None => r is Ok,
            },
    {
        match (&self.wasm, &self.repo) {
            (None, None) => {
                return Err(ComponentError::MissingSource);
            },
            (Some(_), Some(_)) => {
                return Err(ComponentError::BothSources);
            },
            _ => {},
        }
        if self.wasm.is_some() && self.build.is_none() {
            return Err(ComponentError::LocalWithoutBuild);
        }
        if self.repo.is_some() && self.build.is_some() {
            return Err(ComponentError::RegistryWithBuild);
        }
        if let Some(build) = &self.build {
            if is_blank(&build.command) {
                return Err(ComponentError::EmptyBuildCommand);
            }
        }
        Ok(())
    }
}

/// Characters allowed in a component name.
pub open spec fn component_name_char(c: char) -> bool {
    alphanumeric_char(c) || c == '-' || c == '_'
}

/// A component name made only of alphanumeric characters, `-` and `_`.
pub open spec fn valid_component_name(name: Seq<char>) -> bool {
    forall|i: int| 0 <= i < name.len() ==> component_name_char(name[i])
}

/// What is wrong with a component entry.
#[derive(Debug, Clone, Copy, PartialEq, Eq, Structural)]
pub enum ComponentProblem {
    /// The component definition breaks a rule
    Invalid(ComponentError),
    /// The component name holds a character other than alphanumerics, `-` and `_`
    BadName,
}

/// The first component (in order) that breaks a rule, with what is wrong.
pub open spec fn first_component_problem(comps: Seq<(Seq<char>, ComponentModel)>) -> Option<(Seq<char>, ComponentProblem)>
    decreases comps.len(),
{
    if comps.len() == 0 {
        None
    } else if component_error(comps[0].1) is Some {
        Some((comps[0].0, ComponentProblem::Invalid(component_error(comps[0].1)->0)))
    } else if !valid_component_name(comps[0].0) {
        Some((comps[0].0, ComponentProblem::BadName))
    } else {
        first_component_problem(comps.drop_first())
    }
}

/// Whether a component name is made only of allowed characters.
pub fn is_valid_component_name(name: &str) -> (r: bool)
    ensures
        r == valid_component_name(name@),
{
    let cs = chars_of(name);
    let mut i: usize = 0;
    while i < cs.len()
        invariant
            cs@ == name@,
            i <= cs@.len(),
            forall|j: int| 0 <= j < i ==> component_name_char(cs@[j]),
        decreases cs@.len() - i,
    {
        let c = cs[i];
        if !(is_alphanumeric(c) || c == '-' || c == '_') {
            return false;
        }
        i = i + 1;
    }
    true
}

/// The first component with a problem: its name and the problem.
pub fn validate_components(component: &StrMap<ComponentConfig>) -> (r: Option<(String, ComponentProblem)>)
    ensures
        match first_component_problem(component@) {
            None => r is None,
            Some(p) => r matches Some(q) && q.0@ == p.0 && q.1 == p.1,
        },
{
    let mut i: usize = 0;
    assert(component@.subrange(0, component@.len() as int) =~= component@);
    while i < component.len()
        invariant
            i <= component@.len(),
            first_component_problem(component@) == first_component_problem(
                component@.subrange(i as int, component@.len() as int),
            ),
        decreases component@.len() - i,
    {
        let ghost rest = component@.subrange(i as int, component@.len() as int);
        assert(rest.drop_first() =~= component@.subrange(i + 1, component@.len() as int));
        let name = component.key_at(i);
        let config = component.value_at(i);
        match config.validate() {
            Err(e) => {
                return Some((name.clone(), ComponentProblem::Invalid(e)));
            },
            Ok(()) => {},
        }
        if !is_valid_component_name(name.as_str()) {
            return Some((name.clone(), ComponentProblem::BadName));
        }
        i = i + 1;
    }
    None
}

/// A project name starts with an ASCII letter and continues with ASCII
/// letters, digits, `_` or `-`.
pub open spec fn valid_project_name(name: Seq<char>) -> bool {
    &&& name.len() >= 1
    &&& is_ascii_alpha(name[0])
    &&& forall|i: int| 1 <= i < name.len() ==> is_ascii_alnum(name[i]) || name[i] == '_' || name[i] == '-'
}

/// Whether a project name is well formed.
pub fn is_valid_project_name(name: &str) -> (r: bool)
    ensures
        r == valid_project_name(name@),
{
    let cs = chars_of(name);
    if cs.len() == 0 {
        return false;
    }
    if !ascii_alpha(cs[0]) {
        return false;
    }
    let mut i: usize = 1;
    while i < cs.len()
        invariant
            cs@ == name@,
            1 <= i <= cs@.len(),
            forall|j: int| 1 <= j < i ==> is_ascii_alnum(cs@[j]) || cs@[j] == '_' || cs@[j] == '-',
        decreases cs@.len() - i,
    {
        let c = cs[i];
        if !(ascii_alnum(c) || c == '_' || c == '-') {
            return false;
        }
        i = i + 1;
    }
    true
}

/// A rule of ftl.toml that a configuration breaks.
#[derive(Debug)]
pub enum ConfigError {
    /// The project name is empty
    EmptyProjectName,
    /// The project name does not match `^[a-zA-Z][a-zA-Z0-9_-]*$`
    InvalidProjectName,
    /// The project version is empty
    EmptyProjectVersion,
    /// The OAuth issuer is empty
    EmptyOauthIssuer,
    /// The OAuth audience is empty
    EmptyOauthAudience,
    /// A component breaks a rule
    Component {
        /// Name of the component
        name: String,
        /// What is wrong with it
        problem: ComponentProblem,
    },
    /// The gateway reference is empty
    EmptyGateway,
    /// The authorizer reference is empty
    EmptyAuthorizer,
}

/// Model of a broken rule.
pub enum ConfigErrorModel {
    EmptyProjectName,
    InvalidProjectName,
    EmptyProjectVersion,
    EmptyOauthIssuer,
    EmptyOauthAudience,
    Component(Seq<char>, ComponentProblem),
    EmptyGateway,
    EmptyAuthorizer,
}

impl View for ConfigError {
    type V = ConfigErrorModel;

    open spec fn view(&self) -> ConfigErrorModel {
        match self {
            ConfigError::EmptyProjectName => ConfigErrorModel::EmptyProjectName,
            ConfigError::InvalidProjectName => ConfigErrorModel::InvalidProjectName,
            ConfigError::EmptyProjectVersion => ConfigErrorModel::EmptyProjectVersion,
            ConfigError::EmptyOauthIssuer => ConfigErrorModel::EmptyOauthIssuer,
            ConfigError::EmptyOauthAudience => ConfigErrorModel::EmptyOauthAudience,
            ConfigError::Component { name, problem } => ConfigErrorModel::Component(name@, *problem),
            ConfigError::EmptyGateway => ConfigErrorModel::EmptyGateway,
            ConfigError::EmptyAuthorizer => ConfigErrorModel::EmptyAuthorizer,
        }
    }
}

/// The views of a list of errors.
pub open spec fn error_views(v: Seq<ConfigError>) -> Seq<ConfigErrorModel> {
    v.map_values(|e: ConfigError| e@)
}

/// Appends `e` when `cond` holds.
pub open spec fn push_if(s: Seq<ConfigErrorModel>, cond: bool, e: ConfigErrorModel) -> Seq<ConfigErrorModel> {
    if cond {
        s.push(e)
    } else {
        s
    }
}

/// Every rule of ftl.toml that `m` breaks, in the order the fields are declared.
pub open spec fn config_errors(m: FtlModel) -> Seq<ConfigErrorModel> {
    let s0 = Seq::<ConfigErrorModel>::empty();
    let s1 = push_if(s0, m.project.name.len() == 0, ConfigErrorModel::EmptyProjectName);
    let s2 = push_if(s1, !valid_project_name(m.project.name), ConfigErrorModel::InvalidProjectName);
    let s3 = push_if(s2, m.project.version.len() == 0, ConfigErrorModel::EmptyProjectVersion);
    let s4 = push_if(s3, m.oauth is Some && m.oauth->0.issuer.len() == 0, ConfigErrorModel::EmptyOauthIssuer);
    let s5 = push_if(s4, m.oauth is Some && m.oauth->0.audience.len() == 0, ConfigErrorModel::EmptyOauthAudience);
    let s6 = match first_component_problem(m.component) {
        Some(p) => s5.push(ConfigErrorModel::Component(p.0, p.1)),
        None => s5,
    };
    let s7 = push_if(s6, m.mcp.gateway.len() == 0, ConfigErrorModel::EmptyGateway);
    push_if(s7, m.mcp.authorizer.len() == 0, ConfigErrorModel::EmptyAuthorizer)
}

/// A component whose name holds a character other than an alphanumeric,
/// `-` or `_` makes the first component problem that of that component or
/// of an earlier one.
proof fn lemma_bad_name_found(comps: Seq<(Seq<char>, ComponentModel)>, i: int, j: int)
    requires
        0 <= i < comps.len(),
        0 <= j < comps[i].0.len(),
        !(alphanumeric_char(comps[i].0[j]) || comps[i].0[j] == '-' || comps[i].0[j] == '_'),
    ensures
        first_component_problem(comps) matches Some(p) && exists|k: int| 0 <= k <= i && comps[k].0 == p.0,
    decreases i,
{
    if component_error(comps[0].1) is Some {
        assert(comps[0].0 == (first_component_problem(comps)->0).0);
    } else if !valid_component_name(comps[0].0) {
        assert(comps[0].0 == (first_component_problem(comps)->0).0);
    } else if i == 0 {
        assert(!component_name_char(comps[0].0[j]));
    } else {
        let rest = comps.drop_first();
        assert(rest[i - 1] == comps[i]);
        lemma_bad_name_found(rest, i - 1, j);
        let p = first_component_problem(rest)->0;
        let k = choose|k: int| 0 <= k <= i - 1 && rest[k].0 == p.0;
        assert(comps[k + 1] == rest[k]);
    }
}

/// Law: a configuration is accepted only when every component name is
/// made of alphanumeric characters, `-` and `_`. A component whose name
/// holds any other character (a space, a `.`) makes validation fail with a
/// component error naming that component or one listed before it.
pub proof fn law_component_names_checked(m: FtlModel, i: int, j: int)
    requires
        0 <= i < m.component.len(),
        0 <= j < m.component[i].0.len(),
        !(alphanumeric_char(m.component[i].0[j]) || m.component[i].0[j] == '-' || m.component[i].0[j] == '_'),
    ensures
        config_errors(m).len() > 0,
        exists|e: int, k: int, p: ComponentProblem|
            0 <= e < config_errors(m).len() && 0 <= k <= i && config_errors(m)[e]
                == ConfigErrorModel::Component(m.component[k].0, p),
{
    lemma_bad_name_found(m.component, i, j);
    let p = first_component_problem(m.component)->0;
    let k = choose|k: int| 0 <= k <= i && m.component[k].0 == p.0;
    let s0 = Seq::<ConfigErrorModel>::empty();
    let s1 = push_if(s0, m.project.name.len() == 0, ConfigErrorModel::EmptyProjectName);
    let s2 = push_if(s1, !valid_project_name(m.project.name), ConfigErrorModel::InvalidProjectName);
    let s3 = push_if(s2, m.project.version.len() == 0, ConfigErrorModel::EmptyProjectVersion);
    let s4 = push_if(s3, m.oauth is Some && m.oauth->0.issuer.len() == 0, ConfigErrorModel::EmptyOauthIssuer);
    let s5 = push_if(s4, m.oauth is Some && m.oauth->0.audience.len() == 0, ConfigErrorModel::EmptyOauthAudience);
    let s6 = s5.push(ConfigErrorModel::Component(p.0, p.1));
    let s7 = push_if(s6, m.mcp.gateway.len() == 0, ConfigErrorModel::EmptyGateway);
    let s8 = push_if(s7, m.mcp.authorizer.len() == 0, ConfigErrorModel::EmptyAuthorizer);
    assert(config_errors(m) == s8);
    let e = s5.len() as int;
    assert(s8[e] == ConfigErrorModel::Component(m.component[k].0, p.1));
}

/// When every component name is made of allowed characters, no component
/// problem is a bad name.
proof fn lemma_good_names_pass(comps: Seq<(Seq<char>, ComponentModel)>)
    requires
        forall|i: int, j: int|
            0 <= i < comps.len() && 0 <= j < comps[i].0.len() ==> alphanumeric_char(#[trigger] comps[i].0[j])
                || comps[i].0[j] == '-' || comps[i].0[j] == '_',
    ensures
        !(first_component_problem(comps) matches Some(p) && p.1 == ComponentProblem::BadName),
    decreases comps.len(),
{
    if comps.len() > 0 {
        let rest = comps.drop_first();
        assert forall|i: int, j: int|
            0 <= i < rest.len() && 0 <= j < rest[i].0.len() implies alphanumeric_char(#[trigger] rest[i].0[j])
                || rest[i].0[j] == '-' || rest[i].0[j] == '_' by {
            assert(rest[i] == comps[i + 1]);
        }
        lemma_good_names_pass(rest);
        assert(valid_component_name(comps[0].0)) by {
            assert forall|j: int| 0 <= j < comps[0].0.len() implies component_name_char(comps[0].0[j]) by {
                assert(alphanumeric_char(comps[0].0[j]) || comps[0].0[j] == '-' || comps[0].0[j] == '_');
            }
        }
    }
}

/// Law: names made of alphanumeric characters, `-` and `_` are accepted —
/// when every component name is, validation reports no bad component name.
pub proof fn law_good_component_names_accepted(m: FtlModel)
    requires
        forall|i: int, j: int|
            0 <= i < m.component.len() && 0 <= j < m.component[i].0.len() ==> alphanumeric_char(
                #[trigger] m.component[i].0[j],
            ) || m.component[i].0[j] == '-' || m.component[i].0[j] == '_',
    ensures
        forall|e: int|
            0 <= e < config_errors(m).len() && (#[trigger] config_errors(m)[e]) is Component
                ==> config_errors(m)[e]->1 != ComponentProblem::BadName,
{
    lemma_good_names_pass(m.component);
    let s0 = Seq::<ConfigErrorModel>::empty();
    let s1 = push_if(s0, m.project.name.len() == 0, ConfigErrorModel::EmptyProjectName);
    let s2 = push_if(s1, !valid_project_name(m.project.name), ConfigErrorModel::InvalidProjectName);
    let s3 = push_if(s2, m.project.version.len() == 0, ConfigErrorModel::EmptyProjectVersion);
    let s4 = push_if(s3, m.oauth is Some && m.oauth->0.issuer.len() == 0, ConfigErrorModel::EmptyOauthIssuer);
    let s5 = push_if(s4, m.oauth is Some && m.oauth->0.audience.len() == 0, ConfigErrorModel::EmptyOauthAudience);
    assert forall|e: int|
        0 <= e < config_errors(m).len() && (#[trigger] config_errors(m)[e]) is Component
            implies config_errors(m)[e]->1 != ComponentProblem::BadName by {
        if e < s5.len() {
            assert(config_errors(m)[e] == s5[e]);
            assert(!(s5[e] is Component));
        }
    }
}

/// Whether a string is empty, by its characters.
pub fn is_blank(s: &String) -> (r: bool)
    ensures
        r == (s@.len() == 0),
{
    let cs = chars_of(s.as_str());
    cs.len() == 0
}

impl FtlConfig {
    /// Checks every rule of ftl.toml and reports all that are broken.
    pub fn validate(&self) -> (r: Result<(), Vec<ConfigError>>)
        ensures
            r is Ok <==> config_errors(self@).len() == 0,
            r matches Err(v) ==> error_views(v@) == config_errors(self@),
    {
        let ghost m = self@;
        let mut errors: Vec<ConfigError> = Vec::new();
        if is_blank(&self.project.name) {
            errors.push(ConfigError::EmptyProjectName);
        }
        if !is_valid_project_name(self.project.name.as_str()) {
            errors.push(ConfigError::InvalidProjectName);
        }
        if is_blank(&self.project.version) {
            errors.push(ConfigError::EmptyProjectVersion);
        }
        assert(error_views(errors@) =~= push_if(push_if(push_if(Seq::empty(), m.project.name.len() == 0, ConfigErrorModel::EmptyProjectName), !valid_project_name(m.project.name), ConfigErrorModel::InvalidProjectName), m.project.version.len() == 0, ConfigErrorModel::EmptyProjectVersion));
        if let Some(oauth) = &self.oauth {
            if is_blank(&oauth.issuer) {
                errors.push(ConfigError::EmptyOauthIssuer);
            }
            if is_blank(&oauth.audience) {
                errors.push(ConfigError::EmptyOauthAudience);
            }
        }
        let ghost before_components = error_views(errors@);
        match validate_components(&self.component) {
            Some((name, problem)) => {
                errors.push(ConfigError::Component { name, problem });
            },
            None => {},
        }
        let ghost after_components = error_views(errors@);
        assert(after_components =~= match first_component_problem(m.component) {
            Some(p) => before_components.push(ConfigErrorModel::Component(p.0, p.1)),
            None => before_components,
        });
        if is_blank(&self.mcp.gateway) {
            errors.push(ConfigError::EmptyGateway);
        }
        if is_blank(&self.mcp.authorizer) {
            errors.push(ConfigError::EmptyAuthorizer);
        }
        assert(error_views(errors@) =~= config_errors(m));
        if errors.len() == 0 {
            Ok(())
        } else {
            Err(errors)
        }
    }
}

} // verus!
