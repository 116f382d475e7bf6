//! Validation rules of a Spin manifest: which fields must be filled, which
//! shapes names and versions take, and which sources and hosts are accepted.
use vstd::prelude::*;
use crate::spin_config::{
    views, AppModel, ApplicationConfig, ApplicationRedisTriggerConfig, ComponentBuildConfig,
    ComponentConfig, ComponentSource, HttpTrigger, RedisTrigger, RouteConfig, RouteModel,
    SourceModel, SpinComponentModel, SpinConfig, SpinModel, SpinVarModel, SpinVariable,
};
use crate::strmap::StrMap;
use crate::text::{
    alphabetic_char, alphanumeric_char, chars_of, has_infix, has_prefix, has_suffix,
    is_alphabetic, is_alphanumeric, is_ascii_alnum, is_ascii_alpha, is_ascii_digit, ascii_alnum,
    ascii_alpha, ascii_digit, str_has_infix, str_has_prefix, str_has_suffix, str_eq,
    str_contains_char, count_char,
};

verus! {

// ---------------------------------------------------------------------------
// Problems
// ---------------------------------------------------------------------------

/// What is wrong with a component source.
#[derive(Clone, Copy, Debug, PartialEq, Eq, Structural)]
pub enum SourceProblem {
    /// A local source with an empty path
    EmptyLocalPath,
    /// A remote source with an empty URL
    EmptyUrl,
    /// A remote URL that starts with neither `http://` nor `https://`
    UrlScheme,
    /// A remote URL that is a scheme and nothing else
    UrlWithoutHost,
    /// A remote source with an empty digest
    EmptyDigest,
    /// A digest that does not start with `sha256:`
    DigestPrefix,
    /// A registry source with an empty registry domain
    EmptyRegistry,
    /// A registry source with an empty package
    EmptyPackage,
    /// A package that is not of the form `namespace:name`
    PackageFormat,
    /// A registry source with an empty version
    EmptyVersion,
}

/// What is wrong with a build section, a route, a trigger or the
/// application-level Redis settings.
#[derive(Clone, Copy, Debug, PartialEq, Eq, Structural)]
pub enum FieldProblem {
    /// A build section with an empty command
    EmptyBuildCommand,
    /// A private route whose `private` flag is false
    RouteNotPrivate,
    /// A trigger naming no component
    EmptyTriggerComponent,
    /// A Redis trigger with an empty channel
    EmptyChannel,
    /// Application Redis settings with an empty address
    EmptyRedisAddress,
    /// A Redis address that does not start with `redis://`
    RedisAddressScheme,
}

/// What is wrong with one component.
#[derive(Debug)]
pub enum ComponentProblem {
    /// A problem of its source
    Source(SourceProblem),
    /// An empty allowed outbound host
    EmptyOutboundHost,
    /// An allowed outbound host without a scheme
    HostWithoutScheme(String),
    /// A build section with an empty command
    EmptyBuildCommand,
}

/// Model of [`ComponentProblem`].
pub enum ComponentProblemModel {
    Source(SourceProblem),
    EmptyOutboundHost,
    HostWithoutScheme(Seq<char>),
    EmptyBuildCommand,
}

impl View for ComponentProblem {
    type V = ComponentProblemModel;

    open spec fn view(&self) -> ComponentProblemModel {
        match self {
            ComponentProblem::Source(p) => ComponentProblemModel::Source(*p),
            ComponentProblem::EmptyOutboundHost => ComponentProblemModel::EmptyOutboundHost,
            ComponentProblem::HostWithoutScheme(h) => ComponentProblemModel::HostWithoutScheme(h@),
            ComponentProblem::EmptyBuildCommand => ComponentProblemModel::EmptyBuildCommand,
        }
    }
}

/// What is wrong with a manifest.
#[derive(Debug)]
pub enum SpinProblem {
    /// The manifest format version is not 2
    ManifestVersion,
    /// The application name is empty
    EmptyAppName,
    /// The application name does not match `^[a-zA-Z][a-zA-Z0-9_-]*$`
    AppNamePattern,
    /// The application version is empty
    EmptyAppVersion,
    /// The application version is not three dot-separated numbers
    AppVersionPattern,
    /// A variable with an empty name
    EmptyVariableName,
    /// A required variable whose `required` flag is false
    VariableNotRequired(String),
    /// A component with an empty name
    EmptyComponentName,
    /// A component name that does not start with a letter
    ComponentNameStart(String),
    /// A component name with a character other than letters, digits and `-`
    ComponentNameChars(String),
    /// A component whose own validation failed
    Component(String, Vec<ComponentProblem>),
}

/// Model of [`SpinProblem`].
pub enum SpinProblemModel {
    ManifestVersion,
    EmptyAppName,
    AppNamePattern,
    EmptyAppVersion,
    AppVersionPattern,
    EmptyVariableName,
    VariableNotRequired(Seq<char>),
    EmptyComponentName,
    ComponentNameStart(Seq<char>),
    ComponentNameChars(Seq<char>),
    Component(Seq<char>, Seq<ComponentProblemModel>),
}

impl View for SpinProblem {
    type V = SpinProblemModel;

    open spec fn view(&self) -> SpinProblemModel {
        match self {
            SpinProblem::ManifestVersion => SpinProblemModel::ManifestVersion,
            SpinProblem::EmptyAppName => SpinProblemModel::EmptyAppName,
            SpinProblem::AppNamePattern => SpinProblemModel::AppNamePattern,
            SpinProblem::EmptyAppVersion => SpinProblemModel::EmptyAppVersion,
            SpinProblem::AppVersionPattern => SpinProblemModel::AppVersionPattern,
            SpinProblem::EmptyVariableName => SpinProblemModel::EmptyVariableName,
            SpinProblem::VariableNotRequired(n) => SpinProblemModel::VariableNotRequired(n@),
            SpinProblem::EmptyComponentName => SpinProblemModel::EmptyComponentName,
            SpinProblem::ComponentNameStart(n) => SpinProblemModel::ComponentNameStart(n@),
            SpinProblem::ComponentNameChars(n) => SpinProblemModel::ComponentNameChars(n@),
            SpinProblem::Component(n, ps) => SpinProblemModel::Component(n@, views(ps@)),
        }
    }
}

// ---------------------------------------------------------------------------
// Rules
// ---------------------------------------------------------------------------

/// `x` alone when `b` holds, nothing otherwise.
pub open spec fn problem_if<T>(b: bool, x: T) -> Seq<T> {
    if b {
        seq![x]
    } else {
        Seq::empty()
    }
}

/// The problems of a component source, in the order they are checked.
pub open spec fn source_problems(s: SourceModel) -> Seq<SourceProblem> {
    match s {
        SourceModel::Local(p) => problem_if(p.len() == 0, SourceProblem::EmptyLocalPath),
        SourceModel::Remote(url, digest) => problem_if(url.len() == 0, SourceProblem::EmptyUrl)
            + problem_if(
            !has_prefix(url, "http://"@) && !has_prefix(url, "https://"@),
            SourceProblem::UrlScheme,
        ) + problem_if(url == "http://"@ || url == "https://"@, SourceProblem::UrlWithoutHost)
            + problem_if(digest.len() == 0, SourceProblem::EmptyDigest) + problem_if(
            !has_prefix(digest, "sha256:"@),
            SourceProblem::DigestPrefix,
        ),
        SourceModel::Registry(registry, package, version) => problem_if(
            registry.len() == 0,
            SourceProblem::EmptyRegistry,
        ) + problem_if(package.len() == 0, SourceProblem::EmptyPackage) + problem_if(
            !package.contains(':'),
            SourceProblem::PackageFormat,
        ) + problem_if(version.len() == 0, SourceProblem::EmptyVersion),
    }
}

/// The problem of one allowed outbound host: it is empty, or it is neither
/// a `{{ .. }}` template nor has a `://` scheme separator.
pub open spec fn host_problem(h: Seq<char>) -> Option<ComponentProblemModel> {
    if h.len() == 0 {
        Some(ComponentProblemModel::EmptyOutboundHost)
    } else if has_prefix(h, "{{"@) && has_suffix(h, "}}"@) {
        None
    } else if !has_infix(h, "://"@) {
        Some(ComponentProblemModel::HostWithoutScheme(h))
    } else {
        None
    }
}

/// The problem of the first host, from index `i` on, that has one.
pub open spec fn first_host_problem(hosts: Seq<Seq<char>>, i: int) -> Option<ComponentProblemModel>
    decreases hosts.len() - i,
{
    if i < 0 || i >= hosts.len() {
        None
    } else {
        match host_problem(hosts[i]) {
            Some(p) => Some(p),
            None => first_host_problem(hosts, i + 1),
        }
    }
}

/// The problems of one component: those of its source, then that of the
/// first faulty outbound host, then an empty build command.
pub open spec fn component_problems(c: SpinComponentModel) -> Seq<ComponentProblemModel> {
    source_problems(c.source).map_values(|p: SourceProblem| ComponentProblemModel::Source(p))
        + match first_host_problem(c.allowed_outbound_hosts, 0) {
        Some(p) => seq![p],
        None => Seq::empty(),
    } + match c.build {
        Some(b) => problem_if(b.command.len() == 0, ComponentProblemModel::EmptyBuildCommand),
        None => Seq::empty(),
    }
}

/// The application name matches `^[a-zA-Z][a-zA-Z0-9_-]*$`.
pub open spec fn app_name_shape(s: Seq<char>) -> bool {
    &&& s.len() >= 1
    &&& is_ascii_alpha(s[0])
    &&& forall|i: int| 1 <= i < s.len() ==> is_ascii_alnum(s[i]) || s[i] == '_' || s[i] == '-'
}

/// The version is three non-empty runs of ASCII digits joined by dots.
pub open spec fn version_shape(s: Seq<char>) -> bool {
    &&& s.len() >= 1
    &&& forall|i: int| 0 <= i < s.len() ==> is_ascii_digit(s[i]) || s[i] == '.'
    &&& count_char(s, '.') == 2
    &&& s[0] != '.'
    &&& s.last() != '.'
    &&& forall|i: int, j: int|
        #![trigger s[i], s[j]]
        0 <= i && j == i + 1 && j < s.len() ==> !(s[i] == '.' && s[j] == '.')
}

/// The problems of the application section.
pub open spec fn app_problems(a: AppModel) -> Seq<SpinProblemModel> {
    problem_if(a.name.len() == 0, SpinProblemModel::EmptyAppName) + problem_if(
        !app_name_shape(a.name),
        SpinProblemModel::AppNamePattern,
    ) + problem_if(a.version.len() == 0, SpinProblemModel::EmptyAppVersion) + problem_if(
        !version_shape(a.version),
        SpinProblemModel::AppVersionPattern,
    )
}

/// The problem of one variable.
pub open spec fn variable_problem(name: Seq<char>, v: SpinVarModel) -> Option<SpinProblemModel> {
    if name.len() == 0 {
        Some(SpinProblemModel::EmptyVariableName)
    } else {
        match v {
            SpinVarModel::Required(false) => Some(SpinProblemModel::VariableNotRequired(name)),
            SpinVarModel::SecretRequired(false, _) => Some(
                SpinProblemModel::VariableNotRequired(name),
            ),
            _ => None,
        }
    }
}

/// The problem of the first variable, from index `i` on, that has one.
pub open spec fn first_variable_problem(vars: Seq<(Seq<char>, SpinVarModel)>, i: int) -> Option<
    SpinProblemModel,
>
    decreases vars.len() - i,
{
    if i < 0 || i >= vars.len() {
        None
    } else {
        match variable_problem(vars[i].0, vars[i].1) {
            Some(p) => Some(p),
            None => first_variable_problem(vars, i + 1),
        }
    }
}

/// A letter: an ASCII letter, or a character Unicode calls alphabetic.
pub open spec fn letter_char(c: char) -> bool {
    is_ascii_alpha(c) || alphabetic_char(c)
}

/// A character allowed in a component name: an ASCII letter or digit, a
/// character Unicode calls alphanumeric, or `-`.
pub open spec fn component_name_char(c: char) -> bool {
    is_ascii_alnum(c) || alphanumeric_char(c) || c == '-'
}

/// Every character of the name is alphanumeric or `-`.
pub open spec fn component_name_chars_ok(name: Seq<char>) -> bool {
    forall|i: int| 0 <= i < name.len() ==> component_name_char(name[i])
}

/// The problem of one named component.
pub open spec fn named_component_problem(name: Seq<char>, c: SpinComponentModel) -> Option<
    SpinProblemModel,
> {
    if name.len() == 0 {
        Some(SpinProblemModel::EmptyComponentName)
    } else if !letter_char(name[0]) {
        Some(SpinProblemModel::ComponentNameStart(name))
    } else if !component_name_chars_ok(name) {
        Some(SpinProblemModel::ComponentNameChars(name))
    } else if component_problems(c).len() > 0 {
        Some(SpinProblemModel::Component(name, component_problems(c)))
    } else {
        None
    }
}

/// The problem of the first component, from index `i` on, that has one.
pub open spec fn first_component_problem(comps: Seq<(Seq<char>, SpinComponentModel)>, i: int) -> Option<
    SpinProblemModel,
>
    decreases comps.len() - i,
{
    if i < 0 || i >= comps.len() {
        None
    } else {
        match named_component_problem(comps[i].0, comps[i].1) {
            Some(p) => Some(p),
            None => first_component_problem(comps, i + 1),
        }
    }
}

/// `Some(p)` as a one-element sequence, `None` as the empty one.
pub open spec fn opt_seq<T>(o: Option<T>) -> Seq<T> {
    match o {
        Some(p) => seq![p],
        None => Seq::empty(),
    }
}

/// The problems of a manifest: format version, application, then the first
/// faulty variable and the first faulty component.
pub open spec fn spin_problems(m: SpinModel) -> Seq<SpinProblemModel> {
    problem_if(m.spin_manifest_version != 2, SpinProblemModel::ManifestVersion) + app_problems(
        m.application,
    ) + opt_seq(first_variable_problem(m.variables, 0)) + opt_seq(
        first_component_problem(m.component, 0),
    )
}

/// The problems of an HTTP route.
pub open spec fn route_problems(r: RouteModel) -> Seq<FieldProblem> {
    match r {
        RouteModel::Private(p) => problem_if(!p, FieldProblem::RouteNotPrivate),
        RouteModel::Path(_) => Seq::empty(),
    }
}

/// The problems of a build section.
pub open spec fn build_problems(command: Seq<char>) -> Seq<FieldProblem> {
    problem_if(command.len() == 0, FieldProblem::EmptyBuildCommand)
}

/// The problems of an HTTP trigger: its route's, then an empty component.
pub open spec fn http_trigger_problems(route: RouteModel, component: Seq<char>) -> Seq<FieldProblem> {
    route_problems(route) + problem_if(component.len() == 0, FieldProblem::EmptyTriggerComponent)
}

/// The problems of a Redis trigger: an empty channel, then an empty component.
pub open spec fn redis_trigger_problems(channel: Seq<char>, component: Seq<char>) -> Seq<FieldProblem> {
    problem_if(channel.len() == 0, FieldProblem::EmptyChannel) + problem_if(
        component.len() == 0,
        FieldProblem::EmptyTriggerComponent,
    )
}

/// The problems of application-level Redis settings.
pub open spec fn redis_address_problems(address: Seq<char>) -> Seq<FieldProblem> {
    problem_if(address.len() == 0, FieldProblem::EmptyRedisAddress) + problem_if(
        !has_prefix(address, "redis://"@),
        FieldProblem::RedisAddressScheme,
    )
}

// ---------------------------------------------------------------------------
// Laws
// ---------------------------------------------------------------------------

/// The manifest that `SpinConfig::new(name)` makes.
pub open spec fn new_manifest(name: Seq<char>) -> SpinModel {
    SpinModel {
        spin_manifest_version: 2,
        application: AppModel {
            name: name,
            version: "0.1.0"@,
            description: Seq::empty(),
            authors: Seq::empty(),
            trigger: None,
        },
        variables: Seq::empty(),
        component: Seq::empty(),
    }
}

/// Law: a new manifest passes validation exactly when its application name
/// has the accepted shape; its only possible problem is that name.
pub proof fn law_new_manifest_valid_iff_name(name: Seq<char>)
    ensures
        spin_problems(new_manifest(name)).len() == 0 <==> app_name_shape(name),
        !app_name_shape(name) ==> spin_problems(new_manifest(name)) == problem_if(
            name.len() == 0,
            SpinProblemModel::EmptyAppName,
        ) + seq![SpinProblemModel::AppNamePattern],
{
    reveal_strlit("0.1.0");
    let v = "0.1.0"@;
    assert(v.len() == 5);
    assert(v.subrange(0, 5) =~= v);
    assert(v.subrange(0, 5).drop_last() =~= v.subrange(0, 4));
    assert(v.subrange(0, 4).drop_last() =~= v.subrange(0, 3));
    assert(v.subrange(0, 3).drop_last() =~= v.subrange(0, 2));
    assert(v.subrange(0, 2).drop_last() =~= v.subrange(0, 1));
    assert(v.subrange(0, 1).drop_last() =~= v.subrange(0, 0));
    assert(count_char(v.subrange(0, 0), '.') == 0);
    assert(count_char(v.subrange(0, 1), '.') == 0);
    assert(count_char(v.subrange(0, 2), '.') == 1);
    assert(count_char(v.subrange(0, 3), '.') == 1);
    assert(count_char(v.subrange(0, 4), '.') == 2);
    assert(count_char(v.subrange(0, 5), '.') == 2);
    assert(count_char(v, '.') == 2);
    assert(version_shape(v));
    assert(first_variable_problem(Seq::<(Seq<char>, SpinVarModel)>::empty(), 0) is None);
    assert(first_component_problem(Seq::<(Seq<char>, SpinComponentModel)>::empty(), 0) is None);
    let m = new_manifest(name);
    if app_name_shape(name) {
        assert(spin_problems(m) =~= Seq::<SpinProblemModel>::empty());
    } else {
        assert(spin_problems(m) =~= problem_if(name.len() == 0, SpinProblemModel::EmptyAppName)
            + seq![SpinProblemModel::AppNamePattern]);
    }
}

// ---------------------------------------------------------------------------
// Checks
// ---------------------------------------------------------------------------

/// Appends `p` to `out` when `b` holds.
fn push_if<T>(out: &mut Vec<T>, b: bool, p: T)
    ensures
        final(out)@ == old(out)@ + problem_if(b, p),
{
    if b {
        out.push(p);
    } else {
        assert(old(out)@ + problem_if(b, p) =~= old(out)@);
    }
}

impl ComponentSource {
    /// Checks a component source; reports every problem it has.
    pub fn validate(&self) -> (r: Result<(), Vec<SourceProblem>>)
        ensures
            match r {
                Ok(()) => source_problems(self@).len() == 0,
                Err(ps) => ps@ == source_problems(self@) && ps@.len() > 0,
            },
    {
        let mut out: Vec<SourceProblem> = Vec::new();
        match self {
            ComponentSource::Local(p) => {
                push_if(&mut out, p.as_str().is_empty(), SourceProblem::EmptyLocalPath);
            },
            ComponentSource::Remote { url, digest } => {
                push_if(&mut out, url.as_str().is_empty(), SourceProblem::EmptyUrl);
                let http = str_has_prefix(url.as_str(), "http://");
                let https = str_has_prefix(url.as_str(), "https://");
                push_if(&mut out, !http && !https, SourceProblem::UrlScheme);
                let bare = str_eq(url.as_str(), "http://") || str_eq(url.as_str(), "https://");
                push_if(&mut out, bare, SourceProblem::UrlWithoutHost);
                push_if(&mut out, digest.as_str().is_empty(), SourceProblem::EmptyDigest);
                let sha = str_has_prefix(digest.as_str(), "sha256:");
                push_if(&mut out, !sha, SourceProblem::DigestPrefix);
            },
            ComponentSource::Registry { registry, package, version } => {
                push_if(&mut out, registry.as_str().is_empty(), SourceProblem::EmptyRegistry);
                push_if(&mut out, package.as_str().is_empty(), SourceProblem::EmptyPackage);
                let colon = str_contains_char(package.as_str(), ':');
                push_if(&mut out, !colon, SourceProblem::PackageFormat);
                push_if(&mut out, version.as_str().is_empty(), SourceProblem::EmptyVersion);
            },
        }
        assert(out@ =~= source_problems(self@));
        if out.len() == 0 {
            Ok(())
        } else {
            Err(out)
        }
    }
}

/// Checks the allowed outbound hosts; reports the problem of the first
/// faulty one. Templates such as `{{ api_url }}` are accepted as they are.
pub fn validate_outbound_hosts(hosts: &Vec<String>) -> (r: Result<(), ComponentProblem>)
    ensures
        match r {
            Ok(()) => first_host_problem(hosts.deep_view(), 0) is None,
            Err(p) => first_host_problem(hosts.deep_view(), 0) == Some(p@),
        },
{
    let ghost hs = hosts.deep_view();
    let mut i: usize = 0;
    while i < hosts.len()
        invariant
            i <= hosts.len(),
            hs == hosts.deep_view(),
            first_host_problem(hs, 0) == first_host_problem(hs, i as int),
        decreases hosts.len() - i,
    {
        let h = hosts[i].as_str();
        assert(h@ == hs[i as int]);
        if h.is_empty() {
            return Err(ComponentProblem::EmptyOutboundHost);
        }
        let template = str_has_prefix(h, "{{") && str_has_suffix(h, "}}");
        if !template {
            if !str_has_infix(h, "://") {
                return Err(ComponentProblem::HostWithoutScheme(h.to_owned()));
            }
        }
        i = i + 1;
    }
    Ok(())
}

impl ComponentBuildConfig {
    /// Checks a build section: its command must not be empty.
    pub fn validate(&self) -> (r: Result<(), Vec<FieldProblem>>)
        ensures
            match r {
                Ok(()) => build_problems(self.command@).len() == 0,
                Err(ps) => ps@ == build_problems(self.command@) && ps@.len() > 0,
            },
    {
        let mut out: Vec<FieldProblem> = Vec::new();
        push_if(&mut out, self.command.as_str().is_empty(), FieldProblem::EmptyBuildCommand);
        assert(out@ =~= build_problems(self.command@));
        if out.len() == 0 {
            Ok(())
        } else {
            Err(out)
        }
    }
}

impl RouteConfig {
    /// Checks a route: a private route must have `private = true`; any path
    /// is accepted, the empty one included.
    pub fn validate(&self) -> (r: Result<(), Vec<FieldProblem>>)
        ensures
            match r {
                Ok(()) => route_problems(self@).len() == 0,
                Err(ps) => ps@ == route_problems(self@) && ps@.len() > 0,
            },
    {
        let mut out: Vec<FieldProblem> = Vec::new();
        match self {
            RouteConfig::Private { private } => {
                push_if(&mut out, !*private, FieldProblem::RouteNotPrivate);
            },
            RouteConfig::Path(_) => {},
        }
        assert(out@ =~= route_problems(self@));
        if out.len() == 0 {
            Ok(())
        } else {
            Err(out)
        }
    }
}

impl HttpTrigger {
    /// Checks an HTTP trigger: its route, and that it names a component.
    pub fn validate(&self) -> (r: Result<(), Vec<FieldProblem>>)
        ensures
            match r {
                Ok(()) => http_trigger_problems(self.route@, self.component@).len() == 0,
                Err(ps) => ps@ == http_trigger_problems(self.route@, self.component@) && ps@.len()
                    > 0,
            },
    {
        let mut out: Vec<FieldProblem> = Vec::new();
        match &self.route {
            RouteConfig::Private { private } => {
                push_if(&mut out, !*private, FieldProblem::RouteNotPrivate);
            },
            RouteConfig::Path(_) => {},
        }
        assert(out@ =~= route_problems(self.route@));
        push_if(&mut out, self.component.as_str().is_empty(), FieldProblem::EmptyTriggerComponent);
        assert(out@ =~= http_trigger_problems(self.route@, self.component@));
        if out.len() == 0 {
            Ok(())
        } else {
            Err(out)
        }
    }
}

impl RedisTrigger {
    /// Checks a Redis trigger: channel and component must not be empty.
    pub fn validate(&self) -> (r: Result<(), Vec<FieldProblem>>)
        ensures
            match r {
                Ok(()) => redis_trigger_problems(self.channel@, self.component@).len() == 0,
                Err(ps) => ps@ == redis_trigger_problems(self.channel@, self.component@)
                    && ps@.len() > 0,
            },
    {
        let mut out: Vec<FieldProblem> = Vec::new();
        push_if(&mut out, self.channel.as_str().is_empty(), FieldProblem::EmptyChannel);
        push_if(&mut out, self.component.as_str().is_empty(), FieldProblem::EmptyTriggerComponent);
        assert(out@ =~= redis_trigger_problems(self.channel@, self.component@));
        if out.len() == 0 {
            Ok(())
        } else {
            Err(out)
        }
    }
}

impl ApplicationRedisTriggerConfig {
    /// Checks application-level Redis settings: a non-empty `redis://` address.
    pub fn validate(&self) -> (r: Result<(), Vec<FieldProblem>>)
        ensures
            match r {
                Ok(()) => redis_address_problems(self.address@).len() == 0,
                Err(ps) => ps@ == redis_address_problems(self.address@) && ps@.len() > 0,
            },
    {
        let mut out: Vec<FieldProblem> = Vec::new();
        push_if(&mut out, self.address.as_str().is_empty(), FieldProblem::EmptyRedisAddress);
        let redis = str_has_prefix(self.address.as_str(), "redis://");
        push_if(&mut out, !redis, FieldProblem::RedisAddressScheme);
        assert(out@ =~= redis_address_problems(self.address@));
        if out.len() == 0 {
            Ok(())
        } else {
            Err(out)
        }
    }
}

impl ComponentConfig {
    /// Checks a component: its source, its outbound hosts and its build section.
    pub fn validate(&self) -> (r: Result<(), Vec<ComponentProblem>>)
        ensures
            match r {
                Ok(()) => component_problems(self@).len() == 0,
                Err(ps) => views(ps@) == component_problems(self@) && ps@.len() > 0,
            },
    {
        let mut out: Vec<ComponentProblem> = Vec::new();
        let ghost sp = source_problems(self.source@);
        match self.source.validate() {
            Ok(()) => {},
            Err(ps) => {
                let mut i: usize = 0;
                while i < ps.len()
                    invariant
                        i <= ps@.len(),
                        ps@ == sp,
                        out@.len() == i,
                        forall|j: int| 0 <= j < i ==> out@[j]@ == ComponentProblemModel::Source(sp[j]),
                    decreases ps.len() - i,
                {
                    out.push(ComponentProblem::Source(ps[i]));
                    i = i + 1;
                }
            },
        }
        let ghost srcs = sp.map_values(|p: SourceProblem| ComponentProblemModel::Source(p));
        assert(views(out@) =~= srcs);
        match validate_outbound_hosts(&self.allowed_outbound_hosts) {
            Ok(()) => {},
            Err(p) => {
                out.push(p);
            },
        }
        let ghost hosts = match first_host_problem(self@.allowed_outbound_hosts, 0) {
            Some(p) => seq![p],
            None => Seq::<ComponentProblemModel>::empty(),
        };
        assert(views(out@) =~= srcs + hosts);
        match &self.build {
            Some(b) => {
                if b.command.as_str().is_empty() {
                    out.push(ComponentProblem::EmptyBuildCommand);
                }
            },
            None => {},
        }
        assert(views(out@) =~= component_problems(self@));
        if out.len() == 0 {
            Ok(())
        } else {
            Err(out)
        }
    }
}

/// Whether `s` matches `^[a-zA-Z][a-zA-Z0-9_-]*$`.
pub fn is_app_name(s: &str) -> (r: bool)
    ensures
        r == app_name_shape(s@),
{
    let cs = chars_of(s);
    if cs.len() == 0 {
        return false;
    }
    if !ascii_alpha(cs[0]) {
        return false;
    }
    let mut i: usize = 1;
    while i < cs.len()
        invariant
            1 <= i <= cs@.len(),
            cs@ == s@,
            forall|j: int| 1 <= j < i ==> is_ascii_alnum(cs@[j]) || cs@[j] == '_' || cs@[j] == '-',
        decreases cs.len() - i,
    {
        let c = cs[i];
        if !(ascii_alnum(c) || c == '_' || c == '-') {
            return false;
        }
        i = i + 1;
    }
    true
}

/// Whether `s` is three non-empty runs of ASCII digits joined by dots.
pub fn is_version_text(s: &str) -> (r: bool)
    ensures
        r == version_shape(s@),
{
    let cs = chars_of(s);
    let n = cs.len();
    if n == 0 {
        return false;
    }
    if cs[0] == '.' || cs[n - 1] == '.' {
        return false;
    }
    let mut dots: usize = 0;
    let mut i: usize = 0;
    while i < n
        invariant
            i <= n == cs@.len(),
            cs@ == s@,
            dots <= i,
            dots == count_char(cs@.subrange(0, i as int), '.'),
            forall|j: int| 0 <= j < i ==> is_ascii_digit(cs@[j]) || cs@[j] == '.',
            forall|j: int, k: int|
                #![trigger cs@[j], cs@[k]]
                0 <= j && k == j + 1 && k < i ==> !(cs@[j] == '.' && cs@[k] == '.'),
        decreases n - i,
    {
        let c = cs[i];
        if !(ascii_digit(c) || c == '.') {
            return false;
        }
        assert(cs@.subrange(0, i + 1).drop_last() =~= cs@.subrange(0, i as int));
        if c == '.' {
            if i > 0 && cs[i - 1] == '.' {
                assert(!version_shape(s@)) by {
                    let a: int = i - 1;
                    let b: int = i as int;
                    assert(cs@[a] == '.' && cs@[b] == '.');
                }
                return false;
            }
            dots = dots + 1;
        }
        i = i + 1;
    }
    assert(cs@.subrange(0, n as int) =~= cs@);
    dots == 2
}

impl ApplicationConfig {
    /// Checks the application section: a non-empty name of the accepted
    /// shape and a non-empty version of the accepted shape.
    pub fn validate(&self) -> (r: Result<(), Vec<SpinProblem>>)
        ensures
            match r {
                Ok(()) => app_problems(self@).len() == 0,
                Err(ps) => views(ps@) == app_problems(self@) && ps@.len() > 0,
            },
    {
        let mut out: Vec<SpinProblem> = Vec::new();
        if self.name.as_str().is_empty() {
            out.push(SpinProblem::EmptyAppName);
        }
        if !is_app_name(self.name.as_str()) {
            out.push(SpinProblem::AppNamePattern);
        }
        if self.version.as_str().is_empty() {
            out.push(SpinProblem::EmptyAppVersion);
        }
        if !is_version_text(self.version.as_str()) {
            out.push(SpinProblem::AppVersionPattern);
        }
        assert(views(out@) =~= app_problems(self@));
        if out.len() == 0 {
            Ok(())
        } else {
            Err(out)
        }
    }
}

/// Checks the manifest variables; reports the problem of the first faulty one.
pub fn validate_variables(vars: &StrMap<SpinVariable>) -> (r: Result<(), SpinProblem>)
    ensures
        match r {
            Ok(()) => first_variable_problem(vars@, 0) is None,
            Err(p) => first_variable_problem(vars@, 0) == Some(p@),
        },
{
    let mut i: usize = 0;
    while i < vars.len()
        invariant
            i <= vars@.len(),
            first_variable_problem(vars@, 0) == first_variable_problem(vars@, i as int),
        decreases vars@.len() - i,
    {
        let name = vars.key_at(i);
        let v = vars.value_at(i);
        if name.as_str().is_empty() {
            return Err(SpinProblem::EmptyVariableName);
        }
        match v {
            SpinVariable::Required { required } => {
                if !*required {
                    return Err(SpinProblem::VariableNotRequired(name.clone()));
                }
            },
            SpinVariable::SecretRequired { required, secret: _ } => {
                if !*required {
                    return Err(SpinProblem::VariableNotRequired(name.clone()));
                }
            },
            _ => {},
        }
        i = i + 1;
    }
    Ok(())
}

/// Whether every character of `cs` is alphanumeric or `-` (ASCII letters and
/// digits are alphanumeric in Unicode too; they are recognised first).
fn name_chars_ok(cs: &Vec<char>) -> (r: bool)
    ensures
        r == component_name_chars_ok(cs@),
{
    let mut i: usize = 0;
    while i < cs.len()
        invariant
            i <= cs@.len(),
            forall|j: int| 0 <= j < i ==> component_name_char(cs@[j]),
        decreases cs.len() - i,
    {
        let c = cs[i];
        if !(ascii_alnum(c) || is_alphanumeric(c) || c == '-') {
            return false;
        }
        i = i + 1;
    }
    true
}

/// Checks the components; reports the problem of the first faulty one:
/// a name that is empty, starts with a non-letter or holds characters other
/// than letters, digits and `-`, or a component whose own checks fail.
/// Letters and digits are those of Unicode; ASCII ones are recognised first.
pub fn validate_components(comps: &StrMap<ComponentConfig>) -> (r: Result<(), SpinProblem>)
    ensures
        match r {
            Ok(()) => first_component_problem(comps@, 0) is None,
            Err(p) => first_component_problem(comps@, 0) == Some(p@),
        },
{
    let mut i: usize = 0;
    while i < comps.len()
        invariant
            i <= comps@.len(),
            first_component_problem(comps@, 0) == first_component_problem(comps@, i as int),
        decreases comps@.len() - i,
    {
        let name = comps.key_at(i);
        let c = comps.value_at(i);
        let cs = chars_of(name.as_str());
        if cs.len() == 0 {
            return Err(SpinProblem::EmptyComponentName);
        }
        if !(ascii_alpha(cs[0]) || is_alphabetic(cs[0])) {
            return Err(SpinProblem::ComponentNameStart(name.clone()));
        }
        if !name_chars_ok(&cs) {
            return Err(SpinProblem::ComponentNameChars(name.clone()));
        }
        match c.validate() {
            Ok(()) => {},
            Err(ps) => {
                return Err(SpinProblem::Component(name.clone(), ps));
            },
        }
        i = i + 1;
    }
    Ok(())
}

impl SpinConfig {
    /// Checks a whole manifest: format version 2, the application section,
    /// the variables and the components; reports every problem found, in
    /// that order.
    pub fn validate(&self) -> (r: Result<(), Vec<SpinProblem>>)
        ensures
            match r {
                Ok(()) => spin_problems(self@).len() == 0,
                Err(ps) => views(ps@) == spin_problems(self@) && ps@.len() > 0,
            },
    {
        let mut out: Vec<SpinProblem> = Vec::new();
        if self.spin_manifest_version != 2 {
            out.push(SpinProblem::ManifestVersion);
        }
        match self.application.validate() {
            Ok(()) => {},
            Err(mut ps) => {
                out.append(&mut ps);
            },
        }
        let ghost head = problem_if(
            self.spin_manifest_version != 2,
            SpinProblemModel::ManifestVersion,
        ) + app_problems(self.application@);
        assert(views(out@) =~= head);
        match validate_variables(&self.variables) {
            Ok(()) => {},
            Err(p) => {
                out.push(p);
            },
        }
        let ghost mid = head + opt_seq(first_variable_problem(self.variables@, 0));
        assert(views(out@) =~= mid);
        match validate_components(&self.component) {
            Ok(()) => {},
            Err(p) => {
                out.push(p);
            },
        }
        assert(views(out@) =~= spin_problems(self@));
        if out.len() == 0 {
            Ok(())
        } else {
            Err(out)
        }
    }
}

} // verus!
