//! Transpilation of an ftl.toml configuration into a Spin manifest: the
//! variables, the system and user components and the HTTP triggers, stated as
//! models of the configuration and written as spin.toml text.
use vstd::prelude::*;
use crate::ftl_config::{
    ApplicationVariable, AppVarModel, ComponentConfig as FtlComponent, ComponentModel, FtlConfig,
    FtlModel, audience_of, auth_enabled, component_dir, issuer_of, provider_type_of,
    required_scopes_of,
};
use crate::manifest_text::{bool_str, bool_text, manifest_text};
use crate::spin_config::{
    ComponentBuildConfig, ComponentConfig as SpinComponent, ComponentSource, HttpTrigger,
    HttpTriggerModel, RouteConfig, RouteModel, SourceModel, SpinBuildModel, SpinComponentModel,
    SpinConfig, SpinModel, SpinVarModel, SpinVariable, TriggerConfig, TriggersModel, views,
};
use crate::strmap::{StrMap, insert_pair, keys_of};
use crate::ftl_config::Duplicate;
use crate::strmap::lookup;
use crate::text::{
    chars_contain, chars_eq_ignore_ascii_case, chars_have_infix, chars_have_prefix, chars_of,
    eq_ignore_ascii_case, has_infix, has_prefix, join, path_extension, path_extension_of, path_join,
    path_join_of, push_str,
};

verus! {

// ---------------------------------------------------------------------------
// Specification: variables
// ---------------------------------------------------------------------------

/// A variable with a default value.
pub open spec fn def(s: Seq<char>) -> SpinVarModel {
    SpinVarModel::Default(s)
}

/// The manifest variable for an application variable: defaults are kept, and
/// every required variable becomes `required = true`.
pub open spec fn app_var_model(v: AppVarModel) -> SpinVarModel {
    match v {
        AppVarModel::Default(d) => SpinVarModel::Default(d),
        AppVarModel::Required(_) => SpinVarModel::Required(true),
    }
}

/// The application variables inserted in order into `base`.
pub open spec fn app_vars(base: Seq<(Seq<char>, SpinVarModel)>, vars: Seq<(Seq<char>, AppVarModel)>) -> Seq<(Seq<char>, SpinVarModel)>
    decreases vars.len(),
{
    if vars.len() == 0 {
        base
    } else {
        insert_pair(app_vars(base, vars.drop_last()), vars.last().0, app_var_model(vars.last().1))
    }
}

/// The gateway URL: the internal gateway with authentication, `none` without.
pub open spec fn gateway_url_of(m: FtlModel) -> Seq<char> {
    if auth_enabled(m) {
        "http://ftl-mcp-gateway.spin.internal/mcp-internal"@
    } else {
        "none"@
    }
}

/// Gateway URL, trace header and provider type.
pub open spec fn core_mcp_vars(v: Seq<(Seq<char>, SpinVarModel)>, m: FtlModel) -> Seq<(Seq<char>, SpinVarModel)> {
    let v1 = insert_pair(v, "mcp_gateway_url"@, def(gateway_url_of(m)));
    let v2 = insert_pair(v1, "mcp_trace_header"@, def("x-trace-id"@));
    insert_pair(v2, "mcp_provider_type"@, def(provider_type_of(m)))
}

/// The allowed subjects joined by commas, or empty without OAuth.
pub open spec fn allowed_subjects_of(m: FtlModel) -> Seq<char> {
    match m.oauth {
        Some(o) => join(o.allowed_subjects, ","@),
        None => Seq::empty(),
    }
}

/// Authorization rule variables.
pub open spec fn ownership_vars(v: Seq<(Seq<char>, SpinVarModel)>, m: FtlModel) -> Seq<(Seq<char>, SpinVarModel)> {
    let v1 = insert_pair(v, "mcp_auth_allowed_subjects"@, def(allowed_subjects_of(m)));
    let v2 = insert_pair(v1, "mcp_auth_required_claims"@, def(Seq::empty()));
    insert_pair(v2, "mcp_auth_forward_claims"@, def(Seq::empty()))
}

/// The JWKS URI, or empty without OAuth.
pub open spec fn jwks_uri_of(m: FtlModel) -> Seq<char> {
    match m.oauth {
        Some(o) => o.jwks_uri,
        None => Seq::empty(),
    }
}

/// JWT issuer, audience, scopes and key set.
pub open spec fn jwt_vars(v: Seq<(Seq<char>, SpinVarModel)>, m: FtlModel) -> Seq<(Seq<char>, SpinVarModel)> {
    let v1 = insert_pair(v, "mcp_jwt_issuer"@, def(issuer_of(m)));
    let v2 = insert_pair(v1, "mcp_jwt_audience"@, def(audience_of(m)));
    let v3 = insert_pair(v2, "mcp_jwt_required_scopes"@, def(required_scopes_of(m)));
    insert_pair(v3, "mcp_jwt_jwks_uri"@, def(jwks_uri_of(m)))
}

/// Public key, algorithm and OAuth endpoints (empty without OAuth).
pub open spec fn oauth_vars(v: Seq<(Seq<char>, SpinVarModel)>, m: FtlModel) -> Seq<(Seq<char>, SpinVarModel)> {
    match m.oauth {
        Some(o) => {
            let v1 = insert_pair(v, "mcp_jwt_public_key"@, def(o.public_key));
            let v2 = insert_pair(v1, "mcp_jwt_algorithm"@, def(o.algorithm));
            let v3 = insert_pair(v2, "mcp_oauth_authorize_endpoint"@, def(o.authorize_endpoint));
            let v4 = insert_pair(v3, "mcp_oauth_token_endpoint"@, def(o.token_endpoint));
            insert_pair(v4, "mcp_oauth_userinfo_endpoint"@, def(o.userinfo_endpoint))
        },
        None => {
            let v1 = insert_pair(v, "mcp_jwt_public_key"@, def(Seq::empty()));
            let v2 = insert_pair(v1, "mcp_jwt_algorithm"@, def(Seq::empty()));
            let v3 = insert_pair(v2, "mcp_oauth_authorize_endpoint"@, def(Seq::empty()));
            let v4 = insert_pair(v3, "mcp_oauth_token_endpoint"@, def(Seq::empty()));
            insert_pair(v4, "mcp_oauth_userinfo_endpoint"@, def(Seq::empty()))
        },
    }
}

/// The static tokens and the tenant, both empty, that the authorizer
/// refers to when authentication is on.
pub open spec fn tenant_vars(v: Seq<(Seq<char>, SpinVarModel)>) -> Seq<(Seq<char>, SpinVarModel)> {
    let v1 = insert_pair(v, "mcp_static_tokens"@, def(Seq::empty()));
    insert_pair(v1, "mcp_tenant_id"@, def(Seq::empty()))
}

/// Empty provider variables, so that the authorizer sees no provider.
pub open spec fn empty_provider_vars(v: Seq<(Seq<char>, SpinVarModel)>) -> Seq<(Seq<char>, SpinVarModel)> {
    let e = def(Seq::empty());
    let v1 = insert_pair(v, "mcp_jwt_issuer"@, e);
    let v2 = insert_pair(v1, "mcp_jwt_audience"@, e);
    let v3 = insert_pair(v2, "mcp_jwt_jwks_uri"@, e);
    let v4 = insert_pair(v3, "mcp_jwt_public_key"@, e);
    let v5 = insert_pair(v4, "mcp_jwt_algorithm"@, e);
    let v6 = insert_pair(v5, "mcp_jwt_required_scopes"@, e);
    let v7 = insert_pair(v6, "mcp_oauth_authorize_endpoint"@, e);
    let v8 = insert_pair(v7, "mcp_oauth_token_endpoint"@, e);
    let v9 = insert_pair(v8, "mcp_oauth_userinfo_endpoint"@, e);
    insert_pair(v9, "mcp_provider_type"@, e)
}

/// All manifest variables of the transpilation of `m`, in insertion order.
pub open spec fn transpiled_variables(m: FtlModel) -> Seq<(Seq<char>, SpinVarModel)> {
    let v0 = app_vars(Seq::empty(), m.variables);
    let v1 = insert_pair(v0, "component_names"@, def(join(keys_of(m.component), ","@)));
    let v2 = insert_pair(v1, "auth_enabled"@, def(bool_text(auth_enabled(m))));
    let v3 = core_mcp_vars(v2, m);
    let v4 = ownership_vars(v3, m);
    if auth_enabled(m) {
        tenant_vars(oauth_vars(jwt_vars(v4, m), m))
    } else {
        empty_provider_vars(v4)
    }
}

// ---------------------------------------------------------------------------
// Specification: components
// ---------------------------------------------------------------------------

/// A `{{ name }}` template referring to variable `name`.
pub open spec fn template(name: Seq<char>) -> Seq<char> {
    "{{ "@ + name + " }}"@
}

/// Inserts the variable `name` with value `{{ name }}`.
pub open spec fn tv(v: Seq<(Seq<char>, Seq<char>)>, name: Seq<char>) -> Seq<(Seq<char>, Seq<char>)> {
    insert_pair(v, name, template(name))
}

/// The variables of the authorizer component: each one refers to the
/// application variable of the same name.
pub open spec fn authorizer_vars() -> Seq<(Seq<char>, Seq<char>)> {
    let v0 = Seq::<(Seq<char>, Seq<char>)>::empty();
    let v1 = tv(v0, "mcp_gateway_url"@);
    let v2 = tv(v1, "mcp_trace_header"@);
    let v3 = tv(v2, "mcp_provider_type"@);
    let v4 = tv(v3, "mcp_jwt_issuer"@);
    let v5 = tv(v4, "mcp_jwt_audience"@);
    let v6 = tv(v5, "mcp_jwt_jwks_uri"@);
    let v7 = tv(v6, "mcp_jwt_public_key"@);
    let v8 = tv(v7, "mcp_jwt_algorithm"@);
    let v9 = tv(v8, "mcp_jwt_required_scopes"@);
    let v10 = tv(v9, "mcp_oauth_authorize_endpoint"@);
    let v11 = tv(v10, "mcp_oauth_token_endpoint"@);
    let v12 = tv(v11, "mcp_oauth_userinfo_endpoint"@);
    let v13 = tv(v12, "mcp_static_tokens"@);
    tv(v13, "mcp_tenant_id"@)
}

/// A component reference, or `fallback` when the reference is empty.
pub open spec fn or_default(uri: Seq<char>, fallback: Seq<char>) -> Seq<char> {
    if uri.len() == 0 {
        fallback
    } else {
        uri
    }
}

/// The authorizer component for reference `uri`.
pub open spec fn authorizer_model(uri: Seq<char>) -> SpinComponentModel {
    SpinComponentModel {
        description: Seq::empty(),
        source: SourceModel::Local(or_default(uri, "ghcr.io/fastertools/mcp-authorizer:0.0.13"@)),
        files: Seq::empty(),
        exclude_files: Seq::empty(),
        allowed_outbound_hosts: seq![
            "http://*.spin.internal"@,
            "https://*.authkit.app"@,
            "https://*.workos.com"@,
        ],
        key_value_stores: seq!["default"@],
        environment: Seq::empty(),
        build: None,
        variables: authorizer_vars(),
        dependencies_inherit_configuration: false,
        dependencies: Seq::empty(),
    }
}

/// The gateway component for reference `uri`.
pub open spec fn gateway_model(uri: Seq<char>, validate_args: bool) -> SpinComponentModel {
    SpinComponentModel {
        description: Seq::empty(),
        source: SourceModel::Local(or_default(uri, "ghcr.io/fastertools/mcp-gateway:0.0.11"@)),
        files: Seq::empty(),
        exclude_files: Seq::empty(),
        allowed_outbound_hosts: seq!["http://*.spin.internal"@],
        key_value_stores: Seq::empty(),
        environment: Seq::empty(),
        build: None,
        variables: insert_pair(
            insert_pair(Seq::empty(), "component_names"@, "{{ component_names }}"@),
            "validate_arguments"@,
            bool_text(validate_args),
        ),
        dependencies_inherit_configuration: false,
        dependencies: Seq::empty(),
    }
}

/// The source of a user component: its Wasm file, else its repository
/// reference, else `unknown.wasm`; always a local source.
pub open spec fn user_source(c: ComponentModel) -> SourceModel {
    match c.wasm {
        Some(w) => SourceModel::Local(w),
        None => match c.repo {
            Some(r) => SourceModel::Local(r),
            None => SourceModel::Local("unknown.wasm"@),
        },
    }
}

/// The manifest component for user component `name`.
pub open spec fn user_model(name: Seq<char>, c: ComponentModel) -> SpinComponentModel {
    SpinComponentModel {
        description: Seq::empty(),
        source: user_source(c),
        files: Seq::empty(),
        exclude_files: Seq::empty(),
        allowed_outbound_hosts: c.allowed_outbound_hosts,
        key_value_stores: Seq::empty(),
        environment: Seq::empty(),
        build: match c.build {
            Some(b) => Some(
                SpinBuildModel {
                    command: b.command,
                    workdir: component_dir(c, name),
                    watch: b.watch,
                    environment: b.env,
                },
            ),
            None => None,
        },
        variables: c.variables,
        dependencies_inherit_configuration: false,
        dependencies: Seq::empty(),
    }
}

/// The user components inserted in order into `base`.
pub open spec fn user_components(
    base: Seq<(Seq<char>, SpinComponentModel)>,
    comps: Seq<(Seq<char>, ComponentModel)>,
) -> Seq<(Seq<char>, SpinComponentModel)>
    decreases comps.len(),
{
    if comps.len() == 0 {
        base
    } else {
        insert_pair(
            user_components(base, comps.drop_last()),
            comps.last().0,
            user_model(comps.last().0, comps.last().1),
        )
    }
}

/// The system components: with authentication the authorizer as `mcp` and
/// the gateway as `ftl-mcp-gateway`; without it the gateway as `mcp`.
pub open spec fn system_components(m: FtlModel) -> Seq<(Seq<char>, SpinComponentModel)> {
    let e = Seq::<(Seq<char>, SpinComponentModel)>::empty();
    if auth_enabled(m) {
        insert_pair(
            insert_pair(e, "mcp"@, authorizer_model(m.mcp.authorizer)),
            "ftl-mcp-gateway"@,
            gateway_model(m.mcp.gateway, m.mcp.validate_arguments),
        )
    } else {
        insert_pair(e, "mcp"@, gateway_model(m.mcp.gateway, m.mcp.validate_arguments))
    }
}

/// All manifest components of the transpilation of `m`, in insertion order.
pub open spec fn transpiled_components(m: FtlModel) -> Seq<(Seq<char>, SpinComponentModel)> {
    user_components(system_components(m), m.component)
}

/// The manifest (without triggers) that `m` transpiles to.
pub open spec fn transpiled_manifest(m: FtlModel) -> SpinModel {
    SpinModel {
        spin_manifest_version: 2,
        application: crate::spin_config::AppModel {
            name: m.project.name,
            version: m.project.version,
            description: m.project.description,
            authors: m.project.authors,
            trigger: None,
        },
        variables: transpiled_variables(m),
        component: transpiled_components(m),
    }
}

// ---------------------------------------------------------------------------
// Specification: triggers
// ---------------------------------------------------------------------------

/// A private HTTP route to component `name`.
pub open spec fn private_trigger(name: Seq<char>) -> HttpTriggerModel {
    HttpTriggerModel { route: RouteModel::Private(true), component: name, executor: None }
}

/// The catch-all route `/...` to component `mcp`.
pub open spec fn wildcard_trigger() -> HttpTriggerModel {
    HttpTriggerModel { route: RouteModel::Path("/..."@), component: "mcp"@, executor: None }
}

/// One private route per name, in order.
pub open spec fn private_triggers(names: Seq<Seq<char>>) -> Seq<HttpTriggerModel>
    decreases names.len(),
{
    if names.len() == 0 {
        Seq::empty()
    } else {
        private_triggers(names.drop_last()).push(private_trigger(names.last()))
    }
}

/// The HTTP triggers of the transpilation of `m`: all traffic goes to `mcp`;
/// with authentication the gateway is private; every user component gets a
/// private route.
pub open spec fn transpiled_triggers(m: FtlModel) -> TriggersModel {
    let system = if auth_enabled(m) {
        seq![wildcard_trigger(), private_trigger("ftl-mcp-gateway"@)]
    } else {
        seq![wildcard_trigger()]
    };
    TriggersModel { http: system + private_triggers(keys_of(m.component)), redis: Seq::empty() }
}

/// The spin.toml text that `m` transpiles to.
pub open spec fn transpiled_text(m: FtlModel) -> Seq<char> {
    manifest_text(transpiled_manifest(m), transpiled_triggers(m))
}

// ---------------------------------------------------------------------------
// Variables
// ---------------------------------------------------------------------------

/// Sets variable `name` to a default value.
fn set_default(vars: &mut StrMap<SpinVariable>, name: &str, value: String)
    ensures
        final(vars)@ == insert_pair(old(vars)@, name@, def(value@)),
{
    vars.insert(name.to_owned(), SpinVariable::Default { default: value });
}

/// Adds the gateway URL, trace header and provider type variables.
pub fn add_core_mcp_variables(vars: &mut StrMap<SpinVariable>, ftl: &FtlConfig)
    ensures
        final(vars)@ == core_mcp_vars(old(vars)@, ftl@),
{
    let gateway_url = if ftl.is_auth_enabled() {
        "http://ftl-mcp-gateway.spin.internal/mcp-internal".to_owned()
    } else {
        "none".to_owned()
    };
    set_default(vars, "mcp_gateway_url", gateway_url);
    set_default(vars, "mcp_trace_header", "x-trace-id".to_owned());
    set_default(vars, "mcp_provider_type", ftl.auth_provider_type().to_owned());
}

/// Adds the authorization rule variables: allowed subjects (joined by
/// commas), required claims and forwarded claims.
pub fn add_ownership_variables(vars: &mut StrMap<SpinVariable>, ftl: &FtlConfig)
    ensures
        final(vars)@ == ownership_vars(old(vars)@, ftl@),
{
    let allowed_subjects = match &ftl.oauth {
        Some(oauth) => crate::manifest_text::join_strings(&oauth.allowed_subjects, ","),
        None => String::new(),
    };
    set_default(vars, "mcp_auth_allowed_subjects", allowed_subjects);
    set_default(vars, "mcp_auth_required_claims", String::new());
    set_default(vars, "mcp_auth_forward_claims", String::new());
}

/// Adds the JWT issuer, audience, required scopes and JWKS URI variables.
pub fn add_jwt_variables(vars: &mut StrMap<SpinVariable>, ftl: &FtlConfig)
    ensures
        final(vars)@ == jwt_vars(old(vars)@, ftl@),
{
    set_default(vars, "mcp_jwt_issuer", ftl.auth_issuer().to_owned());
    set_default(vars, "mcp_jwt_audience", ftl.auth_audience().to_owned());
    set_default(vars, "mcp_jwt_required_scopes", ftl.auth_required_scopes().to_owned());
    let jwks_uri = match &ftl.oauth {
        Some(o) => o.jwks_uri.clone(),
        None => String::new(),
    };
    set_default(vars, "mcp_jwt_jwks_uri", jwks_uri);
}

/// Adds the public key, algorithm and OAuth endpoint variables (empty
/// values without OAuth).
pub fn add_oauth_variables(vars: &mut StrMap<SpinVariable>, ftl: &FtlConfig)
    ensures
        final(vars)@ == oauth_vars(old(vars)@, ftl@),
{
    match &ftl.oauth {
        Some(oauth) => {
            set_default(vars, "mcp_jwt_public_key", oauth.public_key.clone());
            set_default(vars, "mcp_jwt_algorithm", oauth.algorithm.clone());
            set_default(vars, "mcp_oauth_authorize_endpoint", oauth.authorize_endpoint.clone());
            set_default(vars, "mcp_oauth_token_endpoint", oauth.token_endpoint.clone());
            set_default(vars, "mcp_oauth_userinfo_endpoint", oauth.userinfo_endpoint.clone());
        },
        None => {
            set_default(vars, "mcp_jwt_public_key", String::new());
            set_default(vars, "mcp_jwt_algorithm", String::new());
            set_default(vars, "mcp_oauth_authorize_endpoint", String::new());
            set_default(vars, "mcp_oauth_token_endpoint", String::new());
            set_default(vars, "mcp_oauth_userinfo_endpoint", String::new());
        },
    }
}

/// Adds the empty static tokens and tenant variables.
fn add_tenant_variables(vars: &mut StrMap<SpinVariable>)
    ensures
        final(vars)@ == tenant_vars(old(vars)@),
{
    set_default(vars, "mcp_static_tokens", String::new());
    set_default(vars, "mcp_tenant_id", String::new());
}

/// Sets every provider variable to an empty default.
fn add_empty_provider_variables(vars: &mut StrMap<SpinVariable>)
    ensures
        final(vars)@ == empty_provider_vars(old(vars)@),
{
    set_default(vars, "mcp_jwt_issuer", String::new());
    set_default(vars, "mcp_jwt_audience", String::new());
    set_default(vars, "mcp_jwt_jwks_uri", String::new());
    set_default(vars, "mcp_jwt_public_key", String::new());
    set_default(vars, "mcp_jwt_algorithm", String::new());
    set_default(vars, "mcp_jwt_required_scopes", String::new());
    set_default(vars, "mcp_oauth_authorize_endpoint", String::new());
    set_default(vars, "mcp_oauth_token_endpoint", String::new());
    set_default(vars, "mcp_oauth_userinfo_endpoint", String::new());
    set_default(vars, "mcp_provider_type", String::new());
}

/// The manifest variable for an application variable.
fn app_variable(v: &ApplicationVariable) -> (r: SpinVariable)
    ensures
        r@ == app_var_model(v@),
{
    match v {
        ApplicationVariable::Default { default } => SpinVariable::Default { default: default.clone() },
        ApplicationVariable::Required { required: _ } => SpinVariable::Required { required: true },
    }
}

/// All manifest variables of the transpilation.
fn build_variables(ftl: &FtlConfig) -> (r: StrMap<SpinVariable>)
    ensures
        r@ == transpiled_variables(ftl@),
{
    let mut vars: StrMap<SpinVariable> = StrMap::new();
    let mut i: usize = 0;
    while i < ftl.variables.len()
        invariant
            i <= ftl@.variables.len(),
            vars@ == app_vars(Seq::empty(), ftl@.variables.subrange(0, i as int)),
        decreases ftl@.variables.len() - i,
    {
        let v = app_variable(ftl.variables.value_at(i));
        vars.insert(ftl.variables.key_at(i).clone(), v);
        assert(ftl@.variables.subrange(0, i + 1).drop_last() =~= ftl@.variables.subrange(0, i as int));
        i = i + 1;
    }
    assert(ftl@.variables.subrange(0, ftl@.variables.len() as int) =~= ftl@.variables);
    let names = ftl.component_names();
    set_default(&mut vars, "component_names", crate::manifest_text::join_strings(&names, ","));
    set_default(&mut vars, "auth_enabled", bool_str(ftl.is_auth_enabled()).to_owned());
    add_core_mcp_variables(&mut vars, ftl);
    add_ownership_variables(&mut vars, ftl);
    if ftl.is_auth_enabled() {
        add_jwt_variables(&mut vars, ftl);
        add_oauth_variables(&mut vars, ftl);
        add_tenant_variables(&mut vars);
    } else {
        add_empty_provider_variables(&mut vars);
    }
    vars
}

// ---------------------------------------------------------------------------
// Components
// ---------------------------------------------------------------------------

/// The source of a component reference. Every reference, registry ones
/// included, is kept as a local source: registry components are fetched
/// into local files before transpilation.
pub fn parse_component_source(source: &str, _default_registry: Option<&str>) -> (r: ComponentSource)
    ensures
        r@ == SourceModel::Local(source@),
{
    ComponentSource::Local(source.to_owned())
}

/// Inserts the variable `name` with value `{{ name }}`.
fn add_template_var(vars: &mut StrMap<String>, name: &str)
    ensures
        final(vars)@ == tv(old(vars)@, name@),
{
    let mut value = String::new();
    push_str(&mut value, "{{ ");
    push_str(&mut value, name);
    push_str(&mut value, " }}");
    assert(value@ =~= template(name@));
    vars.insert(name.to_owned(), value);
}

/// An empty list of strings.
fn no_strings() -> (r: Vec<String>)
    ensures
        r.deep_view() == Seq::<Seq<char>>::empty(),
        r@.len() == 0,
{
    let v: Vec<String> = Vec::new();
    assert(v.deep_view() =~= Seq::<Seq<char>>::empty());
    v
}

/// A component with the given source, outbound hosts, key-value stores,
/// build and variables, and nothing else.
fn plain_component(
    source: ComponentSource,
    allowed_outbound_hosts: Vec<String>,
    key_value_stores: Vec<String>,
    build: Option<ComponentBuildConfig>,
    variables: StrMap<String>,
) -> (r: SpinComponent)
    ensures
        r@ == (SpinComponentModel {
            description: Seq::empty(),
            source: source@,
            files: Seq::empty(),
            exclude_files: Seq::empty(),
            allowed_outbound_hosts: allowed_outbound_hosts.deep_view(),
            key_value_stores: key_value_stores.deep_view(),
            environment: Seq::empty(),
            build: match build {
                Some(b) => Some(b@),
                None => None,
            },
            variables: variables@,
            dependencies_inherit_configuration: false,
            dependencies: Seq::empty(),
        }),
{
    let files: Vec<crate::spin_config::FileMount> = Vec::new();
    assert(views(files@) =~= Seq::<crate::spin_config::FileMountModel>::empty());
    let r = SpinComponent {
        description: String::new(),
        source,
        files,
        exclude_files: no_strings(),
        allowed_outbound_hosts,
        key_value_stores,
        environment: StrMap::new(),
        build,
        variables,
        dependencies_inherit_configuration: false,
        dependencies: StrMap::new(),
    };
    r
}

/// The authorizer component for reference `registry_uri` (the default
/// authorizer when empty).
pub fn create_mcp_component(registry_uri: &str, default_registry: Option<&str>) -> (r: SpinComponent)
    ensures
        r@ == authorizer_model(registry_uri@),
{
    let uri = if registry_uri.is_empty() {
        "ghcr.io/fastertools/mcp-authorizer:0.0.13"
    } else {
        registry_uri
    };
    let source = parse_component_source(uri, default_registry);
    let mut hosts: Vec<String> = Vec::new();
    hosts.push("http://*.spin.internal".to_owned());
    hosts.push("https://*.authkit.app".to_owned());
    hosts.push("https://*.workos.com".to_owned());
    assert(hosts.deep_view() =~= seq!["http://*.spin.internal"@, "https://*.authkit.app"@, "https://*.workos.com"@]);
    let mut stores: Vec<String> = Vec::new();
    stores.push("default".to_owned());
    assert(stores.deep_view() =~= seq!["default"@]);
    let mut vars: StrMap<String> = StrMap::new();
    add_template_var(&mut vars, "mcp_gateway_url");
    add_template_var(&mut vars, "mcp_trace_header");
    add_template_var(&mut vars, "mcp_provider_type");
    add_template_var(&mut vars, "mcp_jwt_issuer");
    add_template_var(&mut vars, "mcp_jwt_audience");
    add_template_var(&mut vars, "mcp_jwt_jwks_uri");
    add_template_var(&mut vars, "mcp_jwt_public_key");
    add_template_var(&mut vars, "mcp_jwt_algorithm");
    add_template_var(&mut vars, "mcp_jwt_required_scopes");
    add_template_var(&mut vars, "mcp_oauth_authorize_endpoint");
    add_template_var(&mut vars, "mcp_oauth_token_endpoint");
    add_template_var(&mut vars, "mcp_oauth_userinfo_endpoint");
    add_template_var(&mut vars, "mcp_static_tokens");
    add_template_var(&mut vars, "mcp_tenant_id");
    plain_component(source, hosts, stores, None, vars)
}

/// The gateway component for reference `registry_uri` (the default gateway
/// when empty).
pub fn create_gateway_component(registry_uri: &str, validate_args: bool, default_registry: Option<&str>) -> (r: SpinComponent)
    ensures
        r@ == gateway_model(registry_uri@, validate_args),
{
    let uri = if registry_uri.is_empty() {
        "ghcr.io/fastertools/mcp-gateway:0.0.11"
    } else {
        registry_uri
    };
    let source = parse_component_source(uri, default_registry);
    let mut hosts: Vec<String> = Vec::new();
    hosts.push("http://*.spin.internal".to_owned());
    assert(hosts.deep_view() =~= seq!["http://*.spin.internal"@]);
    let mut vars: StrMap<String> = StrMap::new();
    vars.insert("component_names".to_owned(), "{{ component_names }}".to_owned());
    vars.insert("validate_arguments".to_owned(), bool_str(validate_args).to_owned());
    plain_component(source, hosts, no_strings(), None, vars)
}

/// The manifest component for user component `name`.
pub fn create_user_component(name: &str, config: &FtlComponent, default_registry: Option<&str>) -> (r: SpinComponent)
    ensures
        r@ == user_model(name@, config@),
{
    let source = match &config.wasm {
        Some(wasm_path) => ComponentSource::Local(wasm_path.clone()),
        None => match &config.repo {
            Some(repo_ref) => parse_component_source(repo_ref.as_str(), default_registry),
            None => ComponentSource::Local("unknown.wasm".to_owned()),
        },
    };
    let hosts = crate::ftl_config::copy_strings(&config.allowed_outbound_hosts);
    let build = match &config.build {
        Some(b) => Some(
            ComponentBuildConfig {
                command: b.command.clone(),
                workdir: config.get_path(name),
                watch: crate::ftl_config::copy_strings(&b.watch),
                environment: crate::ftl_config::Duplicate::duplicate(&b.env),
            },
        ),
        None => None,
    };
    let variables = crate::ftl_config::Duplicate::duplicate(&config.variables);
    plain_component(source, hosts, no_strings(), build, variables)
}

/// All manifest components of the transpilation.
fn build_components(ftl: &FtlConfig) -> (r: StrMap<SpinComponent>)
    ensures
        r@ == transpiled_components(ftl@),
{
    let default_registry: Option<&str> = match &ftl.project.default_registry {
        Some(r) => Some(r.as_str()),
        None => None,
    };
    let mut comps: StrMap<SpinComponent> = StrMap::new();
    if ftl.is_auth_enabled() {
        comps.insert("mcp".to_owned(), create_mcp_component(ftl.mcp.authorizer.as_str(), default_registry));
        comps.insert(
            "ftl-mcp-gateway".to_owned(),
            create_gateway_component(ftl.mcp.gateway.as_str(), ftl.mcp.validate_arguments, default_registry),
        );
    } else {
        comps.insert(
            "mcp".to_owned(),
            create_gateway_component(ftl.mcp.gateway.as_str(), ftl.mcp.validate_arguments, default_registry),
        );
    }
    let ghost base = comps@;
    assert(base == system_components(ftl@));
    let mut i: usize = 0;
    while i < ftl.component.len()
        invariant
            i <= ftl@.component.len(),
            comps@ == user_components(base, ftl@.component.subrange(0, i as int)),
        decreases ftl@.component.len() - i,
    {
        let name = ftl.component.key_at(i);
        let c = create_user_component(name.as_str(), ftl.component.value_at(i), default_registry);
        comps.insert(name.clone(), c);
        assert(ftl@.component.subrange(0, i + 1).drop_last() =~= ftl@.component.subrange(0, i as int));
        i = i + 1;
    }
    assert(ftl@.component.subrange(0, ftl@.component.len() as int) =~= ftl@.component);
    comps
}

// ---------------------------------------------------------------------------
// Triggers
// ---------------------------------------------------------------------------

/// A private HTTP route to component `name`.
fn private_route(name: String) -> (r: HttpTrigger)
    ensures
        r@ == private_trigger(name@),
{
    HttpTrigger { route: RouteConfig::Private { private: true }, component: name, executor: None }
}

/// The HTTP triggers of the transpilation: the catch-all route to `mcp`, the
/// private gateway route when authentication is enabled, and one private
/// route per user component.
pub fn build_triggers(ftl: &FtlConfig) -> (r: TriggerConfig)
    ensures
        r@ == transpiled_triggers(ftl@),
{
    let mut http: Vec<HttpTrigger> = Vec::new();
    http.push(
        HttpTrigger { route: RouteConfig::Path("/...".to_owned()), component: "mcp".to_owned(), executor: None },
    );
    if ftl.is_auth_enabled() {
        http.push(private_route("ftl-mcp-gateway".to_owned()));
    }
    let ghost system = views(http@);
    let names = ftl.component_names();
    let mut i: usize = 0;
    assert(views(http@) =~= system + private_triggers(names.deep_view().subrange(0, 0)));
    while i < names.len()
        invariant
            i <= names@.len(),
            views(http@) == system + private_triggers(names.deep_view().subrange(0, i as int)),
        decreases names@.len() - i,
    {
        let ghost before = views(http@);
        http.push(private_route(names[i].clone()));
        assert(names.deep_view().subrange(0, i + 1).drop_last() =~= names.deep_view().subrange(0, i as int));
        assert(views(http@) =~= before.push(private_trigger(names[i as int]@)));
        assert(views(http@) =~= system + private_triggers(names.deep_view().subrange(0, i + 1)));
        i = i + 1;
    }
    assert(names.deep_view().subrange(0, names@.len() as int) =~= names.deep_view());
    let redis: Vec<crate::spin_config::RedisTrigger> = Vec::new();
    let r = TriggerConfig { http, redis };
    assert(views(redis@) =~= Seq::<crate::spin_config::RedisTriggerModel>::empty());
    assert(system =~= (if auth_enabled(ftl@) {
        seq![wildcard_trigger(), private_trigger("ftl-mcp-gateway"@)]
    } else {
        seq![wildcard_trigger()]
    }));
    r
}

// ---------------------------------------------------------------------------
// Transpilation
// ---------------------------------------------------------------------------

/// Transpiles an FTL configuration into spin.toml text. Component references
/// are kept as given. The transpilation always succeeds.
pub fn transpile_ftl_to_spin(ftl: &FtlConfig) -> (r: Result<String, String>)
    ensures
        r matches Ok(s) && s@ == transpiled_text(ftl@),
{
    let mut spin = SpinConfig::new(ftl.project.name.clone());
    spin.application.version = ftl.project.version.clone();
    spin.application.description = ftl.project.description.clone();
    spin.application.authors = crate::ftl_config::copy_strings(&ftl.project.authors);
    spin.variables = build_variables(ftl);
    spin.component = build_components(ftl);
    let triggers = build_triggers(ftl);
    assert(spin@ == transpiled_manifest(ftl@));
    spin.to_toml_string_with_triggers(&triggers)
}

/// Checks the auth settings for local development. Local development takes
/// a configuration without `[oauth]` (public access) or with it (custom
/// OAuth), so every configuration passes.
pub fn validate_local_auth(_ftl_config: &FtlConfig) -> (r: Result<(), String>)
    ensures
        r is Ok,
{
    Ok(())
}

// ---------------------------------------------------------------------------
// Paths
// ---------------------------------------------------------------------------

/// The path's extension is `wasm`, in any ASCII case.
pub open spec fn wasm_extension(p: Seq<char>) -> bool {
    match path_extension_of(p) {
        Some(e) => eq_ignore_ascii_case(e, "wasm"@),
        None => false,
    }
}

/// A path made absolute against `base`: relative paths of local Wasm files
/// are joined to `base`; absolute paths, URLs and all other paths are kept.
pub open spec fn absolutized(p: Seq<char>, base: Seq<char>) -> Seq<char> {
    if !has_prefix(p, "/"@) && !has_infix(p, "://"@) && wasm_extension(p) {
        path_join_of(base, p)
    } else {
        p
    }
}

/// Whether a path has the `wasm` extension in any ASCII case.
fn has_wasm_extension(p: &str) -> (r: bool)
    ensures
        r == wasm_extension(p@),
{
    match path_extension(p) {
        Some(e) => {
            let ec = chars_of(e.as_str());
            let w = chars_of("wasm");
            chars_eq_ignore_ascii_case(ec.as_slice(), w.as_slice())
        },
        None => false,
    }
}

/// Makes `path` absolute against `base` when it names a local Wasm file
/// by a relative path; leaves every other path unchanged.
pub fn make_path_absolute(path: &mut String, base: &str)
    ensures
        final(path)@ == absolutized(old(path)@, base@),
{
    let cs = chars_of(path.as_str());
    let slash = chars_of("/");
    let scheme = chars_of("://");
    let is_wasm = has_wasm_extension(path.as_str());
    if chars_have_prefix(cs.as_slice(), slash.as_slice()) || chars_have_infix(cs.as_slice(), scheme.as_slice())
        || (chars_contain(cs.as_slice(), '/') && !is_wasm) {
        return;
    }
    if is_wasm {
        *path = path_join(base, path.as_str());
    }
}

/// A user component with resolved paths: a component fetched from a
/// registry points at its local file; local Wasm files and component
/// directories are made absolute.
pub open spec fn resolve_component(
    name: Seq<char>,
    c: ComponentModel,
    mappings: Seq<(Seq<char>, Seq<char>)>,
    base: Seq<char>,
) -> ComponentModel {
    let c1 = match lookup(mappings, name) {
        Some(p) => ComponentModel { repo: None, wasm: Some(p), ..c },
        None => match c.wasm {
            Some(w) => ComponentModel { wasm: Some(absolutized(w, base)), ..c },
            None => c,
        },
    };
    match c1.path {
        Some(p) => ComponentModel { path: Some(absolutized(p, base)), ..c1 },
        None => c1,
    }
}

/// All user components with resolved paths.
pub open spec fn resolve_components(
    comps: Seq<(Seq<char>, ComponentModel)>,
    mappings: Seq<(Seq<char>, Seq<char>)>,
    base: Seq<char>,
) -> Seq<(Seq<char>, ComponentModel)>
    decreases comps.len(),
{
    if comps.len() == 0 {
        Seq::empty()
    } else {
        resolve_components(comps.drop_last(), mappings, base).push(
            (comps.last().0, resolve_component(comps.last().0, comps.last().1, mappings, base)),
        )
    }
}

/// A system component reference: its resolved local file when fetched,
/// else the reference made absolute.
pub open spec fn resolve_system(uri: Seq<char>, key: Seq<char>, mappings: Seq<(Seq<char>, Seq<char>)>, base: Seq<char>) -> Seq<char> {
    match lookup(mappings, key) {
        Some(p) => p,
        None => absolutized(uri, base),
    }
}

/// The configuration with resolved paths.
pub open spec fn resolved_config(m: FtlModel, mappings: Seq<(Seq<char>, Seq<char>)>, base: Seq<char>) -> FtlModel {
    FtlModel {
        mcp: crate::ftl_config::McpModel {
            gateway: resolve_system(m.mcp.gateway, "mcp-gateway"@, mappings, base),
            authorizer: resolve_system(m.mcp.authorizer, "mcp-authorizer"@, mappings, base),
            validate_arguments: m.mcp.validate_arguments,
        },
        component: resolve_components(m.component, mappings, base),
        ..m
    }
}

/// One user component with resolved paths.
fn resolve_one(name: &str, c: &FtlComponent, resolved_mappings: &StrMap<String>, base: &str) -> (r: FtlComponent)
    ensures
        r@ == resolve_component(name@, c@, resolved_mappings@, base@),
{
    let mut out = Duplicate::duplicate(c);
    match resolved_mappings.get(name) {
        Some(resolved_path) => {
            out.repo = None;
            out.wasm = Some(resolved_path.clone());
        },
        None => {
            if let Some(wasm_path) = &c.wasm {
                let mut abs_wasm = wasm_path.clone();
                make_path_absolute(&mut abs_wasm, base);
                out.wasm = Some(abs_wasm);
            }
        },
    }
    let ghost mid = out@;
    if let Some(path) = &c.path {
        let mut abs_path = path.clone();
        make_path_absolute(&mut abs_path, base);
        out.path = Some(abs_path);
    }
    out
}

/// Transpiles an FTL configuration into spin.toml text after resolving its
/// paths: components fetched from a registry (`resolved_mappings`, by
/// component name; `mcp-gateway` and `mcp-authorizer` for the system
/// components) point at their local files, and relative paths of local Wasm
/// files and component directories are joined to `abs_project_path`, the
/// canonical project directory.
pub fn create_spin_toml_with_resolved_paths(
    ftl_config: &FtlConfig,
    resolved_mappings: &StrMap<String>,
    abs_project_path: &str,
) -> (r: Result<String, String>)
    ensures
        r matches Ok(s) && s@ == transpiled_text(resolved_config(ftl_config@, resolved_mappings@, abs_project_path@)),
{
    let mut modified = Duplicate::duplicate(ftl_config);
    match resolved_mappings.get("mcp-gateway") {
        Some(gateway_path) => {
            modified.mcp.gateway = gateway_path.clone();
        },
        None => {
            make_path_absolute(&mut modified.mcp.gateway, abs_project_path);
        },
    }
    match resolved_mappings.get("mcp-authorizer") {
        Some(authorizer_path) => {
            modified.mcp.authorizer = authorizer_path.clone();
        },
        None => {
            make_path_absolute(&mut modified.mcp.authorizer, abs_project_path);
        },
    }
    proof {
        use_type_invariant(&ftl_config.component);
        ftl_config.component.lemma_inv();
    }
    let ghost orig = ftl_config@.component;
    let mut comps: StrMap<FtlComponent> = StrMap::new();
    let mut i: usize = 0;
    while i < ftl_config.component.len()
        invariant
            i <= orig.len(),
            orig == ftl_config@.component,
            crate::strmap::keys_distinct(orig),
            comps@ == resolve_components(orig.subrange(0, i as int), resolved_mappings@, abs_project_path@),
        decreases orig.len() - i,
    {
        let name = ftl_config.component.key_at(i);
        let c = resolve_one(name.as_str(), ftl_config.component.value_at(i), resolved_mappings, abs_project_path);
        proof {
            let pre = orig.subrange(0, i as int);
            assert(orig.subrange(0, i + 1).drop_last() =~= pre);
            lemma_resolve_components_keys(pre, resolved_mappings@, abs_project_path@);
            crate::strmap::lemma_key_index(comps@, name@);
            assert(!crate::strmap::has_key(comps@, name@)) by {
                if crate::strmap::has_key(comps@, name@) {
                    let j = choose|j: int| 0 <= j < comps@.len() && comps@[j].0 == name@;
                    assert(orig[j].0 == orig[i as int].0);
                }
            }
        }
        comps.insert(name.clone(), c);
        i = i + 1;
    }
    assert(orig.subrange(0, orig.len() as int) =~= orig);
    modified.component = comps;
    assert(modified@ == resolved_config(ftl_config@, resolved_mappings@, abs_project_path@));
    transpile_ftl_to_spin(&modified)
}

/// Resolving keeps the component names in place.
proof fn lemma_resolve_components_keys(
    comps: Seq<(Seq<char>, ComponentModel)>,
    mappings: Seq<(Seq<char>, Seq<char>)>,
    base: Seq<char>,
)
    ensures
        resolve_components(comps, mappings, base).len() == comps.len(),
        forall|j: int| 0 <= j < comps.len() ==> #[trigger] resolve_components(comps, mappings, base)[j].0 == comps[j].0,
    decreases comps.len(),
{
    if comps.len() > 0 {
        lemma_resolve_components_keys(comps.drop_last(), mappings, base);
    }
}

} // verus!
