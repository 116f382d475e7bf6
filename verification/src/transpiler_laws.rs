//! Laws of turning ftl.toml into spin.toml: which variables and
//! components every transpiled manifest has, and what they hold.
use vstd::prelude::*;
use crate::ftl_config::{audience_of, auth_enabled, issuer_of, required_scopes_of, FtlModel, ComponentModel};
use crate::manifest_text::bool_text;
use crate::spin_config::{SpinComponentModel, SpinVarModel};
use crate::strmap::{
    has_key, insert_pair, key_index, keys_distinct, keys_of, lemma_insert_pair, lemma_key_index,
    lookup,
};
use crate::spin_validation::{
    app_problems, app_name_shape, component_name_chars_ok, component_problems,
    first_component_problem, first_host_problem, first_variable_problem, host_problem,
    letter_char, named_component_problem, spin_problems, variable_problem, version_shape,
};
use crate::text::{has_infix, has_prefix, join, occurs_at};
use crate::transpiler::{
    app_var_model, app_vars, authorizer_model, core_mcp_vars, def, empty_provider_vars,
    gateway_model, jwt_vars, oauth_vars, ownership_vars, system_components, transpiled_components,
    transpiled_manifest, transpiled_variables, user_components, user_model, user_source,
    or_default, tenant_vars, jwks_uri_of,
};
use crate::spin_config::SourceModel;

verus! {

// ---------------------------------------------------------------------------
// Helpers
// ---------------------------------------------------------------------------

/// Inserting another key keeps keys distinct and leaves `other` as it was.
proof fn lemma_insert_other<V>(m: Seq<(Seq<char>, V)>, k: Seq<char>, v: V, other: Seq<char>)
    requires
        keys_distinct(m),
        !has_prefix(other, "mcp_"@),
        has_prefix(k, "mcp_"@),
    ensures
        keys_distinct(insert_pair(m, k, v)),
        lookup(insert_pair(m, k, v), other) == lookup(m, other),
{
    lemma_insert_pair(m, k, v);
}

/// The system variable names all start with `mcp_`.
proof fn lemma_mcp_names()
    ensures
        has_prefix("mcp_gateway_url"@, "mcp_"@),
        has_prefix("mcp_trace_header"@, "mcp_"@),
        has_prefix("mcp_provider_type"@, "mcp_"@),
        has_prefix("mcp_auth_allowed_subjects"@, "mcp_"@),
        has_prefix("mcp_auth_required_claims"@, "mcp_"@),
        has_prefix("mcp_auth_forward_claims"@, "mcp_"@),
        has_prefix("mcp_jwt_issuer"@, "mcp_"@),
        has_prefix("mcp_jwt_audience"@, "mcp_"@),
        has_prefix("mcp_jwt_required_scopes"@, "mcp_"@),
        has_prefix("mcp_jwt_jwks_uri"@, "mcp_"@),
        has_prefix("mcp_jwt_public_key"@, "mcp_"@),
        has_prefix("mcp_jwt_algorithm"@, "mcp_"@),
        has_prefix("mcp_oauth_authorize_endpoint"@, "mcp_"@),
        has_prefix("mcp_oauth_token_endpoint"@, "mcp_"@),
        has_prefix("mcp_oauth_userinfo_endpoint"@, "mcp_"@),
        has_prefix("mcp_static_tokens"@, "mcp_"@),
        has_prefix("mcp_tenant_id"@, "mcp_"@),
        !has_prefix("auth_enabled"@, "mcp_"@),
        !has_prefix("component_names"@, "mcp_"@),
{
    reveal_strlit("mcp_");
    reveal_strlit("mcp_gateway_url");
    reveal_strlit("mcp_trace_header");
    reveal_strlit("mcp_provider_type");
    reveal_strlit("mcp_auth_allowed_subjects");
    reveal_strlit("mcp_auth_required_claims");
    reveal_strlit("mcp_auth_forward_claims");
    reveal_strlit("mcp_jwt_issuer");
    reveal_strlit("mcp_jwt_audience");
    reveal_strlit("mcp_jwt_required_scopes");
    reveal_strlit("mcp_jwt_jwks_uri");
    reveal_strlit("mcp_jwt_public_key");
    reveal_strlit("mcp_jwt_algorithm");
    reveal_strlit("mcp_oauth_authorize_endpoint");
    reveal_strlit("mcp_oauth_token_endpoint");
    reveal_strlit("mcp_oauth_userinfo_endpoint");
    reveal_strlit("mcp_static_tokens");
    reveal_strlit("mcp_tenant_id");
    reveal_strlit("auth_enabled");
    reveal_strlit("component_names");
    assert("mcp_gateway_url"@.subrange(0, 4) =~= "mcp_"@);
    assert("mcp_trace_header"@.subrange(0, 4) =~= "mcp_"@);
    assert("mcp_provider_type"@.subrange(0, 4) =~= "mcp_"@);
    assert("mcp_auth_allowed_subjects"@.subrange(0, 4) =~= "mcp_"@);
    assert("mcp_auth_required_claims"@.subrange(0, 4) =~= "mcp_"@);
    assert("mcp_auth_forward_claims"@.subrange(0, 4) =~= "mcp_"@);
    assert("mcp_jwt_issuer"@.subrange(0, 4) =~= "mcp_"@);
    assert("mcp_jwt_audience"@.subrange(0, 4) =~= "mcp_"@);
    assert("mcp_jwt_required_scopes"@.subrange(0, 4) =~= "mcp_"@);
    assert("mcp_jwt_jwks_uri"@.subrange(0, 4) =~= "mcp_"@);
    assert("mcp_jwt_public_key"@.subrange(0, 4) =~= "mcp_"@);
    assert("mcp_jwt_algorithm"@.subrange(0, 4) =~= "mcp_"@);
    assert("mcp_oauth_authorize_endpoint"@.subrange(0, 4) =~= "mcp_"@);
    assert("mcp_oauth_token_endpoint"@.subrange(0, 4) =~= "mcp_"@);
    assert("mcp_oauth_userinfo_endpoint"@.subrange(0, 4) =~= "mcp_"@);
    assert("mcp_static_tokens"@.subrange(0, 4) =~= "mcp_"@);
    assert("mcp_tenant_id"@.subrange(0, 4) =~= "mcp_"@);
    assert(("auth_enabled"@.subrange(0, 4))[0] != ("mcp_"@)[0]);
    assert(("component_names"@.subrange(0, 4))[0] != ("mcp_"@)[0]);
}

/// The system variables added after `component_names` and `auth_enabled`
/// leave every name that does not start with `mcp_` as it was.
proof fn lemma_system_vars_keep(v: Seq<(Seq<char>, SpinVarModel)>, m: FtlModel, other: Seq<char>)
    requires
        keys_distinct(v),
        !has_prefix(other, "mcp_"@),
    ensures
        lookup(
            if auth_enabled(m) {
                crate::transpiler::tenant_vars(oauth_vars(jwt_vars(ownership_vars(core_mcp_vars(v, m), m), m), m))
            } else {
                empty_provider_vars(ownership_vars(core_mcp_vars(v, m), m))
            },
            other,
        ) == lookup(v, other),
{
    lemma_mcp_names();
    let e = def(Seq::empty());
    // core variables
    let c1 = insert_pair(v, "mcp_gateway_url"@, def(crate::transpiler::gateway_url_of(m)));
    lemma_insert_other(v, "mcp_gateway_url"@, def(crate::transpiler::gateway_url_of(m)), other);
    let c2 = insert_pair(c1, "mcp_trace_header"@, def("x-trace-id"@));
    lemma_insert_other(c1, "mcp_trace_header"@, def("x-trace-id"@), other);
    let c3 = insert_pair(c2, "mcp_provider_type"@, def(crate::ftl_config::provider_type_of(m)));
    lemma_insert_other(c2, "mcp_provider_type"@, def(crate::ftl_config::provider_type_of(m)), other);
    assert(c3 == core_mcp_vars(v, m));
    // ownership variables
    let o1 = insert_pair(c3, "mcp_auth_allowed_subjects"@, def(crate::transpiler::allowed_subjects_of(m)));
    lemma_insert_other(c3, "mcp_auth_allowed_subjects"@, def(crate::transpiler::allowed_subjects_of(m)), other);
    let o2 = insert_pair(o1, "mcp_auth_required_claims"@, e);
    lemma_insert_other(o1, "mcp_auth_required_claims"@, e, other);
    let o3 = insert_pair(o2, "mcp_auth_forward_claims"@, e);
    lemma_insert_other(o2, "mcp_auth_forward_claims"@, e, other);
    assert(o3 == ownership_vars(c3, m));
    if auth_enabled(m) {
        let o = m.oauth->0;
        let j1 = insert_pair(o3, "mcp_jwt_issuer"@, def(crate::ftl_config::issuer_of(m)));
        lemma_insert_other(o3, "mcp_jwt_issuer"@, def(crate::ftl_config::issuer_of(m)), other);
        let j2 = insert_pair(j1, "mcp_jwt_audience"@, def(crate::ftl_config::audience_of(m)));
        lemma_insert_other(j1, "mcp_jwt_audience"@, def(crate::ftl_config::audience_of(m)), other);
        let j3 = insert_pair(j2, "mcp_jwt_required_scopes"@, def(crate::ftl_config::required_scopes_of(m)));
        lemma_insert_other(j2, "mcp_jwt_required_scopes"@, def(crate::ftl_config::required_scopes_of(m)), other);
        let j4 = insert_pair(j3, "mcp_jwt_jwks_uri"@, def(crate::transpiler::jwks_uri_of(m)));
        lemma_insert_other(j3, "mcp_jwt_jwks_uri"@, def(crate::transpiler::jwks_uri_of(m)), other);
        assert(j4 == jwt_vars(o3, m));
        let a1 = insert_pair(j4, "mcp_jwt_public_key"@, def(o.public_key));
        lemma_insert_other(j4, "mcp_jwt_public_key"@, def(o.public_key), other);
        let a2 = insert_pair(a1, "mcp_jwt_algorithm"@, def(o.algorithm));
        lemma_insert_other(a1, "mcp_jwt_algorithm"@, def(o.algorithm), other);
        let a3 = insert_pair(a2, "mcp_oauth_authorize_endpoint"@, def(o.authorize_endpoint));
        lemma_insert_other(a2, "mcp_oauth_authorize_endpoint"@, def(o.authorize_endpoint), other);
        let a4 = insert_pair(a3, "mcp_oauth_token_endpoint"@, def(o.token_endpoint));
        lemma_insert_other(a3, "mcp_oauth_token_endpoint"@, def(o.token_endpoint), other);
        let a5 = insert_pair(a4, "mcp_oauth_userinfo_endpoint"@, def(o.userinfo_endpoint));
        lemma_insert_other(a4, "mcp_oauth_userinfo_endpoint"@, def(o.userinfo_endpoint), other);
        assert(a5 == oauth_vars(j4, m));
        let t1 = insert_pair(a5, "mcp_static_tokens"@, e);
        lemma_insert_other(a5, "mcp_static_tokens"@, e, other);
        lemma_insert_other(t1, "mcp_tenant_id"@, e, other);
    } else {
        let p1 = insert_pair(o3, "mcp_jwt_issuer"@, e);
        lemma_insert_other(o3, "mcp_jwt_issuer"@, e, other);
        let p2 = insert_pair(p1, "mcp_jwt_audience"@, e);
        lemma_insert_other(p1, "mcp_jwt_audience"@, e, other);
        let p3 = insert_pair(p2, "mcp_jwt_jwks_uri"@, e);
        lemma_insert_other(p2, "mcp_jwt_jwks_uri"@, e, other);
        let p4 = insert_pair(p3, "mcp_jwt_public_key"@, e);
        lemma_insert_other(p3, "mcp_jwt_public_key"@, e, other);
        let p5 = insert_pair(p4, "mcp_jwt_algorithm"@, e);
        lemma_insert_other(p4, "mcp_jwt_algorithm"@, e, other);
        let p6 = insert_pair(p5, "mcp_jwt_required_scopes"@, e);
        lemma_insert_other(p5, "mcp_jwt_required_scopes"@, e, other);
        let p7 = insert_pair(p6, "mcp_oauth_authorize_endpoint"@, e);
        lemma_insert_other(p6, "mcp_oauth_authorize_endpoint"@, e, other);
        let p8 = insert_pair(p7, "mcp_oauth_token_endpoint"@, e);
        lemma_insert_other(p7, "mcp_oauth_token_endpoint"@, e, other);
        let p9 = insert_pair(p8, "mcp_oauth_userinfo_endpoint"@, e);
        lemma_insert_other(p8, "mcp_oauth_userinfo_endpoint"@, e, other);
        let p10 = insert_pair(p9, "mcp_provider_type"@, e);
        lemma_insert_other(p9, "mcp_provider_type"@, e, other);
        assert(p10 == empty_provider_vars(o3));
    }
}

/// Inserting application variables keeps keys distinct.
proof fn lemma_app_vars_distinct(
    base: Seq<(Seq<char>, SpinVarModel)>,
    vars: Seq<(Seq<char>, crate::ftl_config::AppVarModel)>,
)
    requires
        keys_distinct(base),
    ensures
        keys_distinct(app_vars(base, vars)),
    decreases vars.len(),
{
    if vars.len() > 0 {
        lemma_app_vars_distinct(base, vars.drop_last());
        lemma_insert_pair(
            app_vars(base, vars.drop_last()),
            vars.last().0,
            app_var_model(vars.last().1),
        );
    }
}

// ---------------------------------------------------------------------------
// Laws
// ---------------------------------------------------------------------------

/// Law: every transpiled manifest tells whether authentication is on — its
/// `auth_enabled` variable defaults to `true` exactly when OAuth settings
/// are present, and to `false` otherwise — and its `component_names`
/// variable lists the user components, in order, separated by commas.
pub proof fn law_auth_and_component_names_variables(m: FtlModel)
    ensures
        lookup(transpiled_variables(m), "auth_enabled"@) == Some(def(bool_text(auth_enabled(m)))),
        lookup(transpiled_variables(m), "component_names"@) == Some(
            def(join(keys_of(m.component), ","@)),
        ),
{
    lemma_mcp_names();
    reveal_strlit("auth_enabled");
    reveal_strlit("component_names");
    let v0 = app_vars(Seq::empty(), m.variables);
    lemma_app_vars_distinct(Seq::empty(), m.variables);
    let names = def(join(keys_of(m.component), ","@));
    let flag = def(bool_text(auth_enabled(m)));
    let v1 = insert_pair(v0, "component_names"@, names);
    lemma_insert_pair(v0, "component_names"@, names);
    let v2 = insert_pair(v1, "auth_enabled"@, flag);
    lemma_insert_pair(v1, "auth_enabled"@, flag);
    assert("auth_enabled"@ != "component_names"@) by {
        assert(("auth_enabled"@)[0] != ("component_names"@)[0]);
    }
    lemma_system_vars_keep(v2, m, "auth_enabled"@);
    lemma_system_vars_keep(v2, m, "component_names"@);
}

/// Inserting user components keeps keys distinct; every user component is
/// then present with its transpilation, and every other key keeps its entry.
proof fn lemma_user_components(
    base: Seq<(Seq<char>, SpinComponentModel)>,
    comps: Seq<(Seq<char>, ComponentModel)>,
)
    requires
        keys_distinct(base),
        keys_distinct(comps),
    ensures
        keys_distinct(user_components(base, comps)),
        forall|i: int|
            0 <= i < comps.len() ==> lookup(user_components(base, comps), #[trigger] comps[i].0)
                == Some(user_model(comps[i].0, comps[i].1)),
        forall|k: Seq<char>|
            !has_key(comps, k) ==> lookup(user_components(base, comps), k) == lookup(base, k),
        forall|k: Seq<char>|
            has_key(base, k) ==> has_key(user_components(base, comps), k),
    decreases comps.len(),
{
    if comps.len() > 0 {
        let rest = comps.drop_last();
        assert(keys_distinct(rest)) by {
            assert forall|a: int, b: int|
                0 <= a < rest.len() && 0 <= b < rest.len() && a != b implies rest[a].0 != rest[b].0 by {
                assert(rest[a] == comps[a]);
                assert(rest[b] == comps[b]);
            }
        }
        lemma_user_components(base, rest);
        let prev = user_components(base, rest);
        let k = comps.last().0;
        let v = user_model(k, comps.last().1);
        lemma_insert_pair(prev, k, v);
        assert forall|i: int| 0 <= i < comps.len() implies lookup(
            user_components(base, comps),
            #[trigger] comps[i].0,
        ) == Some(user_model(comps[i].0, comps[i].1)) by {
            if i < comps.len() - 1 {
                assert(comps[i] == rest[i]);
                assert(comps[i].0 != k);
            }
        }
        assert forall|kk: Seq<char>| !has_key(comps, kk) implies lookup(
            user_components(base, comps),
            kk,
        ) == lookup(base, kk) by {
            if has_key(rest, kk) {
                let j = choose|j: int| 0 <= j < rest.len() && rest[j].0 == kk;
                assert(comps[j].0 == kk);
            }
            assert(kk != k) by {
                assert(comps[comps.len() - 1].0 == k);
            }
        }
    }
}

/// Law: the components of every transpiled manifest. The `mcp` component
/// is always present; `ftl-mcp-gateway` is present when authentication is
/// on; and every user component is present with its transpilation (a user
/// component that reuses a system name replaces that system component).
pub proof fn law_transpiled_components(m: FtlModel)
    requires
        keys_distinct(m.component),
    ensures
        has_key(transpiled_components(m), "mcp"@),
        auth_enabled(m) ==> has_key(transpiled_components(m), "ftl-mcp-gateway"@),
        forall|i: int|
            0 <= i < m.component.len() ==> lookup(transpiled_components(m), #[trigger] m.component[i].0)
                == Some(user_model(m.component[i].0, m.component[i].1)),
        !has_key(m.component, "mcp"@) ==> lookup(transpiled_components(m), "mcp"@) == Some(
            if auth_enabled(m) {
                authorizer_model(m.mcp.authorizer)
            } else {
                gateway_model(m.mcp.gateway, m.mcp.validate_arguments)
            },
        ),
        auth_enabled(m) && !has_key(m.component, "ftl-mcp-gateway"@) ==> lookup(
            transpiled_components(m),
            "ftl-mcp-gateway"@,
        ) == Some(gateway_model(m.mcp.gateway, m.mcp.validate_arguments)),
{
    reveal_strlit("mcp");
    reveal_strlit("ftl-mcp-gateway");
    let e = Seq::<(Seq<char>, SpinComponentModel)>::empty();
    let sys = system_components(m);
    if auth_enabled(m) {
        let s1 = insert_pair(e, "mcp"@, authorizer_model(m.mcp.authorizer));
        lemma_insert_pair(e, "mcp"@, authorizer_model(m.mcp.authorizer));
        lemma_insert_pair(s1, "ftl-mcp-gateway"@, gateway_model(m.mcp.gateway, m.mcp.validate_arguments));
        assert("mcp"@ != "ftl-mcp-gateway"@) by {
            assert(("mcp"@)[0] != ("ftl-mcp-gateway"@)[0]);
        }
    } else {
        lemma_insert_pair(e, "mcp"@, gateway_model(m.mcp.gateway, m.mcp.validate_arguments));
    }
    lemma_user_components(sys, m.component);
}

// ---------------------------------------------------------------------------
// Transpiled manifests pass validation
// ---------------------------------------------------------------------------

/// Every entry of `m` satisfies `p`.
pub open spec fn all_entries<V>(m: Seq<(Seq<char>, V)>, p: spec_fn(Seq<char>, V) -> bool) -> bool {
    forall|i: int| 0 <= i < m.len() ==> #[trigger] p(m[i].0, m[i].1)
}

/// Inserting an entry that satisfies `p` into a map whose entries satisfy
/// `p` gives a map whose entries satisfy `p`.
proof fn lemma_insert_all<V>(m: Seq<(Seq<char>, V)>, k: Seq<char>, v: V, p: spec_fn(Seq<char>, V) -> bool)
    requires
        all_entries(m, p),
        p(k, v),
    ensures
        all_entries(insert_pair(m, k, v), p),
{
    lemma_key_index(m, k);
    let r = insert_pair(m, k, v);
    assert forall|i: int| 0 <= i < r.len() implies #[trigger] p(r[i].0, r[i].1) by {
        if key_index(m, k) >= 0 && i == key_index(m, k) {
        } else if i < m.len() {
            assert(r[i] == m[i]);
        }
    }
}

/// The user component `name` transpiles to a component that passes
/// validation: its name is accepted, its source is not empty, its outbound
/// hosts are accepted and its build command, if any, is not empty.
pub open spec fn user_component_accepted(name: Seq<char>, c: ComponentModel) -> bool {
    &&& name.len() > 0
    &&& letter_char(name[0])
    &&& component_name_chars_ok(name)
    &&& match c.wasm {
        Some(w) => w.len() > 0,
        None => match c.repo {
            Some(r) => r.len() > 0,
            None => true,
        },
    }
    &&& first_host_problem(c.allowed_outbound_hosts, 0) is None
    &&& match c.build {
        Some(b) => b.command.len() > 0,
        None => true,
    }
}

/// An ftl.toml configuration whose transpilation the Spin rules accept: an
/// application name and version of the accepted shapes, named variables,
/// and user components that transpile to accepted components.
pub open spec fn transpilable(m: FtlModel) -> bool {
    &&& app_name_shape(m.project.name)
    &&& version_shape(m.project.version)
    &&& forall|i: int| 0 <= i < m.variables.len() ==> (#[trigger] m.variables[i]).0.len() > 0
    &&& keys_distinct(m.component)
    &&& forall|i: int|
        0 <= i < m.component.len() ==> user_component_accepted(
            (#[trigger] m.component[i]).0,
            m.component[i].1,
        )
}

/// A variable entry with no problem.
pub open spec fn var_ok(name: Seq<char>, v: SpinVarModel) -> bool {
    variable_problem(name, v) is None
}

/// A component entry with no problem.
pub open spec fn comp_ok(name: Seq<char>, c: SpinComponentModel) -> bool {
    named_component_problem(name, c) is None
}

/// No entry from `j` on has a problem, so none is the first.
proof fn lemma_no_first_variable_problem(v: Seq<(Seq<char>, SpinVarModel)>, j: int)
    requires
        0 <= j,
        all_entries(v, |n: Seq<char>, x: SpinVarModel| var_ok(n, x)),
    ensures
        first_variable_problem(v, j) is None,
    decreases v.len() - j,
{
    if j < v.len() {
        let p = |n: Seq<char>, x: SpinVarModel| var_ok(n, x);
        assert(p(v[j].0, v[j].1));
        lemma_no_first_variable_problem(v, j + 1);
    }
}

/// No entry from `j` on has a problem, so none is the first.
proof fn lemma_no_first_component_problem(c: Seq<(Seq<char>, SpinComponentModel)>, j: int)
    requires
        0 <= j,
        all_entries(c, |n: Seq<char>, x: SpinComponentModel| comp_ok(n, x)),
    ensures
        first_component_problem(c, j) is None,
    decreases c.len() - j,
{
    if j < c.len() {
        let p = |n: Seq<char>, x: SpinComponentModel| comp_ok(n, x);
        assert(p(c[j].0, c[j].1));
        lemma_no_first_component_problem(c, j + 1);
    }
}

/// Application variables with names transpile to accepted variables.
proof fn lemma_app_vars_ok(vars: Seq<(Seq<char>, crate::ftl_config::AppVarModel)>)
    requires
        forall|i: int| 0 <= i < vars.len() ==> (#[trigger] vars[i]).0.len() > 0,
    ensures
        all_entries(
            app_vars(Seq::empty(), vars),
            |n: Seq<char>, x: SpinVarModel| var_ok(n, x),
        ),
    decreases vars.len(),
{
    let p = |n: Seq<char>, x: SpinVarModel| var_ok(n, x);
    if vars.len() > 0 {
        let rest = vars.drop_last();
        assert forall|i: int| 0 <= i < rest.len() implies (#[trigger] rest[i]).0.len() > 0 by {
            assert(rest[i] == vars[i]);
        }
        lemma_app_vars_ok(rest);
        assert(vars[vars.len() - 1].0.len() > 0);
        lemma_insert_all(app_vars(Seq::empty(), rest), vars.last().0, app_var_model(vars.last().1), p);
    }
}

/// The system variables are accepted.
proof fn lemma_system_vars_ok(v: Seq<(Seq<char>, SpinVarModel)>, m: FtlModel)
    requires
        all_entries(v, |n: Seq<char>, x: SpinVarModel| var_ok(n, x)),
    ensures
        all_entries(
            if auth_enabled(m) {
                crate::transpiler::tenant_vars(oauth_vars(jwt_vars(ownership_vars(core_mcp_vars(v, m), m), m), m))
            } else {
                empty_provider_vars(ownership_vars(core_mcp_vars(v, m), m))
            },
            |n: Seq<char>, x: SpinVarModel| var_ok(n, x),
        ),
{
    let p = |n: Seq<char>, x: SpinVarModel| var_ok(n, x);
    lemma_mcp_names();
    reveal_strlit("mcp_");
    let e = def(Seq::empty());
    let c1 = insert_pair(v, "mcp_gateway_url"@, def(crate::transpiler::gateway_url_of(m)));
    lemma_insert_all(v, "mcp_gateway_url"@, def(crate::transpiler::gateway_url_of(m)), p);
    let c2 = insert_pair(c1, "mcp_trace_header"@, def("x-trace-id"@));
    lemma_insert_all(c1, "mcp_trace_header"@, def("x-trace-id"@), p);
    let c3 = insert_pair(c2, "mcp_provider_type"@, def(crate::ftl_config::provider_type_of(m)));
    lemma_insert_all(c2, "mcp_provider_type"@, def(crate::ftl_config::provider_type_of(m)), p);
    assert(c3 == core_mcp_vars(v, m));
    let o1 = insert_pair(c3, "mcp_auth_allowed_subjects"@, def(crate::transpiler::allowed_subjects_of(m)));
    lemma_insert_all(c3, "mcp_auth_allowed_subjects"@, def(crate::transpiler::allowed_subjects_of(m)), p);
    let o2 = insert_pair(o1, "mcp_auth_required_claims"@, e);
    lemma_insert_all(o1, "mcp_auth_required_claims"@, e, p);
    let o3 = insert_pair(o2, "mcp_auth_forward_claims"@, e);
    lemma_insert_all(o2, "mcp_auth_forward_claims"@, e, p);
    assert(o3 == ownership_vars(c3, m));
    if auth_enabled(m) {
        let o = m.oauth->0;
        let j1 = insert_pair(o3, "mcp_jwt_issuer"@, def(crate::ftl_config::issuer_of(m)));
        lemma_insert_all(o3, "mcp_jwt_issuer"@, def(crate::ftl_config::issuer_of(m)), p);
        let j2 = insert_pair(j1, "mcp_jwt_audience"@, def(crate::ftl_config::audience_of(m)));
        lemma_insert_all(j1, "mcp_jwt_audience"@, def(crate::ftl_config::audience_of(m)), p);
        let j3 = insert_pair(j2, "mcp_jwt_required_scopes"@, def(crate::ftl_config::required_scopes_of(m)));
        lemma_insert_all(j2, "mcp_jwt_required_scopes"@, def(crate::ftl_config::required_scopes_of(m)), p);
        let j4 = insert_pair(j3, "mcp_jwt_jwks_uri"@, def(crate::transpiler::jwks_uri_of(m)));
        lemma_insert_all(j3, "mcp_jwt_jwks_uri"@, def(crate::transpiler::jwks_uri_of(m)), p);
        assert(j4 == jwt_vars(o3, m));
        let a1 = insert_pair(j4, "mcp_jwt_public_key"@, def(o.public_key));
        lemma_insert_all(j4, "mcp_jwt_public_key"@, def(o.public_key), p);
        let a2 = insert_pair(a1, "mcp_jwt_algorithm"@, def(o.algorithm));
        lemma_insert_all(a1, "mcp_jwt_algorithm"@, def(o.algorithm), p);
        let a3 = insert_pair(a2, "mcp_oauth_authorize_endpoint"@, def(o.authorize_endpoint));
        lemma_insert_all(a2, "mcp_oauth_authorize_endpoint"@, def(o.authorize_endpoint), p);
        let a4 = insert_pair(a3, "mcp_oauth_token_endpoint"@, def(o.token_endpoint));
        lemma_insert_all(a3, "mcp_oauth_token_endpoint"@, def(o.token_endpoint), p);
        let a5 = insert_pair(a4, "mcp_oauth_userinfo_endpoint"@, def(o.userinfo_endpoint));
        lemma_insert_all(a4, "mcp_oauth_userinfo_endpoint"@, def(o.userinfo_endpoint), p);
        let t1 = insert_pair(a5, "mcp_static_tokens"@, e);
        lemma_insert_all(a5, "mcp_static_tokens"@, e, p);
        lemma_insert_all(t1, "mcp_tenant_id"@, e, p);
    } else {
        let p1 = insert_pair(o3, "mcp_jwt_issuer"@, e);
        lemma_insert_all(o3, "mcp_jwt_issuer"@, e, p);
        let p2 = insert_pair(p1, "mcp_jwt_audience"@, e);
        lemma_insert_all(p1, "mcp_jwt_audience"@, e, p);
        let p3 = insert_pair(p2, "mcp_jwt_jwks_uri"@, e);
        lemma_insert_all(p2, "mcp_jwt_jwks_uri"@, e, p);
        let p4 = insert_pair(p3, "mcp_jwt_public_key"@, e);
        lemma_insert_all(p3, "mcp_jwt_public_key"@, e, p);
        let p5 = insert_pair(p4, "mcp_jwt_algorithm"@, e);
        lemma_insert_all(p4, "mcp_jwt_algorithm"@, e, p);
        let p6 = insert_pair(p5, "mcp_jwt_required_scopes"@, e);
        lemma_insert_all(p5, "mcp_jwt_required_scopes"@, e, p);
        let p7 = insert_pair(p6, "mcp_oauth_authorize_endpoint"@, e);
        lemma_insert_all(p6, "mcp_oauth_authorize_endpoint"@, e, p);
        let p8 = insert_pair(p7, "mcp_oauth_token_endpoint"@, e);
        lemma_insert_all(p7, "mcp_oauth_token_endpoint"@, e, p);
        let p9 = insert_pair(p8, "mcp_oauth_userinfo_endpoint"@, e);
        lemma_insert_all(p8, "mcp_oauth_userinfo_endpoint"@, e, p);
        lemma_insert_all(p9, "mcp_provider_type"@, e, p);
    }
}

/// A host with `://` after its first character passes.
proof fn lemma_host_with_scheme(h: Seq<char>, i: int)
    requires
        0 < i,
        i + 3 <= h.len(),
        h[i] == ':',
        h[i + 1] == '/',
        h[i + 2] == '/',
        !(has_prefix(h, "{{"@) && crate::text::has_suffix(h, "}}"@)),
    ensures
        host_problem(h) is None,
{
    reveal_strlit("://");
    assert(h.subrange(i, i + 3) =~= "://"@);
    assert(occurs_at(h, "://"@, i));
}

/// The system components pass validation.
proof fn lemma_system_components_ok(m: FtlModel)
    ensures
        all_entries(system_components(m), |n: Seq<char>, x: SpinComponentModel| comp_ok(n, x)),
{
    let p = |n: Seq<char>, x: SpinComponentModel| comp_ok(n, x);
    reveal_strlit("mcp");
    reveal_strlit("ftl-mcp-gateway");
    reveal_strlit("http://*.spin.internal");
    reveal_strlit("https://*.authkit.app");
    reveal_strlit("https://*.workos.com");
    reveal_strlit("ghcr.io/fastertools/mcp-authorizer:0.0.13");
    reveal_strlit("ghcr.io/fastertools/mcp-gateway:0.0.11");
    reveal_strlit("{{");
    let h1 = "http://*.spin.internal"@;
    let h2 = "https://*.authkit.app"@;
    let h3 = "https://*.workos.com"@;
    assert(!has_prefix(h1, "{{"@)) by {
        assert(h1[0] != ("{{"@)[0]);
    }
    assert(!has_prefix(h2, "{{"@)) by {
        assert(h2[0] != ("{{"@)[0]);
    }
    assert(!has_prefix(h3, "{{"@)) by {
        assert(h3[0] != ("{{"@)[0]);
    }
    lemma_host_with_scheme(h1, 4);
    lemma_host_with_scheme(h2, 5);
    lemma_host_with_scheme(h3, 5);
    let gh = seq![h1];
    assert(first_host_problem(gh, 1) is None);
    assert(first_host_problem(gh, 0) is None);
    let ah = seq![h1, h2, h3];
    assert(first_host_problem(ah, 3) is None);
    assert(first_host_problem(ah, 2) is None);
    assert(first_host_problem(ah, 1) is None);
    assert(first_host_problem(ah, 0) is None);
    let au = authorizer_model(m.mcp.authorizer);
    let gw = gateway_model(m.mcp.gateway, m.mcp.validate_arguments);
    assert(au.allowed_outbound_hosts =~= ah);
    assert(gw.allowed_outbound_hosts =~= gh);
    assert(component_problems(au) =~= Seq::empty());
    assert(component_problems(gw) =~= Seq::empty());
    let mcp = "mcp"@;
    let fmg = "ftl-mcp-gateway"@;
    assert(component_name_chars_ok(mcp));
    assert(component_name_chars_ok(fmg));
    assert(comp_ok(mcp, au));
    assert(comp_ok(mcp, gw));
    assert(comp_ok(fmg, gw));
    let e = Seq::<(Seq<char>, SpinComponentModel)>::empty();
    if auth_enabled(m) {
        lemma_insert_all(e, mcp, au, p);
        lemma_insert_all(insert_pair(e, mcp, au), fmg, gw, p);
    } else {
        lemma_insert_all(e, mcp, gw, p);
    }
}

/// Accepted user components transpile to components that pass validation.
proof fn lemma_user_components_ok(
    base: Seq<(Seq<char>, SpinComponentModel)>,
    comps: Seq<(Seq<char>, ComponentModel)>,
)
    requires
        all_entries(base, |n: Seq<char>, x: SpinComponentModel| comp_ok(n, x)),
        forall|i: int|
            0 <= i < comps.len() ==> user_component_accepted(
                (#[trigger] comps[i]).0,
                comps[i].1,
            ),
    ensures
        all_entries(
            user_components(base, comps),
            |n: Seq<char>, x: SpinComponentModel| comp_ok(n, x),
        ),
    decreases comps.len(),
{
    let p = |n: Seq<char>, x: SpinComponentModel| comp_ok(n, x);
    if comps.len() > 0 {
        let rest = comps.drop_last();
        assert forall|i: int| 0 <= i < rest.len() implies user_component_accepted(
            (#[trigger] rest[i]).0,
            rest[i].1,
        ) by {
            assert(rest[i] == comps[i]);
        }
        lemma_user_components_ok(base, rest);
        let name = comps.last().0;
        let c = comps.last().1;
        assert(user_component_accepted(comps[comps.len() - 1].0, comps[comps.len() - 1].1));
        reveal_strlit("unknown.wasm");
        let um = user_model(name, c);
        assert(component_problems(um) =~= Seq::empty());
        lemma_insert_all(user_components(base, rest), name, um, p);
    }
}

/// Law: a configuration the Spin rules can accept transpiles to a manifest
/// that passes Spin manifest validation — format version 2, an accepted
/// application section, accepted variables and accepted components (the
/// system components always are).
pub proof fn law_transpilation_passes_validation(m: FtlModel)
    requires
        transpilable(m),
    ensures
        spin_problems(transpiled_manifest(m)).len() == 0,
{
    let s = transpiled_manifest(m);
    assert(app_problems(s.application) =~= Seq::empty());
    // variables
    let v0 = app_vars(Seq::empty(), m.variables);
    lemma_app_vars_ok(m.variables);
    reveal_strlit("component_names");
    reveal_strlit("auth_enabled");
    let pv = |n: Seq<char>, x: SpinVarModel| var_ok(n, x);
    let names = def(join(keys_of(m.component), ","@));
    let flag = def(bool_text(auth_enabled(m)));
    lemma_insert_all(v0, "component_names"@, names, pv);
    let v1 = insert_pair(v0, "component_names"@, names);
    lemma_insert_all(v1, "auth_enabled"@, flag, pv);
    let v2 = insert_pair(v1, "auth_enabled"@, flag);
    lemma_system_vars_ok(v2, m);
    lemma_no_first_variable_problem(transpiled_variables(m), 0);
    // components
    lemma_system_components_ok(m);
    lemma_user_components_ok(system_components(m), m.component);
    lemma_no_first_component_problem(transpiled_components(m), 0);
    assert(spin_problems(s) =~= Seq::empty());
}

/// The five names that the OAuth step sets.
pub open spec fn oauth_var_names() -> Seq<Seq<char>> {
    seq![
        "mcp_jwt_public_key"@,
        "mcp_jwt_algorithm"@,
        "mcp_oauth_authorize_endpoint"@,
        "mcp_oauth_token_endpoint"@,
        "mcp_oauth_userinfo_endpoint"@,
    ]
}

/// Law: the OAuth step sets exactly its five variables — the public key,
/// algorithm and three endpoints of the OAuth settings, or empty values
/// without them — and leaves every other variable as it was.
pub proof fn law_oauth_variables(v: Seq<(Seq<char>, SpinVarModel)>, m: FtlModel, other: Seq<char>)
    requires
        keys_distinct(v),
        !oauth_var_names().contains(other),
    ensures
        lookup(oauth_vars(v, m), other) == lookup(v, other),
        lookup(oauth_vars(v, m), "mcp_jwt_public_key"@) == Some(def(match m.oauth {
            Some(o) => o.public_key,
            None => Seq::empty(),
        })),
        lookup(oauth_vars(v, m), "mcp_jwt_algorithm"@) == Some(def(match m.oauth {
            Some(o) => o.algorithm,
            None => Seq::empty(),
        })),
        lookup(oauth_vars(v, m), "mcp_oauth_authorize_endpoint"@) == Some(def(match m.oauth {
            Some(o) => o.authorize_endpoint,
            None => Seq::empty(),
        })),
        lookup(oauth_vars(v, m), "mcp_oauth_token_endpoint"@) == Some(def(match m.oauth {
            Some(o) => o.token_endpoint,
            None => Seq::empty(),
        })),
        lookup(oauth_vars(v, m), "mcp_oauth_userinfo_endpoint"@) == Some(def(match m.oauth {
            Some(o) => o.userinfo_endpoint,
            None => Seq::empty(),
        })),
{
    let n = oauth_var_names();
    assert(n[0] == "mcp_jwt_public_key"@ && n[1] == "mcp_jwt_algorithm"@);
    assert(n[2] == "mcp_oauth_authorize_endpoint"@ && n[3] == "mcp_oauth_token_endpoint"@);
    assert(n[4] == "mcp_oauth_userinfo_endpoint"@);
    reveal_strlit("mcp_jwt_public_key");
    reveal_strlit("mcp_jwt_algorithm");
    reveal_strlit("mcp_oauth_authorize_endpoint");
    reveal_strlit("mcp_oauth_token_endpoint");
    reveal_strlit("mcp_oauth_userinfo_endpoint");
    let (a, b, c, d, e) = match m.oauth {
        Some(o) => (o.public_key, o.algorithm, o.authorize_endpoint, o.token_endpoint, o.userinfo_endpoint),
        None => (Seq::empty(), Seq::empty(), Seq::empty(), Seq::empty(), Seq::empty()),
    };
    let v1 = insert_pair(v, "mcp_jwt_public_key"@, def(a));
    lemma_insert_pair(v, "mcp_jwt_public_key"@, def(a));
    let v2 = insert_pair(v1, "mcp_jwt_algorithm"@, def(b));
    lemma_insert_pair(v1, "mcp_jwt_algorithm"@, def(b));
    let v3 = insert_pair(v2, "mcp_oauth_authorize_endpoint"@, def(c));
    lemma_insert_pair(v2, "mcp_oauth_authorize_endpoint"@, def(c));
    let v4 = insert_pair(v3, "mcp_oauth_token_endpoint"@, def(d));
    lemma_insert_pair(v3, "mcp_oauth_token_endpoint"@, def(d));
    let v5 = insert_pair(v4, "mcp_oauth_userinfo_endpoint"@, def(e));
    lemma_insert_pair(v4, "mcp_oauth_userinfo_endpoint"@, def(e));
    assert(oauth_vars(v, m) == v5);
    assert("mcp_jwt_public_key"@.len() != "mcp_jwt_algorithm"@.len());
    assert("mcp_jwt_public_key"@.len() != "mcp_oauth_authorize_endpoint"@.len());
    assert("mcp_jwt_public_key"@.len() != "mcp_oauth_token_endpoint"@.len());
    assert("mcp_jwt_public_key"@.len() != "mcp_oauth_userinfo_endpoint"@.len());
    assert("mcp_jwt_algorithm"@.len() != "mcp_oauth_authorize_endpoint"@.len());
    assert("mcp_jwt_algorithm"@.len() != "mcp_oauth_token_endpoint"@.len());
    assert("mcp_jwt_algorithm"@.len() != "mcp_oauth_userinfo_endpoint"@.len());
    assert("mcp_oauth_authorize_endpoint"@.len() != "mcp_oauth_token_endpoint"@.len());
    assert("mcp_oauth_authorize_endpoint"@.len() != "mcp_oauth_userinfo_endpoint"@.len());
    assert("mcp_oauth_token_endpoint"@.len() != "mcp_oauth_userinfo_endpoint"@.len());
    assert(other != n[0] && other != n[1] && other != n[2] && other != n[3] && other != n[4]);
}

/// Law: the routes of every transpiled manifest — first the catch-all
/// route `/...` to `mcp`, then, with authentication, a private route to
/// `ftl-mcp-gateway`, then one private route per user component, in order;
/// no other HTTP route and no Redis trigger.
pub proof fn law_transpiled_routes(m: FtlModel)
    ensures
        ({
            let t = crate::transpiler::transpiled_triggers(m);
            let k: int = if auth_enabled(m) { 2 } else { 1 };
            &&& t.redis.len() == 0
            &&& t.http.len() == k + m.component.len()
            &&& t.http[0] == crate::transpiler::wildcard_trigger()
            &&& auth_enabled(m) ==> t.http[1] == crate::transpiler::private_trigger("ftl-mcp-gateway"@)
            &&& forall|i: int| 0 <= i < m.component.len() ==> #[trigger] t.http[k + i]
                == crate::transpiler::private_trigger(m.component[i].0)
        }),
{
    lemma_private_triggers(keys_of(m.component));
}

/// One private trigger per name, in order.
proof fn lemma_private_triggers(names: Seq<Seq<char>>)
    ensures
        crate::transpiler::private_triggers(names).len() == names.len(),
        forall|i: int| 0 <= i < names.len() ==> #[trigger] crate::transpiler::private_triggers(names)[i]
            == crate::transpiler::private_trigger(names[i]),
    decreases names.len(),
{
    if names.len() > 0 {
        lemma_private_triggers(names.drop_last());
    }
}

/// Updating an entry without changing its key leaves the index of every key
/// as it was.
proof fn lemma_key_index_same_keys<V>(m: Seq<(Seq<char>, V)>, i: int, v: V, k2: Seq<char>)
    requires
        0 <= i < m.len(),
    ensures
        key_index(m.update(i, (m[i].0, v)), k2) == key_index(m, k2),
    decreases m.len(),
{
    let u = m.update(i, (m[i].0, v));
    if i == m.len() - 1 {
        assert(u.drop_last() =~= m.drop_last());
    } else {
        lemma_key_index_same_keys(m.drop_last(), i, v, k2);
        assert(u.drop_last() =~= m.drop_last().update(i, (m[i].0, v)));
    }
}

/// After inserting `(k, v)`, `k` reads `v` and every other key reads as
/// before.
proof fn lemma_lookup_insert<V>(m: Seq<(Seq<char>, V)>, k: Seq<char>, v: V, k2: Seq<char>)
    ensures
        lookup(insert_pair(m, k, v), k) == Some(v),
        k2 != k ==> lookup(insert_pair(m, k, v), k2) == lookup(m, k2),
{
    lemma_key_index(m, k);
    lemma_key_index(m, k2);
    if key_index(m, k) >= 0 {
        let i = key_index(m, k);
        lemma_key_index_same_keys(m, i, v, k);
        lemma_key_index_same_keys(m, i, v, k2);
    } else {
        assert(m.push((k, v)).drop_last() =~= m);
    }
}

/// The JWT issuer, audience and required scopes of the OAuth settings are
/// what the JWT, OAuth and tenant steps leave in their variables.
proof fn lemma_jwt_settings_kept(v: Seq<(Seq<char>, SpinVarModel)>, m: FtlModel)
    requires
        m.oauth is Some,
    ensures
        lookup(tenant_vars(oauth_vars(jwt_vars(v, m), m)), "mcp_jwt_issuer"@) == Some(def(m.oauth->0.issuer)),
        lookup(tenant_vars(oauth_vars(jwt_vars(v, m), m)), "mcp_jwt_audience"@) == Some(def(m.oauth->0.audience)),
        lookup(tenant_vars(oauth_vars(jwt_vars(v, m), m)), "mcp_jwt_required_scopes"@) == Some(
            def(m.oauth->0.required_scopes),
        ),
{
    let o = m.oauth->0;
    reveal_strlit("mcp_jwt_issuer");
    reveal_strlit("mcp_jwt_audience");
    reveal_strlit("mcp_jwt_required_scopes");
    reveal_strlit("mcp_jwt_jwks_uri");
    reveal_strlit("mcp_jwt_public_key");
    reveal_strlit("mcp_jwt_algorithm");
    reveal_strlit("mcp_oauth_authorize_endpoint");
    reveal_strlit("mcp_oauth_token_endpoint");
    reveal_strlit("mcp_oauth_userinfo_endpoint");
    reveal_strlit("mcp_static_tokens");
    reveal_strlit("mcp_tenant_id");
    assert("mcp_jwt_issuer"@.len() != "mcp_jwt_audience"@.len());
    assert("mcp_jwt_issuer"@.len() != "mcp_jwt_required_scopes"@.len());
    assert("mcp_jwt_issuer"@.len() != "mcp_jwt_jwks_uri"@.len());
    assert("mcp_jwt_issuer"@.len() != "mcp_jwt_public_key"@.len());
    assert("mcp_jwt_issuer"@.len() != "mcp_jwt_algorithm"@.len());
    assert("mcp_jwt_issuer"@.len() != "mcp_oauth_authorize_endpoint"@.len());
    assert("mcp_jwt_issuer"@.len() != "mcp_oauth_token_endpoint"@.len());
    assert("mcp_jwt_issuer"@.len() != "mcp_oauth_userinfo_endpoint"@.len());
    assert("mcp_jwt_issuer"@.len() != "mcp_static_tokens"@.len());
    assert("mcp_jwt_issuer"@.len() != "mcp_tenant_id"@.len());
    assert("mcp_jwt_audience"@.len() != "mcp_jwt_required_scopes"@.len());
    assert("mcp_jwt_audience"@[8] != "mcp_jwt_jwks_uri"@[8]);
    assert("mcp_jwt_audience"@.len() != "mcp_jwt_public_key"@.len());
    assert("mcp_jwt_audience"@.len() != "mcp_jwt_algorithm"@.len());
    assert("mcp_jwt_audience"@.len() != "mcp_oauth_authorize_endpoint"@.len());
    assert("mcp_jwt_audience"@.len() != "mcp_oauth_token_endpoint"@.len());
    assert("mcp_jwt_audience"@.len() != "mcp_oauth_userinfo_endpoint"@.len());
    assert("mcp_jwt_audience"@.len() != "mcp_static_tokens"@.len());
    assert("mcp_jwt_audience"@.len() != "mcp_tenant_id"@.len());
    assert("mcp_jwt_required_scopes"@.len() != "mcp_jwt_jwks_uri"@.len());
    assert("mcp_jwt_required_scopes"@.len() != "mcp_jwt_public_key"@.len());
    assert("mcp_jwt_required_scopes"@.len() != "mcp_jwt_algorithm"@.len());
    assert("mcp_jwt_required_scopes"@.len() != "mcp_oauth_authorize_endpoint"@.len());
    assert("mcp_jwt_required_scopes"@.len() != "mcp_oauth_token_endpoint"@.len());
    assert("mcp_jwt_required_scopes"@.len() != "mcp_oauth_userinfo_endpoint"@.len());
    assert("mcp_jwt_required_scopes"@.len() != "mcp_static_tokens"@.len());
    assert("mcp_jwt_required_scopes"@.len() != "mcp_tenant_id"@.len());
    let w0 = v;
    let w1 = insert_pair(w0, "mcp_jwt_issuer"@, def(issuer_of(m)));
    let w2 = insert_pair(w1, "mcp_jwt_audience"@, def(audience_of(m)));
    let w3 = insert_pair(w2, "mcp_jwt_required_scopes"@, def(required_scopes_of(m)));
    let w4 = insert_pair(w3, "mcp_jwt_jwks_uri"@, def(jwks_uri_of(m)));
    let w5 = insert_pair(w4, "mcp_jwt_public_key"@, def(o.public_key));
    let w6 = insert_pair(w5, "mcp_jwt_algorithm"@, def(o.algorithm));
    let w7 = insert_pair(w6, "mcp_oauth_authorize_endpoint"@, def(o.authorize_endpoint));
    let w8 = insert_pair(w7, "mcp_oauth_token_endpoint"@, def(o.token_endpoint));
    let w9 = insert_pair(w8, "mcp_oauth_userinfo_endpoint"@, def(o.userinfo_endpoint));
    let w10 = insert_pair(w9, "mcp_static_tokens"@, def(Seq::empty()));
    let w11 = insert_pair(w10, "mcp_tenant_id"@, def(Seq::empty()));
    lemma_lookup_insert(w0, "mcp_jwt_issuer"@, def(issuer_of(m)), "mcp_jwt_issuer"@);
    lemma_lookup_insert(w0, "mcp_jwt_issuer"@, def(issuer_of(m)), "mcp_jwt_audience"@);
    lemma_lookup_insert(w0, "mcp_jwt_issuer"@, def(issuer_of(m)), "mcp_jwt_required_scopes"@);
    lemma_lookup_insert(w1, "mcp_jwt_audience"@, def(audience_of(m)), "mcp_jwt_issuer"@);
    lemma_lookup_insert(w1, "mcp_jwt_audience"@, def(audience_of(m)), "mcp_jwt_audience"@);
    lemma_lookup_insert(w1, "mcp_jwt_audience"@, def(audience_of(m)), "mcp_jwt_required_scopes"@);
    lemma_lookup_insert(w2, "mcp_jwt_required_scopes"@, def(required_scopes_of(m)), "mcp_jwt_issuer"@);
    lemma_lookup_insert(w2, "mcp_jwt_required_scopes"@, def(required_scopes_of(m)), "mcp_jwt_audience"@);
    lemma_lookup_insert(w2, "mcp_jwt_required_scopes"@, def(required_scopes_of(m)), "mcp_jwt_required_scopes"@);
    lemma_lookup_insert(w3, "mcp_jwt_jwks_uri"@, def(jwks_uri_of(m)), "mcp_jwt_issuer"@);
    lemma_lookup_insert(w3, "mcp_jwt_jwks_uri"@, def(jwks_uri_of(m)), "mcp_jwt_audience"@);
    lemma_lookup_insert(w3, "mcp_jwt_jwks_uri"@, def(jwks_uri_of(m)), "mcp_jwt_required_scopes"@);
    lemma_lookup_insert(w4, "mcp_jwt_public_key"@, def(o.public_key), "mcp_jwt_issuer"@);
    lemma_lookup_insert(w4, "mcp_jwt_public_key"@, def(o.public_key), "mcp_jwt_audience"@);
    lemma_lookup_insert(w4, "mcp_jwt_public_key"@, def(o.public_key), "mcp_jwt_required_scopes"@);
    lemma_lookup_insert(w5, "mcp_jwt_algorithm"@, def(o.algorithm), "mcp_jwt_issuer"@);
    lemma_lookup_insert(w5, "mcp_jwt_algorithm"@, def(o.algorithm), "mcp_jwt_audience"@);
    lemma_lookup_insert(w5, "mcp_jwt_algorithm"@, def(o.algorithm), "mcp_jwt_required_scopes"@);
    lemma_lookup_insert(w6, "mcp_oauth_authorize_endpoint"@, def(o.authorize_endpoint), "mcp_jwt_issuer"@);
    lemma_lookup_insert(w6, "mcp_oauth_authorize_endpoint"@, def(o.authorize_endpoint), "mcp_jwt_audience"@);
    lemma_lookup_insert(w6, "mcp_oauth_authorize_endpoint"@, def(o.authorize_endpoint), "mcp_jwt_required_scopes"@);
    lemma_lookup_insert(w7, "mcp_oauth_token_endpoint"@, def(o.token_endpoint), "mcp_jwt_issuer"@);
    lemma_lookup_insert(w7, "mcp_oauth_token_endpoint"@, def(o.token_endpoint), "mcp_jwt_audience"@);
    lemma_lookup_insert(w7, "mcp_oauth_token_endpoint"@, def(o.token_endpoint), "mcp_jwt_required_scopes"@);
    lemma_lookup_insert(w8, "mcp_oauth_userinfo_endpoint"@, def(o.userinfo_endpoint), "mcp_jwt_issuer"@);
    lemma_lookup_insert(w8, "mcp_oauth_userinfo_endpoint"@, def(o.userinfo_endpoint), "mcp_jwt_audience"@);
    lemma_lookup_insert(w8, "mcp_oauth_userinfo_endpoint"@, def(o.userinfo_endpoint), "mcp_jwt_required_scopes"@);
    lemma_lookup_insert(w9, "mcp_static_tokens"@, def(Seq::empty()), "mcp_jwt_issuer"@);
    lemma_lookup_insert(w9, "mcp_static_tokens"@, def(Seq::empty()), "mcp_jwt_audience"@);
    lemma_lookup_insert(w9, "mcp_static_tokens"@, def(Seq::empty()), "mcp_jwt_required_scopes"@);
    lemma_lookup_insert(w10, "mcp_tenant_id"@, def(Seq::empty()), "mcp_jwt_issuer"@);
    lemma_lookup_insert(w10, "mcp_tenant_id"@, def(Seq::empty()), "mcp_jwt_audience"@);
    lemma_lookup_insert(w10, "mcp_tenant_id"@, def(Seq::empty()), "mcp_jwt_required_scopes"@);
    assert(tenant_vars(oauth_vars(jwt_vars(v, m), m)) == w11);
}

/// Law: with OAuth settings, the transpiled manifest's JWT variables hold
/// exactly what was configured: `mcp_jwt_issuer` defaults to the issuer,
/// `mcp_jwt_audience` to the audience and `mcp_jwt_required_scopes` to the
/// required scopes.
pub proof fn law_jwt_settings_transpiled(m: FtlModel)
    requires
        m.oauth is Some,
    ensures
        lookup(transpiled_variables(m), "mcp_jwt_issuer"@) == Some(def(m.oauth->0.issuer)),
        lookup(transpiled_variables(m), "mcp_jwt_audience"@) == Some(def(m.oauth->0.audience)),
        lookup(transpiled_variables(m), "mcp_jwt_required_scopes"@) == Some(def(m.oauth->0.required_scopes)),
{
    let v0 = app_vars(Seq::empty(), m.variables);
    let v1 = insert_pair(v0, "component_names"@, def(join(keys_of(m.component), ","@)));
    let v2 = insert_pair(v1, "auth_enabled"@, def(bool_text(auth_enabled(m))));
    let v4 = ownership_vars(core_mcp_vars(v2, m), m);
    lemma_jwt_settings_kept(v4, m);
    assert(transpiled_variables(m) == tenant_vars(oauth_vars(jwt_vars(v4, m), m)));
}

} // verus!
