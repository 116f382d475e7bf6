//! The spin.toml text of a manifest: the exact text written for each section,
//! stated over the manifest models, and the code that writes it.
use vstd::prelude::*;
use crate::spin_config::{
    AppModel, ApplicationConfig, ComponentBuildConfig, ComponentConfig, ComponentSource, ExecutorConfig,
    ExecutorModel, FileMount, FileMountModel, HttpTrigger, HttpTriggerModel, RedisTrigger,
    RedisTriggerModel, RouteConfig, RouteModel, SourceModel, SpinBuildModel, SpinComponentModel,
    SpinConfig, SpinModel, SpinVarModel, SpinVariable, TriggerConfig, TriggersModel, views,
};
use crate::strmap::StrMap;
use crate::text::{
    debug_repr, debug_repr_of, join, push_char, push_str, toml_key_of, toml_key_repr, toml_string_of,
    toml_string_repr,
};

verus! {

// ---------------------------------------------------------------------------
// Specification of the text
// ---------------------------------------------------------------------------

/// `true` or `false`.
pub open spec fn bool_text(b: bool) -> Seq<char> {
    if b {
        "true"@
    } else {
        "false"@
    }
}

/// The decimal digit for `d` (0 to 9).
pub open spec fn digit_char(d: int) -> char {
    if d == 0 {
        '0'
    } else if d == 1 {
        '1'
    } else if d == 2 {
        '2'
    } else if d == 3 {
        '3'
    } else if d == 4 {
        '4'
    } else if d == 5 {
        '5'
    } else if d == 6 {
        '6'
    } else if d == 7 {
        '7'
    } else if d == 8 {
        '8'
    } else {
        '9'
    }
}

/// Decimal notation of a natural number.
pub open spec fn nat_text(n: nat) -> Seq<char>
    decreases n,
{
    if n < 10 {
        seq![digit_char(n as int)]
    } else {
        nat_text(n / 10) + seq![digit_char((n % 10) as int)]
    }
}

/// Decimal notation of an integer.
pub open spec fn int_text(n: int) -> Seq<char> {
    if n < 0 {
        seq!['-'] + nat_text((-n) as nat)
    } else {
        nat_text(n as nat)
    }
}

/// `s` between double quotes, written as is.
pub open spec fn quoted(s: Seq<char>) -> Seq<char> {
    seq!['"'] + s + seq!['"']
}

/// A character with backslash and double quote escaped by a backslash.
pub open spec fn escape_char(c: char) -> Seq<char> {
    if c == '\\' {
        seq!['\\', '\\']
    } else if c == '"' {
        seq!['\\', '"']
    } else {
        seq![c]
    }
}

/// `s` with every backslash and double quote escaped by a backslash.
pub open spec fn escaped(s: Seq<char>) -> Seq<char>
    decreases s.len(),
{
    if s.len() == 0 {
        Seq::empty()
    } else {
        escaped(s.drop_last()) + escape_char(s.last())
    }
}

/// The TOML string encodings of a list of strings.
pub open spec fn toml_strings(s: Seq<Seq<char>>) -> Seq<Seq<char>>
    decreases s.len(),
{
    if s.len() == 0 {
        Seq::empty()
    } else {
        toml_strings(s.drop_last()).push(toml_string_of(s.last()))
    }
}

/// The `{:?}` renderings of a list of strings.
pub open spec fn debug_strings(s: Seq<Seq<char>>) -> Seq<Seq<char>>
    decreases s.len(),
{
    if s.len() == 0 {
        Seq::empty()
    } else {
        debug_strings(s.drop_last()).push(debug_repr_of(s.last()))
    }
}

/// A TOML array of strings: `["a", "b"]`.
pub open spec fn toml_list(s: Seq<Seq<char>>) -> Seq<char> {
    "["@ + join(toml_strings(s), ", "@) + "]"@
}

/// What `{:?}` prints for a list of strings: `["a", "b"]`.
pub open spec fn debug_list(s: Seq<Seq<char>>) -> Seq<char> {
    "["@ + join(debug_strings(s), ", "@) + "]"@
}

/// The inline table of a manifest variable.
pub open spec fn var_value_text(v: SpinVarModel) -> Seq<char> {
    match v {
        SpinVarModel::Default(d) => "{ default = "@ + toml_string_of(d) + " }"@,
        SpinVarModel::Required(r) => "{ required = "@ + bool_text(r) + " }"@,
        SpinVarModel::SecretDefault(d, s) => "{ default = "@ + toml_string_of(d) + ", secret = "@
            + bool_text(s) + " }"@,
        SpinVarModel::SecretRequired(r, s) => "{ required = "@ + bool_text(r) + ", secret = "@
            + bool_text(s) + " }"@,
    }
}

/// One line of the `[variables]` table.
pub open spec fn var_line(k: Seq<char>, v: SpinVarModel) -> Seq<char> {
    toml_key_of(k) + " = "@ + var_value_text(v) + "\n"@
}

/// The lines of the `[variables]` table.
pub open spec fn var_lines(vars: Seq<(Seq<char>, SpinVarModel)>) -> Seq<char>
    decreases vars.len(),
{
    if vars.len() == 0 {
        Seq::empty()
    } else {
        var_lines(vars.drop_last()) + var_line(vars.last().0, vars.last().1)
    }
}

/// The application trigger sections, when present.
pub open spec fn app_trigger_text(t: Option<Option<Seq<char>>>) -> Seq<char> {
    match t {
        None => Seq::empty(),
        Some(None) => "\n[application.trigger]\n"@,
        Some(Some(address)) => "\n[application.trigger.redis]\n"@ + "address = "@ + toml_string_of(address)
            + "\n"@,
    }
}

/// The `[application]` section.
pub open spec fn app_text(a: AppModel) -> Seq<char> {
    "[application]\n"@ + "name = "@ + toml_string_of(a.name) + "\n"@ + "version = "@ + toml_string_of(
        a.version,
    ) + "\n"@ + (if a.description.len() == 0 {
        Seq::empty()
    } else {
        "description = "@ + toml_string_of(a.description) + "\n"@
    }) + (if a.authors.len() == 0 {
        Seq::empty()
    } else {
        "authors = "@ + toml_list(a.authors) + "\n"@
    }) + app_trigger_text(a.trigger)
}

/// The manifest version, the application and the variables.
pub open spec fn head_text(m: SpinModel) -> Seq<char> {
    "spin_manifest_version = "@ + int_text(m.spin_manifest_version as int) + "\n"@ + "\n"@ + app_text(
        m.application,
    ) + (if m.variables.len() == 0 {
        Seq::empty()
    } else {
        "\n[variables]\n"@ + var_lines(m.variables)
    })
}

/// The `source = ...` line of a component.
pub open spec fn source_line(s: SourceModel) -> Seq<char> {
    match s {
        SourceModel::Local(p) => "source = "@ + quoted(p) + "\n"@,
        SourceModel::Remote(u, d) => "source = { url = "@ + quoted(u) + ", digest = "@ + quoted(d)
            + " }\n"@,
        SourceModel::Registry(r, p, v) => "source = { registry = "@ + quoted(r) + ", package = "@
            + quoted(p) + ", version = "@ + quoted(v) + " }\n"@,
    }
}

/// One entry of a `files` array.
pub open spec fn file_text(f: FileMountModel) -> Seq<char> {
    match f {
        FileMountModel::Pattern(p) => quoted(p),
        FileMountModel::Mapping(s, d) => "{ source = "@ + quoted(s) + ", destination = "@ + quoted(d)
            + " }"@,
    }
}

/// The entries of a `files` array.
pub open spec fn file_texts(fs: Seq<FileMountModel>) -> Seq<Seq<char>>
    decreases fs.len(),
{
    if fs.len() == 0 {
        Seq::empty()
    } else {
        file_texts(fs.drop_last()).push(file_text(fs.last()))
    }
}

/// A `name = "value"` pair with the value escaped.
pub open spec fn escaped_pair(k: Seq<char>, v: Seq<char>) -> Seq<char> {
    k + " = "@ + quoted(escaped(v))
}

/// The pairs of an inline environment table.
pub open spec fn env_entries(env: Seq<(Seq<char>, Seq<char>)>) -> Seq<Seq<char>>
    decreases env.len(),
{
    if env.len() == 0 {
        Seq::empty()
    } else {
        env_entries(env.drop_last()).push(escaped_pair(env.last().0, env.last().1))
    }
}

/// The lines of a component's variables table.
pub open spec fn component_var_lines(vars: Seq<(Seq<char>, Seq<char>)>) -> Seq<char>
    decreases vars.len(),
{
    if vars.len() == 0 {
        Seq::empty()
    } else {
        component_var_lines(vars.drop_last()) + escaped_pair(vars.last().0, vars.last().1) + "\n"@
    }
}

/// The build table of component `name`.
pub open spec fn build_text(name: Seq<char>, b: SpinBuildModel) -> Seq<char> {
    "\n[component."@ + name + ".build]\n"@ + "command = "@ + quoted(escaped(b.command)) + "\n"@ + (if b.workdir.len() == 0 {
        Seq::empty()
    } else {
        "workdir = "@ + quoted(b.workdir) + "\n"@
    }) + (if b.watch.len() == 0 {
        Seq::empty()
    } else {
        "watch = "@ + debug_list(b.watch) + "\n"@
    }) + (if b.environment.len() == 0 {
        Seq::empty()
    } else {
        "environment = { "@ + join(env_entries(b.environment), ", "@) + " }\n"@
    })
}

/// A `label[...]` line for a non-empty list, nothing for an empty one.
pub open spec fn list_line(label: Seq<char>, s: Seq<Seq<char>>) -> Seq<char> {
    if s.len() == 0 {
        Seq::empty()
    } else {
        label + debug_list(s) + "\n"@
    }
}

/// The description line, when the description is not empty.
pub open spec fn description_line(d: Seq<char>) -> Seq<char> {
    if d.len() == 0 {
        Seq::empty()
    } else {
        "description = "@ + quoted(d) + "\n"@
    }
}

/// The `files` line, when there are files.
pub open spec fn files_line(fs: Seq<FileMountModel>) -> Seq<char> {
    if fs.len() == 0 {
        Seq::empty()
    } else {
        "files = ["@ + join(file_texts(fs), ", "@) + "]\n"@
    }
}

/// The inheritance line, when dependencies inherit the configuration.
pub open spec fn inherit_line(b: bool) -> Seq<char> {
    if b {
        "dependencies_inherit_configuration = true\n"@
    } else {
        Seq::empty()
    }
}

/// The main table of component `name`, up to its source and permissions.
pub open spec fn component_main_text(name: Seq<char>, c: SpinComponentModel) -> Seq<char> {
    "\n[component."@ + name + "]\n"@ + description_line(c.description) + source_line(c.source) + files_line(
        c.files,
    ) + list_line("exclude_files = "@, c.exclude_files) + list_line(
        "allowed_outbound_hosts = "@,
        c.allowed_outbound_hosts,
    ) + list_line("key_value_stores = "@, c.key_value_stores) + inherit_line(
        c.dependencies_inherit_configuration,
    )
}

/// All tables of component `name`.
pub open spec fn component_text(name: Seq<char>, c: SpinComponentModel) -> Seq<char> {
    component_main_text(name, c) + (match c.build {
        Some(b) => build_text(name, b),
        None => Seq::empty(),
    }) + (if c.variables.len() == 0 {
        Seq::empty()
    } else {
        "\n[component."@ + name + ".variables]\n"@ + component_var_lines(c.variables)
    })
}

/// The tables of all components, in order.
pub open spec fn components_text(cs: Seq<(Seq<char>, SpinComponentModel)>) -> Seq<char>
    decreases cs.len(),
{
    if cs.len() == 0 {
        Seq::empty()
    } else {
        components_text(cs.drop_last()) + component_text(cs.last().0, cs.last().1)
    }
}

/// The route line of an HTTP trigger.
pub open spec fn route_line(r: RouteModel) -> Seq<char> {
    match r {
        RouteModel::Path(p) => "route = "@ + quoted(p) + "\n"@,
        RouteModel::Private(_) => "route = { private = true }\n"@,
    }
}

/// The executor line of an HTTP trigger, if any.
pub open spec fn executor_line(e: Option<ExecutorModel>) -> Seq<char> {
    match e {
        None => Seq::empty(),
        Some(ExecutorModel::Spin) => "executor = { type = \"spin\" }\n"@,
        Some(ExecutorModel::Wagi(argv, entrypoint)) => "executor = { type = \"wagi\""@ + (match argv {
            Some(a) => ", argv = "@ + quoted(a),
            None => Seq::empty(),
        }) + (match entrypoint {
            Some(e) => ", entrypoint = "@ + quoted(e),
            None => Seq::empty(),
        }) + " }\n"@,
    }
}

/// One `[[trigger.http]]` table.
pub open spec fn http_text(t: HttpTriggerModel) -> Seq<char> {
    "[[trigger.http]]\n"@ + route_line(t.route) + "component = "@ + quoted(t.component) + "\n"@
        + executor_line(t.executor) + "\n"@
}

/// All `[[trigger.http]]` tables.
pub open spec fn http_texts(ts: Seq<HttpTriggerModel>) -> Seq<char>
    decreases ts.len(),
{
    if ts.len() == 0 {
        Seq::empty()
    } else {
        http_texts(ts.drop_last()) + http_text(ts.last())
    }
}

/// One `[[trigger.redis]]` table.
pub open spec fn redis_text(t: RedisTriggerModel) -> Seq<char> {
    "[[trigger.redis]]\n"@ + (match t.address {
        Some(a) => "address = "@ + quoted(a) + "\n"@,
        None => Seq::empty(),
    }) + "channel = "@ + quoted(t.channel) + "\n"@ + "component = "@ + quoted(t.component) + "\n"@
        + "\n"@
}

/// All `[[trigger.redis]]` tables.
pub open spec fn redis_texts(ts: Seq<RedisTriggerModel>) -> Seq<char>
    decreases ts.len(),
{
    if ts.len() == 0 {
        Seq::empty()
    } else {
        redis_texts(ts.drop_last()) + redis_text(ts.last())
    }
}

/// The trigger tables.
pub open spec fn triggers_text(t: TriggersModel) -> Seq<char> {
    (if t.http.len() == 0 {
        Seq::empty()
    } else {
        "\n"@ + http_texts(t.http)
    }) + (if t.redis.len() == 0 {
        Seq::empty()
    } else {
        "\n"@ + redis_texts(t.redis)
    })
}

/// The whole spin.toml text of manifest `m` with triggers `t`.
pub open spec fn manifest_text(m: SpinModel, t: TriggersModel) -> Seq<char> {
    head_text(m) + components_text(m.component) + triggers_text(t)
}

// ---------------------------------------------------------------------------
// Writing the text
// ---------------------------------------------------------------------------

/// `true` or `false`.
pub fn bool_str(b: bool) -> (r: &'static str)
    ensures
        r@ == bool_text(b),
{
    if b {
        "true"
    } else {
        "false"
    }
}

/// The decimal digit for `d`.
fn digit(d: u64) -> (r: char)
    requires
        d < 10,
    ensures
        r == digit_char(d as int),
{
    if d == 0 {
        '0'
    } else if d == 1 {
        '1'
    } else if d == 2 {
        '2'
    } else if d == 3 {
        '3'
    } else if d == 4 {
        '4'
    } else if d == 5 {
        '5'
    } else if d == 6 {
        '6'
    } else if d == 7 {
        '7'
    } else if d == 8 {
        '8'
    } else {
        '9'
    }
}

/// Appends the decimal notation of `n`.
pub fn push_nat(out: &mut String, n: u64)
    ensures
        final(out)@ == old(out)@ + nat_text(n as nat),
    decreases n,
{
    if n < 10 {
        push_char(out, digit(n));
        assert(nat_text(n as nat) == seq![digit_char(n as int)]);
    } else {
        push_nat(out, n / 10);
        push_char(out, digit(n % 10));
        assert(nat_text(n as nat) == nat_text((n / 10) as nat) + seq![digit_char((n % 10) as int)]);
        assert(final(out)@ =~= old(out)@ + nat_text(n as nat));
    }
}

/// Decimal notation of a natural number.
pub fn nat_string(n: u64) -> (r: String)
    ensures
        r@ == nat_text(n as nat),
{
    let mut out = String::new();
    push_nat(&mut out, n);
    assert(out@ =~= nat_text(n as nat));
    out
}

/// Decimal notation of an integer.
pub fn int_string(n: i64) -> (r: String)
    ensures
        r@ == int_text(n as int),
{
    let mut out = String::new();
    if n < 0 {
        push_char(&mut out, '-');
        let m: u64 = ((-(n + 1)) as u64) + 1;
        assert(m == -n);
        push_nat(&mut out, m);
        assert(out@ =~= int_text(n as int));
    } else {
        push_nat(&mut out, n as u64);
        assert(out@ =~= int_text(n as int));
    }
    out
}

/// `s` between double quotes.
pub fn quote(s: &str) -> (r: String)
    ensures
        r@ == quoted(s@),
{
    let mut out = String::new();
    push_char(&mut out, '"');
    push_str(&mut out, s);
    push_char(&mut out, '"');
    assert(out@ =~= quoted(s@));
    out
}

/// `s` with backslashes and double quotes escaped.
pub fn escape(s: &str) -> (r: String)
    ensures
        r@ == escaped(s@),
{
    let cs = crate::text::chars_of(s);
    let mut out = String::new();
    let mut i: usize = 0;
    while i < cs.len()
        invariant
            cs@ == s@,
            i <= cs@.len(),
            out@ == escaped(cs@.subrange(0, i as int)),
        decreases cs@.len() - i,
    {
        let c = cs[i];
        if c == '\\' {
            push_char(&mut out, '\\');
            push_char(&mut out, '\\');
        } else if c == '"' {
            push_char(&mut out, '\\');
            push_char(&mut out, '"');
        } else {
            push_char(&mut out, c);
        }
        assert(cs@.subrange(0, i + 1).drop_last() =~= cs@.subrange(0, i as int));
        assert(out@ =~= escaped(cs@.subrange(0, i + 1)));
        i = i + 1;
    }
    assert(cs@.subrange(0, cs@.len() as int) =~= cs@);
    out
}

/// The concatenation of `parts` with `sep` in between.
pub fn join_strings(parts: &Vec<String>, sep: &str) -> (r: String)
    ensures
        r@ == join(parts.deep_view(), sep@),
{
    let mut out = String::new();
    let mut i: usize = 0;
    assert(join(parts.deep_view().subrange(0, 0), sep@) =~= out@);
    while i < parts.len()
        invariant
            i <= parts@.len(),
            out@ == join(parts.deep_view().subrange(0, i as int), sep@),
        decreases parts@.len() - i,
    {
        let ghost pre = parts.deep_view().subrange(0, i as int);
        let ghost next = parts.deep_view().subrange(0, i + 1);
        assert(next.drop_last() =~= pre);
        assert(next.last() == parts[i as int]@);
        if i > 0 {
            push_str(&mut out, sep);
        } else {
            assert(next.len() == 1);
        }
        push_str(&mut out, parts[i].as_str());
        assert(out@ =~= join(next, sep@));
        i = i + 1;
    }
    assert(parts.deep_view().subrange(0, parts@.len() as int) =~= parts.deep_view());
    out
}

/// A TOML array of strings.
pub fn toml_list_string(v: &Vec<String>) -> (r: String)
    ensures
        r@ == toml_list(v.deep_view()),
{
    let mut items: Vec<String> = Vec::new();
    let mut i: usize = 0;
    while i < v.len()
        invariant
            i <= v@.len(),
            items.deep_view() == toml_strings(v.deep_view().subrange(0, i as int)),
        decreases v@.len() - i,
    {
        let t = toml_string_repr(v[i].as_str());
        let ghost before = items.deep_view();
        items.push(t);
        assert(v.deep_view().subrange(0, i + 1).drop_last() =~= v.deep_view().subrange(0, i as int));
        assert(items.deep_view() =~= before.push(t@));
        i = i + 1;
    }
    assert(v.deep_view().subrange(0, v@.len() as int) =~= v.deep_view());
    let mut out = String::new();
    push_str(&mut out, "[");
    let j = join_strings(&items, ", ");
    push_str(&mut out, j.as_str());
    push_str(&mut out, "]");
    assert(out@ =~= toml_list(v.deep_view()));
    out
}

/// What `{:?}` prints for a list of strings.
pub fn debug_list_string(v: &Vec<String>) -> (r: String)
    ensures
        r@ == debug_list(v.deep_view()),
{
    let mut items: Vec<String> = Vec::new();
    let mut i: usize = 0;
    while i < v.len()
        invariant
            i <= v@.len(),
            items.deep_view() == debug_strings(v.deep_view().subrange(0, i as int)),
        decreases v@.len() - i,
    {
        let t = debug_repr(v[i].as_str());
        let ghost before = items.deep_view();
        items.push(t);
        assert(v.deep_view().subrange(0, i + 1).drop_last() =~= v.deep_view().subrange(0, i as int));
        assert(items.deep_view() =~= before.push(t@));
        i = i + 1;
    }
    assert(v.deep_view().subrange(0, v@.len() as int) =~= v.deep_view());
    let mut out = String::new();
    push_str(&mut out, "[");
    let j = join_strings(&items, ", ");
    push_str(&mut out, j.as_str());
    push_str(&mut out, "]");
    assert(out@ =~= debug_list(v.deep_view()));
    out
}

/// The inline table of a manifest variable.
pub fn var_value_string(v: &SpinVariable) -> (r: String)
    ensures
        r@ == var_value_text(v@),
{
    let mut out = String::new();
    match v {
        SpinVariable::Default { default } => {
            push_str(&mut out, "{ default = ");
            push_str(&mut out, toml_string_repr(default.as_str()).as_str());
            push_str(&mut out, " }");
        },
        SpinVariable::Required { required } => {
            push_str(&mut out, "{ required = ");
            push_str(&mut out, bool_str(*required));
            push_str(&mut out, " }");
        },
        SpinVariable::SecretDefault { default, secret } => {
            push_str(&mut out, "{ default = ");
            push_str(&mut out, toml_string_repr(default.as_str()).as_str());
            push_str(&mut out, ", secret = ");
            push_str(&mut out, bool_str(*secret));
            push_str(&mut out, " }");
        },
        SpinVariable::SecretRequired { required, secret } => {
            push_str(&mut out, "{ required = ");
            push_str(&mut out, bool_str(*required));
            push_str(&mut out, ", secret = ");
            push_str(&mut out, bool_str(*secret));
            push_str(&mut out, " }");
        },
    }
    assert(out@ =~= var_value_text(v@));
    out
}

/// The lines of the `[variables]` table.
pub fn var_lines_string(vars: &StrMap<SpinVariable>) -> (r: String)
    ensures
        r@ == var_lines(vars@),
{
    let mut out = String::new();
    let mut i: usize = 0;
    assert(vars@.subrange(0, 0) =~= Seq::<(Seq<char>, SpinVarModel)>::empty());
    while i < vars.len()
        invariant
            i <= vars@.len(),
            out@ == var_lines(vars@.subrange(0, i as int)),
        decreases vars@.len() - i,
    {
        let k = vars.key_at(i);
        let v = vars.value_at(i);
        let ghost before = out@;
        push_str(&mut out, toml_key_repr(k.as_str()).as_str());
        push_str(&mut out, " = ");
        push_str(&mut out, var_value_string(v).as_str());
        push_str(&mut out, "\n");
        assert(vars@.subrange(0, i + 1).drop_last() =~= vars@.subrange(0, i as int));
        assert(out@ =~= before + var_line(vars@[i as int].0, vars@[i as int].1));
        i = i + 1;
    }
    assert(vars@.subrange(0, vars@.len() as int) =~= vars@);
    out
}

/// The application trigger sections.
fn app_trigger_string(a: &ApplicationConfig) -> (r: String)
    ensures
        r@ == app_trigger_text(a@.trigger),
{
    let mut out = String::new();
    match &a.trigger {
        None => {},
        Some(t) => match &t.redis {
            None => {
                push_str(&mut out, "\n[application.trigger]\n");
            },
            Some(redis) => {
                push_str(&mut out, "\n[application.trigger.redis]\n");
                push_str(&mut out, "address = ");
                push_str(&mut out, toml_string_repr(redis.address.as_str()).as_str());
                push_str(&mut out, "\n");
            },
        },
    }
    assert(out@ =~= app_trigger_text(a@.trigger));
    out
}

/// The `[application]` section.
pub fn app_string(a: &ApplicationConfig) -> (r: String)
    ensures
        r@ == app_text(a@),
{
    let mut out = String::new();
    push_str(&mut out, "[application]\n");
    push_str(&mut out, "name = ");
    push_str(&mut out, toml_string_repr(a.name.as_str()).as_str());
    push_str(&mut out, "\n");
    push_str(&mut out, "version = ");
    push_str(&mut out, toml_string_repr(a.version.as_str()).as_str());
    push_str(&mut out, "\n");
    let ghost p1 = out@;
    if !a.description.as_str().is_empty() {
        push_str(&mut out, "description = ");
        push_str(&mut out, toml_string_repr(a.description.as_str()).as_str());
        push_str(&mut out, "\n");
    }
    let ghost p2 = out@;
    if a.authors.len() > 0 {
        push_str(&mut out, "authors = ");
        push_str(&mut out, toml_list_string(&a.authors).as_str());
        push_str(&mut out, "\n");
    }
    let ghost p3 = out@;
    push_str(&mut out, app_trigger_string(a).as_str());
    assert(a.authors.deep_view().len() == a.authors@.len());
    assert(out@ =~= app_text(a@));
    out
}

/// The manifest version, the application and the variables.
pub fn head_string(m: &SpinConfig) -> (r: String)
    ensures
        r@ == head_text(m@),
{
    let mut out = String::new();
    push_str(&mut out, "spin_manifest_version = ");
    push_str(&mut out, int_string(m.spin_manifest_version).as_str());
    push_str(&mut out, "\n");
    push_str(&mut out, "\n");
    push_str(&mut out, app_string(&m.application).as_str());
    if !m.variables.is_empty() {
        push_str(&mut out, "\n[variables]\n");
        push_str(&mut out, var_lines_string(&m.variables).as_str());
    }
    assert(out@ =~= head_text(m@));
    out
}

/// The `source = ...` line of a component.
pub fn source_line_string(src: &ComponentSource) -> (r: String)
    ensures
        r@ == source_line(src@),
{
    let mut out = String::new();
    match src {
        ComponentSource::Local(p) => {
            push_str(&mut out, "source = ");
            push_str(&mut out, quote(p.as_str()).as_str());
            push_str(&mut out, "\n");
        },
        ComponentSource::Remote { url, digest } => {
            push_str(&mut out, "source = { url = ");
            push_str(&mut out, quote(url.as_str()).as_str());
            push_str(&mut out, ", digest = ");
            push_str(&mut out, quote(digest.as_str()).as_str());
            push_str(&mut out, " }\n");
        },
        ComponentSource::Registry { registry, package, version } => {
            push_str(&mut out, "source = { registry = ");
            push_str(&mut out, quote(registry.as_str()).as_str());
            push_str(&mut out, ", package = ");
            push_str(&mut out, quote(package.as_str()).as_str());
            push_str(&mut out, ", version = ");
            push_str(&mut out, quote(version.as_str()).as_str());
            push_str(&mut out, " }\n");
        },
    }
    assert(out@ =~= source_line(src@));
    out
}

/// One entry of a `files` array.
pub fn file_string(f: &FileMount) -> (r: String)
    ensures
        r@ == file_text(f@),
{
    match f {
        FileMount::Pattern(p) => quote(p.as_str()),
        FileMount::Mapping { source, destination } => {
            let mut out = String::new();
            push_str(&mut out, "{ source = ");
            push_str(&mut out, quote(source.as_str()).as_str());
            push_str(&mut out, ", destination = ");
            push_str(&mut out, quote(destination.as_str()).as_str());
            push_str(&mut out, " }");
            assert(out@ =~= file_text(f@));
            out
        },
    }
}

/// The entries of a `files` array.
pub fn file_strings(fs: &Vec<FileMount>) -> (r: Vec<String>)
    ensures
        r.deep_view() == file_texts(views(fs@)),
{
    let mut items: Vec<String> = Vec::new();
    let mut i: usize = 0;
    while i < fs.len()
        invariant
            i <= fs@.len(),
            items.deep_view() == file_texts(views(fs@).subrange(0, i as int)),
        decreases fs@.len() - i,
    {
        let t = file_string(&fs[i]);
        let ghost before = items.deep_view();
        items.push(t);
        assert(views(fs@).subrange(0, i + 1).drop_last() =~= views(fs@).subrange(0, i as int));
        assert(items.deep_view() =~= before.push(t@));
        i = i + 1;
    }
    assert(views(fs@).subrange(0, fs@.len() as int) =~= views(fs@));
    items
}

/// A `name = "value"` pair with the value escaped.
pub fn escaped_pair_string(k: &str, v: &str) -> (r: String)
    ensures
        r@ == escaped_pair(k@, v@),
{
    let mut out = String::new();
    push_str(&mut out, k);
    push_str(&mut out, " = ");
    push_str(&mut out, quote(escape(v).as_str()).as_str());
    assert(out@ =~= escaped_pair(k@, v@));
    out
}

/// The pairs of an inline environment table.
pub fn env_entry_strings(env: &StrMap<String>) -> (r: Vec<String>)
    ensures
        r.deep_view() == env_entries(env@),
{
    let mut items: Vec<String> = Vec::new();
    let mut i: usize = 0;
    while i < env.len()
        invariant
            i <= env@.len(),
            items.deep_view() == env_entries(env@.subrange(0, i as int)),
        decreases env@.len() - i,
    {
        let t = escaped_pair_string(env.key_at(i).as_str(), env.value_at(i).as_str());
        let ghost before = items.deep_view();
        items.push(t);
        assert(env@.subrange(0, i + 1).drop_last() =~= env@.subrange(0, i as int));
        assert(items.deep_view() =~= before.push(t@));
        i = i + 1;
    }
    assert(env@.subrange(0, env@.len() as int) =~= env@);
    items
}

/// The lines of a component's variables table.
pub fn component_var_lines_string(vars: &StrMap<String>) -> (r: String)
    ensures
        r@ == component_var_lines(vars@),
{
    let mut out = String::new();
    let mut i: usize = 0;
    assert(vars@.subrange(0, 0) =~= Seq::<(Seq<char>, Seq<char>)>::empty());
    while i < vars.len()
        invariant
            i <= vars@.len(),
            out@ == component_var_lines(vars@.subrange(0, i as int)),
        decreases vars@.len() - i,
    {
        let ghost before = out@;
        push_str(&mut out, escaped_pair_string(vars.key_at(i).as_str(), vars.value_at(i).as_str()).as_str());
        push_str(&mut out, "\n");
        assert(vars@.subrange(0, i + 1).drop_last() =~= vars@.subrange(0, i as int));
        assert(out@ =~= before + escaped_pair(vars@[i as int].0, vars@[i as int].1) + "\n"@);
        i = i + 1;
    }
    assert(vars@.subrange(0, vars@.len() as int) =~= vars@);
    out
}

/// The build table of component `name`.
pub fn build_string(name: &str, b: &ComponentBuildConfig) -> (r: String)
    ensures
        r@ == build_text(name@, b@),
{
    let mut out = String::new();
    push_str(&mut out, "\n[component.");
    push_str(&mut out, name);
    push_str(&mut out, ".build]\n");
    push_str(&mut out, "command = ");
    push_str(&mut out, quote(escape(b.command.as_str()).as_str()).as_str());
    push_str(&mut out, "\n");
    if !b.workdir.as_str().is_empty() {
        push_str(&mut out, "workdir = ");
        push_str(&mut out, quote(b.workdir.as_str()).as_str());
        push_str(&mut out, "\n");
    }
    if b.watch.len() > 0 {
        push_str(&mut out, "watch = ");
        push_str(&mut out, debug_list_string(&b.watch).as_str());
        push_str(&mut out, "\n");
    }
    if !b.environment.is_empty() {
        push_str(&mut out, "environment = { ");
        let entries = env_entry_strings(&b.environment);
        push_str(&mut out, join_strings(&entries, ", ").as_str());
        push_str(&mut out, " }\n");
    }
    assert(b.watch.deep_view().len() == b.watch@.len());
    assert(out@ =~= build_text(name@, b@));
    out
}

/// A `label[...]` line for a non-empty list.
pub fn list_line_string(label: &str, v: &Vec<String>) -> (r: String)
    ensures
        r@ == list_line(label@, v.deep_view()),
{
    let mut out = String::new();
    if v.len() > 0 {
        push_str(&mut out, label);
        push_str(&mut out, debug_list_string(v).as_str());
        push_str(&mut out, "\n");
    }
    assert(v.deep_view().len() == v@.len());
    assert(out@ =~= list_line(label@, v.deep_view()));
    out
}

/// The main table of component `name`.
pub fn component_main_string(name: &str, c: &ComponentConfig) -> (r: String)
    ensures
        r@ == component_main_text(name@, c@),
{
    let mut out = String::new();
    push_str(&mut out, "\n[component.");
    push_str(&mut out, name);
    push_str(&mut out, "]\n");
    let mut desc = String::new();
    if !c.description.as_str().is_empty() {
        push_str(&mut desc, "description = ");
        push_str(&mut desc, quote(c.description.as_str()).as_str());
        push_str(&mut desc, "\n");
    }
    assert(desc@ =~= description_line(c@.description));
    let mut files = String::new();
    if c.files.len() > 0 {
        push_str(&mut files, "files = [");
        let items = file_strings(&c.files);
        push_str(&mut files, join_strings(&items, ", ").as_str());
        push_str(&mut files, "]\n");
    }
    assert(views(c.files@).len() == c.files@.len());
    assert(files@ =~= files_line(c@.files));
    let mut inherit = String::new();
    if c.dependencies_inherit_configuration {
        push_str(&mut inherit, "dependencies_inherit_configuration = true\n");
    }
    assert(inherit@ =~= inherit_line(c@.dependencies_inherit_configuration));
    let src = source_line_string(&c.source);
    let ex = list_line_string("exclude_files = ", &c.exclude_files);
    let hosts = list_line_string("allowed_outbound_hosts = ", &c.allowed_outbound_hosts);
    let kv = list_line_string("key_value_stores = ", &c.key_value_stores);
    let ghost head = out@;
    push_str(&mut out, desc.as_str());
    push_str(&mut out, src.as_str());
    push_str(&mut out, files.as_str());
    push_str(&mut out, ex.as_str());
    push_str(&mut out, hosts.as_str());
    push_str(&mut out, kv.as_str());
    push_str(&mut out, inherit.as_str());
    assert(out@ =~= head + desc@ + src@ + files@ + ex@ + hosts@ + kv@ + inherit@);
    out
}

/// All tables of component `name`.
pub fn component_string(name: &str, c: &ComponentConfig) -> (r: String)
    ensures
        r@ == component_text(name@, c@),
{
    let mut out = component_main_string(name, c);
    match &c.build {
        Some(b) => {
            push_str(&mut out, build_string(name, b).as_str());
        },
        None => {},
    }
    if !c.variables.is_empty() {
        push_str(&mut out, "\n[component.");
        push_str(&mut out, name);
        push_str(&mut out, ".variables]\n");
        push_str(&mut out, component_var_lines_string(&c.variables).as_str());
    }
    assert(out@ =~= component_text(name@, c@));
    out
}

/// The tables of all components.
pub fn components_string(cs: &StrMap<ComponentConfig>) -> (r: String)
    ensures
        r@ == components_text(cs@),
{
    let mut out = String::new();
    let mut i: usize = 0;
    assert(cs@.subrange(0, 0) =~= Seq::<(Seq<char>, SpinComponentModel)>::empty());
    while i < cs.len()
        invariant
            i <= cs@.len(),
            out@ == components_text(cs@.subrange(0, i as int)),
        decreases cs@.len() - i,
    {
        let ghost before = out@;
        push_str(&mut out, component_string(cs.key_at(i).as_str(), cs.value_at(i)).as_str());
        assert(cs@.subrange(0, i + 1).drop_last() =~= cs@.subrange(0, i as int));
        assert(out@ =~= before + component_text(cs@[i as int].0, cs@[i as int].1));
        i = i + 1;
    }
    assert(cs@.subrange(0, cs@.len() as int) =~= cs@);
    out
}

/// One `[[trigger.http]]` table.
pub fn http_string(t: &HttpTrigger) -> (r: String)
    ensures
        r@ == http_text(t@),
{
    let mut out = String::new();
    push_str(&mut out, "[[trigger.http]]\n");
    match &t.route {
        RouteConfig::Path(p) => {
            push_str(&mut out, "route = ");
            push_str(&mut out, quote(p.as_str()).as_str());
            push_str(&mut out, "\n");
        },
        RouteConfig::Private { private: _ } => {
            push_str(&mut out, "route = { private = true }\n");
        },
    }
    push_str(&mut out, "component = ");
    push_str(&mut out, quote(t.component.as_str()).as_str());
    push_str(&mut out, "\n");
    let ghost p1 = out@;
    match &t.executor {
        None => {},
        Some(ExecutorConfig::Spin) => {
            push_str(&mut out, "executor = { type = \"spin\" }\n");
        },
        Some(ExecutorConfig::Wagi { argv, entrypoint }) => {
            push_str(&mut out, "executor = { type = \"wagi\"");
            if let Some(a) = argv {
                push_str(&mut out, ", argv = ");
                push_str(&mut out, quote(a.as_str()).as_str());
            }
            if let Some(e) = entrypoint {
                push_str(&mut out, ", entrypoint = ");
                push_str(&mut out, quote(e.as_str()).as_str());
            }
            push_str(&mut out, " }\n");
        },
    }
    assert(out@ =~= p1 + executor_line(t@.executor));
    push_str(&mut out, "\n");
    assert(out@ =~= http_text(t@));
    out
}

/// One `[[trigger.redis]]` table.
pub fn redis_string(t: &RedisTrigger) -> (r: String)
    ensures
        r@ == redis_text(t@),
{
    let mut out = String::new();
    push_str(&mut out, "[[trigger.redis]]\n");
    if let Some(a) = &t.address {
        push_str(&mut out, "address = ");
        push_str(&mut out, quote(a.as_str()).as_str());
        push_str(&mut out, "\n");
    }
    push_str(&mut out, "channel = ");
    push_str(&mut out, quote(t.channel.as_str()).as_str());
    push_str(&mut out, "\n");
    push_str(&mut out, "component = ");
    push_str(&mut out, quote(t.component.as_str()).as_str());
    push_str(&mut out, "\n");
    push_str(&mut out, "\n");
    assert(out@ =~= redis_text(t@));
    out
}

/// The trigger tables.
pub fn triggers_string(t: &TriggerConfig) -> (r: String)
    ensures
        r@ == triggers_text(t@),
{
    let mut out = String::new();
    if t.http.len() > 0 {
        push_str(&mut out, "\n");
        let mut i: usize = 0;
        let ghost hv = views(t.http@);
        assert(hv.subrange(0, 0) =~= Seq::<HttpTriggerModel>::empty());
        while i < t.http.len()
            invariant
                hv == views(t.http@),
                i <= t.http@.len(),
                out@ == "\n"@ + http_texts(hv.subrange(0, i as int)),
            decreases t.http@.len() - i,
        {
            let ghost before = out@;
            push_str(&mut out, http_string(&t.http[i]).as_str());
            assert(hv.subrange(0, i + 1).drop_last() =~= hv.subrange(0, i as int));
            assert(out@ =~= "\n"@ + http_texts(hv.subrange(0, i + 1)));
            i = i + 1;
        }
        assert(hv.subrange(0, hv.len() as int) =~= hv);
    }
    let ghost p1 = out@;
    if t.redis.len() > 0 {
        push_str(&mut out, "\n");
        let mut i: usize = 0;
        let ghost rv = views(t.redis@);
        assert(rv.subrange(0, 0) =~= Seq::<RedisTriggerModel>::empty());
        while i < t.redis.len()
            invariant
                rv == views(t.redis@),
                i <= t.redis@.len(),
                out@ == p1 + "\n"@ + redis_texts(rv.subrange(0, i as int)),
            decreases t.redis@.len() - i,
        {
            let ghost before = out@;
            push_str(&mut out, redis_string(&t.redis[i]).as_str());
            assert(rv.subrange(0, i + 1).drop_last() =~= rv.subrange(0, i as int));
            assert(out@ =~= p1 + "\n"@ + redis_texts(rv.subrange(0, i + 1)));
            i = i + 1;
        }
        assert(rv.subrange(0, rv.len() as int) =~= rv);
    }
    assert(out@ =~= triggers_text(t@));
    out
}

impl SpinConfig {
    /// Writes the manifest with the given triggers as spin.toml text: the
    /// manifest version, `[application]`, `[variables]`, one set of tables per
    /// component in order, then `[[trigger.http]]` and `[[trigger.redis]]`
    /// tables. Writing never fails.
    pub fn to_toml_string_with_triggers(&self, triggers: &TriggerConfig) -> (r: Result<String, String>)
        ensures
            r matches Ok(s) && s@ == manifest_text(self@, triggers@),
    {
        let mut out = head_string(self);
        push_str(&mut out, components_string(&self.component).as_str());
        push_str(&mut out, triggers_string(triggers).as_str());
        assert(out@ =~= manifest_text(self@, triggers@));
        Ok(out)
    }
}

} // verus!
