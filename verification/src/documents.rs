//! Parsed TOML and JSON documents, and the lookups the commands make in them.
use vstd::prelude::*;
use crate::text::str_eq;

verus! {

/// A TOML value as the library reads it. Floats and date-times are
/// [`TomlValue::Other`]; a table keeps its entries in the parser's order.
#[derive(Debug)]
pub enum TomlValue {
    /// A string
    Str(String),
    /// An integer
    Int(i64),
    /// A boolean
    Bool(bool),
    /// An array
    Array(Vec<TomlValue>),
    /// A table: its keys with their values
    Table(Vec<(String, TomlValue)>),
    /// A float or a date-time
    Other,
}

impl View for TomlValue {
    type V = TomlValue;

    open spec fn view(&self) -> TomlValue {
        *self
    }
}

/// A JSON value as the library reads it. Numbers are not read.
#[derive(Debug)]
pub enum JsonValue {
    /// `null`
    Null,
    /// A boolean
    Bool(bool),
    /// A number
    Number,
    /// A string
    Str(String),
    /// An array
    Array(Vec<JsonValue>),
    /// An object: its keys with their values
    Object(Vec<(String, JsonValue)>),
}

#[verifier::external_type_specification]
#[verifier::external_body]
pub struct ExTomlValue(toml::Value);

#[verifier::external_type_specification]
#[verifier::external_body]
pub struct ExJsonValue(serde_json::Value);

/// What `toml::from_str::<toml::Value>` makes of a document: its value, or
/// the text of its error.
pub uninterp spec fn toml_parsed_of(text: Seq<char>) -> Result<TomlValue, Seq<char>>;

/// What `serde_json::from_str::<serde_json::Value>` makes of a text: its
/// value, or the text of its error.
pub uninterp spec fn json_parsed_of(text: Seq<char>) -> Result<JsonValue, Seq<char>>;

/// A `toml::Value` as a [`TomlValue`], variant for variant.
#[verifier::external_body]
fn from_toml_value(v: toml::Value) -> TomlValue {
    match v {
        toml::Value::String(s) => TomlValue::Str(s),
        toml::Value::Integer(i) => TomlValue::Int(i),
        toml::Value::Float(_) => TomlValue::Other,
        toml::Value::Boolean(b) => TomlValue::Bool(b),
        toml::Value::Datetime(_) => TomlValue::Other,
        toml::Value::Array(a) => TomlValue::Array(a.into_iter().map(from_toml_value).collect()),
        toml::Value::Table(t) => TomlValue::Table(t.into_iter().map(|(k, x)| (k, from_toml_value(x))).collect()),
    }
}

/// A `serde_json::Value` as a [`JsonValue`], variant for variant.
#[verifier::external_body]
fn from_json_value(v: serde_json::Value) -> JsonValue {
    match v {
        serde_json::Value::Null => JsonValue::Null,
        serde_json::Value::Bool(b) => JsonValue::Bool(b),
        serde_json::Value::Number(_) => JsonValue::Number,
        serde_json::Value::String(s) => JsonValue::Str(s),
        serde_json::Value::Array(a) => JsonValue::Array(a.into_iter().map(from_json_value).collect()),
        serde_json::Value::Object(o) => JsonValue::Object(o.into_iter().map(|(k, x)| (k, from_json_value(x))).collect()),
    }
}

/// Parses a TOML document with `toml::from_str::<toml::Value>`. The contract
/// claims only that the outcome, value or error text, is a function of the
/// text ([`toml_parsed_of`]); what the parser accepts is not restated.
#[verifier::external_body]
pub fn parse_toml(text: &str) -> (r: Result<TomlValue, String>)
    ensures
        match r {
            Ok(v) => toml_parsed_of(text@) == Ok::<TomlValue, Seq<char>>(v),
            Err(e) => toml_parsed_of(text@) == Err::<TomlValue, Seq<char>>(e@),
        },
{
    match toml::from_str::<toml::Value>(text) {
        Ok(v) => Ok(from_toml_value(v)),
        Err(e) => Err(e.to_string()),
    }
}

/// Parses a JSON text with `serde_json::from_str::<serde_json::Value>`. The
/// contract claims only that the outcome, value or error text, is a function
/// of the text ([`json_parsed_of`]).
#[verifier::external_body]
pub fn parse_json(text: &str) -> (r: Result<JsonValue, String>)
    ensures
        match r {
            Ok(v) => json_parsed_of(text@) == Ok::<JsonValue, Seq<char>>(v),
            Err(e) => json_parsed_of(text@) == Err::<JsonValue, Seq<char>>(e@),
        },
{
    match serde_json::from_str::<serde_json::Value>(text) {
        Ok(v) => Ok(from_json_value(v)),
        Err(e) => Err(e.to_string()),
    }
}

// ---------------------------------------------------------------------------
// Lookups
// ---------------------------------------------------------------------------

/// The value of the first entry keyed `k` (a parsed table has each key once).
pub open spec fn entry_value(entries: Seq<(String, TomlValue)>, k: Seq<char>) -> Option<TomlValue>
    decreases entries.len(),
{
    if entries.len() == 0 {
        None
    } else if entries[0].0@ == k {
        Some(entries[0].1)
    } else {
        entry_value(entries.drop_first(), k)
    }
}

/// `v[k]` when `v` is a table with key `k` (`toml::Value::get`).
pub open spec fn value_get(v: TomlValue, k: Seq<char>) -> Option<TomlValue> {
    match v {
        TomlValue::Table(entries) => entry_value(entries@, k),
        _ => None,
    }
}

/// `v[k]` when there is a `v` and it is a table with key `k`.
pub open spec fn opt_get(v: Option<TomlValue>, k: Seq<char>) -> Option<TomlValue> {
    match v {
        Some(x) => value_get(x, k),
        None => None,
    }
}

/// The text of a string value (`as_str`).
pub open spec fn value_str(v: Option<TomlValue>) -> Option<Seq<char>> {
    match v {
        Some(TomlValue::Str(s)) => Some(s@),
        _ => None,
    }
}

/// The value of the first entry keyed `k`.
pub fn entry_lookup<'a>(entries: &'a Vec<(String, TomlValue)>, k: &str) -> (r: Option<&'a TomlValue>)
    ensures
        match r {
            Some(x) => entry_value(entries@, k@) == Some(*x),
            None => entry_value(entries@, k@) is None,
        },
{
    let ghost es = entries@;
    let mut i: usize = 0;
    assert(es.subrange(0, es.len() as int) =~= es);
    while i < entries.len()
        invariant
            i <= es.len(),
            es == entries@,
            entry_value(es, k@) == entry_value(es.subrange(i as int, es.len() as int), k@),
        decreases es.len() - i,
    {
        let ghost rest = es.subrange(i as int, es.len() as int);
        assert(rest[0] == es[i as int]);
        if str_eq(entries[i].0.as_str(), k) {
            return Some(&entries[i].1);
        }
        assert(rest.drop_first() =~= es.subrange(i + 1, es.len() as int));
        i = i + 1;
    }
    None
}

/// `v[k]` when `v` is a table with key `k`; see [`value_get`].
pub fn get_value<'a>(v: &'a TomlValue, k: &str) -> (r: Option<&'a TomlValue>)
    ensures
        match r {
            Some(x) => value_get(*v, k@) == Some(*x),
            None => value_get(*v, k@) is None,
        },
{
    match v {
        TomlValue::Table(entries) => entry_lookup(entries, k),
        _ => None,
    }
}

/// `v[k]` when there is a `v` and it is a table with key `k`; see [`opt_get`].
pub fn get_in<'a>(v: Option<&'a TomlValue>, k: &str) -> (r: Option<&'a TomlValue>)
    ensures
        match v {
            Some(x) => match r {
                Some(y) => value_get(*x, k@) == Some(*y),
                None => value_get(*x, k@) is None,
            },
            None => r is None,
        },
{
    match v {
        Some(x) => get_value(x, k),
        None => None,
    }
}

/// The text of a string value; see [`value_str`].
pub fn str_of(v: Option<&TomlValue>) -> (r: Option<String>)
    ensures
        r.deep_view() == value_str(
            match v {
                Some(x) => Some(*x),
                None => None,
            },
        ),
{
    match v {
        Some(TomlValue::Str(s)) => Some(s.clone()),
        _ => None,
    }
}

/// The keys of a table's entries, in order.
pub open spec fn entry_keys(entries: Seq<(String, TomlValue)>) -> Seq<Seq<char>> {
    entries.map_values(|e: (String, TomlValue)| e.0@)
}

/// The text of the first item of an array, when that is a string.
pub open spec fn first_str(v: TomlValue) -> Option<Seq<char>> {
    match v {
        TomlValue::Array(items) => if items@.len() > 0 {
            value_str(Some(items@[0]))
        } else {
            None
        },
        _ => None,
    }
}

/// Each item of an array as its text, when it is a string.
pub open spec fn item_strs(items: Seq<TomlValue>) -> Seq<Option<Seq<char>>> {
    items.map_values(|x: TomlValue| value_str(Some(x)))
}

/// The keys of a table's entries, in order; see [`entry_keys`].
pub fn keys_of_entries(entries: &Vec<(String, TomlValue)>) -> (r: Vec<String>)
    ensures
        r.deep_view() == entry_keys(entries@),
{
    let ghost es = entries@;
    let mut out: Vec<String> = Vec::new();
    let mut i: usize = 0;
    while i < entries.len()
        invariant
            i <= es.len(),
            es == entries@,
            out.deep_view() == entry_keys(es.subrange(0, i as int)),
        decreases es.len() - i,
    {
        let ghost before = out.deep_view();
        out.push(entries[i].0.clone());
        assert(out.deep_view() =~= entry_keys(es.subrange(0, i + 1))) by {
            assert(out.deep_view() =~= before.push(es[i as int].0@));
        }
        i = i + 1;
    }
    assert(es.subrange(0, es.len() as int) =~= es);
    out
}

/// The text of the first item of an array; see [`first_str`].
pub fn first_string(v: &TomlValue) -> (r: Option<String>)
    ensures
        r.deep_view() == first_str(*v),
{
    match v {
        TomlValue::Array(items) => if items.len() > 0 {
            str_of(Some(&items[0]))
        } else {
            None
        },
        _ => None,
    }
}

/// Each item of an array as its text; see [`item_strs`].
pub fn item_strings(items: &Vec<TomlValue>) -> (r: Vec<Option<String>>)
    ensures
        r.deep_view() == item_strs(items@),
{
    let ghost xs = items@;
    let mut out: Vec<Option<String>> = Vec::new();
    let mut i: usize = 0;
    while i < items.len()
        invariant
            i <= xs.len(),
            xs == items@,
            out.deep_view() == item_strs(xs.subrange(0, i as int)),
        decreases xs.len() - i,
    {
        let ghost before = out.deep_view();
        let t = str_of(Some(&items[i]));
        out.push(t);
        assert(out.deep_view() =~= item_strs(xs.subrange(0, i + 1))) by {
            assert(out.deep_view() =~= before.push(value_str(Some(xs[i as int]))));
        }
        i = i + 1;
    }
    assert(xs.subrange(0, xs.len() as int) =~= xs);
    out
}

/// The value of the first member keyed `k` of a JSON object.
pub open spec fn json_member(members: Seq<(String, JsonValue)>, k: Seq<char>) -> Option<JsonValue>
    decreases members.len(),
{
    if members.len() == 0 {
        None
    } else if members[0].0@ == k {
        Some(members[0].1)
    } else {
        json_member(members.drop_first(), k)
    }
}

/// The text of member `k` of a JSON object, when it is a string
/// (`get(k)` then `as_str`).
pub open spec fn json_str_field(v: JsonValue, k: Seq<char>) -> Option<Seq<char>> {
    match v {
        JsonValue::Object(members) => match json_member(members@, k) {
            Some(JsonValue::Str(s)) => Some(s@),
            _ => None,
        },
        _ => None,
    }
}

/// The value of the first member keyed `k` of a JSON object.
fn member_lookup<'a>(members: &'a Vec<(String, JsonValue)>, k: &str) -> (r: Option<&'a JsonValue>)
    ensures
        match r {
            Some(x) => json_member(members@, k@) == Some(*x),
            None => json_member(members@, k@) is None,
        },
{
    let ghost ms = members@;
    let mut i: usize = 0;
    assert(ms.subrange(0, ms.len() as int) =~= ms);
    while i < members.len()
        invariant
            i <= ms.len(),
            ms == members@,
            json_member(ms, k@) == json_member(ms.subrange(i as int, ms.len() as int), k@),
        decreases ms.len() - i,
    {
        let ghost rest = ms.subrange(i as int, ms.len() as int);
        assert(rest[0] == ms[i as int]);
        if str_eq(members[i].0.as_str(), k) {
            return Some(&members[i].1);
        }
        assert(rest.drop_first() =~= ms.subrange(i + 1, ms.len() as int));
        i = i + 1;
    }
    None
}

/// The text of member `k` of a JSON object; see [`json_str_field`].
pub fn json_string_field(v: &JsonValue, k: &str) -> (r: Option<String>)
    ensures
        r.deep_view() == json_str_field(*v, k@),
{
    match v {
        JsonValue::Object(members) => match member_lookup(members, k) {
            Some(JsonValue::Str(s)) => Some(s.clone()),
            _ => None,
        },
        _ => None,
    }
}

} // verus!
