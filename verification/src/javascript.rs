//! Rules of JavaScript tools: the class name of a tool and the Node.js
//! versions that can build one.
use vstd::prelude::*;
use crate::commands::{digits_value, u32_text, u32_value, unsigned_digits};
use crate::lines::{trim_text, trimmed};
use crate::registry::{strip_leading_vs, trim_leading_vs};
use crate::text::{char_to_uppercase, char_upper_of, chars_first_index, chars_of, first_index_of, push_char, push_str, sub_chars};

verus! {

/// The PascalCase class name of a tool: its name split at `-` and `_`,
/// each part with its first character upper-cased, joined together.
pub open spec fn class_name_of(s: Seq<char>, word_start: bool) -> Seq<char>
    decreases s.len(),
{
    if s.len() == 0 {
        Seq::empty()
    } else if s[0] == '-' || s[0] == '_' {
        class_name_of(s.drop_first(), true)
    } else if word_start {
        char_upper_of(s[0]) + class_name_of(s.drop_first(), false)
    } else {
        seq![s[0]] + class_name_of(s.drop_first(), false)
    }
}

/// The class name of the tool `name`; see [`class_name_of`].
pub fn tool_name_class(name: &str) -> (r: String)
    ensures
        r@ == class_name_of(name@, true),
{
    let cs = chars_of(name);
    let n = cs.len();
    let mut out = String::new();
    let mut start = true;
    let mut i: usize = 0;
    assert(name@.subrange(0, n as int) =~= name@);
    while i < n
        invariant
            n == cs@.len(),
            cs@ == name@,
            i <= n,
            class_name_of(name@, true) == out@ + class_name_of(name@.subrange(i as int, n as int), start),
        decreases n - i,
    {
        let ghost t = name@.subrange(i as int, n as int);
        assert(t.drop_first() =~= name@.subrange(i + 1, n as int));
        let c = cs[i];
        let ghost before = out@;
        if c == '-' || c == '_' {
            start = true;
        } else if start {
            let u = char_to_uppercase(c);
            push_str(&mut out, u.as_str());
            start = false;
            assert(before + (char_upper_of(c) + class_name_of(t.drop_first(), false)) =~= out@
                + class_name_of(t.drop_first(), false));
        } else {
            push_char(&mut out, c);
            assert(before + (seq![c] + class_name_of(t.drop_first(), false)) =~= out@
                + class_name_of(t.drop_first(), false));
        }
        i = i + 1;
    }
    assert(name@.subrange(n as int, n as int) =~= Seq::<char>::empty());
    assert(out@ + Seq::<char>::empty() =~= out@);
    out
}

/// The part of `s` before its first `.` (all of `s` without one).
pub open spec fn leading_field(s: Seq<char>) -> Seq<char> {
    if s.contains('.') {
        s.subrange(0, first_index_of(s, '.'))
    } else {
        s
    }
}

/// The major version in what `node --version` printed, when it reads as a
/// `u32`: the output trimmed, without leading `v`s, up to the first `.`.
pub open spec fn node_major(output: Seq<char>) -> Option<nat> {
    let f = leading_field(strip_leading_vs(trimmed(output)));
    if u32_text(f) {
        Some(digits_value(unsigned_digits(f)))
    } else {
        None
    }
}

/// Checks the Node.js version from what `node --version` printed: a major
/// version below 18 is refused; output without a readable major version
/// passes.
pub fn check_node_version(version_output: &str) -> (r: Result<(), String>)
    ensures
        match node_major(version_output@) {
            Some(m) if m < 18 => r matches Err(e) && e@ == "Node.js version "@ + trimmed(version_output@)
                + " is too old. Please install Node.js 18 or later."@,
            _ => r is Ok,
        },
{
    let t = trim_text(version_output);
    let v = trim_leading_vs(t.as_str());
    let cs = chars_of(v.as_str());
    let field = match chars_first_index(cs.as_slice(), '.') {
        Some(i) => sub_chars(cs.as_slice(), 0, i),
        None => sub_chars(cs.as_slice(), 0, cs.len()),
    };
    assert(cs@.subrange(0, cs@.len() as int) =~= cs@);
    match u32_value(field.as_slice()) {
        Some(major) => {
            if major < 18 {
                let mut m = "Node.js version ".to_owned();
                push_str(&mut m, t.as_str());
                push_str(&mut m, " is too old. Please install Node.js 18 or later.");
                Err(m)
            } else {
                Ok(())
            }
        },
        None => Ok(()),
    }
}

/// What `Handlebars::new().render_template` gives for `template` with the
/// data `{"name", "description", "tool_name_class"}`: the text, or the
/// error's message.
pub uninterp spec fn handlebars_render_of(
    template: Seq<char>,
    name: Seq<char>,
    description: Seq<char>,
    class_name: Seq<char>,
) -> Result<Seq<char>, Seq<char>>;

/// Renders `template` with a fresh `Handlebars` registry and the data
/// `name`, `description` and `tool_name_class`; the result is named
/// `handlebars_render_of`, an error by its message.
#[verifier::external_body]
fn render_with_handlebars(template: &str, name: &str, description: &str, class_name: &str) -> (r: Result<String, String>)
    ensures
        handlebars_render_of(template@, name@, description@, class_name@) == match r {
            Ok(t) => Ok::<Seq<char>, Seq<char>>(t@),
            Err(e) => Err::<Seq<char>, Seq<char>>(e@),
        },
{
    let mut data = serde_json::Map::new();
    data.insert("name".to_string(), serde_json::Value::String(name.to_string()));
    data.insert("description".to_string(), serde_json::Value::String(description.to_string()));
    data.insert("tool_name_class".to_string(), serde_json::Value::String(class_name.to_string()));
    match handlebars::Handlebars::new().render_template(template, &serde_json::Value::Object(data)) {
        Ok(t) => Ok(t),
        Err(e) => Err(e.to_string()),
    }
}

/// Renders a template of a new JavaScript tool with its name, description
/// and class name; a failure is reported as `Template rendering failed`.
pub fn render_template(template_str: &str, name: &str, description: &str) -> (r: Result<String, String>)
    ensures
        match handlebars_render_of(template_str@, name@, description@, class_name_of(name@, true)) {
            Ok(t) => r matches Ok(x) && x@ == t,
            Err(e) => r matches Err(m) && m@ == "Template rendering failed: "@ + e,
        },
{
    let class_name = tool_name_class(name);
    match render_with_handlebars(template_str, name, description, class_name.as_str()) {
        Ok(t) => Ok(t),
        Err(e) => {
            let mut m = "Template rendering failed: ".to_owned();
            push_str(&mut m, e.as_str());
            Err(m)
        },
    }
}

} // verus!
