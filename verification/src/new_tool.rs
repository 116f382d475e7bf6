//! The rule a new tool's name follows.
use vstd::prelude::*;
use crate::text::{chars_of, has_infix, is_lowercase, is_numeric, lowercase_char, numeric_char, str_has_infix};

verus! {

/// A character a tool name may hold: a lowercase letter, a digit or `-`.
pub open spec fn tool_name_char(c: char) -> bool {
    lowercase_char(c) || c == '-' || numeric_char(c)
}

/// Why a tool name is refused, if it is: a character other than lowercase
/// letters, digits and `-`; or a leading, trailing or doubled `-`.
pub open spec fn tool_name_problem(name: Seq<char>) -> Option<Seq<char>> {
    if !(forall|i: int| 0 <= i < name.len() ==> tool_name_char(#[trigger] name[i])) {
        Some("Tool name must be lowercase with hyphens (e.g., my-tool)"@)
    } else if (name.len() > 0 && (name[0] == '-' || name.last() == '-')) || has_infix(name, "--"@) {
        Some("Tool name cannot start or end with hyphens, or contain double hyphens"@)
    } else {
        None
    }
}

/// Checks the name of a new tool; see [`tool_name_problem`].
pub fn check_tool_name(name: &str) -> (r: Result<(), String>)
    ensures
        match tool_name_problem(name@) {
            None => r is Ok,
            Some(m) => r matches Err(e) && e@ == m,
        },
{
    let cs = chars_of(name);
    let mut i: usize = 0;
    while i < cs.len()
        invariant
            cs@ == name@,
            i <= cs@.len(),
            forall|j: int| 0 <= j < i ==> tool_name_char(#[trigger] name@[j]),
        decreases cs@.len() - i,
    {
        let c = cs[i];
        if !(is_lowercase(c) || c == '-' || is_numeric(c)) {
            assert(!tool_name_char(name@[i as int]));
            return Err("Tool name must be lowercase with hyphens (e.g., my-tool)".to_owned());
        }
        i = i + 1;
    }
    let n = cs.len();
    if (n > 0 && (cs[0] == '-' || cs[n - 1] == '-')) || str_has_infix(name, "--") {
        return Err("Tool name cannot start or end with hyphens, or contain double hyphens".to_owned());
    }
    Ok(())
}

} // verus!
