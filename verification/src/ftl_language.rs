//! Programming languages an FTL project can be written in.
use vstd::prelude::*;
use crate::text::{ascii_lowered, is_ascii_text, lowercase_of, str_eq, to_lowercase};

verus! {

/// Supported programming languages for FTL projects.
#[derive(Debug, Clone, Copy, PartialEq, Eq, Structural)]
pub enum Language {
    /// Rust
    Rust,
    /// JavaScript
    JavaScript,
    /// TypeScript (the default)
    TypeScript,
}

/// The project language a lower-case name or abbreviation stands for.
pub open spec fn project_language_named(s: Seq<char>) -> Option<Language> {
    if s == "rust"@ || s == "rs"@ {
        Some(Language::Rust)
    } else if s == "javascript"@ || s == "js"@ {
        Some(Language::JavaScript)
    } else if s == "typescript"@ || s == "ts"@ {
        Some(Language::TypeScript)
    } else {
        None
    }
}

/// The display name of a project language.
pub open spec fn project_language_text(l: Language) -> Seq<char> {
    match l {
        Language::Rust => "Rust"@,
        Language::JavaScript => "JavaScript"@,
        Language::TypeScript => "TypeScript"@,
    }
}

impl Language {
    /// Parses a project language from its name or abbreviation, in any
    /// letter case.
    pub fn from_str(s: &str) -> (r: Option<Language>)
        ensures
            r == project_language_named(lowercase_of(s@)),
            is_ascii_text(s@) ==> lowercase_of(s@) == ascii_lowered(s@),
    {
        let lower = to_lowercase(s);
        let l = lower.as_str();
        if str_eq(l, "rust") || str_eq(l, "rs") {
            Some(Language::Rust)
        } else if str_eq(l, "javascript") || str_eq(l, "js") {
            Some(Language::JavaScript)
        } else if str_eq(l, "typescript") || str_eq(l, "ts") {
            Some(Language::TypeScript)
        } else {
            None
        }
    }

    /// The display name: `Rust`, `JavaScript` or `TypeScript`.
    pub fn to_string(&self) -> (r: String)
        ensures
            r@ == project_language_text(*self),
    {
        match self {
            Language::Rust => "Rust".to_owned(),
            Language::JavaScript => "JavaScript".to_owned(),
            Language::TypeScript => "TypeScript".to_owned(),
        }
    }
}

impl Default for Language {
    /// TypeScript.
    fn default() -> (r: Language)
        ensures
            r == Language::TypeScript,
    {
        Language::TypeScript
    }
}

} // verus!
