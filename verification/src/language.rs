//! Programming languages a toolbox can be written in.
use vstd::prelude::*;
use crate::text::{ascii_lowered, is_ascii_text, lowercase_of, push_str, str_eq, to_lowercase};

verus! {

/// Supported programming languages for toolboxes.
#[derive(Debug, Clone, Copy, PartialEq, Eq, Structural)]
pub enum Language {
    /// Rust
    Rust,
    /// JavaScript
    JavaScript,
    /// TypeScript (the default)
    TypeScript,
    /// Python
    Python,
    /// Go
    Go,
}

/// The language a lower-case name or abbreviation stands for.
pub open spec fn language_named(s: Seq<char>) -> Option<Language> {
    if s == "rust"@ || s == "rs"@ {
        Some(Language::Rust)
    } else if s == "javascript"@ || s == "js"@ {
        Some(Language::JavaScript)
    } else if s == "typescript"@ || s == "ts"@ {
        Some(Language::TypeScript)
    } else if s == "python"@ || s == "py"@ {
        Some(Language::Python)
    } else if s == "go"@ || s == "golang"@ {
        Some(Language::Go)
    } else {
        None
    }
}

/// The display name of a language.
pub open spec fn language_text(l: Language) -> Seq<char> {
    match l {
        Language::Rust => "Rust"@,
        Language::JavaScript => "JavaScript"@,
        Language::TypeScript => "TypeScript"@,
        Language::Python => "Python"@,
        Language::Go => "Go"@,
    }
}

impl Language {
    /// Parses a language from its name or abbreviation, in any letter case;
    /// the error names the unknown text.
    pub fn from_str(s: &str) -> (r: Result<Language, String>)
        ensures
            match r {
                Ok(l) => language_named(lowercase_of(s@)) == Some(l),
                Err(m) => language_named(lowercase_of(s@)) is None && m@ == "Unknown language: "@
                    + s@,
            },
            is_ascii_text(s@) ==> lowercase_of(s@) == ascii_lowered(s@),
    {
        let lower = to_lowercase(s);
        let l = lower.as_str();
        if str_eq(l, "rust") || str_eq(l, "rs") {
            Ok(Language::Rust)
        } else if str_eq(l, "javascript") || str_eq(l, "js") {
            Ok(Language::JavaScript)
        } else if str_eq(l, "typescript") || str_eq(l, "ts") {
            Ok(Language::TypeScript)
        } else if str_eq(l, "python") || str_eq(l, "py") {
            Ok(Language::Python)
        } else if str_eq(l, "go") || str_eq(l, "golang") {
            Ok(Language::Go)
        } else {
            let mut m = "Unknown language: ".to_owned();
            push_str(&mut m, s);
            Err(m)
        }
    }

    /// The display name: `Rust`, `JavaScript`, `TypeScript`, `Python` or `Go`.
    pub fn to_string(&self) -> (r: String)
        ensures
            r@ == language_text(*self),
    {
        match self {
            Language::Rust => "Rust".to_owned(),
            Language::JavaScript => "JavaScript".to_owned(),
            Language::TypeScript => "TypeScript".to_owned(),
            Language::Python => "Python".to_owned(),
            Language::Go => "Go".to_owned(),
        }
    }
}

impl Default for Language {
    /// TypeScript.
    fn default() -> (r: Language)
        ensures
            r == Language::TypeScript,
    {
        Language::TypeScript
    }
}

} // verus!
