//! The closed set of code-generation targets.

use crate::config::Config;
use crate::str_eq;
use vstd::prelude::*;

verus! {

#[derive(Debug, Clone, Copy, PartialEq, Eq, Structural)]
pub enum SupportedLang {
    TypeScript,
    Go,
}

/// The language selected by a command-line alias, if any.
pub open spec fn spec_lang_from(s: Seq<char>) -> Option<SupportedLang> {
    if s == "ts"@ || s == "typescript"@ {
        Some(SupportedLang::TypeScript)
    } else if s == "go"@ || s == "golang"@ {
        Some(SupportedLang::Go)
    } else {
        None
    }
}

impl SupportedLang {
    /// Every supported target, in a fixed order.
    pub fn all() -> (r: Vec<SupportedLang>)
        ensures
            r@ =~= seq![SupportedLang::TypeScript, SupportedLang::Go],
    {
        let mut v: Vec<SupportedLang> = Vec::new();
        v.push(SupportedLang::TypeScript);
        v.push(SupportedLang::Go);
        v
    }

    /// Resolve a command-line alias to a target; unknown aliases are
    /// rejected with `None`.
    pub fn from(s: &str) -> (r: Option<SupportedLang>)
        ensures
            r == spec_lang_from(s@),
    {
        if str_eq(s, "ts") || str_eq(s, "typescript") {
            Some(SupportedLang::TypeScript)
        } else if str_eq(s, "go") || str_eq(s, "golang") {
            Some(SupportedLang::Go)
        } else {
            None
        }
    }

    /// Is this target configured at all?
    pub fn is_defined_in_config(&self, config: &Config) -> (r: bool)
        ensures
            r == match self {
                SupportedLang::TypeScript => config.output.typescript is Some,
                SupportedLang::Go => config.output.go is Some,
            },
    {
        match self {
            SupportedLang::TypeScript => config.output.typescript.is_some(),
            SupportedLang::Go => config.output.go.is_some(),
        }
    }

    /// The aliases under which a target may appear in configuration and on
    /// the command line.
    pub fn get_alias(lang: &SupportedLang) -> (r: Vec<&'static str>)
        ensures
            r@.len() == 2,
            match lang {
                SupportedLang::TypeScript => r@[0]@ == "ts"@ && r@[1]@ == "typescript"@,
                SupportedLang::Go => r@[0]@ == "go"@ && r@[1]@ == "golang"@,
            },
    {
        let mut v: Vec<&'static str> = Vec::new();
        match lang {
            SupportedLang::TypeScript => {
                v.push("ts");
                v.push("typescript");
            }
            SupportedLang::Go => {
                v.push("go");
                v.push("golang");
            }
        }
        v
    }
}

} // verus!
