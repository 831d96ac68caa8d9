//! The per-target code generators: each renders one AST declaration into
//! target-source text and records every cross-file reference it meets.

pub mod go;
pub mod typescript;
pub mod utils;

use crate::ast::{imports_of, ImportV, Imports, TabSize, AST};
use crate::error::{CompileError, ErrorKind};
use crate::lang::SupportedLang;
use vstd::prelude::*;

verus! {

/// The text one declaration renders to, per target.
pub open spec fn spec_generator(ast: AST, lang: SupportedLang, tabs: TabSize) -> Seq<char> {
    match lang {
        SupportedLang::Go => go::spec_generate_go(ast, tabs.go as nat),
        SupportedLang::TypeScript => typescript::spec_generate_typescript(
            ast,
            tabs.typescript as nat,
        ),
    }
}

/// The first defect of one declaration, per target.
pub open spec fn generator_err(ast: AST, lang: SupportedLang) -> Option<ErrorKind> {
    match lang {
        SupportedLang::Go => go::go_ast_err(ast),
        SupportedLang::TypeScript => typescript::ts_ast_err(ast),
    }
}

/// The imports one declaration demands, per target.
pub open spec fn generator_imports(ast: AST, lang: SupportedLang) -> Seq<ImportV> {
    match lang {
        SupportedLang::Go => go::go_ast_imports(ast),
        SupportedLang::TypeScript => typescript::ts_ast_imports(ast),
    }
}

impl AST {
    /// Render this declaration for the given target, recording the imports
    /// it demands at the end of `imports`.
    pub fn generator(&self, lang: &SupportedLang, imports: &mut Imports, tabsize: &TabSize) -> (r:
        Result<String, CompileError>)
        ensures
            match r {
                Ok(s) => generator_err(*self, *lang) is None && s@ == spec_generator(
                    *self,
                    *lang,
                    *tabsize,
                ) && imports_of(final(imports)@) == imports_of(old(imports)@)
                    + generator_imports(*self, *lang),
                Err(e) => generator_err(*self, *lang) == Some(e.kind) && e.subject@.len() == 0,
            },
    {
        match lang {
            SupportedLang::Go => go::generate_go(self, imports, tabsize.go),
            SupportedLang::TypeScript => typescript::generate_typescript(
                self,
                imports,
                tabsize.typescript,
            ),
        }
    }
}

} // verus!
