//! A single-source-of-truth schema compiler: declarative type definitions go
//! in, equivalent TypeScript and Go type declarations come out, with
//! cross-file references translated into each target's module system.
//!
//! The crate is organized leaf-first:
//! - [`path`] is the path algebra: normalization, root-stripping, diffing;
//! - [`doc`] is the key-value document model, [`definition`] one parsed
//!   source file, [`ast`] the schema tree;
//! - [`transformer`] builds declarations from raw input, [`generator`]
//!   renders them per target, and [`compiler`] resolves references, places
//!   files, and drives the whole run;
//! - [`laws`] states and proves the properties the pipeline keeps.

pub mod ast;
pub mod compiler;
pub mod config;
pub mod definition;
pub mod doc;
pub mod error;
pub mod generator;
pub mod lang;
pub mod laws;
pub mod path;
pub mod transformer;

use vstd::prelude::*;

verus! {

/// The views of a sequence of strings, segment by segment.
pub open spec fn views_of(s: Seq<String>) -> Seq<Seq<char>> {
    Seq::new(s.len(), |i: int| s[i]@)
}

pub proof fn lemma_views_of_push(s: Seq<String>, x: String)
    ensures
        views_of(s.push(x)) =~= views_of(s).push(x@),
{
}

pub proof fn lemma_views_of_append(a: Seq<String>, b: Seq<String>)
    ensures
        views_of(a + b) =~= views_of(a) + views_of(b),
{
}

pub proof fn lemma_views_of_drop_last(s: Seq<String>)
    requires
        s.len() > 0,
    ensures
        views_of(s.drop_last()) =~= views_of(s).drop_last(),
{
}

/// String equality by view, usable on string slices.
pub fn str_eq(a: &str, b: &str) -> (r: bool)
    ensures
        r == (a@ == b@),
{
    let sa = a.to_owned();
    let sb = b.to_owned();
    sa == sb
}

} // verus!
