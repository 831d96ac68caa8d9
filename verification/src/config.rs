//! The parsed configuration the pipeline runs under: the spec root and the
//! per-target output settings.

use vstd::prelude::*;

verus! {

/// Where the declarative source files live.
#[derive(Debug, Clone)]
pub struct Spec {
    pub root: String,
}

/// Settings for the Go target.
#[derive(Debug, Clone)]
pub struct OutputGo {
    /// The Go module name import paths start with.
    pub mod_name: String,
    /// The directory the Go module root sits in.
    pub root: String,
    /// The directory generated Go files are placed under.
    pub output: String,
    /// Indentation width, in spaces.
    pub tabsize: usize,
}

/// Settings for the TypeScript target.
#[derive(Debug, Clone)]
pub struct OutputTypescript {
    /// The directory generated TypeScript files are placed under.
    pub output: String,
    /// Indentation width, in spaces.
    pub tabsize: usize,
}

/// The per-target settings; a missing entry means the target is not enabled.
#[derive(Debug, Clone)]
pub struct Output {
    pub go: Option<OutputGo>,
    pub typescript: Option<OutputTypescript>,
}

#[derive(Debug, Clone)]
pub struct Config {
    pub spec: Spec,
    pub output: Output,
}

} // verus!
