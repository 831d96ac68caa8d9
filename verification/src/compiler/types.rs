//! What one compilation run hands to the writer.

use vstd::prelude::*;

verus! {

/// One generated file: its final on-disk path and its full text.
#[derive(Debug)]
pub struct OutputFile {
    pub path: String,
    pub content: String,
}

/// Every generated file of one target's run, in input order.
#[derive(Debug)]
pub struct Output {
    pub files: Vec<OutputFile>,
}

} // verus!
