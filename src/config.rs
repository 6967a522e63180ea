//! The prepend request.
use vstd::prelude::*;

verus! {

/// One prepend request: the target, the text to put in front of it, and
/// whether to only preview the change.
#[derive(Debug)]
pub struct Config {
    /// Path of the file to modify.
    pub filename: String,
    /// Text to prepend to the file.
    pub prepend_text: String,
    /// When set, the change is previewed and nothing is written.
    pub dry_run: bool,
}

} // verus!
