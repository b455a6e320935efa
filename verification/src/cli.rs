//! Run configuration, mirroring the command-line surface.

use vstd::prelude::*;

verus! {

/// Options that steer a run.  The binary fills this from its argument
/// parser; tests build it directly.
pub struct Cli {
    /// The root folder to start at, usually the root of the site repository.
    pub root_path: String,
    /// When set, SEO warnings do not fail the run (they are still counted).
    pub ignore_seo: bool,
    /// When set, a file without a description raises no SEO warning;
    /// descriptions that are present are still length-checked.
    pub ignore_missing_description: bool,
    /// When set, no file is modified; the run only reports how many files
    /// would have changed.
    pub should_check_only: bool,
    /// Allows changes even when the version-control tree is dirty.
    pub allow_dirty: bool,
}

} // verus!
