//! Front-matter maintenance for a Zola content tree.
//!
//! Content files carry a TOML front-matter block between `+++` delimiter
//! lines.  Every directory may declare a section through an `_index.md`
//! file; the section's name and override flags are inherited by every file
//! and subdirectory beneath it.  The library splits a file into front
//! matter and body without losing a byte, validates SEO description
//! lengths, and computes the minimal idempotent patch that brings a file's
//! `extra.series` and `taxonomies.tags` fields in line with its section.
//!
//! All file-system traversal and writing is left to the caller: the
//! functions here map plain text and section values to patched text and
//! [`stats::Stats`] deltas.

use vstd::prelude::*;

pub mod cli;
pub mod front_matter;
pub mod laws;
pub mod processing;
pub mod section_info;
pub mod stats;
pub mod toml_doc;

verus! {

/// Shortest description length that raises no SEO warning.
pub const DESCRIPTION_MIN: usize = 140;

/// Longest description length that raises no SEO warning.
pub const DESCRIPTION_MAX: usize = 180;

/// Top-level namespace of per-page conveniences.
pub open spec fn key_extra() -> Seq<char> {
    "extra"@
}

/// Field under `extra` naming the series a page belongs to.
pub open spec fn key_series() -> Seq<char> {
    "series"@
}

/// Top-level namespace of taxonomy assignments.
pub open spec fn key_taxonomies() -> Seq<char> {
    "taxonomies"@
}

/// Field under `taxonomies` listing a page's tags.
pub open spec fn key_tags() -> Seq<char> {
    "tags"@
}

/// Top-level SEO description field.
pub open spec fn key_description() -> Seq<char> {
    "description"@
}

/// Mandatory boolean on every section's index file.
pub open spec fn key_transparent() -> Seq<char> {
    "transparent"@
}

/// Optional title of a section's index file.
pub open spec fn key_title() -> Seq<char> {
    "title"@
}

/// Override flag under `extra` that disables the series check.
pub open spec fn key_disable_check_series() -> Seq<char> {
    "disable_check_series"@
}

/// Override flag under `extra` that disables the tag check.
pub open spec fn key_disable_check_tag() -> Seq<char> {
    "disable_check_tag"@
}

/// Override flag under `extra` that disables the description check.
pub open spec fn key_disable_check_description() -> Seq<char> {
    "disable_check_description"@
}

/// The recognized metadata keys are pairwise distinct, so a patch to one
/// field can be seen not to touch the others.
pub proof fn lemma_keys_distinct()
    ensures
        key_series() != key_disable_check_series(),
        key_series() != key_disable_check_tag(),
        key_series() != key_disable_check_description(),
        key_tags() != key_disable_check_series(),
        key_tags() != key_disable_check_tag(),
        key_tags() != key_disable_check_description(),
        key_tags() != key_series(),
        key_extra() != key_taxonomies(),
        key_extra() != key_description(),
        key_extra() != key_transparent(),
        key_extra() != key_title(),
        key_taxonomies() != key_description(),
        key_taxonomies() != key_transparent(),
        key_taxonomies() != key_title(),
{
    reveal_strlit("extra");
    reveal_strlit("series");
    reveal_strlit("taxonomies");
    reveal_strlit("tags");
    reveal_strlit("description");
    reveal_strlit("transparent");
    reveal_strlit("title");
    reveal_strlit("disable_check_series");
    reveal_strlit("disable_check_tag");
    reveal_strlit("disable_check_description");
    assert(key_extra().len() == 5);
    assert(key_series().len() == 6);
    assert(key_taxonomies().len() == 10);
    assert(key_tags().len() == 4);
    assert(key_description().len() == 11);
    assert(key_transparent().len() == 11);
    assert(key_title().len() == 5);
    assert(key_disable_check_series().len() == 20);
    assert(key_disable_check_tag().len() == 17);
    assert(key_disable_check_description().len() == 25);
    assert(key_extra()[0] == 'e');
    assert(key_title()[0] == 't');
}

} // verus!
