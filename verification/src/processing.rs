//! Per-file processing: skipping, description validation, and the
//! series/tag patch, combined into one outcome per file.

use crate::cli::Cli;
use crate::front_matter::split_spec;
use crate::key_description;
use crate::section_info::SectionInfo;
use crate::section_info::SectionInfoV;
use crate::stats::Stats;
use crate::stats::StatsV;
use crate::toml_doc::toml_check;
use crate::toml_doc::toml_ok;
use crate::toml_doc::toml_top_field;
use crate::toml_doc::top_field_of;
use crate::DESCRIPTION_MAX;
use crate::DESCRIPTION_MIN;
use vstd::prelude::*;

use self::file_data::update_applicable;
use self::file_data::would_change;
use self::file_data::FileData;

pub mod file_data;

verus! {

/// How processing a single file can fail.  Every failure is confined to
/// the file it concerns; the caller counts it and carries on.
#[derive(Debug, Clone, Copy, PartialEq, Eq, Structural)]
pub enum ProcessingError {
    /// The file does not open with a delimited front-matter block.
    MissingFrontMatter,
    /// The front matter is not valid TOML.
    MetadataParse,
    /// A patch would land under a top-level key that is neither absent
    /// nor a table, so it cannot be applied.
    MetadataShape,
    /// A write-back was requested for a file that no check patched.
    NotChanged,
}

/// Character-wise string equality.
pub fn str_eq(a: &str, b: &str) -> (r: bool)
    ensures
        r == (a@ == b@),
{
    let n = a.unicode_len();
    if n != b.unicode_len() {
        proof {
            if a@ == b@ {
                assert(a@.len() == b@.len());
            }
        }
        return false;
    }
    let mut i: usize = 0;
    while i < n
        invariant
            0 <= i <= n,
            n == a@.len(),
            n == b@.len(),
            forall|p: int| 0 <= p < i ==> a@[p] == b@[p],
        decreases n - i,
    {
        if a.get_char(i) != b.get_char(i) {
            proof {
                if a@ == b@ {
                    assert(a@[i as int] == b@[i as int]);
                }
            }
            return false;
        }
        i = i + 1;
    }
    proof {
        assert(a@ =~= b@);
    }
    true
}

/// Whether a description of `len` characters needs no SEO warning.
pub open spec fn len_in_preferred_range(len: nat) -> bool {
    DESCRIPTION_MIN as nat <= len && len <= DESCRIPTION_MAX as nat
}

/// Whether the description length lies in the preferred range.
pub fn is_description_length_in_preferred_range(desc: &str) -> (r: bool)
    ensures
        r == len_in_preferred_range(desc@.len()),
{
    let l = desc.unicode_len();
    DESCRIPTION_MIN <= l && l <= DESCRIPTION_MAX
}

/// Whether the metadata block `t` earns an SEO warning: its description
/// is missing (unless missing ones are ignored), is not a string, or has
/// a length outside the preferred range.
pub open spec fn desc_warn(t: Seq<char>, ignore_missing: bool) -> bool {
    match top_field_of(t, key_description()) {
        None => !ignore_missing,
        Some(None) => true,
        Some(Some(s)) => !len_in_preferred_range(s.len()),
    }
}

/// Validates the description of an already-parsed metadata block or
/// configuration document.  The `ignore_seo` option only silences the
/// report of an out-of-range length; the warning is counted either way.
pub fn check_description(text: &str, cli: &Cli) -> (r: Stats)
    requires
        toml_ok(text@),
    ensures
        r@ == (StatsV {
            seo_warnings: if desc_warn(text@, cli.ignore_missing_description) {
                1
            } else {
                0
            },
            ..StatsV::zero()
        }),
{
    let mut result = Stats::new();
    match toml_top_field(text, "description") {
        None => {
            if !cli.ignore_missing_description {
                result.inc_seo_warnings();
            }
        },
        Some(None) => {
            result.inc_seo_warnings();
        },
        Some(Some(d)) => {
            if !is_description_length_in_preferred_range(d.as_str()) {
                result.inc_seo_warnings();
            }
        },
    }
    result
}

/// Validates the site configuration document before any file is walked:
/// it must parse, and its description is length-checked like a page's.
pub fn validate_zola_config(contents: &str, cli: &Cli) -> (r: Result<Stats, ProcessingError>)
    ensures
        !toml_ok(contents@) ==> (r matches Err(e) && e == ProcessingError::MetadataParse),
        toml_ok(contents@) ==> (r matches Ok(st) && st@ == (StatsV {
            seo_warnings: if desc_warn(contents@, cli.ignore_missing_description) {
                1
            } else {
                0
            },
            ..StatsV::zero()
        })),
{
    if !toml_check(contents) {
        return Err(ProcessingError::MetadataParse);
    }
    Ok(check_description(contents, cli))
}

/// The reserved file name that declares a directory's section.
pub open spec fn index_file_name() -> Seq<char> {
    "_index.md"@
}

/// Whether a file of this name is passed over: anything but a `.md` file
/// (hidden files like `.md` itself have no extension), and the index
/// file, which the section resolver owns.
pub open spec fn skip_file(name: Seq<char>) -> bool {
    !(name.len() >= 4 && name[name.len() - 3] == '.' && name[name.len() - 2] == 'm'
        && name[name.len() - 1] == 'd') || name == index_file_name()
}

/// Whether the file of this name is passed over instead of processed.
pub fn should_skip_file(name: &str) -> (r: bool)
    ensures
        r == skip_file(name@),
{
    let n = name.unicode_len();
    let has_md_ext = n >= 4 && name.get_char(n - 3) == '.' && name.get_char(n - 2) == 'm'
        && name.get_char(n - 1) == 'd';
    !has_md_ext || str_eq(name, "_index.md")
}

/// What a directory walk knows about one entry before reading it.
pub struct DirEntryMeta {
    /// The entry's file name (its last path component).
    pub name: String,
    /// Whether the entry is a plain file.
    pub is_file: bool,
}

/// Position of the first entry that is the section's index file.
pub fn find_index_entry(entries: &Vec<DirEntryMeta>) -> (r: Option<usize>)
    ensures
        match r {
            Some(i) => i < entries@.len() && entries@[i as int].name@ == index_file_name()
                && entries@[i as int].is_file && forall|p: int|
                0 <= p < i ==> !(#[trigger] entries@[p].name@ == index_file_name()
                    && entries@[p].is_file),
            None => forall|p: int|
                0 <= p < entries@.len() ==> !(#[trigger] entries@[p].name@ == index_file_name()
                    && entries@[p].is_file),
        },
{
    let mut i: usize = 0;
    while i < entries.len()
        invariant
            0 <= i <= entries@.len(),
            forall|p: int|
                0 <= p < i ==> !(#[trigger] entries@[p].name@ == index_file_name()
                    && entries@[p].is_file),
        decreases entries@.len() - i,
    {
        if entries[i].is_file && str_eq(entries[i].name.as_str(), "_index.md") {
            return Some(i);
        }
        i = i + 1;
    }
    None
}

/// The section a directory's children inherit: its own, when it declares
/// one, else the one handed down to it — a directory without an index
/// file passes its parent's section through unchanged.
pub fn effective_section<'a>(
    resolved: Option<&'a SectionInfo>,
    inherited: Option<&'a SectionInfo>,
) -> (r: Option<&'a SectionInfo>)
    ensures
        r == if resolved is Some {
            resolved
        } else {
            inherited
        },
{
    match resolved {
        Some(s) => Some(s),
        None => inherited,
    }
}

/// The result of processing one file: the counter delta it contributes,
/// and the patched text to write back, when there is one.
pub struct ProcessOutcome {
    /// This file's contribution to the run's counters.
    pub stats: Stats,
    /// The full new file text, present exactly when the file changed and
    /// the run is allowed to write.
    pub new_text: Option<String>,
}

/// The section a file is effectively processed under: the inherited
/// section with the file's own overrides applied.
pub open spec fn effective_of(t: Seq<char>, section: Option<SectionInfoV>) -> Option<SectionInfoV> {
    match section {
        Some(s) => Some(s.with_settings(t)),
        None => None,
    }
}

/// Whether `w` is a valid write-back for a file that had front matter
/// `t` and body `body` under effective section `s`: the same body behind
/// a correctly patched front matter.
pub open spec fn good_write_back(
    w: Seq<char>,
    t: Seq<char>,
    body: Seq<char>,
    s: SectionInfoV,
) -> bool {
    exists|u: Seq<char>|
        w == crate::front_matter::render_spec(u, body) && #[trigger] self::file_data::update_result_ok(
            t,
            u,
            s,
        )
}

/// Processes one file: skips non-markdown and index files, validates the
/// description, patches series and tags against the section, and decides
/// the write-back.  Any failure is this file's alone: it turns into one
/// counted error.
pub fn process_file(file_name: &str, text: &str, cli: &Cli, section_info: Option<&SectionInfo>) -> (r:
    ProcessOutcome)
    ensures
        ({
            if skip_file(file_name@) {
                r.stats@ == (StatsV { skipped: 1, ..StatsV::zero() }) && r.new_text is None
            } else {
                match split_spec(text@) {
                    None => r.stats@ == (StatsV { errors: 1, ..StatsV::zero() }) && r.new_text
                        is None,
                    Some(p) => {
                        if !toml_ok(p.0) {
                            r.stats@ == (StatsV { errors: 1, ..StatsV::zero() }) && r.new_text
                                is None
                        } else {
                            let eff = effective_of(
                                p.0,
                                match section_info {
                                    Some(s) => Some(s@),
                                    None => None,
                                },
                            );
                            let warn: u16 = if (match eff {
                                Some(e) => !e.disable_check_description,
                                None => true,
                            }) && desc_warn(p.0, cli.ignore_missing_description) {
                                1
                            } else {
                                0
                            };
                            match eff {
                                None => r.stats@ == (StatsV {
                                    not_changed: 1,
                                    seo_warnings: warn,
                                    ..StatsV::zero()
                                }) && r.new_text is None,
                                Some(e) => {
                                    if !update_applicable(p.0, e) {
                                        r.stats@ == (StatsV { errors: 1, ..StatsV::zero() })
                                            && r.new_text is None
                                    } else if would_change(p.0, e) {
                                        &&& r.stats@ == (StatsV {
                                            changed: 1,
                                            seo_warnings: warn,
                                            ..StatsV::zero()
                                        })
                                        &&& cli.should_check_only ==> r.new_text is None
                                        &&& !cli.should_check_only ==> (r.new_text matches Some(w)
                                            && good_write_back(w@, p.0, p.1, e))
                                    } else {
                                        r.stats@ == (StatsV {
                                            not_changed: 1,
                                            seo_warnings: warn,
                                            ..StatsV::zero()
                                        }) && r.new_text is None
                                    }
                                },
                            }
                        }
                    },
                }
            }
        }),
{
    let mut stats = Stats::new();
    if should_skip_file(file_name) {
        stats.inc_skipped();
        return ProcessOutcome { stats, new_text: None };
    }
    let mut data = match FileData::new_from_text(text) {
        Ok(d) => d,
        Err(_) => {
            stats.inc_errors();
            return ProcessOutcome { stats, new_text: None };
        },
    };
    let ghost orig_fm = data@.front_matter;
    let ghost orig_body = data@.content;
    if !toml_check(data.front_matter().as_str()) {
        stats.inc_errors();
        return ProcessOutcome { stats, new_text: None };
    }
    let eff: Option<SectionInfo> = match section_info {
        Some(info) => Some(info.load_settings(data.front_matter().as_str())),
        None => None,
    };
    let desc_stats = match data.check_description(
        cli,
        match &eff {
            Some(e) => Some(e),
            None => None,
        },
    ) {
        Ok(st) => st,
        Err(_) => {
            stats.inc_errors();
            return ProcessOutcome { stats, new_text: None };
        },
    };
    stats.add_assign(desc_stats);
    match data.update_series_and_tags(
        match &eff {
            Some(e) => Some(e),
            None => None,
        },
    ) {
        Ok(_) => {},
        Err(_) => {
            // A failed patch voids this file's other counters: the file
            // contributes one error and nothing else.
            let mut err_stats = Stats::new();
            err_stats.inc_errors();
            return ProcessOutcome { stats: err_stats, new_text: None };
        },
    }
    if data.is_changed() {
        stats.inc_changed();
        if cli.should_check_only {
            return ProcessOutcome { stats, new_text: None };
        }
        match data.render() {
            Ok(w) => {
                proof {
                    let ghost effv = effective_of(
                        orig_fm,
                        match section_info {
                            Some(s) => Some(s@),
                            None => None,
                        },
                    );
                    assert(w@ == crate::front_matter::render_spec(data@.front_matter, orig_body)
                        && self::file_data::update_result_ok(
                        orig_fm,
                        data@.front_matter,
                        effv->Some_0,
                    ));
                    assert(good_write_back(w@, orig_fm, orig_body, effv->Some_0));
                }
                return ProcessOutcome { stats, new_text: Some(w) };
            },
            Err(_) => {
                let mut err_stats = Stats::new();
                err_stats.inc_errors();
                return ProcessOutcome { stats: err_stats, new_text: None };
            },
        }
    }
    stats.inc_not_changed();
    ProcessOutcome { stats, new_text: None }
}

} // verus!
