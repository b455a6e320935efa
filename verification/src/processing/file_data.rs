//! One content file split into front matter and body, and the checks
//! that read or patch its metadata.

use crate::cli::Cli;
use crate::front_matter::render;
use crate::front_matter::render_spec;
use crate::front_matter::split_front_matter;
use crate::front_matter::split_spec;
use crate::key_description;
use crate::key_extra;
use crate::key_series;
use crate::key_tags;
use crate::key_taxonomies;
use crate::key_title;
use crate::key_transparent;
use crate::lemma_keys_distinct;
use crate::processing::check_description;
use crate::processing::desc_warn;
use crate::processing::str_eq;
use crate::processing::ProcessingError;
use crate::section_info::SectionInfo;
use crate::section_info::SectionInfoV;
use crate::stats::Stats;
use crate::stats::StatsV;
use crate::toml_doc::nested_array_of;
use crate::toml_doc::nested_bool_of;
use crate::toml_doc::nested_str_of;
use crate::toml_doc::toml_check;
use crate::toml_doc::toml_nested_array;
use crate::toml_doc::toml_nested_str;
use crate::toml_doc::toml_ok;
use crate::toml_doc::toml_push_nested_array;
use crate::toml_doc::toml_set_nested_singleton_array;
use crate::toml_doc::toml_set_nested_str;
use crate::toml_doc::toml_top_bool;
use crate::toml_doc::toml_top_field;
use crate::toml_doc::toml_top_table_ok;
use crate::toml_doc::top_bool_of;
use crate::toml_doc::top_field_of;
use crate::toml_doc::top_table_ok;
use vstd::prelude::*;

verus! {

/// Whether the series field of `t` already names the section.
pub open spec fn series_ok(t: Seq<char>, s: SectionInfoV) -> bool {
    nested_str_of(t, key_extra(), key_series()) == Some(s.section_name())
}

/// Whether the tags of `t` already include the section's folder name.
pub open spec fn tags_ok(t: Seq<char>, s: SectionInfoV) -> bool {
    match nested_array_of(t, key_taxonomies(), key_tags()) {
        Some(arr) => arr.contains(Some(s.folder_name)),
        None => false,
    }
}

/// Whether updating `t` against section `s` would patch anything.
pub open spec fn would_change(t: Seq<char>, s: SectionInfoV) -> bool {
    (!s.disable_check_series && !series_ok(t, s)) || (!s.disable_check_tag && !tags_ok(t, s))
}

/// Whether the patches the update needs can be applied: a field can only
/// be created under a top-level key that is absent or table-like.
pub open spec fn update_applicable(t: Seq<char>, s: SectionInfoV) -> bool {
    &&& (s.disable_check_series || series_ok(t, s) || top_table_ok(t, key_extra()))
    &&& (s.disable_check_tag || tags_ok(t, s) || nested_array_of(t, key_taxonomies(), key_tags())
        is Some || top_table_ok(t, key_taxonomies()))
}

/// How the updated front matter `u` relates to the original `t` under
/// section `s`: the series field names the section and the tags include
/// its folder name (each unless disabled, and appending rather than
/// rewriting an existing tag array), while the description, the override
/// flags and every unrelated field read the same.
pub open spec fn update_result_ok(t: Seq<char>, u: Seq<char>, s: SectionInfoV) -> bool {
    &&& toml_ok(u)
    &&& if s.disable_check_series {
        nested_str_of(u, key_extra(), key_series()) == nested_str_of(t, key_extra(), key_series())
    } else {
        nested_str_of(u, key_extra(), key_series()) == Some(s.section_name())
    }
    &&& if s.disable_check_tag {
        nested_array_of(u, key_taxonomies(), key_tags()) == nested_array_of(
            t,
            key_taxonomies(),
            key_tags(),
        )
    } else {
        match nested_array_of(t, key_taxonomies(), key_tags()) {
            Some(arr) => nested_array_of(u, key_taxonomies(), key_tags()) == Some(
                if arr.contains(Some(s.folder_name)) {
                    arr
                } else {
                    arr.push(Some(s.folder_name))
                },
            ),
            None => nested_array_of(u, key_taxonomies(), key_tags()) == Some(
                seq![Some(s.folder_name)],
            ),
        }
    }
    &&& forall|k: Seq<char>|
        k != key_series() ==> #[trigger] nested_bool_of(u, key_extra(), k) == nested_bool_of(
            t,
            key_extra(),
            k,
        )
    &&& top_field_of(u, key_description()) == top_field_of(t, key_description())
}

/// One content file: its front matter, its body, and whether a check has
/// patched it since it was read.
#[derive(Debug)]
pub struct FileData {
    is_changed: bool,
    front_matter: String,
    content: String,
}

/// Mathematical image of [`FileData`].
pub ghost struct FileDataV {
    pub is_changed: bool,
    pub front_matter: Seq<char>,
    pub content: Seq<char>,
}

impl View for FileData {
    type V = FileDataV;

    closed spec fn view(&self) -> FileDataV {
        FileDataV {
            is_changed: self.is_changed,
            front_matter: self.front_matter@,
            content: self.content@,
        }
    }
}

impl FileData {
    /// A freshly read file: nothing patched yet.
    pub fn new(front_matter: String, content: String) -> (r: FileData)
        ensures
            r@ == (FileDataV {
                is_changed: false,
                front_matter: front_matter@,
                content: content@,
            }),
    {
        FileData { is_changed: false, front_matter, content }
    }

    /// Splits raw file text into a [`FileData`].
    pub fn new_from_text(text: &str) -> (r: Result<FileData, ProcessingError>)
        ensures
            match split_spec(text@) {
                Some(p) => r matches Ok(fd) && fd@ == (FileDataV {
                    is_changed: false,
                    front_matter: p.0,
                    content: p.1,
                }),
                None => r matches Err(e) && e == ProcessingError::MissingFrontMatter,
            },
    {
        match split_front_matter(text) {
            Some(p) => Ok(FileData::new(p.0, p.1)),
            None => Err(ProcessingError::MissingFrontMatter),
        }
    }

    /// Whether a check has patched this file.
    pub fn is_changed(&self) -> (r: bool)
        ensures
            r == self@.is_changed,
    {
        self.is_changed
    }

    /// The front-matter text, as currently patched.
    pub fn front_matter(&self) -> (r: &String)
        ensures
            r@ == self@.front_matter,
    {
        &self.front_matter
    }

    /// The body, which no check ever touches.
    pub fn content(&self) -> (r: &String)
        ensures
            r@ == self@.content,
    {
        &self.content
    }

    /// The full file text to write back.  Only a patched file may be
    /// written: writing an unchanged file back would be a wasted write,
    /// so it is refused.
    pub fn render(&self) -> (r: Result<String, ProcessingError>)
        ensures
            self@.is_changed ==> (r matches Ok(s) && s@ == render_spec(
                self@.front_matter,
                self@.content,
            )),
            !self@.is_changed ==> (r matches Err(e) && e == ProcessingError::NotChanged),
    {
        if !self.is_changed {
            return Err(ProcessingError::NotChanged);
        }
        Ok(render(self.front_matter.as_str(), self.content.as_str()))
    }

    /// Validates the description length (see
    /// [`check_description`](crate::processing::check_description)),
    /// unless the effective section disables the check.
    pub fn check_description(&self, cli: &Cli, section_info: Option<&SectionInfo>) -> (r: Result<
        Stats,
        ProcessingError,
    >)
        ensures
            ({
                let disabled = match section_info {
                    Some(s) => s@.disable_check_description,
                    None => false,
                };
                if disabled {
                    r matches Ok(st) && st@ == StatsV::zero()
                } else if !toml_ok(self@.front_matter) {
                    r matches Err(e) && e == ProcessingError::MetadataParse
                } else {
                    r matches Ok(st) && st@ == (StatsV {
                        seo_warnings: if desc_warn(
                            self@.front_matter,
                            cli.ignore_missing_description,
                        ) {
                            1
                        } else {
                            0
                        },
                        ..StatsV::zero()
                    })
                }
            }),
    {
        if let Some(info) = section_info {
            if info.disable_check_description {
                return Ok(Stats::new());
            }
        }
        if !toml_check(self.front_matter.as_str()) {
            return Err(ProcessingError::MetadataParse);
        }
        Ok(check_description(self.front_matter.as_str(), cli))
    }

    /// Reads the section this index file declares: the title when the
    /// metadata sets one, the folder name handed in, and the local
    /// override flags.  A missing or non-boolean `transparent` field is a
    /// counted defect, but the section still resolves.
    pub fn extract_section_info(&self, folder_name: &str) -> (r: Result<
        (SectionInfo, Stats),
        ProcessingError,
    >)
        ensures
            !toml_ok(self@.front_matter) ==> (r matches Err(e) && e
                == ProcessingError::MetadataParse),
            toml_ok(self@.front_matter) ==> (r matches Ok(p) && {
                let t = self@.front_matter;
                let title = match top_field_of(t, key_title()) {
                    Some(f) => f,
                    None => None,
                };
                &&& p.0@ == (SectionInfoV {
                    title,
                    folder_name: folder_name@,
                    disable_check_series: false,
                    disable_check_tag: false,
                    disable_check_description: false,
                }).with_settings(t)
                &&& p.1@ == (StatsV {
                    errors: if top_bool_of(t, key_transparent()) is None {
                        1
                    } else {
                        0
                    },
                    ..StatsV::zero()
                })
            }),
    {
        if !toml_check(self.front_matter.as_str()) {
            return Err(ProcessingError::MetadataParse);
        }
        let title = match toml_top_field(self.front_matter.as_str(), "title") {
            Some(Some(s)) => Some(s),
            _ => None,
        };
        let base = SectionInfo::new(title, folder_name.to_owned());
        let info = base.load_settings(self.front_matter.as_str());
        let mut stats = Stats::new();
        if toml_top_bool(self.front_matter.as_str(), "transparent").is_none() {
            stats.inc_errors();
        }
        Ok((info, stats))
    }

    /// Brings the file's series and tags in line with its section: the
    /// series field is set to the section's name and the folder name is
    /// appended to the tags, each only when missing and not disabled.
    /// Without a section the file is left alone.  The body is never
    /// touched, and the file is marked changed exactly when a patch was
    /// applied.
    pub fn update_series_and_tags(&mut self, section_info: Option<&SectionInfo>) -> (r: Result<
        (),
        ProcessingError,
    >)
        ensures
            match section_info {
                None => r is Ok && final(self)@ == old(self)@,
                Some(info) => {
                    let t = old(self)@.front_matter;
                    if !toml_ok(t) {
                        r matches Err(e) && e == ProcessingError::MetadataParse && final(self)@
                            == old(self)@
                    } else if !update_applicable(t, info@) {
                        r matches Err(e) && e == ProcessingError::MetadataShape && final(self)@
                            == old(self)@
                    } else {
                        &&& r is Ok
                        &&& update_result_ok(t, final(self)@.front_matter, info@)
                        &&& final(self)@.content == old(self)@.content
                        &&& final(self)@.is_changed == (old(self)@.is_changed || would_change(
                            t,
                            info@,
                        ))
                    }
                },
            },
    {
        let info = match section_info {
            None => {
                return Ok(());
            },
            Some(i) => i,
        };
        if !toml_check(self.front_matter.as_str()) {
            return Err(ProcessingError::MetadataParse);
        }

        // Decide both patches against the unpatched text.
        let needs_series: bool;
        if info.disable_check_series {
            needs_series = false;
        } else {
            match toml_nested_str(self.front_matter.as_str(), "extra", "series") {
                Some(cur) => {
                    needs_series = !str_eq(cur.as_str(), info.section_name().as_str());
                },
                None => {
                    needs_series = true;
                },
            }
        }
        let tag_push: bool;
        let tag_create: bool;
        if info.disable_check_tag {
            tag_push = false;
            tag_create = false;
        } else {
            match toml_nested_array(self.front_matter.as_str(), "taxonomies", "tags") {
                Some(arr) => {
                    tag_create = false;
                    tag_push = !contains_str(&arr, info.folder_name().as_str());
                },
                None => {
                    tag_create = true;
                    tag_push = false;
                },
            }
        }

        // Refuse the update when a patch would land under a key that is
        // neither absent nor a table.
        if needs_series && !toml_top_table_ok(self.front_matter.as_str(), "extra") {
            return Err(ProcessingError::MetadataShape);
        }
        if tag_create && !toml_top_table_ok(self.front_matter.as_str(), "taxonomies") {
            return Err(ProcessingError::MetadataShape);
        }
        proof {
            lemma_keys_distinct();
        }

        // Apply the patches.
        let fm1: String;
        if needs_series {
            fm1 = toml_set_nested_str(
                self.front_matter.as_str(),
                "extra",
                "series",
                info.section_name().as_str(),
            );
        } else {
            fm1 = self.front_matter.clone();
        }
        let fm2: String;
        if tag_push {
            fm2 = toml_push_nested_array(fm1.as_str(), "taxonomies", "tags", info.folder_name().as_str());
        } else if tag_create {
            fm2 = toml_set_nested_singleton_array(
                fm1.as_str(),
                "taxonomies",
                "tags",
                info.folder_name().as_str(),
            );
        } else {
            fm2 = fm1;
        }
        if needs_series || tag_push || tag_create {
            self.is_changed = true;
        }
        self.front_matter = fm2;
        Ok(())
    }
}

/// Whether some element of `items` is the string `s`.
fn contains_str(items: &Vec<Option<String>>, s: &str) -> (r: bool)
    ensures
        r == items.deep_view().contains(Some(s@)),
{
    let mut i: usize = 0;
    while i < items.len()
        invariant
            0 <= i <= items@.len(),
            forall|p: int| 0 <= p < i ==> #[trigger] items.deep_view()[p] != Some(s@),
        decreases items@.len() - i,
    {
        match &items[i] {
            Some(x) => {
                if str_eq(x.as_str(), s) {
                    proof {
                        assert(items.deep_view()[i as int] == Some(s@));
                    }
                    return true;
                }
            },
            None => {},
        }
        i = i + 1;
    }
    proof {
        if items.deep_view().contains(Some(s@)) {
            let p = choose|p: int|
                0 <= p < items.deep_view().len() && items.deep_view()[p] == Some(s@);
            assert(items.deep_view()[p] != Some(s@));
        }
    }
    false
}

} // verus!
