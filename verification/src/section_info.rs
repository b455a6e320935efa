//! The configuration a section's index file declares for its subtree.

use crate::key_disable_check_description;
use crate::key_disable_check_series;
use crate::key_disable_check_tag;
use crate::toml_doc::nested_bool_of;
use crate::toml_doc::toml_nested_bool;
use crate::toml_doc::toml_ok;
use vstd::prelude::*;

verus! {

/// What a section passes down to every file and subdirectory beneath it:
/// an optional title, the declaring directory's name, and one override
/// flag per check.  The series and the tag of a page must draw on the
/// same set of values, so both are derived from this one record.
#[derive(Debug)]
pub struct SectionInfo {
    pub title: Option<String>,
    pub folder_name: String,
    pub disable_check_series: bool,
    pub disable_check_tag: bool,
    pub disable_check_description: bool,
}

/// Mathematical image of [`SectionInfo`].
pub ghost struct SectionInfoV {
    pub title: Option<Seq<char>>,
    pub folder_name: Seq<char>,
    pub disable_check_series: bool,
    pub disable_check_tag: bool,
    pub disable_check_description: bool,
}

impl View for SectionInfo {
    type V = SectionInfoV;

    open spec fn view(&self) -> SectionInfoV {
        SectionInfoV {
            title: self.title.deep_view(),
            folder_name: self.folder_name@,
            disable_check_series: self.disable_check_series,
            disable_check_tag: self.disable_check_tag,
            disable_check_description: self.disable_check_description,
        }
    }
}

/// The value of an optional override: the explicit setting when present,
/// the inherited default otherwise.
pub open spec fn flag_or(explicit: Option<bool>, inherited: bool) -> bool {
    match explicit {
        Some(b) => b,
        None => inherited,
    }
}

impl SectionInfoV {
    /// The name the section stamps on its pages: the title when set,
    /// else the folder name.
    pub open spec fn section_name(self) -> Seq<char> {
        match self.title {
            Some(t) => t,
            None => self.folder_name,
        }
    }

    /// These flags after applying the overrides a metadata block sets
    /// under `extra`; absent or non-boolean fields change nothing.
    pub open spec fn with_settings(self, t: Seq<char>) -> SectionInfoV {
        SectionInfoV {
            disable_check_series: flag_or(
                nested_bool_of(t, crate::key_extra(), key_disable_check_series()),
                self.disable_check_series,
            ),
            disable_check_tag: flag_or(
                nested_bool_of(t, crate::key_extra(), key_disable_check_tag()),
                self.disable_check_tag,
            ),
            disable_check_description: flag_or(
                nested_bool_of(t, crate::key_extra(), key_disable_check_description()),
                self.disable_check_description,
            ),
            ..self
        }
    }
}

impl SectionInfo {
    /// A freshly declared section: every check enabled.
    pub fn new(title: Option<String>, folder_name: String) -> (s: SectionInfo)
        ensures
            s@ == (SectionInfoV {
                title: title.deep_view(),
                folder_name: folder_name@,
                disable_check_series: false,
                disable_check_tag: false,
                disable_check_description: false,
            }),
    {
        SectionInfo {
            title,
            folder_name,
            disable_check_series: false,
            disable_check_tag: false,
            disable_check_description: false,
        }
    }

    /// The name shared by this section's series and tags.
    pub fn section_name(&self) -> (r: &String)
        ensures
            r@ == self@.section_name(),
    {
        match &self.title {
            Some(t) => t,
            None => &self.folder_name,
        }
    }

    /// The name of the directory that declared this section, which is
    /// also the tag stamped on the section's pages.
    pub fn folder_name(&self) -> (r: &String)
        ensures
            r@ == self@.folder_name,
    {
        &self.folder_name
    }

    /// A copy of this section with the overrides that the metadata block
    /// `text` sets under `extra`; each flag is only overwritten when it is
    /// explicitly present and boolean.
    pub fn load_settings(&self, text: &str) -> (r: SectionInfo)
        requires
            toml_ok(text@),
        ensures
            r@ == self@.with_settings(text@),
    {
        let title = match &self.title {
            Some(t) => Some(t.clone()),
            None => None,
        };
        let mut result = SectionInfo {
            title,
            folder_name: self.folder_name.clone(),
            disable_check_series: self.disable_check_series,
            disable_check_tag: self.disable_check_tag,
            disable_check_description: self.disable_check_description,
        };
        if let Some(b) = toml_nested_bool(text, "extra", "disable_check_series") {
            result.disable_check_series = b;
        }
        if let Some(b) = toml_nested_bool(text, "extra", "disable_check_tag") {
            result.disable_check_tag = b;
        }
        if let Some(b) = toml_nested_bool(text, "extra", "disable_check_description") {
            result.disable_check_description = b;
        }
        result
    }
}

} // verus!
