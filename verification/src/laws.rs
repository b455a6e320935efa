//! The library-wide guarantees, stated and proved over the same spec
//! functions the processing contracts use.

use crate::key_disable_check_tag;
use crate::key_extra;
use crate::key_series;
use crate::key_tags;
use crate::key_taxonomies;
use crate::lemma_keys_distinct;
use crate::processing::file_data::series_ok;
use crate::processing::file_data::tags_ok;
use crate::processing::file_data::update_result_ok;
use crate::processing::file_data::would_change;
use crate::section_info::SectionInfoV;
use crate::toml_doc::nested_array_of;
use crate::toml_doc::nested_bool_of;
use vstd::prelude::*;

verus! {

/// Idempotence: patching a file is exhausted after one pass.  When `u` is
/// the front matter that updating `t` under section `base` produced, then
/// `u` resolves to the same effective section as `t` did, and updating
/// `u` under it would patch nothing — a second run in write mode reports
/// every such file unchanged.
pub proof fn lemma_update_idempotent(t: Seq<char>, u: Seq<char>, base: SectionInfoV)
    requires
        update_result_ok(t, u, base.with_settings(t)),
    ensures
        base.with_settings(u) == base.with_settings(t),
        !would_change(u, base.with_settings(u)),
{
    lemma_keys_distinct();
    let e = base.with_settings(t);
    assert(base.with_settings(u) == e);
    if !e.disable_check_series {
        assert(series_ok(u, e));
    }
    if !e.disable_check_tag {
        let tags_u = nested_array_of(u, key_taxonomies(), key_tags());
        match nested_array_of(t, key_taxonomies(), key_tags()) {
            Some(arr) => {
                if arr.contains(Some(e.folder_name)) {
                    assert(tags_ok(u, e));
                } else {
                    assert(tags_u->Some_0[arr.len() as int] == Some(e.folder_name));
                    assert(tags_ok(u, e));
                }
            },
            None => {
                assert(tags_u->Some_0[0] == Some(e.folder_name));
                assert(tags_ok(u, e));
            },
        }
    }
}

/// Idempotence at the file level: when the patched front matter `u` is
/// written back around the untouched `body`, splitting the written file
/// recovers `u` and `body` exactly, and processing them again under the
/// same inherited section patches nothing.  The requirements exclude
/// front matter that could be mistaken for a delimiter (three
/// consecutive `+`, as in a multi-line string).
pub proof fn lemma_process_idempotent(
    t: Seq<char>,
    u: Seq<char>,
    body: Seq<char>,
    base: SectionInfoV,
)
    requires
        update_result_ok(t, u, base.with_settings(t)),
        crate::front_matter::wf_front_matter(u),
        crate::front_matter::wf_body(body),
    ensures
        crate::front_matter::split_spec(crate::front_matter::render_spec(u, body)) == Some(
            (u, body),
        ),
        base.with_settings(u) == base.with_settings(t),
        !would_change(u, base.with_settings(u)),
{
    crate::front_matter::lemma_round_trip(u, body);
    lemma_update_idempotent(t, u, base);
}

/// Tag union: the patch never duplicates the section's tag and never
/// drops an unrelated one.  A file already tagged keeps its tag array
/// untouched; a file without the section's tag gets it appended after
/// everything it already had; either way every original tag survives and
/// the section's tag is present.
pub proof fn lemma_tag_union(
    t: Seq<char>,
    u: Seq<char>,
    s: SectionInfoV,
    arr: Seq<Option<Seq<char>>>,
)
    requires
        update_result_ok(t, u, s),
        !s.disable_check_tag,
        nested_array_of(t, key_taxonomies(), key_tags()) == Some(arr),
    ensures
        arr.contains(Some(s.folder_name)) ==> nested_array_of(u, key_taxonomies(), key_tags())
            == Some(arr),
        !arr.contains(Some(s.folder_name)) ==> nested_array_of(u, key_taxonomies(), key_tags())
            == Some(arr.push(Some(s.folder_name))),
        nested_array_of(u, key_taxonomies(), key_tags())->Some_0.contains(Some(s.folder_name)),
        forall|x: Option<Seq<char>>|
            arr.contains(x) ==> nested_array_of(u, key_taxonomies(), key_tags())->Some_0.contains(
                x,
            ),
{
    let tags_u = nested_array_of(u, key_taxonomies(), key_tags())->Some_0;
    if !arr.contains(Some(s.folder_name)) {
        assert(tags_u[arr.len() as int] == Some(s.folder_name));
    }
    assert(tags_u.contains(Some(s.folder_name)));
    assert forall|x: Option<Seq<char>>| arr.contains(x) implies tags_u.contains(x) by {
        let i = choose|i: int| 0 <= i < arr.len() && arr[i] == x;
        assert(tags_u[i] == x);
    }
}

/// Override cascading: under a section that disables the tag check, a
/// file whose own metadata does not explicitly re-enable it keeps its
/// tags exactly as they were, even when the section's tag is absent.
pub proof fn lemma_override_cascade(t: Seq<char>, u: Seq<char>, base: SectionInfoV)
    requires
        base.disable_check_tag,
        nested_bool_of(t, key_extra(), key_disable_check_tag()) != Some(false),
        update_result_ok(t, u, base.with_settings(t)),
    ensures
        nested_array_of(u, key_taxonomies(), key_tags()) == nested_array_of(
            t,
            key_taxonomies(),
            key_tags(),
        ),
{
    assert(base.with_settings(t).disable_check_tag);
}

/// What a chain of directories passes down: each directory that resolves
/// a section of its own replaces the context; each directory without one
/// hands the context on unchanged.
pub open spec fn inherit_chain(
    init: Option<SectionInfoV>,
    resolutions: Seq<Option<SectionInfoV>>,
) -> Option<SectionInfoV>
    decreases resolutions.len(),
{
    if resolutions.len() == 0 {
        init
    } else {
        let next = match resolutions[0] {
            Some(s) => Some(s),
            None => init,
        };
        inherit_chain(next, resolutions.drop_first())
    }
}

/// Section inheritance: a descendant reached only through directories
/// that declare no section of their own adopts the nearest ancestor's
/// section unchanged — name and flags alike.
pub proof fn lemma_section_inheritance(
    init: Option<SectionInfoV>,
    resolutions: Seq<Option<SectionInfoV>>,
)
    requires
        forall|i: int| 0 <= i < resolutions.len() ==> resolutions[i] is None,
    ensures
        inherit_chain(init, resolutions) == init,
    decreases resolutions.len(),
{
    if resolutions.len() > 0 {
        assert(resolutions[0] is None);
        assert forall|i: int|
            0 <= i < resolutions.drop_first().len() implies resolutions.drop_first()[i]
            is None by {
            assert(resolutions.drop_first()[i] == resolutions[i + 1]);
        }
        lemma_section_inheritance(init, resolutions.drop_first());
    }
}

} // verus!
