//! Per-file processing: skipping, description checks, section patches.

use zola_abridge_helper::cli::Cli;
use zola_abridge_helper::front_matter::split_front_matter;
use zola_abridge_helper::processing::effective_section;
use zola_abridge_helper::processing::file_data::FileData;
use zola_abridge_helper::processing::find_index_entry;
use zola_abridge_helper::processing::is_description_length_in_preferred_range;
use zola_abridge_helper::processing::process_file;
use zola_abridge_helper::processing::should_skip_file;
use zola_abridge_helper::processing::validate_zola_config;
use zola_abridge_helper::processing::DirEntryMeta;
use zola_abridge_helper::processing::ProcessingError;
use zola_abridge_helper::section_info::SectionInfo;

fn cli() -> Cli {
    Cli {
        root_path: String::from("."),
        ignore_seo: false,
        ignore_missing_description: false,
        should_check_only: false,
        allow_dirty: false,
    }
}

fn blog_section() -> SectionInfo {
    let idx = FileData::new_from_text("+++\ntransparent = true\n+++\n").unwrap();
    let (section, stats) = idx.extract_section_info("blog").unwrap();
    assert_eq!(stats.errors(), 0);
    section
}

#[test]
fn skip_rules() {
    assert!(!should_skip_file("post.md"));
    assert!(!should_skip_file("a.b.md"));
    assert!(should_skip_file("_index.md"));
    assert!(should_skip_file("notes.txt"));
    assert!(should_skip_file("md"));
    assert!(should_skip_file(".md"));
    assert!(should_skip_file("picture.png"));
}

#[test]
fn description_boundaries() {
    // 139 and 181 characters warn; 140 and 180 do not.
    for (len, warns) in [(139, true), (140, false), (180, false), (181, true)] {
        let config = format!("description = \"{}\"", "x".repeat(len));
        let stats = validate_zola_config(&config, &cli()).unwrap();
        assert_eq!(stats.seo_warnings(), if warns { 1 } else { 0 }, "length {len}");
    }
}

#[test]
fn description_length_counts_characters() {
    assert!(is_description_length_in_preferred_range(&"é".repeat(140)));
    assert!(!is_description_length_in_preferred_range(&"é".repeat(139)));
}

#[test]
fn missing_description_policy() {
    let mut options = cli();
    options.ignore_missing_description = true;
    // Absent description: ignored under the policy.
    let stats = validate_zola_config("title = \"site\"", &options).unwrap();
    assert_eq!(stats.seo_warnings(), 0);
    // But absent without the policy warns.
    let stats = validate_zola_config("title = \"site\"", &cli()).unwrap();
    assert_eq!(stats.seo_warnings(), 1);
    // An empty string is present and out of range: it warns either way.
    let stats = validate_zola_config("description = \"\"", &options).unwrap();
    assert_eq!(stats.seo_warnings(), 1);
}

#[test]
fn non_string_description_always_warns() {
    let mut options = cli();
    options.ignore_missing_description = true;
    let stats = validate_zola_config("description = 5", &options).unwrap();
    assert_eq!(stats.seo_warnings(), 1);
}

#[test]
fn invalid_config_is_refused() {
    assert_eq!(
        validate_zola_config("not = = toml", &cli()).unwrap_err(),
        ProcessingError::MetadataParse
    );
}

#[test]
fn section_scenario_new_post() {
    // blog/_index.md declares the section; its name falls back to the
    // folder name when no title is set.
    let section = blog_section();
    assert_eq!(section.section_name(), "blog");

    let text = "+++\ntitle = \"Post 1\"\n+++\n\nHello\n";
    let out = process_file("post1.md", text, &cli(), Some(&section));
    assert_eq!(out.stats.changed(), 1);
    assert_eq!(out.stats.not_changed(), 0);
    assert_eq!(out.stats.errors(), 0);

    let new_text = out.new_text.expect("a write-back");
    let (fm, body) = split_front_matter(&new_text).unwrap();
    assert_eq!(body, "Hello\n");
    let doc: toml_edit::DocumentMut = fm.parse().unwrap();
    assert_eq!(doc["extra"]["series"].as_str(), Some("blog"));
    let tags: Vec<&str> = doc["taxonomies"]["tags"]
        .as_array()
        .unwrap()
        .iter()
        .map(|v| v.as_str().unwrap())
        .collect();
    assert_eq!(tags, vec!["blog"]);
    // The untouched title survives the patch.
    assert_eq!(doc["title"].as_str(), Some("Post 1"));

    // Idempotence: a second pass changes nothing.
    let again = process_file("post1.md", &new_text, &cli(), Some(&section));
    assert_eq!(again.stats.changed(), 0);
    assert_eq!(again.stats.not_changed(), 1);
    assert!(again.new_text.is_none());
}

#[test]
fn index_missing_transparent_counts_error() {
    let idx = FileData::new_from_text("+++\ntitle = \"My Blog\"\n+++\n").unwrap();
    let (section, stats) = idx.extract_section_info("blog").unwrap();
    assert_eq!(stats.errors(), 1);
    // The section still resolves, with the title as its name.
    assert_eq!(section.section_name(), "My Blog");
}

#[test]
fn index_non_boolean_transparent_counts_error() {
    let idx = FileData::new_from_text("+++\ntransparent = \"yes\"\n+++\n").unwrap();
    let (_, stats) = idx.extract_section_info("blog").unwrap();
    assert_eq!(stats.errors(), 1);
}

#[test]
fn tag_union_keeps_unrelated_tags() {
    let section = blog_section();
    let text = "+++\ndescription = \"d\"\n[taxonomies]\ntags = [\"other\"]\n+++\nbody";
    let out = process_file("post.md", text, &cli(), Some(&section));
    assert_eq!(out.stats.changed(), 1);
    let (fm, _) = split_front_matter(&out.new_text.unwrap()).unwrap();
    let doc: toml_edit::DocumentMut = fm.parse().unwrap();
    let tags: Vec<&str> = doc["taxonomies"]["tags"]
        .as_array()
        .unwrap()
        .iter()
        .map(|v| v.as_str().unwrap())
        .collect();
    assert_eq!(tags, vec!["other", "blog"]);
}

#[test]
fn tag_union_never_duplicates() {
    let section = blog_section();
    let text = "+++\n[extra]\nseries = \"blog\"\n[taxonomies]\ntags = [\"blog\", \"other\"]\n+++\n";
    let out = process_file("post.md", text, &cli(), Some(&section));
    assert_eq!(out.stats.changed(), 0);
    assert_eq!(out.stats.not_changed(), 1);
    assert!(out.new_text.is_none());
}

#[test]
fn disabled_tag_check_leaves_tags_alone() {
    let idx = FileData::new_from_text(
        "+++\ntransparent = true\n[extra]\ndisable_check_tag = true\n+++\n",
    )
    .unwrap();
    let (section, _) = idx.extract_section_info("blog").unwrap();
    assert!(section.disable_check_tag);
    // The series is already right, so with tags disabled nothing changes
    // even though no tag is present.
    let text = "+++\n[extra]\nseries = \"blog\"\n+++\n";
    let out = process_file("post.md", text, &cli(), Some(&section));
    assert_eq!(out.stats.changed(), 0);
    assert_eq!(out.stats.not_changed(), 1);
    assert!(out.new_text.is_none());
}

#[test]
fn file_overrides_disable_checks() {
    let section = blog_section();
    let text = "+++\n[extra]\ndisable_check_series = true\ndisable_check_tag = true\n+++\n";
    let out = process_file("post.md", text, &cli(), Some(&section));
    assert_eq!(out.stats.changed(), 0);
    assert_eq!(out.stats.not_changed(), 1);
}

#[test]
fn non_boolean_override_is_ignored() {
    let section = blog_section();
    let idx = FileData::new_from_text(
        "+++\ntransparent = true\n[extra]\ndisable_check_tag = \"yes\"\n+++\n",
    )
    .unwrap();
    let (from_bad_flag, _) = idx.extract_section_info("blog").unwrap();
    assert!(!from_bad_flag.disable_check_tag);
    assert_eq!(from_bad_flag.disable_check_tag, section.disable_check_tag);
}

#[test]
fn no_section_means_no_patch() {
    let text = "+++\ndescription = \"d\"\n+++\nbody";
    let out = process_file("post.md", text, &cli(), None);
    assert_eq!(out.stats.changed(), 0);
    assert_eq!(out.stats.not_changed(), 1);
    assert!(out.new_text.is_none());
}

#[test]
fn skipped_files_are_counted() {
    let out = process_file("_index.md", "", &cli(), None);
    assert_eq!(out.stats.skipped(), 1);
    assert_eq!(out.stats.errors(), 0);
    let out = process_file("image.png", "", &cli(), None);
    assert_eq!(out.stats.skipped(), 1);
}

#[test]
fn files_without_front_matter_count_an_error() {
    let out = process_file("post.md", "just text", &cli(), None);
    assert_eq!(out.stats.errors(), 1);
    assert_eq!(out.stats.changed(), 0);
    assert!(out.new_text.is_none());
}

#[test]
fn files_with_invalid_metadata_count_an_error() {
    let out = process_file("post.md", "+++\nnot = = toml\n+++\n", &cli(), Some(&blog_section()));
    assert_eq!(out.stats.errors(), 1);
    assert!(out.new_text.is_none());
}

#[test]
fn patch_under_non_table_key_counts_an_error() {
    let out = process_file("post.md", "+++\nextra = 5\n+++\n", &cli(), Some(&blog_section()));
    assert_eq!(out.stats.errors(), 1);
    assert!(out.new_text.is_none());
}

#[test]
fn check_only_mode_reports_without_writing() {
    let mut options = cli();
    options.should_check_only = true;
    let text = "+++\ntitle = \"Post\"\n+++\n";
    let out = process_file("post.md", text, &options, Some(&blog_section()));
    assert_eq!(out.stats.changed(), 1);
    assert!(out.new_text.is_none());
}

#[test]
fn disabled_description_check_reports_nothing() {
    let idx = FileData::new_from_text(
        "+++\ntransparent = true\n[extra]\ndisable_check_description = true\n+++\n",
    )
    .unwrap();
    let (section, _) = idx.extract_section_info("blog").unwrap();
    let text = "+++\n[extra]\nseries = \"blog\"\n[taxonomies]\ntags = [\"blog\"]\n+++\n";
    let out = process_file("post.md", text, &cli(), Some(&section));
    assert_eq!(out.stats.seo_warnings(), 0);
    // The same file under a section without the override warns.
    let out = process_file("post.md", text, &cli(), Some(&blog_section()));
    assert_eq!(out.stats.seo_warnings(), 1);
}

#[test]
fn file_data_error_variants() {
    assert_eq!(
        FileData::new_from_text("plain").unwrap_err(),
        ProcessingError::MissingFrontMatter
    );
    let bad = FileData::new_from_text("+++\nnot = = toml\n+++\n").unwrap();
    assert_eq!(
        bad.extract_section_info("blog").unwrap_err(),
        ProcessingError::MetadataParse
    );
    let mut shaped = FileData::new_from_text("+++\nextra = 5\n+++\n").unwrap();
    assert_eq!(
        shaped.update_series_and_tags(Some(&blog_section())).unwrap_err(),
        ProcessingError::MetadataShape
    );
    let unchanged = FileData::new_from_text("+++\na = 1\n+++\n").unwrap();
    assert_eq!(unchanged.render().unwrap_err(), ProcessingError::NotChanged);
}

#[test]
fn update_without_section_is_a_no_op() {
    let mut fd = FileData::new_from_text("+++\na = 1\n+++\nbody").unwrap();
    fd.update_series_and_tags(None).unwrap();
    assert!(!fd.is_changed());
    assert_eq!(fd.front_matter(), "\na = 1\n");
}

#[test]
fn find_index_entry_picks_the_index_file() {
    let entries = vec![
        DirEntryMeta { name: String::from("a.md"), is_file: true },
        DirEntryMeta { name: String::from("_index.md"), is_file: true },
    ];
    assert_eq!(find_index_entry(&entries), Some(1));
    let no_index = vec![DirEntryMeta { name: String::from("a.md"), is_file: true }];
    assert_eq!(find_index_entry(&no_index), None);
    // A directory named like the index file is not an index file.
    let dir_only = vec![DirEntryMeta { name: String::from("_index.md"), is_file: false }];
    assert_eq!(find_index_entry(&dir_only), None);
}

#[test]
fn directories_without_index_pass_the_section_through() {
    let parent = blog_section();
    // Two levels without their own section: the grandchild still sees
    // the ancestor's name and flags.
    let level1 = effective_section(None, Some(&parent));
    let level2 = effective_section(None, level1);
    let adopted = level2.unwrap();
    assert_eq!(adopted.section_name(), "blog");
    assert_eq!(adopted.disable_check_tag, parent.disable_check_tag);
    // A directory with its own section replaces the context.
    let own = FileData::new_from_text("+++\ntransparent = true\n+++\n")
        .unwrap()
        .extract_section_info("sub")
        .unwrap()
        .0;
    let replaced = effective_section(Some(&own), Some(&parent)).unwrap();
    assert_eq!(replaced.section_name(), "sub");
}

#[test]
fn patch_preserves_formatting_and_unrelated_fields() {
    let section = blog_section();
    let text = "+++\ntitle = \"T\"\ndescription = \"short\"\n\n# pinned comment\n[extra]\nfoo = 1\n+++\n\nbody\n";
    let out = process_file("post.md", text, &cli(), Some(&section));
    assert_eq!(out.stats.changed(), 1);
    let new_text = out.new_text.unwrap();
    // Untouched formatting survives the patch.
    assert!(new_text.contains("# pinned comment"));
    assert!(new_text.contains("title = \"T\"\n"));
    assert!(new_text.contains("description = \"short\"\n"));
    assert!(new_text.ends_with("\n\nbody\n"));
    // The untouched fields still read the same, and the patched ones
    // read as patched.
    let (fm, _) = split_front_matter(&new_text).unwrap();
    let doc: toml_edit::DocumentMut = fm.parse().unwrap();
    assert_eq!(doc["title"].as_str(), Some("T"));
    assert_eq!(doc["description"].as_str(), Some("short"));
    assert_eq!(doc["extra"]["foo"].as_integer(), Some(1));
    assert_eq!(doc["extra"]["series"].as_str(), Some("blog"));
    assert_eq!(doc["taxonomies"]["tags"].as_array().unwrap().len(), 1);
}

#[test]
fn crlf_file_patch_keeps_body_and_is_idempotent() {
    let section = blog_section();
    let text = "+++\r\ntitle = \"T\"\r\n+++\r\n\r\nbody\r\n";
    let out = process_file("post.md", text, &cli(), Some(&section));
    assert_eq!(out.stats.changed(), 1);
    let new_text = out.new_text.unwrap();
    // The encoder normalizes the metadata block's line endings, but the
    // fields still read the same and the body keeps its CRLF bytes.
    let (fm, body) = split_front_matter(&new_text).unwrap();
    let doc: toml_edit::DocumentMut = fm.parse().unwrap();
    assert_eq!(doc["title"].as_str(), Some("T"));
    assert_eq!(doc["extra"]["series"].as_str(), Some("blog"));
    assert_eq!(body, "body\r\n");
    // A second pass changes nothing.
    let again = process_file("post.md", &new_text, &cli(), Some(&section));
    assert_eq!(again.stats.changed(), 0);
    assert_eq!(again.stats.not_changed(), 1);
}

#[test]
fn wrong_series_in_inline_table_is_replaced() {
    let section = blog_section();
    let text = "+++\nextra = { series = \"old\" }\n[taxonomies]\ntags = [\"blog\"]\n+++\n";
    let out = process_file("post.md", text, &cli(), Some(&section));
    assert_eq!(out.stats.changed(), 1);
    let (fm, _) = split_front_matter(&out.new_text.unwrap()).unwrap();
    let doc: toml_edit::DocumentMut = fm.parse().unwrap();
    assert_eq!(doc["extra"]["series"].as_str(), Some("blog"));
}

#[test]
fn non_array_tags_field_is_replaced() {
    let section = blog_section();
    let text = "+++\n[extra]\nseries = \"blog\"\n[taxonomies]\ntags = \"blog\"\n+++\n";
    let out = process_file("post.md", text, &cli(), Some(&section));
    assert_eq!(out.stats.changed(), 1);
    let (fm, _) = split_front_matter(&out.new_text.unwrap()).unwrap();
    let doc: toml_edit::DocumentMut = fm.parse().unwrap();
    let tags: Vec<&str> = doc["taxonomies"]["tags"]
        .as_array()
        .unwrap()
        .iter()
        .map(|v| v.as_str().unwrap())
        .collect();
    assert_eq!(tags, vec!["blog"]);
}

#[test]
fn tags_created_inside_existing_taxonomies_table() {
    let section = blog_section();
    let text = "+++\n[extra]\nseries = \"blog\"\n[taxonomies]\ncategories = [\"c\"]\n+++\n";
    let out = process_file("post.md", text, &cli(), Some(&section));
    assert_eq!(out.stats.changed(), 1);
    let (fm, _) = split_front_matter(&out.new_text.unwrap()).unwrap();
    let doc: toml_edit::DocumentMut = fm.parse().unwrap();
    assert_eq!(doc["taxonomies"]["tags"].as_array().unwrap().len(), 1);
    // The sibling taxonomy survives.
    assert_eq!(doc["taxonomies"]["categories"].as_array().unwrap().len(), 1);
}

#[test]
fn section_name_prefers_title() {
    let with_title = SectionInfo::new(Some(String::from("The Blog")), String::from("blog"));
    assert_eq!(with_title.section_name(), "The Blog");
    let without = SectionInfo::new(None, String::from("blog"));
    assert_eq!(without.section_name(), "blog");
}
