use review_flow::documents::{md_file_name, md_stem};

#[test]
fn document_file_name_appends_md_suffix() {
    assert_eq!(md_file_name("notes"), "notes.md");
    assert_eq!(md_file_name(""), ".md");
}

#[test]
fn document_stem_strips_md_suffix() {
    assert_eq!(md_stem("notes.md"), Some("notes".to_string()));
    assert_eq!(md_stem("notes.txt"), None);
    assert_eq!(md_stem("notes"), None);
    assert_eq!(md_stem("a.md.md"), Some("a".to_string()));
    assert_eq!(md_stem(".md"), Some("".to_string()));
}
