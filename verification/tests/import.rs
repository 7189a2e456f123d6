use cybermanju_drive::import::detect::{
    content_text, download_mime, entry_mime, name_from_segment, url_file_name, CONTENT_PREFIX_LEN,
};
use cybermanju_drive::import::walk::{
    children_parent, import_parent, is_hidden_name, node_type, scan_depth, should_hash_contents,
    should_index_contents, walk_step, ImportResult, WalkStep, HASH_SIZE_LIMIT,
};

#[test]
fn scan_depth_follows_recursion_flag() {
    assert_eq!(scan_depth(false), 1);
    assert_eq!(scan_depth(true), 20);
}

#[test]
fn hidden_names_start_with_a_dot() {
    assert!(is_hidden_name(".git"));
    assert!(is_hidden_name("."));
    assert!(!is_hidden_name("photos"));
    assert!(!is_hidden_name("a.b"));
    assert!(!is_hidden_name(""));
}

#[test]
fn walk_steps() {
    assert_eq!(walk_step(0, false, true), WalkStep::SkipRoot);
    assert_eq!(walk_step(2, true, false), WalkStep::SkipLink);
    assert_eq!(walk_step(1, false, true), WalkStep::Folder);
    assert_eq!(walk_step(3, false, false), WalkStep::File);
}

#[test]
fn size_limits_on_hashing_and_indexing() {
    assert!(should_hash_contents(false, 0));
    assert!(should_hash_contents(false, HASH_SIZE_LIMIT - 1));
    assert!(!should_hash_contents(false, 100 * 1024 * 1024));
    assert!(!should_hash_contents(true, 10));
    assert!(should_index_contents(false, 1024 * 1024 - 1));
    assert!(!should_index_contents(false, 1024 * 1024));
    assert!(!should_index_contents(true, 1));
}

#[test]
fn parents_and_types() {
    assert_eq!(children_parent("/home/u/pics", ""), "/home/u/pics");
    assert_eq!(children_parent("/home/u/pics", "folder-1"), "folder-1");
    assert_eq!(import_parent(String::new()), None);
    assert_eq!(import_parent("p".to_string()), Some("p".to_string()));
    assert_eq!(node_type(true), "folder");
    assert_eq!(node_type(false), "file");
}

#[test]
fn tally_counts_entries_and_errors() {
    let mut r = ImportResult::new();
    r.count_entry(true);
    r.count_entry(false);
    r.count_entry(false);
    r.add_error("Failed to read directory entry: denied".to_string());
    assert_eq!(r.folders_imported, 1);
    assert_eq!(r.files_imported, 2);
    assert_eq!(r.errors.len(), 1);
    assert_eq!(r.duration_ms, 0);
}

#[test]
fn mime_from_magic_bytes_then_extension() {
    let png: [u8; 8] = [0x89, b'P', b'N', b'G', 0x0D, 0x0A, 0x1A, 0x0A];
    assert_eq!(entry_mime(false, Some(&png[..]), "x.bin"), Some("image/png".to_string()));
    assert_eq!(entry_mime(false, Some(&b"plain"[..]), "notes.json"), Some("application/json".to_string()));
    assert_eq!(entry_mime(false, None, "a.pdf"), Some("application/pdf".to_string()));
    assert_eq!(entry_mime(false, None, "README"), None);
    assert_eq!(entry_mime(true, Some(&png[..]), "dir.png"), None);
}

#[test]
fn download_mime_prefers_declared_type() {
    assert_eq!(download_mime(Some("text/csv".to_string()), "a.pdf"), Some("text/csv".to_string()));
    assert_eq!(download_mime(None, "a.pdf"), Some("application/pdf".to_string()));
}

#[test]
fn download_names_from_urls() {
    assert_eq!(url_file_name("https://example.com/files/report.pdf"), "report.pdf");
    assert_eq!(url_file_name("https://example.com/files/"), "download");
    assert_eq!(url_file_name("not a url"), "download");
    assert_eq!(url_file_name("mailto:someone@example.com"), "download");
    assert_eq!(name_from_segment(Some("/".to_string())), "download");
    assert_eq!(name_from_segment(Some("a".to_string())), "a");
}

#[test]
fn content_text_takes_a_utf8_prefix() {
    assert_eq!(content_text(b"hello"), "hello");
    assert_eq!(content_text(&[0xff, 0xfe]), "");
    let long = vec![b'a'; CONTENT_PREFIX_LEN + 10];
    assert_eq!(content_text(&long).len(), CONTENT_PREFIX_LEN);
    // a character cut at the end of the prefix makes the prefix invalid
    let mut cut = vec![b'a'; CONTENT_PREFIX_LEN - 1];
    cut.extend_from_slice("é".as_bytes());
    assert_eq!(content_text(&cut), "");
}
