use cybermanju_drive::search::{build_document, match_type, search_hit, snippet, suggest_completions, DocumentParams};

fn strings(v: &[&str]) -> Vec<String> {
    v.iter().map(|s| s.to_string()).collect()
}

#[test]
fn hits_name_the_field_the_query_matched() {
    assert_eq!(match_type("Report 2024", Some("annual_report.pdf"), Some("finance")), "filename");
    assert_eq!(match_type("  FINANCE  ", Some("x.pdf"), Some("Finance")), "tag");
    assert_eq!(match_type("zzz", Some("x.pdf"), None), "content");
    assert_eq!(match_type("", Some("x.pdf"), Some("t")), "content");
    assert_eq!(match_type("a\tb", None, Some("xbx")), "tag");
}

#[test]
fn snippets_keep_two_hundred_characters() {
    let long: String = "é".repeat(300);
    let s = snippet(&long);
    assert_eq!(s.chars().count(), 200);
    assert_eq!(snippet("short"), "short");
    assert_eq!(snippet(""), "");
}

#[test]
fn hits_need_an_id_and_a_name() {
    assert!(search_hit("q", None, Some("n"), None, None).is_none());
    assert!(search_hit("q", Some("id"), None, None, None).is_none());
    let hit = search_hit("notes", Some("id-1"), Some("Notes.txt"), None, None).unwrap();
    assert_eq!(hit.file_id, "id-1");
    assert_eq!(hit.file_name, "Notes.txt");
    assert_eq!(hit.snippet, "");
    assert_eq!(hit.match_type, "filename");
    let hit = search_hit("alpha", Some("id-2"), Some("b.txt"), Some("alpha beta"), None).unwrap();
    assert_eq!(hit.snippet, "alpha beta");
    assert_eq!(hit.match_type, "content");
}

#[test]
fn completions_extend_the_prefix_once_each_up_to_the_limit() {
    let names = strings(&["report annual", "reply", "other", "repx"]);
    let contents = strings(&["repo rep report"]);
    assert_eq!(suggest_completions("rep", 10, &names, &contents), strings(&["report", "reply", "repo"]));
    assert_eq!(suggest_completions("rep", 2, &names, &contents), strings(&["report", "reply"]));
    assert_eq!(suggest_completions("rep", 0, &names, &contents), strings(&["report"]));
    assert_eq!(suggest_completions("rep", 5, &strings(&["Rep"]), &[]), Vec::<String>::new());
    assert_eq!(suggest_completions("zz", 5, &names, &contents), Vec::<String>::new());
}

#[test]
fn documents_carry_only_the_fields_that_are_there() {
    let tags = strings(&["a", "b"]);
    let params = DocumentParams {
        file_id: "f1",
        file_name: "n.txt",
        content_text: "",
        tags: &tags,
        file_type: "text",
        is_encrypted: true,
        has_geo: false,
        created_at: "2024-01-01T00:00:00Z",
        blake3_hash: None,
    };
    let d = build_document(&params);
    assert_eq!(d.file_id, "f1");
    assert!(d.content_text.is_none());
    assert_eq!(d.tags, tags);
    assert_eq!(d.timestamp_micros, Some(1_704_067_200_000_000));
    assert!(d.blake3_hash.is_none());
    assert!(d.is_encrypted);
    let params = DocumentParams { content_text: "body", created_at: "yesterday", blake3_hash: Some("abc"), ..params };
    let d = build_document(&params);
    assert_eq!(d.content_text.as_deref(), Some("body"));
    assert_eq!(d.timestamp_micros, None);
    assert_eq!(d.blake3_hash.as_deref(), Some("abc"));
}
