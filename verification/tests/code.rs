use cybermanju_drive::code::language::{detect_language, detect_language_for_preview, is_code_file, preview_flags};
use cybermanju_drive::code::symbols::{extract_symbols_heuristic, parse_source};

#[test]
fn test_detect_language() {
    assert_eq!(detect_language("main.rs"), "rust");
    assert_eq!(detect_language("App.tsx"), "typescript");
    assert_eq!(detect_language("x.cc"), "cpp");
    assert_eq!(detect_language("build.gradle.kts"), "kotlin");
    assert_eq!(detect_language("Makefile"), "unknown");
    assert_eq!(detect_language("makefile"), "makefile");
    assert_eq!(detect_language("photo.JPG"), "unknown");
    assert_eq!(detect_language_for_preview("q.sql"), "sql");
}

#[test]
fn test_is_code_file() {
    assert!(is_code_file("lib.rs"));
    assert!(is_code_file("notes.md"));
    assert!(!is_code_file("image.png"));
    assert!(!is_code_file("header.h"));
}

#[test]
fn test_preview_flags() {
    let f = preview_flags("clip.mp4", Some("video/mp4"));
    assert!(f.is_video && !f.is_image && !f.is_audio && !f.is_code);
    assert_eq!(f.language, "unknown");
    let g = preview_flags("main.py", None);
    assert_eq!(g.mime_type, "unknown");
    assert!(g.is_code);
    assert_eq!(g.language, "python");
}

#[test]
fn test_extract_symbols_rust() {
    let src = "// comment\nuse std::io;\n\npub fn alpha(x: u32) -> u32 {\n    x\n}\r\nstruct Beta<T> {\n}\npub trait Gamma<T>: Clone {\n}\nimpl Delta for X {}\nasync fn epsilon() {}\n";
    let syms = extract_symbols_heuristic(src, "rust");
    let names: Vec<(&str, &str, u32)> = syms.iter().map(|s| (s.name.as_str(), s.kind.as_str(), s.start_line)).collect();
    assert_eq!(
        names,
        vec![("alpha", "function", 4), ("Beta", "class", 7), ("Gamma", "interface", 9), ("epsilon", "function", 12)]
    );
    assert_eq!(syms[0].detail, "pub fn alpha(x: u32) -> u32 {");
    assert!(syms.iter().all(|s| s.start_line == s.end_line));
}

#[test]
fn test_extract_symbols_rust_struct_and_enum() {
    let syms = extract_symbols_heuristic("pub struct Point { x: i32 }", "rust");
    assert_eq!(syms.len(), 1);
    assert_eq!(syms[0].name, "Point");
    assert_eq!(syms[0].kind, "class");
    assert_eq!(syms[0].start_line, 1);
    let e = extract_symbols_heuristic("pub(crate) enum Mode {
    A,
}
", "rust");
    assert_eq!(e.len(), 1);
    assert_eq!((e[0].name.as_str(), e[0].kind.as_str()), ("Mode", "class"));
}

#[test]
fn test_extract_symbols_python_and_default() {
    let py = "def run():\n    pass\nclass Thing(Base):\n    def method(self):\n        pass\n# def hidden():\n";
    let syms = extract_symbols_heuristic(py, "python");
    let names: Vec<&str> = syms.iter().map(|s| s.name.as_str()).collect();
    assert_eq!(names, vec!["run", "method"]);
    let other = extract_symbols_heuristic("class Widget {\nimpl Foo for Bar {\ntype Alias = u8;\n", "unknown");
    let kinds: Vec<(&str, &str)> = other.iter().map(|s| (s.name.as_str(), s.kind.as_str())).collect();
    assert_eq!(kinds, vec![("Widget", "class"), ("Foo", "impl"), ("Alias", "function")]);
}

#[test]
fn test_parse_source() {
    let parsed = parse_source("lib.rs", "fn a() {}\n\nfn b() {}");
    assert_eq!(parsed.language, "rust");
    assert_eq!(parsed.total_lines, 3);
    assert_eq!(parsed.symbols.len(), 2);
    assert_eq!(parsed.symbols[1].start_line, 3);
    assert_eq!(parse_source("empty.rs", "").total_lines, 0);
    assert_eq!(parse_source("x.rs", "a\n").total_lines, 1);
}

#[test]
fn test_language_from_last_extension_only() {
    assert_eq!(detect_language("archive.tar.rs"), "rust");
    assert_eq!(detect_language("my.notes.v2.md"), "markdown");
    assert_eq!(detect_language("rs"), "rust");
    for name in ["a.rs", "b.ts", "c.py", "d.svelte", "e.sh", "f.json", "g.c", "h.kt"] {
        assert!(is_code_file(name));
        assert_ne!(detect_language(name), "unknown");
    }
}

#[test]
fn test_symbols_follow_their_lines() {
    let src = "fn a() {}\n\n  pub struct B {}\n// fn hidden()\nfn c() {}\n";
    let syms = extract_symbols_heuristic(src, "rust");
    let lines: Vec<&str> = src.lines().collect();
    assert_eq!(syms.len(), 3);
    for w in syms.windows(2) {
        assert!(w[0].start_line <= w[1].start_line);
    }
    for s in &syms {
        assert_eq!(s.start_line, s.end_line);
        assert_eq!(s.detail, lines[(s.start_line - 1) as usize].trim());
    }
}

#[test]
fn test_at_most_two_symbols_per_line() {
    let syms = extract_symbols_heuristic("trait Shape {}\n# not this\n", "rust");
    assert!(syms.len() <= 2);
    for s in &syms {
        assert!(!s.detail.is_empty());
        assert!(!s.detail.starts_with("//") && !s.detail.starts_with('#') && !s.detail.starts_with("/*"));
    }
}
