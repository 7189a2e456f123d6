//! Source languages by file extension, and the flags of a file's preview card.
use vstd::prelude::*;

use crate::text::{after_last_dot, chars_of, eq_lit, extension_chars};

verus! {

/// The language of a file extension (case-sensitive).
pub open spec fn language_of_extension(e: Seq<char>) -> Seq<char> {
    if e == "rs"@ {
        "rust"@
    } else if e == "ts"@ || e == "tsx"@ {
        "typescript"@
    } else if e == "js"@ || e == "jsx"@ {
        "javascript"@
    } else if e == "py"@ {
        "python"@
    } else if e == "go"@ {
        "go"@
    } else if e == "c"@ || e == "h"@ {
        "c"@
    } else if e == "cpp"@ || e == "hpp"@ || e == "cc"@ || e == "cxx"@ {
        "cpp"@
    } else if e == "java"@ {
        "java"@
    } else if e == "rb"@ {
        "ruby"@
    } else if e == "swift"@ {
        "swift"@
    } else if e == "kt"@ || e == "kts"@ {
        "kotlin"@
    } else if e == "html"@ || e == "htm"@ {
        "html"@
    } else if e == "css"@ || e == "scss"@ || e == "less"@ {
        "css"@
    } else if e == "json"@ {
        "json"@
    } else if e == "toml"@ {
        "toml"@
    } else if e == "yaml"@ || e == "yml"@ {
        "yaml"@
    } else if e == "md"@ || e == "mdx"@ {
        "markdown"@
    } else if e == "sql"@ {
        "sql"@
    } else if e == "sh"@ || e == "bash"@ || e == "zsh"@ {
        "bash"@
    } else if e == "lua"@ {
        "lua"@
    } else if e == "zig"@ {
        "zig"@
    } else if e == "ex"@ || e == "exs"@ {
        "elixir"@
    } else if e == "vue"@ {
        "vue"@
    } else if e == "svelte"@ {
        "svelte"@
    } else if e == "dart"@ {
        "dart"@
    } else if e == "r"@ {
        "r"@
    } else if e == "scala"@ {
        "scala"@
    } else if e == "hs"@ {
        "haskell"@
    } else if e == "clj"@ || e == "cljs"@ {
        "clojure"@
    } else if e == "pl"@ || e == "pm"@ {
        "perl"@
    } else if e == "php"@ {
        "php"@
    } else if e == "cs"@ {
        "csharp"@
    } else if e == "fs"@ || e == "fsi"@ {
        "fsharp"@
    } else if e == "vb"@ {
        "visualbasic"@
    } else if e == "proto"@ {
        "protobuf"@
    } else if e == "graphql"@ || e == "gql"@ {
        "graphql"@
    } else if e == "dockerfile"@ {
        "dockerfile"@
    } else if e == "makefile"@ {
        "makefile"@
    } else if e == "cmake"@ {
        "cmake"@
    } else {
        "unknown"@
    }
}

/// The language of a file, by the extension after the last `.` of its name (the whole name
/// when it has no `.`).
pub fn detect_language(filename: &str) -> (r: &'static str)
    ensures
        r@ == language_of_extension(after_last_dot(filename@)),
{
    let e = extension_chars(filename);
    if eq_lit(&e, "rs") {
        "rust"
    } else if eq_lit(&e, "ts") || eq_lit(&e, "tsx") {
        "typescript"
    } else if eq_lit(&e, "js") || eq_lit(&e, "jsx") {
        "javascript"
    } else if eq_lit(&e, "py") {
        "python"
    } else if eq_lit(&e, "go") {
        "go"
    } else if eq_lit(&e, "c") || eq_lit(&e, "h") {
        "c"
    } else if eq_lit(&e, "cpp") || eq_lit(&e, "hpp") || eq_lit(&e, "cc") || eq_lit(&e, "cxx") {
        "cpp"
    } else if eq_lit(&e, "java") {
        "java"
    } else if eq_lit(&e, "rb") {
        "ruby"
    } else if eq_lit(&e, "swift") {
        "swift"
    } else if eq_lit(&e, "kt") || eq_lit(&e, "kts") {
        "kotlin"
    } else if eq_lit(&e, "html") || eq_lit(&e, "htm") {
        "html"
    } else if eq_lit(&e, "css") || eq_lit(&e, "scss") || eq_lit(&e, "less") {
        "css"
    } else if eq_lit(&e, "json") {
        "json"
    } else if eq_lit(&e, "toml") {
        "toml"
    } else if eq_lit(&e, "yaml") || eq_lit(&e, "yml") {
        "yaml"
    } else if eq_lit(&e, "md") || eq_lit(&e, "mdx") {
        "markdown"
    } else if eq_lit(&e, "sql") {
        "sql"
    } else if eq_lit(&e, "sh") || eq_lit(&e, "bash") || eq_lit(&e, "zsh") {
        "bash"
    } else if eq_lit(&e, "lua") {
        "lua"
    } else if eq_lit(&e, "zig") {
        "zig"
    } else if eq_lit(&e, "ex") || eq_lit(&e, "exs") {
        "elixir"
    } else if eq_lit(&e, "vue") {
        "vue"
    } else if eq_lit(&e, "svelte") {
        "svelte"
    } else if eq_lit(&e, "dart") {
        "dart"
    } else if eq_lit(&e, "r") {
        "r"
    } else if eq_lit(&e, "scala") {
        "scala"
    } else if eq_lit(&e, "hs") {
        "haskell"
    } else if eq_lit(&e, "clj") || eq_lit(&e, "cljs") {
        "clojure"
    } else if eq_lit(&e, "pl") || eq_lit(&e, "pm") {
        "perl"
    } else if eq_lit(&e, "php") {
        "php"
    } else if eq_lit(&e, "cs") {
        "csharp"
    } else if eq_lit(&e, "fs") || eq_lit(&e, "fsi") {
        "fsharp"
    } else if eq_lit(&e, "vb") {
        "visualbasic"
    } else if eq_lit(&e, "proto") {
        "protobuf"
    } else if eq_lit(&e, "graphql") || eq_lit(&e, "gql") {
        "graphql"
    } else if eq_lit(&e, "dockerfile") {
        "dockerfile"
    } else if eq_lit(&e, "makefile") {
        "makefile"
    } else if eq_lit(&e, "cmake") {
        "cmake"
    } else {
        "unknown"
    }
}

/// The extensions of source-code files shown with a code preview.
pub open spec fn code_extension(e: Seq<char>) -> bool {
    ||| e == "rs"@ || e == "ts"@ || e == "tsx"@ || e == "js"@ || e == "jsx"@ || e == "py"@
    ||| e == "go"@ || e == "c"@ || e == "cpp"@ || e == "java"@ || e == "rb"@ || e == "swift"@
    ||| e == "kt"@ || e == "html"@ || e == "css"@ || e == "json"@ || e == "toml"@ || e == "yaml"@
    ||| e == "md"@ || e == "sql"@ || e == "sh"@ || e == "lua"@ || e == "zig"@ || e == "vue"@
    ||| e == "svelte"@
}

/// Whether a file is source code, by its extension.
pub fn is_code_file(filename: &str) -> (r: bool)
    ensures
        r == code_extension(after_last_dot(filename@)),
{
    let e = extension_chars(filename);
    eq_lit(&e, "rs") || eq_lit(&e, "ts") || eq_lit(&e, "tsx") || eq_lit(&e, "js") || eq_lit(&e, "jsx") || eq_lit(
        &e,
        "py",
    ) || eq_lit(&e, "go") || eq_lit(&e, "c") || eq_lit(&e, "cpp") || eq_lit(&e, "java") || eq_lit(&e, "rb")
        || eq_lit(&e, "swift") || eq_lit(&e, "kt") || eq_lit(&e, "html") || eq_lit(&e, "css") || eq_lit(&e, "json")
        || eq_lit(&e, "toml") || eq_lit(&e, "yaml") || eq_lit(&e, "md") || eq_lit(&e, "sql") || eq_lit(&e, "sh")
        || eq_lit(&e, "lua") || eq_lit(&e, "zig") || eq_lit(&e, "vue") || eq_lit(&e, "svelte")
}

/// The part after the last `.` of `stem.ext` is `ext` when `ext` holds no `.`.
proof fn after_last_dot_of_extension(stem: Seq<char>, ext: Seq<char>)
    requires
        !ext.contains('.'),
    ensures
        after_last_dot(stem + seq!['.'] + ext) == ext,
    decreases ext.len(),
{
    let p = stem + seq!['.'] + ext;
    if ext.len() == 0 {
        assert(p.last() == '.');
    } else {
        let q = stem + seq!['.'] + ext.drop_last();
        assert(p.drop_last() =~= q);
        assert(!ext.drop_last().contains('.')) by {
            if ext.drop_last().contains('.') {
                let k = choose|k: int| 0 <= k < ext.drop_last().len() && ext.drop_last()[k] == '.';
                assert(ext[k] == '.');
            }
        }
        assert(ext.last() != '.') by {
            assert(ext[ext.len() - 1] == ext.last());
        }
        after_last_dot_of_extension(stem, ext.drop_last());
        assert(ext.drop_last().push(ext.last()) =~= ext);
    }
}

/// Only the extension decides a file's language: a name that ends in `.` and an extension
/// (which holds no `.`) has the language of that extension, whatever comes before.
pub proof fn language_depends_on_extension_only(stem: Seq<char>, ext: Seq<char>)
    requires
        !ext.contains('.'),
    ensures
        language_of_extension(after_last_dot(stem + seq!['.'] + ext)) == language_of_extension(ext),
{
    after_last_dot_of_extension(stem, ext);
}

/// A source-code file always has a known language.
pub proof fn code_files_have_a_language(e: Seq<char>)
    requires
        code_extension(e),
    ensures
        language_of_extension(e) != "unknown"@,
{
    reveal_strlit("unknown");
    reveal_strlit("bash");
    reveal_strlit("c");
    reveal_strlit("cc");
    reveal_strlit("cpp");
    reveal_strlit("css");
    reveal_strlit("cxx");
    reveal_strlit("ex");
    reveal_strlit("exs");
    reveal_strlit("go");
    reveal_strlit("h");
    reveal_strlit("hpp");
    reveal_strlit("htm");
    reveal_strlit("html");
    reveal_strlit("java");
    reveal_strlit("javascript");
    reveal_strlit("js");
    reveal_strlit("json");
    reveal_strlit("jsx");
    reveal_strlit("kotlin");
    reveal_strlit("kt");
    reveal_strlit("kts");
    reveal_strlit("less");
    reveal_strlit("lua");
    reveal_strlit("markdown");
    reveal_strlit("md");
    reveal_strlit("mdx");
    reveal_strlit("py");
    reveal_strlit("python");
    reveal_strlit("rb");
    reveal_strlit("rs");
    reveal_strlit("ruby");
    reveal_strlit("rust");
    reveal_strlit("scss");
    reveal_strlit("sh");
    reveal_strlit("sql");
    reveal_strlit("svelte");
    reveal_strlit("swift");
    reveal_strlit("toml");
    reveal_strlit("ts");
    reveal_strlit("tsx");
    reveal_strlit("typescript");
    reveal_strlit("vue");
    reveal_strlit("yaml");
    reveal_strlit("yml");
    reveal_strlit("zig");
    reveal_strlit("zsh");
    assert("unknown"@.len() == 7);
    assert("rust"@.len() == 4);
    assert("typescript"@.len() == 10);
    assert("javascript"@.len() == 10);
    assert("python"@.len() == 6);
    assert("go"@.len() == 2);
    assert("c"@.len() == 1);
    assert("cpp"@.len() == 3);
    assert("java"@.len() == 4);
    assert("ruby"@.len() == 4);
    assert("swift"@.len() == 5);
    assert("kotlin"@.len() == 6);
    assert("html"@.len() == 4);
    assert("css"@.len() == 3);
    assert("json"@.len() == 4);
    assert("toml"@.len() == 4);
    assert("yaml"@.len() == 4);
    assert("markdown"@.len() == 8);
    assert("sql"@.len() == 3);
    assert("bash"@.len() == 4);
    assert("lua"@.len() == 3);
    assert("zig"@.len() == 3);
    assert("vue"@.len() == 3);
    assert("svelte"@.len() == 6);
    if e == "rs"@ {
        assert(e.len() == 2 && e[0] == 'r' && e[1] == 's');
        assert(language_of_extension(e) == "rust"@);
    }
    if e == "ts"@ {
        assert(e.len() == 2 && e[0] == 't' && e[1] == 's');
        assert(language_of_extension(e) == "typescript"@);
    }
    if e == "tsx"@ {
        assert(e.len() == 3 && e[0] == 't' && e[1] == 's' && e[2] == 'x');
        assert(language_of_extension(e) == "typescript"@);
    }
    if e == "js"@ {
        assert(e.len() == 2 && e[0] == 'j' && e[1] == 's');
        assert(language_of_extension(e) == "javascript"@);
    }
    if e == "jsx"@ {
        assert(e.len() == 3 && e[0] == 'j' && e[1] == 's' && e[2] == 'x');
        assert(language_of_extension(e) == "javascript"@);
    }
    if e == "py"@ {
        assert(e.len() == 2 && e[0] == 'p' && e[1] == 'y');
        assert(language_of_extension(e) == "python"@);
    }
    if e == "go"@ {
        assert(e.len() == 2 && e[0] == 'g' && e[1] == 'o');
        assert(language_of_extension(e) == "go"@);
    }
    if e == "c"@ {
        assert(e.len() == 1 && e[0] == 'c');
        assert(language_of_extension(e) == "c"@);
    }
    if e == "cpp"@ {
        assert(e.len() == 3 && e[0] == 'c' && e[1] == 'p' && e[2] == 'p');
        assert(language_of_extension(e) == "cpp"@);
    }
    if e == "java"@ {
        assert(e.len() == 4 && e[0] == 'j' && e[1] == 'a' && e[2] == 'v' && e[3] == 'a');
        assert(language_of_extension(e) == "java"@);
    }
    if e == "rb"@ {
        assert(e.len() == 2 && e[0] == 'r' && e[1] == 'b');
        assert(language_of_extension(e) == "ruby"@);
    }
    if e == "swift"@ {
        assert(e.len() == 5 && e[0] == 's' && e[1] == 'w' && e[2] == 'i' && e[3] == 'f' && e[4] == 't');
        assert(language_of_extension(e) == "swift"@);
    }
    if e == "kt"@ {
        assert(e.len() == 2 && e[0] == 'k' && e[1] == 't');
        assert(language_of_extension(e) == "kotlin"@);
    }
    if e == "html"@ {
        assert(e.len() == 4 && e[0] == 'h' && e[1] == 't' && e[2] == 'm' && e[3] == 'l');
        assert(language_of_extension(e) == "html"@);
    }
    if e == "css"@ {
        assert(e.len() == 3 && e[0] == 'c' && e[1] == 's' && e[2] == 's');
        assert(language_of_extension(e) == "css"@);
    }
    if e == "json"@ {
        assert(e.len() == 4 && e[0] == 'j' && e[1] == 's' && e[2] == 'o' && e[3] == 'n');
        assert(language_of_extension(e) == "json"@);
    }
    if e == "toml"@ {
        assert(e.len() == 4 && e[0] == 't' && e[1] == 'o' && e[2] == 'm' && e[3] == 'l');
        assert(language_of_extension(e) == "toml"@);
    }
    if e == "yaml"@ {
        assert(e.len() == 4 && e[0] == 'y' && e[1] == 'a' && e[2] == 'm' && e[3] == 'l');
        assert(language_of_extension(e) == "yaml"@);
    }
    if e == "md"@ {
        assert(e.len() == 2 && e[0] == 'm' && e[1] == 'd');
        assert(language_of_extension(e) == "markdown"@);
    }
    if e == "sql"@ {
        assert(e.len() == 3 && e[0] == 's' && e[1] == 'q' && e[2] == 'l');
        assert(language_of_extension(e) == "sql"@);
    }
    if e == "sh"@ {
        assert(e.len() == 2 && e[0] == 's' && e[1] == 'h');
        assert(language_of_extension(e) == "bash"@);
    }
    if e == "lua"@ {
        assert(e.len() == 3 && e[0] == 'l' && e[1] == 'u' && e[2] == 'a');
        assert(language_of_extension(e) == "lua"@);
    }
    if e == "zig"@ {
        assert(e.len() == 3 && e[0] == 'z' && e[1] == 'i' && e[2] == 'g');
        assert(language_of_extension(e) == "zig"@);
    }
    if e == "vue"@ {
        assert(e.len() == 3 && e[0] == 'v' && e[1] == 'u' && e[2] == 'e');
        assert(language_of_extension(e) == "vue"@);
    }
    if e == "svelte"@ {
        assert(e.len() == 6 && e[0] == 's' && e[1] == 'v' && e[2] == 'e' && e[3] == 'l' && e[4] == 't' && e[5] == 'e');
        assert(language_of_extension(e) == "svelte"@);
    }
}

/// The language shown on a file's preview card.
pub fn detect_language_for_preview(filename: &str) -> (r: &'static str)
    ensures
        r@ == language_of_extension(after_last_dot(filename@)),
{
    detect_language(filename)
}

/// Metadata of a generated preview image.
#[derive(Debug, Clone)]
pub struct PreviewMeta {
    pub original_file_id: String,
    pub preview_path: String,
    pub thumbnail_path: Option<String>,
    pub width: u32,
    pub height: u32,
    /// `png`, `jpg`, `webp` or `sprite_sheet`.
    pub format: String,
    pub size_bytes: u64,
}

/// What a preview card says about a file besides its name and size.
#[derive(Debug, Clone)]
pub struct PreviewFlags {
    pub mime_type: String,
    pub is_image: bool,
    pub is_video: bool,
    pub is_code: bool,
    pub is_audio: bool,
    pub language: String,
}

/// Whether the content type begins with the prefix.
pub open spec fn mime_starts(mime: Option<&str>, prefix: Seq<char>) -> bool {
    mime matches Some(m) && prefix.is_prefix_of(m@)
}

fn has_prefix(v: &Vec<char>, lit: &str) -> (r: bool)
    ensures
        r == lit@.is_prefix_of(v@),
{
    let n = lit.unicode_len();
    if v.len() < n {
        return false;
    }
    let mut i: usize = 0;
    while i < n
        invariant
            n == lit@.len(),
            n <= v@.len(),
            i <= n,
            forall|j: int| 0 <= j < i ==> v@[j] == lit@[j],
        decreases n - i,
    {
        if v[i] != lit.get_char(i) {
            return false;
        }
        i = i + 1;
    }
    true
}

/// The flags of a file's preview card: its content type (`unknown` when none), whether it is
/// an image, video or audio file by content type, whether it is code, and its language.
pub fn preview_flags(filename: &str, mime: Option<&str>) -> (r: PreviewFlags)
    ensures
        r.mime_type@ == match mime {
            Some(m) => m@,
            None => "unknown"@,
        },
        r.is_image == mime_starts(mime, "image/"@),
        r.is_video == mime_starts(mime, "video/"@),
        r.is_audio == mime_starts(mime, "audio/"@),
        r.is_code == code_extension(after_last_dot(filename@)),
        r.language@ == language_of_extension(after_last_dot(filename@)),
{
    let (mime_type, is_image, is_video, is_audio) = match mime {
        Some(m) => {
            let c = chars_of(m);
            (String::from_str(m), has_prefix(&c, "image/"), has_prefix(&c, "video/"), has_prefix(&c, "audio/"))
        },
        None => (String::from_str("unknown"), false, false, false),
    };
    PreviewFlags {
        mime_type,
        is_image,
        is_video,
        is_code: is_code_file(filename),
        is_audio,
        language: String::from_str(detect_language_for_preview(filename)),
    }
}

} // verus!
