//! Symbols found in source code by scanning it line by line for definition keywords.
use vstd::prelude::*;

use crate::code::language::{detect_language, language_of_extension};
use crate::text::{after_last_dot, chars_of, eq_lit, string_of};
use crate::web::query::{split_chars, split_on, views};
use crate::web::routes::{is_white_space, keep_nonempty, nonempty_pieces, trim_chars, trimmed, white_space};

verus! {

/// `l` without one trailing carriage return.
pub open spec fn strip_cr(l: Seq<char>) -> Seq<char> {
    if l.len() > 0 && l.last() == '\r' {
        l.drop_last()
    } else {
        l
    }
}

/// Each line without one trailing carriage return.
pub open spec fn strip_all(p: Seq<Seq<char>>) -> Seq<Seq<char>> {
    p.map_values(|l: Seq<char>| strip_cr(l))
}

/// The lines of a text as `str::lines` gives them: split at `\n`, a `\r` before the `\n`
/// removed, and no final empty line after a closing `\n`.
pub open spec fn lines_of(s: Seq<char>) -> Seq<Seq<char>> {
    let p = split_on(s, '\n');
    let ended = strip_all(p.take(p.len() - 1));
    if p.last().len() == 0 {
        ended
    } else {
        ended.push(p.last())
    }
}

/// A symbol: its name, kind, first and last line (counting from 1) and the trimmed line
/// defining it.
pub struct SymbolModel {
    pub name: Seq<char>,
    pub kind: Seq<char>,
    pub start_line: nat,
    pub end_line: nat,
    pub detail: Seq<char>,
}

/// A symbol found in source code.
#[derive(Debug, Clone)]
pub struct Symbol {
    pub name: String,
    /// `function`, `class`, `impl` or `interface`.
    pub kind: String,
    pub start_line: u32,
    pub end_line: u32,
    pub detail: String,
}

/// The abstract form of a symbol.
pub open spec fn symbol_model(s: Symbol) -> SymbolModel {
    SymbolModel {
        name: s.name@,
        kind: s.kind@,
        start_line: s.start_line as nat,
        end_line: s.end_line as nat,
        detail: s.detail@,
    }
}

/// The abstract forms of symbols.
pub open spec fn symbol_models(v: Seq<Symbol>) -> Seq<SymbolModel> {
    v.map_values(|s: Symbol| symbol_model(s))
}

/// The keywords that start a definition in a language (for Rust: functions, structs and
/// enums; traits are found apart).
pub open spec fn fn_keywords(lang: Seq<char>) -> Seq<Seq<char>> {
    if lang == "rust"@ {
        seq![
            "fn "@,
            "pub fn "@,
            "pub(crate) fn "@,
            "pub(super) fn "@,
            "async fn "@,
            "pub async fn "@,
            "struct "@,
            "pub struct "@,
            "pub(crate) struct "@,
            "enum "@,
            "pub enum "@,
            "pub(crate) enum "@,
        ]
    } else if lang == "python"@ {
        seq!["def "@]
    } else if lang == "javascript"@ || lang == "typescript"@ {
        seq![
            "function "@,
            "const "@,
            "let "@,
            "var "@,
            "class "@,
            "async function "@,
            "export function "@,
            "export default function "@,
        ]
    } else if lang == "go"@ {
        seq!["func "@]
    } else if lang == "java"@ || lang == "kotlin"@ || lang == "csharp"@ {
        seq!["public "@, "private "@, "protected "@, "static "@, "class "@, "interface "@, "enum "@, "void "@]
    } else if lang == "c"@ || lang == "cpp"@ {
        seq![
            "void "@,
            "int "@,
            "float "@,
            "double "@,
            "char "@,
            "bool "@,
            "auto "@,
            "class "@,
            "struct "@,
            "enum "@,
            "typedef "@,
        ]
    } else if lang == "ruby"@ {
        seq!["def "@, "class "@, "module "@]
    } else if lang == "swift"@ {
        seq!["func "@, "class "@, "struct "@, "enum "@, "protocol "@]
    } else {
        seq!["fn "@, "function "@, "def "@, "class "@, "struct "@, "interface "@, "trait "@, "impl "@, "enum "@, "type "@]
    }
}

/// `k` is the first keyword that the line starts with.
pub open spec fn is_first_keyword(t: Seq<char>, kws: Seq<Seq<char>>, k: int) -> bool {
    0 <= k < kws.len() && kws[k].is_prefix_of(t) && forall|j: int| 0 <= j < k ==> !(#[trigger] kws[j]).is_prefix_of(t)
}

/// Whether `pat` occurs in `t`.
pub open spec fn has_sub(t: Seq<char>, pat: Seq<char>) -> bool {
    exists|i: int| 0 <= i && i + pat.len() <= t.len() && #[trigger] t.subrange(i, i + pat.len()) == pat
}

/// The kind of the symbol a line defines.
pub open spec fn kind_of(t: Seq<char>) -> Seq<char> {
    if has_sub(t, "class "@) || has_sub(t, "struct "@) || has_sub(t, "enum "@) || has_sub(t, "interface "@)
        || has_sub(t, "trait "@) || has_sub(t, "protocol "@) || has_sub(t, "module "@) {
        "class"@
    } else if has_sub(t, "impl "@) {
        "impl"@
    } else {
        "function"@
    }
}

/// Characters that end a symbol name after a keyword.
pub open spec fn name_end(c: char) -> bool {
    c == '(' || c == '<' || c == ':' || c == '{' || c == ' '
}

/// `s` up to its first character satisfying the separator test.
pub open spec fn before_name_end(s: Seq<char>) -> Seq<char>
    decreases s.len(),
{
    if s.len() == 0 {
        s
    } else if name_end(s[0]) {
        Seq::empty()
    } else {
        seq![s[0]] + before_name_end(s.drop_first())
    }
}

/// `s` up to its first `c`.
pub open spec fn before_char(s: Seq<char>, c: char) -> Seq<char>
    decreases s.len(),
{
    if s.len() == 0 {
        s
    } else if s[0] == c {
        Seq::empty()
    } else {
        seq![s[0]] + before_char(s.drop_first(), c)
    }
}

/// The pieces of `s` between white-space characters.
pub open spec fn split_on_ws(s: Seq<char>) -> Seq<Seq<char>>
    decreases s.len(),
{
    if s.len() == 0 {
        seq![Seq::<char>::empty()]
    } else {
        let prev = split_on_ws(s.drop_last());
        if is_white_space(s.last()) {
            prev.push(Seq::<char>::empty())
        } else {
            prev.update(prev.len() - 1, prev.last().push(s.last()))
        }
    }
}

/// The white-space separated words of `s` (`str::split_whitespace`).
pub open spec fn words(s: Seq<char>) -> Seq<Seq<char>> {
    nonempty_pieces(split_on_ws(s))
}

/// The symbol that a definition keyword introduces on a trimmed line, if any.
pub open spec fn keyword_symbols(t: Seq<char>, lang: Seq<char>, line: nat) -> Seq<SymbolModel> {
    let kws = fn_keywords(lang);
    if exists|k: int| is_first_keyword(t, kws, k) {
        let k = choose|k: int| is_first_keyword(t, kws, k);
        let name = trimmed(before_name_end(t.skip(kws[k].len() as int)));
        if name.len() > 0 {
            seq![SymbolModel { name, kind: kind_of(t), start_line: line, end_line: line, detail: t }]
        } else {
            Seq::empty()
        }
    } else {
        Seq::empty()
    }
}

/// The interface symbol of a Rust `trait` line, if any.
pub open spec fn trait_symbols(t: Seq<char>, lang: Seq<char>, line: nat) -> Seq<SymbolModel> {
    if lang == "rust"@ && ("pub trait "@.is_prefix_of(t) || "trait "@.is_prefix_of(t)) {
        let ws = words(t);
        let idx: int = if "pub trait "@.is_prefix_of(t) { 2 } else { 1 };
        let base = if idx < ws.len() { before_char(ws[idx], '<') } else { "anonymous"@ };
        seq![
            SymbolModel {
                name: trimmed(before_char(base, '{')),
                kind: "interface"@,
                start_line: line,
                end_line: line,
                detail: t,
            },
        ]
    } else {
        Seq::empty()
    }
}

/// Whether a trimmed line is skipped: empty, or a comment (`//`, `#`, `/*`).
pub open spec fn skipped_line(t: Seq<char>) -> bool {
    t.len() == 0 || "//"@.is_prefix_of(t) || "#"@.is_prefix_of(t) || "/*"@.is_prefix_of(t)
}

/// The symbols of one line.
pub open spec fn line_symbols(raw: Seq<char>, lang: Seq<char>, line: nat) -> Seq<SymbolModel> {
    let t = trimmed(raw);
    if skipped_line(t) {
        Seq::empty()
    } else {
        keyword_symbols(t, lang, line) + trait_symbols(t, lang, line)
    }
}

/// The symbols of the lines, in order, lines counted from 1.
pub open spec fn symbols_of(lines: Seq<Seq<char>>, lang: Seq<char>) -> Seq<SymbolModel>
    decreases lines.len(),
{
    if lines.len() == 0 {
        Seq::empty()
    } else {
        symbols_of(lines.drop_last(), lang) + line_symbols(lines.last(), lang, lines.len())
    }
}

/// A line gives at most two symbols; each sits on that line alone and carries the trimmed
/// line, which is not a comment, as detail.
proof fn line_symbols_on_line(raw: Seq<char>, lang: Seq<char>, line: nat)
    ensures
        line_symbols(raw, lang, line).len() <= 2,
        forall|k: int| 0 <= k < line_symbols(raw, lang, line).len() ==> {
            let s = #[trigger] line_symbols(raw, lang, line)[k];
            s.start_line == line && s.end_line == line && s.detail == trimmed(raw) && !skipped_line(s.detail)
        },
{
}

/// Each symbol found in a text sits on one line of it (its first and last line are the same
/// line, counted from 1, at most the number of lines), its detail is that line trimmed and is
/// not empty or a comment, the symbols come in the order of their lines, and no line gives
/// more than two of them.
pub proof fn symbols_lie_on_their_lines(lines: Seq<Seq<char>>, lang: Seq<char>)
    ensures
        forall|i: int| 0 <= i < symbols_of(lines, lang).len() ==> {
            let s = #[trigger] symbols_of(lines, lang)[i];
            &&& 1 <= s.start_line <= lines.len()
            &&& s.end_line == s.start_line
            &&& s.detail == trimmed(lines[s.start_line - 1])
            &&& !skipped_line(s.detail)
        },
        forall|i: int, j: int|
            0 <= i <= j < symbols_of(lines, lang).len() ==> (#[trigger] symbols_of(lines, lang)[i]).start_line
                <= (#[trigger] symbols_of(lines, lang)[j]).start_line,
        forall|i: int|
            0 <= i && i + 2 < symbols_of(lines, lang).len() ==> (#[trigger] symbols_of(lines, lang)[i]).start_line
                < symbols_of(lines, lang)[i + 2].start_line,
    decreases lines.len(),
{
    if lines.len() > 0 {
        let prev = lines.drop_last();
        symbols_lie_on_their_lines(prev, lang);
        line_symbols_on_line(lines.last(), lang, lines.len());
        let a = symbols_of(prev, lang);
        let b = line_symbols(lines.last(), lang, lines.len());
        assert(symbols_of(lines, lang) == a + b);
        assert forall|i: int| 0 <= i < symbols_of(lines, lang).len() implies {
            let s = #[trigger] symbols_of(lines, lang)[i];
            &&& 1 <= s.start_line <= lines.len()
            &&& s.end_line == s.start_line
            &&& s.detail == trimmed(lines[s.start_line - 1])
            &&& !skipped_line(s.detail)
        } by {
            if i < a.len() {
                let s = a[i];
                assert(symbols_of(lines, lang)[i] == s);
                assert(prev[s.start_line - 1] == lines[s.start_line - 1]);
            } else {
                assert(symbols_of(lines, lang)[i] == b[i - a.len()]);
            }
        }
        assert forall|i: int, j: int|
            0 <= i <= j < symbols_of(lines, lang).len() implies (#[trigger] symbols_of(lines, lang)[i]).start_line
                <= (#[trigger] symbols_of(lines, lang)[j]).start_line by {
            if j < a.len() {
                assert(symbols_of(lines, lang)[i] == a[i]);
                assert(symbols_of(lines, lang)[j] == a[j]);
            } else if i < a.len() {
                assert(symbols_of(lines, lang)[i] == a[i]);
                assert(symbols_of(lines, lang)[j] == b[j - a.len()]);
            } else {
                assert(symbols_of(lines, lang)[i] == b[i - a.len()]);
                assert(symbols_of(lines, lang)[j] == b[j - a.len()]);
            }
        }
        assert forall|i: int|
            0 <= i && i + 2 < symbols_of(lines, lang).len() implies (#[trigger] symbols_of(lines, lang)[i]).start_line
                < symbols_of(lines, lang)[i + 2].start_line by {
            if i + 2 < a.len() {
                assert(symbols_of(lines, lang)[i] == a[i]);
                assert(symbols_of(lines, lang)[i + 2] == a[i + 2]);
            } else {
                assert(symbols_of(lines, lang)[i] == a[i]);
                assert(symbols_of(lines, lang)[i + 2] == b[i + 2 - a.len()]);
            }
        }
    }
}

fn starts_with_lit(v: &Vec<char>, lit: &str) -> (r: bool)
    ensures
        r == lit@.is_prefix_of(v@),
{
    let n = lit.unicode_len();
    if v.len() < n {
        return false;
    }
    let mut i: usize = 0;
    while i < n
        invariant
            n == lit@.len(),
            n <= v@.len(),
            i <= n,
            forall|j: int| 0 <= j < i ==> v@[j] == lit@[j],
        decreases n - i,
    {
        if v[i] != lit.get_char(i) {
            return false;
        }
        i = i + 1;
    }
    true
}

fn contains_lit(v: &Vec<char>, lit: &str) -> (r: bool)
    ensures
        r == has_sub(v@, lit@),
{
    let pat = chars_of(lit);
    let n = pat.len();
    if n > v.len() {
        assert(!has_sub(v@, lit@)) by {
            if has_sub(v@, lit@) {
                let i = choose|i: int| 0 <= i && i + lit@.len() <= v@.len() && #[trigger] v@.subrange(i, i + lit@.len()) == lit@;
            }
        }
        return false;
    }
    let mut i: usize = 0;
    let vl = v.len();
    while i <= vl - n
        invariant
            vl == v@.len(),
            n == pat@.len(),
            pat@ == lit@,
            n <= v@.len(),
            i <= v@.len() - n + 1,
            forall|j: int| 0 <= j < i ==> #[trigger] v@.subrange(j, j + n) != lit@,
        decreases vl - i,
    {
        let mut k: usize = 0;
        let mut same = true;
        while k < n
            invariant
                vl == v@.len(),
                n == pat@.len(),
                i + n <= v@.len(),
                k <= n,
                same == (forall|m: int| 0 <= m < k ==> v@[i + m] == pat@[m]),
            decreases n - k,
        {
            if v[i + k] != pat[k] {
                same = false;
            }
            k = k + 1;
        }
        if same {
            assert(v@.subrange(i as int, i + n) =~= lit@);
            return true;
        }
        assert(v@.subrange(i as int, i + n) != lit@) by {
            let m = choose|m: int| 0 <= m < n && v@[i + m] != pat@[m];
            assert(v@.subrange(i as int, i + n)[m] == v@[i + m]);
        }
        i = i + 1;
    }
    assert(!has_sub(v@, lit@)) by {
        if has_sub(v@, lit@) {
            let j = choose|j: int| 0 <= j && j + lit@.len() <= v@.len() && #[trigger] v@.subrange(j, j + lit@.len()) == lit@;
            assert(j < i);
        }
    }
    false
}

fn kind_str(t: &Vec<char>) -> (r: &'static str)
    ensures
        r@ == kind_of(t@),
{
    if contains_lit(t, "class ") || contains_lit(t, "struct ") || contains_lit(t, "enum ") || contains_lit(
        t,
        "interface ",
    ) || contains_lit(t, "trait ") || contains_lit(t, "protocol ") || contains_lit(t, "module ") {
        "class"
    } else if contains_lit(t, "impl ") {
        "impl"
    } else {
        "function"
    }
}

/// The views of literals.
pub open spec fn lit_views(v: Seq<&str>) -> Seq<Seq<char>> {
    v.map_values(|s: &str| s@)
}

fn keywords(lang: &Vec<char>) -> (r: Vec<&'static str>)
    ensures
        lit_views(r@) == fn_keywords(lang@),
{
    let r: Vec<&'static str> = if eq_lit(lang.as_slice(), "rust") {
        vec![
            "fn ",
            "pub fn ",
            "pub(crate) fn ",
            "pub(super) fn ",
            "async fn ",
            "pub async fn ",
            "struct ",
            "pub struct ",
            "pub(crate) struct ",
            "enum ",
            "pub enum ",
            "pub(crate) enum ",
        ]
    } else if eq_lit(lang.as_slice(), "python") {
        vec!["def "]
    } else if eq_lit(lang.as_slice(), "javascript") || eq_lit(lang.as_slice(), "typescript") {
        vec![
            "function ",
            "const ",
            "let ",
            "var ",
            "class ",
            "async function ",
            "export function ",
            "export default function ",
        ]
    } else if eq_lit(lang.as_slice(), "go") {
        vec!["func "]
    } else if eq_lit(lang.as_slice(), "java") || eq_lit(lang.as_slice(), "kotlin") || eq_lit(lang.as_slice(), "csharp") {
        vec!["public ", "private ", "protected ", "static ", "class ", "interface ", "enum ", "void "]
    } else if eq_lit(lang.as_slice(), "c") || eq_lit(lang.as_slice(), "cpp") {
        vec!["void ", "int ", "float ", "double ", "char ", "bool ", "auto ", "class ", "struct ", "enum ", "typedef "]
    } else if eq_lit(lang.as_slice(), "ruby") {
        vec!["def ", "class ", "module "]
    } else if eq_lit(lang.as_slice(), "swift") {
        vec!["func ", "class ", "struct ", "enum ", "protocol "]
    } else {
        vec!["fn ", "function ", "def ", "class ", "struct ", "interface ", "trait ", "impl ", "enum ", "type "]
    };
    assert(lit_views(r@) =~= fn_keywords(lang@));
    r
}

fn first_keyword(t: &Vec<char>, kws: &Vec<&'static str>) -> (r: Option<usize>)
    ensures
        match r {
            Some(k) => is_first_keyword(t@, lit_views(kws@), k as int),
            None => !exists|k: int| is_first_keyword(t@, lit_views(kws@), k),
        },
{
    let ghost kv = lit_views(kws@);
    let mut k: usize = 0;
    while k < kws.len()
        invariant
            kv == lit_views(kws@),
            k <= kws@.len(),
            forall|j: int| 0 <= j < k ==> !(#[trigger] kv[j]).is_prefix_of(t@),
        decreases kws.len() - k,
    {
        if starts_with_lit(t, kws[k]) {
            return Some(k);
        }
        k = k + 1;
    }
    assert(!exists|k: int| is_first_keyword(t@, kv, k)) by {
        if exists|k: int| is_first_keyword(t@, kv, k) {
            let w = choose|w: int| is_first_keyword(t@, kv, w);
            assert(!kv[w].is_prefix_of(t@));
        }
    }
    None
}

fn prefix_until(v: &Vec<char>, start: usize, stop_at_name_end: bool, c: char) -> (r: Vec<char>)
    requires
        start <= v@.len(),
    ensures
        r@ == if stop_at_name_end {
            before_name_end(v@.skip(start as int))
        } else {
            before_char(v@.skip(start as int), c)
        },
{
    let mut r: Vec<char> = Vec::new();
    let mut i: usize = start;
    let ghost target = if stop_at_name_end {
        before_name_end(v@.skip(start as int))
    } else {
        before_char(v@.skip(start as int), c)
    };
    assert(v@.skip(start as int).take(0) =~= Seq::<char>::empty());
    while i < v.len()
        invariant
            start <= i <= v@.len(),
            target == if stop_at_name_end {
                before_name_end(v@.skip(start as int))
            } else {
                before_char(v@.skip(start as int), c)
            },
            r@ == v@.subrange(start as int, i as int),
            target == r@ + if stop_at_name_end {
                before_name_end(v@.skip(i as int))
            } else {
                before_char(v@.skip(i as int), c)
            },
        decreases v.len() - i,
    {
        let ch = v[i];
        let stop = if stop_at_name_end {
            ch == '(' || ch == '<' || ch == ':' || ch == '{' || ch == ' '
        } else {
            ch == c
        };
        assert(v@.skip(i as int)[0] == ch);
        if stop {
            assert(r@ + Seq::<char>::empty() =~= r@);
            return r;
        }
        assert(v@.skip(i as int).drop_first() =~= v@.skip(i + 1));
        r.push(ch);
        assert(v@.subrange(start as int, i + 1) =~= v@.subrange(start as int, i as int).push(ch));
        assert(r@ + (if stop_at_name_end {
            before_name_end(v@.skip(i + 1))
        } else {
            before_char(v@.skip(i + 1), c)
        }) =~= v@.subrange(start as int, i as int) + (seq![ch] + if stop_at_name_end {
            before_name_end(v@.skip(i + 1))
        } else {
            before_char(v@.skip(i + 1), c)
        }));
        i = i + 1;
    }
    assert(v@.skip(i as int) =~= Seq::<char>::empty());
    assert(r@ + Seq::<char>::empty() =~= r@);
    r
}

fn split_ws_chars(v: &Vec<char>) -> (r: Vec<Vec<char>>)
    ensures
        views(r@) == split_on_ws(v@),
{
    let mut done: Vec<Vec<char>> = Vec::new();
    let mut cur: Vec<char> = Vec::new();
    assert(v@.take(0) =~= Seq::<char>::empty());
    assert(views(done@).push(cur@) =~= split_on_ws(v@.take(0)));
    for i in 0..v.len()
        invariant
            views(done@).push(cur@) == split_on_ws(v@.take(i as int)),
    {
        let ghost prev = split_on_ws(v@.take(i as int));
        assert(v@.take(i + 1).drop_last() =~= v@.take(i as int));
        assert(v@.take(i + 1).last() == v@[i as int]);
        if white_space(v[i]) {
            let mut finished: Vec<char> = Vec::new();
            std::mem::swap(&mut finished, &mut cur);
            done.push(finished);
            assert(views(done@).push(cur@) =~= prev.push(Seq::<char>::empty()));
        } else {
            cur.push(v[i]);
            assert(views(done@).push(cur@) =~= prev.update(prev.len() - 1, prev.last().push(v@[i as int])));
        }
    }
    done.push(cur);
    assert(v@.take(v@.len() as int) =~= v@);
    assert(views(done@) =~= split_on_ws(v@));
    done
}

fn line_symbols_exec(raw: &Vec<char>, lang: &Vec<char>, kws: &Vec<&'static str>, line: u32, out: &mut Vec<Symbol>)
    requires
        lit_views(kws@) == fn_keywords(lang@),
    ensures
        symbol_models(final(out)@) == symbol_models(old(out)@) + line_symbols(raw@, lang@, line as nat),
{
    let t = trim_chars(raw);
    if t.len() == 0 || starts_with_lit(&t, "//") || starts_with_lit(&t, "#") || starts_with_lit(&t, "/*") {
        assert(symbol_models(out@) =~= symbol_models(old(out)@) + Seq::<SymbolModel>::empty());
        return;
    }
    let ghost start = symbol_models(out@);
    match first_keyword(&t, kws) {
        Some(k) => {
            proof {
                let kv = lit_views(kws@);
                let w = choose|w: int| is_first_keyword(t@, kv, w);
                assert(w == k as int) by {
                    if w < k {
                        assert(!kv[w].is_prefix_of(t@));
                    } else if w > k {
                        assert(!kv[k as int].is_prefix_of(t@));
                    }
                }
            }
            let kl = kws[k].unicode_len();
            let piece = prefix_until(&t, kl, true, ' ');
            let name = trim_chars(&piece);
            if name.len() > 0 {
                let kind = kind_str(&t);
                out.push(Symbol {
                    name: string_of(name.as_slice()),
                    kind: String::from_str(kind),
                    start_line: line,
                    end_line: line,
                    detail: string_of(t.as_slice()),
                });
                assert(symbol_models(out@) =~= start + keyword_symbols(t@, lang@, line as nat));
            } else {
                assert(symbol_models(out@) =~= start + keyword_symbols(t@, lang@, line as nat));
            }
        },
        None => {
            assert(symbol_models(out@) =~= start + keyword_symbols(t@, lang@, line as nat));
        },
    }
    let ghost mid = symbol_models(out@);
    let is_pub_trait = starts_with_lit(&t, "pub trait ");
    if eq_lit(lang.as_slice(), "rust") && (is_pub_trait || starts_with_lit(&t, "trait ")) {
        let pieces = split_ws_chars(&t);
        let ws = keep_nonempty(pieces);
        let idx: usize = if is_pub_trait { 2 } else { 1 };
        let base: Vec<char> = if idx < ws.len() {
            prefix_until(&ws[idx], 0, false, '<')
        } else {
            chars_of("anonymous")
        };
        proof {
            if idx < ws@.len() {
                assert(ws@[idx as int]@.skip(0) =~= ws@[idx as int]@);
                assert(views(ws@)[idx as int] == ws@[idx as int]@);
            }
        }
        let cut = prefix_until(&base, 0, false, '{');
        assert(base@.skip(0) =~= base@);
        let name = trim_chars(&cut);
        out.push(Symbol {
            name: string_of(name.as_slice()),
            kind: String::from_str("interface"),
            start_line: line,
            end_line: line,
            detail: string_of(t.as_slice()),
        });
        assert(symbol_models(out@) =~= mid + trait_symbols(t@, lang@, line as nat));
    } else {
        assert(symbol_models(out@) =~= mid + trait_symbols(t@, lang@, line as nat));
    }
    assert(symbol_models(out@) =~= symbol_models(old(out)@) + line_symbols(raw@, lang@, line as nat));
}

fn lines_chars(v: &Vec<char>) -> (r: Vec<Vec<char>>)
    ensures
        views(r@) == lines_of(v@),
{
    let pieces = split_chars(v.as_slice(), '\n');
    let ghost p = views(pieces@);
    proof {
        crate::web::query::split_on_nonempty(v@, '\n');
    }
    let n = pieces.len();
    let mut out: Vec<Vec<char>> = Vec::new();
    for i in 0..n - 1
        invariant
            n == pieces@.len(),
            n >= 1,
            p == views(pieces@),
            views(out@) == strip_all(p.take(i as int)),
    {
        let l = &pieces[i];
        let stripped: Vec<char> = if l.len() > 0 && l[l.len() - 1] == '\r' {
            let mut s: Vec<char> = Vec::new();
            for j in 0..l.len() - 1
                invariant
                    l@.len() > 0,
                    s@ == l@.take(j as int),
            {
                s.push(l[j]);
                assert(l@.take(j + 1) =~= l@.take(j as int).push(l@[j as int]));
            }
            assert(s@ =~= l@.drop_last());
            s
        } else {
            l.clone()
        };
        assert(stripped@ == strip_cr(p[i as int]));
        let ghost before = views(out@);
        out.push(stripped);
        assert(views(out@) =~= before.push(stripped@));
        assert(strip_all(p.take(i + 1)) =~= strip_all(p.take(i as int)).push(strip_cr(p[i as int])));
    }
    if pieces[n - 1].len() > 0 {
        out.push(pieces[n - 1].clone());
    }
    assert(views(out@) =~= lines_of(v@));
    out
}

/// The symbols defined in source code, found line by line: after trimming, empty lines and
/// comment lines are skipped; a line starting with one of the language's definition keywords
/// gives a symbol named by what follows the keyword, up to `(`, `<`, `:`, `{` or a space;
/// in Rust a `trait` line gives an interface symbol.
pub fn extract_symbols_heuristic(content: &str, language: &str) -> (r: Vec<Symbol>)
    requires
        lines_of(content@).len() <= u32::MAX,
    ensures
        symbol_models(r@) == symbols_of(lines_of(content@), language@),
{
    let c = chars_of(content);
    let lang = chars_of(language);
    let kws = keywords(&lang);
    let lines = lines_chars(&c);
    let ghost ls = views(lines@);
    let mut out: Vec<Symbol> = Vec::new();
    assert(ls.take(0) =~= Seq::<Seq<char>>::empty());
    for i in 0..lines.len()
        invariant
            ls == views(lines@),
            ls == lines_of(content@),
            lines@.len() <= u32::MAX,
            lit_views(kws@) == fn_keywords(lang@),
            lang@ == language@,
            symbol_models(out@) == symbols_of(ls.take(i as int), language@),
    {
        let line_no: u32 = (i + 1) as u32;
        let ghost before = out@;
        line_symbols_exec(&lines[i], &lang, &kws, line_no, &mut out);
        proof {
            assert(ls.take(i + 1).drop_last() =~= ls.take(i as int));
            assert(ls.take(i + 1).last() == lines@[i as int]@);
            assert(ls.take(i + 1).len() == i + 1);
        }
    }
    assert(ls.take(ls.len() as int) =~= ls);
    out
}

/// A parsed source file: its language, symbols and number of lines.
#[derive(Debug, Clone)]
pub struct ParsedSource {
    pub language: String,
    pub symbols: Vec<Symbol>,
    pub total_lines: usize,
}

/// Parse a source file's text: its language by file name, its symbols and its line count.
pub fn parse_source(filename: &str, content: &str) -> (r: ParsedSource)
    requires
        lines_of(content@).len() <= u32::MAX,
    ensures
        r.language@ == language_of_extension(after_last_dot(filename@)),
        symbol_models(r.symbols@) == symbols_of(lines_of(content@), r.language@),
        r.total_lines == lines_of(content@).len(),
{
    let language = detect_language(filename);
    let c = chars_of(content);
    let total_lines = lines_chars(&c).len();
    let symbols = extract_symbols_heuristic(content, language);
    ParsedSource { language: String::from_str(language), symbols, total_lines }
}

} // verus!
