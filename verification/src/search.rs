//! The full-text index's own logic: which fields a document carries, what a hit shows
//! (its snippet and which field the query matched) and the completions offered for a
//! prefix from the index's term dictionary. The index engine itself stays outside.
use vstd::prelude::*;

use crate::clock::{parse_rfc3339_micros, rfc3339_micros};
use crate::text::{chars_of, contains_text, has_infix, lowercase, string_of, to_lowercase};
use crate::web::routes::{is_white_space, white_space};

verus! {

/// How many non-white-space characters `s` starts with.
pub open spec fn run_len(s: Seq<char>) -> nat
    decreases s.len(),
{
    if s.len() > 0 && !is_white_space(s[0]) {
        1 + run_len(s.drop_first())
    } else {
        0
    }
}

/// A leading run is no longer than the text.
pub proof fn lemma_run_len_bounded(s: Seq<char>)
    ensures
        run_len(s) <= s.len(),
    decreases s.len(),
{
    if s.len() > 0 && !is_white_space(s[0]) {
        lemma_run_len_bounded(s.drop_first());
    }
}

/// The white-space separated words of `s`, in order (what `str::split_whitespace`
/// yields).
pub open spec fn words(s: Seq<char>) -> Seq<Seq<char>>
    decreases s.len(),
{
    if s.len() == 0 {
        Seq::empty()
    } else if is_white_space(s[0]) {
        words(s.drop_first())
    } else {
        proof {
            lemma_run_len_bounded(s);
        }
        seq![s.take(run_len(s) as int)] + words(s.skip(run_len(s) as int))
    }
}

/// The views of a list of character vectors.
pub open spec fn char_views(v: Seq<Vec<char>>) -> Seq<Seq<char>> {
    v.map_values(|w: Vec<char>| w@)
}

/// The views of a list of strings.
pub open spec fn string_views(v: Seq<String>) -> Seq<Seq<char>> {
    v.map_values(|w: String| w@)
}

/// Splits the characters into their white-space separated words.
pub fn split_words(v: &Vec<char>) -> (r: Vec<Vec<char>>)
    ensures
        char_views(r@) == words(v@),
{
    let n = v.len();
    let mut out: Vec<Vec<char>> = Vec::new();
    let mut i: usize = 0;
    assert(v@.skip(0) =~= v@);
    while i < n
        invariant
            n == v@.len(),
            i <= n,
            words(v@) == char_views(out@) + words(v@.skip(i as int)),
        decreases n - i,
    {
        let ghost s = v@.skip(i as int);
        if white_space(v[i]) {
            assert(s.drop_first() =~= v@.skip(i + 1));
            i = i + 1;
        } else {
            let mut j: usize = i;
            let mut word: Vec<char> = Vec::new();
            while j < n && !white_space(v[j])
                invariant
                    n == v@.len(),
                    i <= j <= n,
                    word@ == v@.subrange(i as int, j as int),
                    run_len(s) == (j - i) + run_len(v@.skip(j as int)),
                decreases n - j,
            {
                assert(v@.skip(j as int).drop_first() =~= v@.skip(j + 1));
                word.push(v[j]);
                assert(word@ =~= v@.subrange(i as int, j + 1));
                j = j + 1;
            }
            assert(run_len(v@.skip(j as int)) == 0);
            assert(s.take((j - i) as int) =~= word@);
            assert(s.skip((j - i) as int) =~= v@.skip(j as int));
            let ghost before = char_views(out@);
            out.push(word);
            assert(char_views(out@) =~= before.push(word@));
            assert(words(v@) =~= char_views(out@) + words(v@.skip(j as int)));
            i = j;
        }
    }
    assert(v@.skip(n as int) =~= Seq::<char>::empty());
    assert(char_views(out@) + Seq::<Seq<char>>::empty() =~= char_views(out@));
    out
}

/// Whether some term of `terms`, lower-cased, occurs in the lower-cased `text`.
pub open spec fn some_term_in(terms: Seq<Seq<char>>, text: Seq<char>) -> bool {
    exists|i: int| 0 <= i < terms.len() && has_infix(lowercase(text), #[trigger] lowercase(terms[i]))
}

/// Which field a hit matched: `filename` when a word of the query occurs in the file
/// name, else `tag` when one occurs in the (first) tag, else `content`; letter case
/// is ignored.
pub open spec fn match_kind(query: Seq<char>, file_name: Option<Seq<char>>, tag: Option<Seq<char>>) -> Seq<char> {
    if file_name matches Some(n) && some_term_in(words(query), n) {
        "filename"@
    } else if tag matches Some(t) && some_term_in(words(query), t) {
        "tag"@
    } else {
        "content"@
    }
}

proof fn match_names_differ()
    ensures
        "filename"@ != "tag"@,
        "filename"@ != "content"@,
        "tag"@ != "content"@,
{
    reveal_strlit("filename");
    reveal_strlit("tag");
    reveal_strlit("content");
    assert("filename"@.len() == 8 && "tag"@.len() == 3 && "content"@.len() == 7);
}

/// Which field a hit is reported as matching: the file name wins whenever some word of the
/// query occurs in it (letter case ignored), whatever the tag holds; else the tag, when a
/// word occurs there; else the content. And `filename` (or `tag`) is reported only when a
/// word of the query really occurs in that field.
pub proof fn file_name_match_comes_first(query: Seq<char>, file_name: Option<Seq<char>>, tag: Option<Seq<char>>)
    ensures
        (file_name matches Some(n) && exists|i: int|
            0 <= i < words(query).len() && has_infix(lowercase(n), #[trigger] lowercase(words(query)[i])))
            ==> match_kind(query, file_name, tag) == "filename"@,
        !(file_name matches Some(n) && exists|i: int|
            0 <= i < words(query).len() && has_infix(lowercase(n), #[trigger] lowercase(words(query)[i])))
            && (tag matches Some(t) && exists|i: int|
            0 <= i < words(query).len() && has_infix(lowercase(t), #[trigger] lowercase(words(query)[i])))
            ==> match_kind(query, file_name, tag) == "tag"@,
        match_kind(query, file_name, tag) == "filename"@ ==> (file_name matches Some(n) && exists|i: int|
            0 <= i < words(query).len() && has_infix(lowercase(n), #[trigger] lowercase(words(query)[i]))),
        match_kind(query, file_name, tag) == "tag"@ ==> (tag matches Some(t) && exists|i: int|
            0 <= i < words(query).len() && has_infix(lowercase(t), #[trigger] lowercase(words(query)[i]))),
        match_kind(query, file_name, tag) == "filename"@ || match_kind(query, file_name, tag) == "tag"@
            || match_kind(query, file_name, tag) == "content"@,
{
    match_names_differ();
}

/// Whether a word of the (split) query occurs in `text`, letter case ignored.
fn any_term_in(terms: &Vec<Vec<char>>, text: &str) -> (r: bool)
    ensures
        r == some_term_in(char_views(terms@), text@),
{
    let lowered = to_lowercase(text);
    let mut i: usize = 0;
    while i < terms.len()
        invariant
            lowered@ == lowercase(text@),
            i <= terms@.len(),
            forall|k: int| 0 <= k < i ==> !has_infix(lowercase(text@), #[trigger] lowercase(char_views(terms@)[k])),
        decreases terms.len() - i,
    {
        let t = string_of(terms[i].as_slice());
        let lt = to_lowercase(t.as_str());
        assert(char_views(terms@)[i as int] == terms@[i as int]@);
        if contains_text(lowered.as_str(), lt.as_str()) {
            return true;
        }
        i = i + 1;
    }
    false
}

/// The field that made a document a hit for the query.
pub fn match_type(query: &str, file_name: Option<&str>, tag: Option<&str>) -> (r: String)
    ensures
        r@ == match_kind(
            query@,
            match file_name {
                Some(n) => Some(n@),
                None => None,
            },
            match tag {
                Some(t) => Some(t@),
                None => None,
            },
        ),
{
    let q = chars_of(query);
    let terms = split_words(&q);
    if let Some(n) = file_name {
        if any_term_in(&terms, n) {
            return String::from_str("filename");
        }
    }
    if let Some(t) = tag {
        if any_term_in(&terms, t) {
            return String::from_str("tag");
        }
    }
    String::from_str("content")
}

/// How many characters of a document's content a hit shows.
pub const SNIPPET_CHARS: usize = 200;

/// The first 200 characters of the content (all of it when shorter).
pub open spec fn snippet_of(content: Seq<char>) -> Seq<char> {
    if content.len() <= SNIPPET_CHARS {
        content
    } else {
        content.take(SNIPPET_CHARS as int)
    }
}

/// The snippet a hit shows of a document's content.
pub fn snippet(content: &str) -> (r: String)
    ensures
        r@ == snippet_of(content@),
{
    let c = chars_of(content);
    if c.len() <= SNIPPET_CHARS {
        return string_of(c.as_slice());
    }
    let mut head: Vec<char> = Vec::new();
    let mut i: usize = 0;
    while i < SNIPPET_CHARS
        invariant
            c@ == content@,
            c@.len() > SNIPPET_CHARS,
            i <= SNIPPET_CHARS,
            head@ == c@.take(i as int),
        decreases SNIPPET_CHARS - i,
    {
        head.push(c[i]);
        assert(head@ =~= c@.take(i + 1));
        i = i + 1;
    }
    string_of(head.as_slice())
}

/// What a search hit shows, besides its score.
pub struct SearchHit {
    pub file_id: String,
    pub file_name: String,
    pub snippet: String,
    pub match_type: String,
}

/// The hit for a document the index found: none when the document lacks its id or
/// name; a missing content gives an empty snippet.
pub fn search_hit(
    query: &str,
    file_id: Option<&str>,
    file_name: Option<&str>,
    content: Option<&str>,
    first_tag: Option<&str>,
) -> (r: Option<SearchHit>)
    ensures
        r is Some <==> (file_id is Some && file_name is Some),
        r matches Some(h) ==> {
            &&& h.file_id@ == file_id.unwrap()@
            &&& h.file_name@ == file_name.unwrap()@
            &&& h.snippet@ == snippet_of(
                match content {
                    Some(c) => c@,
                    None => Seq::empty(),
                },
            )
            &&& h.match_type@ == match_kind(
                query@,
                Some(file_name.unwrap()@),
                match first_tag {
                    Some(t) => Some(t@),
                    None => None,
                },
            )
        },
{
    let id = match file_id {
        Some(i) => i,
        None => return None,
    };
    let name = match file_name {
        Some(n) => n,
        None => return None,
    };
    let text = match content {
        Some(c) => c,
        None => "",
    };
    proof {
        reveal_strlit("");
    }
    Some(
        SearchHit {
            file_id: String::from_str(id),
            file_name: String::from_str(name),
            snippet: snippet(text),
            match_type: match_type(query, Some(name), first_tag),
        },
    )
}

/// The leading terms that start with `prefix`: a scan of the sorted term dictionary
/// from the prefix stops at the first term that does not.
pub open spec fn prefix_run(terms: Seq<Seq<char>>, prefix: Seq<char>) -> Seq<Seq<char>>
    decreases terms.len(),
{
    if terms.len() > 0 && prefix.is_prefix_of(terms[0]) {
        seq![terms[0]] + prefix_run(terms.drop_first(), prefix)
    } else {
        Seq::empty()
    }
}

/// The lower-cased words of the terms, in order.
pub open spec fn lowered_words(terms: Seq<Seq<char>>) -> Seq<Seq<char>>
    decreases terms.len(),
{
    if terms.len() == 0 {
        Seq::empty()
    } else {
        words(terms[0]).map_values(|w: Seq<char>| lowercase(w)) + lowered_words(terms.drop_first())
    }
}

/// Whether a word is offered as a completion of `prefix` next to those already held:
/// it extends the prefix and is new. (Among words that start with the prefix, being
/// longer in characters is being longer in UTF-8 bytes.)
pub open spec fn offers(prefix: Seq<char>, held: Seq<Seq<char>>, w: Seq<char>) -> bool {
    prefix.is_prefix_of(w) && !held.contains(w) && w.len() > prefix.len()
}

/// The completions collected from the candidate words onto those held, stopping as
/// soon as `limit` are held (the check comes after each addition, so at least one
/// is collected when any is offered).
pub open spec fn collect_completions(held: Seq<Seq<char>>, cands: Seq<Seq<char>>, prefix: Seq<char>, limit: nat) -> Seq<Seq<char>>
    decreases cands.len(),
{
    if cands.len() == 0 {
        held
    } else if offers(prefix, held, cands[0]) {
        if held.len() + 1 >= limit {
            held.push(cands[0])
        } else {
            collect_completions(held.push(cands[0]), cands.drop_first(), prefix, limit)
        }
    } else {
        collect_completions(held, cands.drop_first(), prefix, limit)
    }
}

/// The completions offered for a prefix: the new lower-cased words that extend it,
/// first from the file-name terms, then from the content terms, at most `limit` (at
/// least one when any is offered).
pub open spec fn completions_of(prefix: Seq<char>, limit: nat, name_terms: Seq<Seq<char>>, content_terms: Seq<Seq<char>>) -> Seq<Seq<char>> {
    collect_completions(
        Seq::empty(),
        lowered_words(prefix_run(name_terms, prefix)) + lowered_words(prefix_run(content_terms, prefix)),
        prefix,
        limit,
    )
}

/// Whether the held completions are distinct, each extends the prefix, and there are at
/// most `max(limit, 1)` of them.
pub open spec fn well_collected(held: Seq<Seq<char>>, prefix: Seq<char>, limit: nat) -> bool {
    &&& forall|i: int, j: int| 0 <= i < j < held.len() ==> held[i] != held[j]
    &&& forall|i: int| 0 <= i < held.len() ==> #[trigger] prefix.is_prefix_of(held[i]) && held[i].len() > prefix.len()
    &&& (held.len() <= limit || held.len() <= 1)
}

proof fn lemma_collect_keeps(held: Seq<Seq<char>>, cands: Seq<Seq<char>>, prefix: Seq<char>, limit: nat)
    requires
        well_collected(held, prefix, limit),
        held.len() < limit || held.len() == 0,
    ensures
        well_collected(collect_completions(held, cands, prefix, limit), prefix, limit),
    decreases cands.len(),
{
    if cands.len() > 0 {
        if offers(prefix, held, cands[0]) {
            let next = held.push(cands[0]);
            assert forall|i: int, j: int| 0 <= i < j < next.len() implies next[i] != next[j] by {
                if j == held.len() {
                    assert(held.contains(held[i]));
                }
            }
            assert(well_collected(next, prefix, limit));
            if held.len() + 1 < limit {
                lemma_collect_keeps(next, cands.drop_first(), prefix, limit);
            }
        } else {
            lemma_collect_keeps(held, cands.drop_first(), prefix, limit);
        }
    }
}

/// The completions offered for a prefix are distinct, each extends the prefix by at
/// least one character, and there are no more than the limit (one when the limit is 0).
pub proof fn completions_are_distinct_extensions(
    prefix: Seq<char>,
    limit: nat,
    name_terms: Seq<Seq<char>>,
    content_terms: Seq<Seq<char>>,
)
    ensures
        well_collected(completions_of(prefix, limit, name_terms, content_terms), prefix, limit),
{
    lemma_collect_keeps(
        Seq::empty(),
        lowered_words(prefix_run(name_terms, prefix)) + lowered_words(prefix_run(content_terms, prefix)),
        prefix,
        limit,
    );
}

fn same_chars(a: &Vec<char>, b: &Vec<char>) -> (r: bool)
    ensures
        r == (a@ == b@),
{
    if a.len() != b.len() {
        return false;
    }
    let mut i: usize = 0;
    while i < a.len()
        invariant
            a@.len() == b@.len(),
            i <= a@.len(),
            forall|j: int| 0 <= j < i ==> a@[j] == b@[j],
        decreases a.len() - i,
    {
        if a[i] != b[i] {
            return false;
        }
        i = i + 1;
    }
    assert(a@ =~= b@);
    true
}

fn starts_with_chars(v: &Vec<char>, p: &Vec<char>) -> (r: bool)
    ensures
        r == p@.is_prefix_of(v@),
{
    if p.len() > v.len() {
        return false;
    }
    let mut i: usize = 0;
    while i < p.len()
        invariant
            p@.len() <= v@.len(),
            i <= p@.len(),
            forall|j: int| 0 <= j < i ==> p@[j] == v@[j],
        decreases p.len() - i,
    {
        if p[i] != v[i] {
            assert(v@.subrange(0, p@.len() as int)[i as int] != p@[i as int]);
            return false;
        }
        i = i + 1;
    }
    assert(p@ =~= v@.subrange(0, p@.len() as int));
    true
}

fn holds(held: &Vec<Vec<char>>, w: &Vec<char>) -> (r: bool)
    ensures
        r == char_views(held@).contains(w@),
{
    let mut i: usize = 0;
    while i < held.len()
        invariant
            i <= held@.len(),
            forall|j: int| 0 <= j < i ==> char_views(held@)[j] != w@,
        decreases held.len() - i,
    {
        if same_chars(&held[i], w) {
            assert(char_views(held@)[i as int] == w@);
            return true;
        }
        i = i + 1;
    }
    false
}

proof fn lemma_prefix_run_step(terms: Seq<Seq<char>>, prefix: Seq<char>, i: int)
    requires
        0 <= i < terms.len(),
    ensures
        prefix.is_prefix_of(terms[i]) ==> prefix_run(terms.skip(i), prefix) == seq![terms[i]] + prefix_run(terms.skip(i + 1), prefix),
        !prefix.is_prefix_of(terms[i]) ==> prefix_run(terms.skip(i), prefix) == Seq::<Seq<char>>::empty(),
{
    assert(terms.skip(i).drop_first() =~= terms.skip(i + 1));
    assert(terms.skip(i)[0] == terms[i]);
}

proof fn lemma_lowered_words_cons(t: Seq<char>, rest: Seq<Seq<char>>)
    ensures
        lowered_words(seq![t] + rest) == words(t).map_values(|w: Seq<char>| lowercase(w)) + lowered_words(rest),
{
    let all = seq![t] + rest;
    assert(all[0] == t);
    assert(all.drop_first() =~= rest);
}

/// The lower-cased words of the leading terms that start with the prefix.
fn candidate_words(prefix: &Vec<char>, terms: &[String]) -> (r: Vec<Vec<char>>)
    ensures
        char_views(r@) == lowered_words(prefix_run(string_views(terms@), prefix@)),
{
    let ghost tv = string_views(terms@);
    let mut out: Vec<Vec<char>> = Vec::new();
    let mut i: usize = 0;
    assert(tv.skip(0) =~= tv);
    while i < terms.len()
        invariant
            tv == string_views(terms@),
            i <= terms@.len(),
            lowered_words(prefix_run(tv, prefix@)) == char_views(out@) + lowered_words(prefix_run(tv.skip(i as int), prefix@)),
        decreases terms.len() - i,
    {
        let t = chars_of(terms[i].as_str());
        assert(tv[i as int] == t@);
        proof {
            lemma_prefix_run_step(tv, prefix@, i as int);
        }
        if !starts_with_chars(&t, prefix) {
            assert(char_views(out@) + Seq::<Seq<char>>::empty() =~= char_views(out@));
            return out;
        }
        let ws = split_words(&t);
        let ghost lw = words(t@).map_values(|w: Seq<char>| lowercase(w));
        let ghost before = char_views(out@);
        let mut k: usize = 0;
        while k < ws.len()
            invariant
                char_views(ws@) == words(t@),
                lw == words(t@).map_values(|w: Seq<char>| lowercase(w)),
                k <= ws@.len(),
                char_views(out@) == before + lw.take(k as int),
            decreases ws.len() - k,
        {
            let word = string_of(ws[k].as_slice());
            let lower = to_lowercase(word.as_str());
            let lc = chars_of(lower.as_str());
            assert(char_views(ws@)[k as int] == ws@[k as int]@);
            let ghost prev = char_views(out@);
            out.push(lc);
            assert(char_views(out@) =~= prev.push(lc@));
            assert(lw.take(k + 1) =~= lw.take(k as int).push(lw[k as int]));
            assert(char_views(out@) =~= before + lw.take(k + 1));
            k = k + 1;
        }
        proof {
            assert(lw.take(ws@.len() as int) =~= lw);
            lemma_lowered_words_cons(t@, prefix_run(tv.skip(i + 1), prefix@));
            assert(before + (lw + lowered_words(prefix_run(tv.skip(i + 1), prefix@))) =~= char_views(out@)
                + lowered_words(prefix_run(tv.skip(i + 1), prefix@)));
        }
        i = i + 1;
    }
    assert(tv.skip(i as int) =~= Seq::<Seq<char>>::empty());
    assert(char_views(out@) + Seq::<Seq<char>>::empty() =~= char_views(out@));
    out
}

/// The completions offered for a prefix from the index's terms: the file-name field's
/// terms and the content field's terms, each in dictionary order from the prefix.
pub fn suggest_completions(prefix: &str, limit: usize, name_terms: &[String], content_terms: &[String]) -> (r: Vec<String>)
    ensures
        string_views(r@) == completions_of(prefix@, limit as nat, string_views(name_terms@), string_views(content_terms@)),
{
    let p = chars_of(prefix);
    let mut cands = candidate_words(&p, name_terms);
    let mut more = candidate_words(&p, content_terms);
    let ghost first = char_views(cands@);
    let ghost second = char_views(more@);
    cands.append(&mut more);
    let ghost all = char_views(cands@);
    assert(all =~= first + second);
    let mut held: Vec<Vec<char>> = Vec::new();
    let mut out: Vec<String> = Vec::new();
    let mut i: usize = 0;
    assert(all.skip(0) =~= all);
    assert(char_views(held@) =~= Seq::<Seq<char>>::empty());
    assert(string_views(out@) =~= Seq::<Seq<char>>::empty());
    while i < cands.len()
        invariant
            all == char_views(cands@),
            p@ == prefix@,
            i <= cands@.len(),
            string_views(out@) == char_views(held@),
            completions_of(prefix@, limit as nat, string_views(name_terms@), string_views(content_terms@))
                == collect_completions(char_views(held@), all.skip(i as int), prefix@, limit as nat),
        decreases cands.len() - i,
    {
        let ghost rest = all.skip(i as int);
        assert(rest[0] == cands@[i as int]@);
        assert(rest.drop_first() =~= all.skip(i + 1));
        let w = &cands[i];
        if starts_with_chars(w, &p) && !holds(&held, w) && w.len() > p.len() {
            let ghost hv = char_views(held@);
            let ghost ov = string_views(out@);
            let s = string_of(w.as_slice());
            held.push(w.clone());
            out.push(s);
            assert(char_views(held@) =~= hv.push(w@));
            assert(string_views(out@) =~= ov.push(w@));
            if held.len() >= limit {
                return out;
            }
        }
        i = i + 1;
    }
    assert(all.skip(i as int) =~= Seq::<Seq<char>>::empty());
    out
}

/// What is indexed for one file.
pub struct DocumentParams<'a> {
    pub file_id: &'a str,
    pub file_name: &'a str,
    pub content_text: &'a str,
    pub tags: &'a [String],
    pub file_type: &'a str,
    pub is_encrypted: bool,
    pub has_geo: bool,
    pub created_at: &'a str,
    pub blake3_hash: Option<&'a str>,
}

/// The fields of one index document: the content only when there is some, the
/// timestamp only when the creation time parses, the hash only when known.
pub struct SearchDocument {
    pub file_id: String,
    pub file_name: String,
    pub content_text: Option<String>,
    pub tags: Vec<String>,
    pub file_type: String,
    pub is_encrypted: bool,
    pub has_geo: bool,
    pub timestamp_micros: Option<i64>,
    pub blake3_hash: Option<String>,
}

fn copy_strings(v: &[String]) -> (r: Vec<String>)
    ensures
        string_views(r@) == string_views(v@),
{
    let mut out: Vec<String> = Vec::new();
    let mut i: usize = 0;
    while i < v.len()
        invariant
            i <= v@.len(),
            string_views(out@) == string_views(v@).take(i as int),
        decreases v.len() - i,
    {
        let ghost prev = string_views(out@);
        out.push(String::from_str(v[i].as_str()));
        assert(string_views(out@) =~= prev.push(v@[i as int]@));
        assert(string_views(v@).take(i + 1) =~= string_views(v@).take(i as int).push(v@[i as int]@));
        i = i + 1;
    }
    assert(string_views(v@).take(v@.len() as int) =~= string_views(v@));
    out
}

/// The document that indexes a file.
pub fn build_document(params: &DocumentParams) -> (d: SearchDocument)
    ensures
        d.file_id@ == params.file_id@,
        d.file_name@ == params.file_name@,
        params.content_text@.len() == 0 ==> d.content_text is None,
        params.content_text@.len() > 0 ==> (d.content_text matches Some(c) && c@ == params.content_text@),
        string_views(d.tags@) == string_views(params.tags@),
        d.file_type@ == params.file_type@,
        d.is_encrypted == params.is_encrypted,
        d.has_geo == params.has_geo,
        d.timestamp_micros is None <==> rfc3339_micros(params.created_at@) is None,
        d.timestamp_micros matches Some(m) ==> rfc3339_micros(params.created_at@) == Some(m as int),
        params.blake3_hash is None ==> d.blake3_hash is None,
        params.blake3_hash matches Some(h) ==> (d.blake3_hash matches Some(x) && x@ == h@),
{
    let content_text = if params.content_text.unicode_len() == 0 {
        None
    } else {
        Some(String::from_str(params.content_text))
    };
    let blake3_hash = match params.blake3_hash {
        Some(h) => Some(String::from_str(h)),
        None => None,
    };
    SearchDocument {
        file_id: String::from_str(params.file_id),
        file_name: String::from_str(params.file_name),
        content_text,
        tags: copy_strings(params.tags),
        file_type: String::from_str(params.file_type),
        is_encrypted: params.is_encrypted,
        has_geo: params.has_geo,
        timestamp_micros: parse_rfc3339_micros(params.created_at),
        blake3_hash,
    }
}

} // verus!
