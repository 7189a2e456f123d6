//! Query strings: splitting into `key=value` pairs and decoding the values.
use vstd::prelude::*;

use crate::text::{chars_of, string_of};

verus! {

/// `i` is the position of the first `c` in `s`.
pub open spec fn is_first(s: Seq<char>, c: char, i: int) -> bool {
    0 <= i < s.len() && s[i] == c && forall|j: int| 0 <= j < i ==> s[j] != c
}

/// The position of the first `c` in `s`.
pub open spec fn first_index(s: Seq<char>, c: char) -> Option<int> {
    if exists|i: int| is_first(s, c, i) {
        Some(choose|i: int| is_first(s, c, i))
    } else {
        None
    }
}

/// The position of the first `c` in `v`.
pub fn find_char(v: &[char], c: char) -> (r: Option<usize>)
    ensures
        match r {
            Some(i) => i < v@.len() && first_index(v@, c) == Some(i as int),
            None => first_index(v@, c) is None,
        },
{
    let mut i: usize = 0;
    while i < v.len()
        invariant
            i <= v@.len(),
            forall|j: int| 0 <= j < i ==> v@[j] != c,
        decreases v.len() - i,
    {
        if v[i] == c {
            proof {
                assert(is_first(v@, c, i as int));
                let k = choose|k: int| is_first(v@, c, k);
                assert(k == i as int) by {
                    if k < i {
                    } else if k > i {
                        assert(v@[i as int] != c);
                    }
                }
            }
            return Some(i);
        }
        i = i + 1;
    }
    None
}

/// The pieces of `s` between occurrences of `c` (one empty piece for an empty `s`), as
/// `str::split` gives them.
pub open spec fn split_on(s: Seq<char>, c: char) -> Seq<Seq<char>>
    decreases s.len(),
{
    if s.len() == 0 {
        seq![Seq::<char>::empty()]
    } else {
        let prev = split_on(s.drop_last(), c);
        if s.last() == c {
            prev.push(Seq::<char>::empty())
        } else {
            prev.update(prev.len() - 1, prev.last().push(s.last()))
        }
    }
}

/// Splitting always gives at least one piece.
pub proof fn split_on_nonempty(s: Seq<char>, c: char)
    ensures
        split_on(s, c).len() >= 1,
    decreases s.len(),
{
    if s.len() > 0 {
        split_on_nonempty(s.drop_last(), c);
    }
}

/// The views of a vector of character vectors.
pub open spec fn views(v: Seq<Vec<char>>) -> Seq<Seq<char>> {
    v.map_values(|p: Vec<char>| p@)
}

/// The pieces of `v` between occurrences of `c`.
pub fn split_chars(v: &[char], c: char) -> (r: Vec<Vec<char>>)
    ensures
        views(r@) == split_on(v@, c),
{
    let mut done: Vec<Vec<char>> = Vec::new();
    let mut cur: Vec<char> = Vec::new();
    assert(v@.take(0) =~= Seq::<char>::empty());
    assert(views(done@).push(cur@) =~= split_on(v@.take(0), c));
    for i in 0..v.len()
        invariant
            views(done@).push(cur@) == split_on(v@.take(i as int), c),
    {
        let ghost prev = split_on(v@.take(i as int), c);
        proof {
            assert(v@.take(i + 1).drop_last() =~= v@.take(i as int));
            assert(v@.take(i + 1).last() == v@[i as int]);
        }
        if v[i] == c {
            let mut finished: Vec<char> = Vec::new();
            std::mem::swap(&mut finished, &mut cur);
            done.push(finished);
            assert(views(done@).push(cur@) =~= prev.push(Seq::<char>::empty()));
        } else {
            cur.push(v[i]);
            assert(views(done@).push(cur@) =~= prev.update(prev.len() - 1, prev.last().push(v@[i as int])));
        }
    }
    done.push(cur);
    assert(v@.take(v@.len() as int) =~= v@);
    assert(views(done@) =~= split_on(v@, c));
    done
}

/// `text` with every non-overlapping occurrence of `pat`, from the left, replaced by `rep`.
pub open spec fn replace_all(text: Seq<char>, pat: Seq<char>, rep: Seq<char>) -> Seq<char>
    recommends
        pat.len() > 0,
    decreases text.len(),
{
    if pat.len() == 0 || text.len() < pat.len() {
        text
    } else if text.take(pat.len() as int) == pat {
        rep + replace_all(text.skip(pat.len() as int), pat, rep)
    } else {
        seq![text[0]] + replace_all(text.drop_first(), pat, rep)
    }
}

fn starts_at(v: &Vec<char>, i: usize, pat: &Vec<char>) -> (r: bool)
    requires
        i <= v@.len(),
    ensures
        r == (v@.len() - i >= pat@.len() && v@.skip(i as int).take(pat@.len() as int) == pat@),
{
    if v.len() - i < pat.len() {
        return false;
    }
    let mut k: usize = 0;
    let vl = v.len();
    while k < pat.len()
        invariant
            vl == v@.len(),
            i + pat@.len() <= v@.len(),
            k <= pat@.len(),
            forall|j: int| 0 <= j < k ==> v@[i + j] == pat@[j],
        decreases pat.len() - k,
    {
        if v[i + k] != pat[k] {
            assert(v@.skip(i as int).take(pat@.len() as int)[k as int] != pat@[k as int]);
            return false;
        }
        k = k + 1;
    }
    assert(v@.skip(i as int).take(pat@.len() as int) =~= pat@);
    true
}

/// `v` with every occurrence of `pat` replaced by `rep`, scanning from the left.
pub fn replace_chars(v: &Vec<char>, pat: &Vec<char>, rep: &Vec<char>) -> (r: Vec<char>)
    requires
        pat@.len() > 0,
    ensures
        r@ == replace_all(v@, pat@, rep@),
{
    let mut out: Vec<char> = Vec::new();
    let mut i: usize = 0;
    assert(v@.skip(0) =~= v@);
    while i < v.len()
        invariant
            pat@.len() > 0,
            i <= v@.len(),
            out@ + replace_all(v@.skip(i as int), pat@, rep@) == replace_all(v@, pat@, rep@),
        decreases v.len() - i,
    {
        let ghost rest = v@.skip(i as int);
        if starts_at(v, i, pat) {
            let ghost old_out = out@;
            for k in 0..rep.len()
                invariant
                    out@ == old_out + rep@.take(k as int),
            {
                out.push(rep[k]);
                assert(rep@.take(k + 1) =~= rep@.take(k as int).push(rep@[k as int]));
            }
            assert(rep@.take(rep@.len() as int) =~= rep@);
            assert(rest.skip(pat@.len() as int) =~= v@.skip(i + pat@.len()));
            assert(old_out + replace_all(rest, pat@, rep@) =~= out@ + replace_all(v@.skip(i + pat@.len()), pat@, rep@));
            i = i + pat.len();
        } else {
            let ghost old_out = out@;
            out.push(v[i]);
            proof {
                if rest.len() >= pat@.len() {
                    assert(rest.take(pat@.len() as int) != pat@);
                } else {
                    assert(rest.drop_first().len() < pat@.len());
                    assert(replace_all(rest.drop_first(), pat@, rep@) == rest.drop_first());
                }
                assert(rest[0] == v@[i as int]);
                assert(rest.drop_first() =~= v@.skip(i + 1));
                assert(old_out + replace_all(rest, pat@, rep@) =~= out@ + replace_all(v@.skip(i + 1), pat@, rep@));
            }
            i = i + 1;
        }
    }
    assert(v@.skip(i as int) =~= Seq::<char>::empty());
    assert(out@ + Seq::<char>::empty() =~= out@);
    out
}

/// Whether piece `p` is a `key=value` pair with the given key.
pub open spec fn piece_has_key(p: Seq<char>, key: Seq<char>) -> bool {
    first_index(p, '=') matches Some(k) && p.take(k) == key
}

/// The value of a `key=value` piece: everything after its first `=`.
pub open spec fn piece_value(p: Seq<char>) -> Seq<char> {
    p.skip(first_index(p, '=').unwrap() + 1)
}

/// `j` is the first piece with the key.
pub open spec fn is_first_with_key(pieces: Seq<Seq<char>>, key: Seq<char>, j: int) -> bool {
    0 <= j < pieces.len() && piece_has_key(pieces[j], key) && forall|i: int|
        0 <= i < j ==> !piece_has_key(#[trigger] pieces[i], key)
}

/// The raw value of the first `key=value` pair of the query with the given key.
pub open spec fn raw_param(query: Seq<char>, key: Seq<char>) -> Option<Seq<char>> {
    let pieces = split_on(query, '&');
    if exists|j: int| is_first_with_key(pieces, key, j) {
        Some(piece_value(pieces[choose|j: int| is_first_with_key(pieces, key, j)]))
    } else {
        None
    }
}

fn same_chars(a: &[char], b: &Vec<char>) -> (r: bool)
    ensures
        r == (a@ == b@),
{
    if a.len() != b.len() {
        return false;
    }
    let mut i: usize = 0;
    while i < a.len()
        invariant
            a@.len() == b@.len(),
            i <= a@.len(),
            forall|j: int| 0 <= j < i ==> a@[j] == b@[j],
        decreases a.len() - i,
    {
        if a[i] != b[i] {
            return false;
        }
        i = i + 1;
    }
    assert(a@ =~= b@);
    true
}

/// The raw value of the first `key=value` pair of the query with the given key.
fn raw_param_chars(query: &str, key: &str) -> (r: Option<Vec<char>>)
    ensures
        match r {
            Some(v) => raw_param(query@, key@) == Some(v@),
            None => raw_param(query@, key@) is None,
        },
{
    let q = chars_of(query);
    let k = chars_of(key);
    let pieces = split_chars(q.as_slice(), '&');
    let ghost pv = views(pieces@);
    let mut j: usize = 0;
    while j < pieces.len()
        invariant
            pv == views(pieces@),
            pv == split_on(q@, '&'),
            q@ == query@,
            k@ == key@,
            j <= pieces@.len(),
            forall|i: int| 0 <= i < j ==> !piece_has_key(#[trigger] pv[i], key@),
        decreases pieces.len() - j,
    {
        let p = &pieces[j];
        assert(pv[j as int] == p@);
        match find_char(p.as_slice(), '=') {
            Some(e) => {
                let mut name: Vec<char> = Vec::new();
                for t in 0..e
                    invariant
                        e < p@.len(),
                        name@ == p@.take(t as int),
                {
                    name.push(p[t]);
                    assert(p@.take(t + 1) =~= p@.take(t as int).push(p@[t as int]));
                }
                if same_chars(name.as_slice(), &k) {
                    let pl = p.len();
                    assert(e < pl);
                    let mut value: Vec<char> = Vec::new();
                    let mut t: usize = e + 1;
                    while t < p.len()
                        invariant
                            e + 1 <= t <= p@.len(),
                            value@ == p@.subrange(e + 1, t as int),
                        decreases p.len() - t,
                    {
                        value.push(p[t]);
                        assert(p@.subrange(e + 1, t + 1) =~= p@.subrange(e + 1, t as int).push(p@[t as int]));
                        t = t + 1;
                    }
                    proof {
                        assert(is_first_with_key(pv, key@, j as int));
                        let c = choose|c: int| is_first_with_key(pv, key@, c);
                        assert(c == j as int) by {
                            if c < j {
                            } else if c > j {
                                assert(!piece_has_key(pv[j as int], key@));
                            }
                        }
                        assert(value@ =~= piece_value(pv[j as int]));
                    }
                    return Some(value);
                }
            },
            None => {},
        }
        j = j + 1;
    }
    None
}

/// The first value of `key` in a query string, with `%20`, `%26` and `%3D` turned back into
/// a space, `&` and `=` (in that order).
pub open spec fn simple_decoded(v: Seq<char>) -> Seq<char> {
    replace_all(replace_all(replace_all(v, "%20"@, " "@), "%26"@, "&"@), "%3D"@, "="@)
}

/// The value of `key` in a query string, with `%20`, `%26` and `%3D` decoded.
pub fn parse_query_param(query: &str, key: &str) -> (r: Option<String>)
    ensures
        match r {
            Some(s) => raw_param(query@, key@) matches Some(v) && s@ == simple_decoded(v),
            None => raw_param(query@, key@) is None,
        },
{
    match raw_param_chars(query, key) {
        Some(v) => {
            let p1 = chars_of("%20");
            let r1 = chars_of(" ");
            let p2 = chars_of("%26");
            let r2 = chars_of("&");
            let p3 = chars_of("%3D");
            let r3 = chars_of("=");
            proof {
                reveal_strlit("%20");
                reveal_strlit("%26");
                reveal_strlit("%3D");
            }
            let a = replace_chars(&v, &p1, &r1);
            let b = replace_chars(&a, &p2, &r2);
            let c = replace_chars(&b, &p3, &r3);
            Some(string_of(c.as_slice()))
        },
        None => None,
    }
}

/// The value of a hexadecimal digit.
pub open spec fn hex_value(c: char) -> Option<int> {
    if '0' <= c && c <= '9' {
        Some(c as int - '0' as int)
    } else if 'a' <= c && c <= 'f' {
        Some(c as int - 'a' as int + 10)
    } else if 'A' <= c && c <= 'F' {
        Some(c as int - 'A' as int + 10)
    } else {
        None
    }
}

/// The byte that `u8::from_str_radix` reads from two characters in base 16 (a leading `+`
/// sign is accepted).
pub open spec fn byte_of_hex(h0: char, h1: char) -> Option<int> {
    if h0 == '+' {
        hex_value(h1)
    } else {
        match (hex_value(h0), hex_value(h1)) {
            (Some(a), Some(b)) => Some(16 * a + b),
            _ => None,
        }
    }
}

/// Percent-decoding of a URL component: `%XY` becomes the character with code `0xXY`, `+`
/// becomes a space; a `%` not followed by two hexadecimal characters is kept, with the (up
/// to two) characters after it.
pub open spec fn url_decoded(s: Seq<char>) -> Seq<char>
    decreases s.len(),
{
    if s.len() == 0 {
        s
    } else if s[0] == '%' {
        let n: int = if s.len() >= 3 { 2 } else { s.len() - 1 };
        if n == 2 && byte_of_hex(s[1], s[2]) is Some {
            seq![byte_of_hex(s[1], s[2]).unwrap() as u8 as char] + url_decoded(s.skip(3))
        } else {
            seq!['%'] + s.subrange(1, 1 + n) + url_decoded(s.skip(1 + n))
        }
    } else if s[0] == '+' {
        seq![' '] + url_decoded(s.drop_first())
    } else {
        seq![s[0]] + url_decoded(s.drop_first())
    }
}

fn hex_digit(c: char) -> (r: Option<u8>)
    ensures
        match r {
            Some(d) => hex_value(c) == Some(d as int),
            None => hex_value(c) is None,
        },
{
    if '0' <= c && c <= '9' {
        Some((c as u32 - '0' as u32) as u8)
    } else if 'a' <= c && c <= 'f' {
        Some((c as u32 - 'a' as u32 + 10) as u8)
    } else if 'A' <= c && c <= 'F' {
        Some((c as u32 - 'A' as u32 + 10) as u8)
    } else {
        None
    }
}

fn hex_byte(h0: char, h1: char) -> (r: Option<u8>)
    ensures
        match r {
            Some(b) => byte_of_hex(h0, h1) == Some(b as int),
            None => byte_of_hex(h0, h1) is None,
        },
{
    if h0 == '+' {
        hex_digit(h1)
    } else {
        match (hex_digit(h0), hex_digit(h1)) {
            (Some(a), Some(b)) => Some(16 * a + b),
            _ => None,
        }
    }
}

/// Percent-decode a URL component.
pub fn url_decode(input: &str) -> (r: String)
    ensures
        r@ == url_decoded(input@),
{
    let v = chars_of(input);
    let mut out: Vec<char> = Vec::new();
    let mut i: usize = 0;
    assert(v@.skip(0) =~= v@);
    while i < v.len()
        invariant
            i <= v@.len(),
            out@ + url_decoded(v@.skip(i as int)) == url_decoded(v@),
        decreases v.len() - i,
    {
        let ghost rest = v@.skip(i as int);
        let ghost old_out = out@;
        assert(rest[0] == v@[i as int]);
        if v[i] == '%' {
            let n: usize = if v.len() - i >= 3 { 2 } else { v.len() - i - 1 };
            let decoded = if n == 2 { hex_byte(v[i + 1], v[i + 2]) } else { None };
            proof {
                if n == 2 {
                    assert(rest[1] == v@[i + 1]);
                    assert(rest[2] == v@[i + 2]);
                }
            }
            match decoded {
                Some(b) => {
                    out.push(b as char);
                    assert(rest.skip(3) =~= v@.skip(i + 3));
                    assert(old_out + url_decoded(rest) =~= out@ + url_decoded(v@.skip(i + 3)));
                    i = i + 3;
                },
                None => {
                    out.push('%');
                    let mut t: usize = 0;
                    let vl = v.len();
                    while t < n
                        invariant
                            vl == v@.len(),
                            n <= 2,
                            i + 1 + n <= v@.len(),
                            t <= n,
                            out@ == old_out + seq!['%'] + v@.subrange(i + 1, i + 1 + t),
                        decreases n - t,
                    {
                        out.push(v[i + 1 + t]);
                        assert(v@.subrange(i + 1, i + 1 + t + 1) =~= v@.subrange(i + 1, i + 1 + t).push(v@[i + 1 + t]));
                        t = t + 1;
                    }
                    assert(rest.subrange(1, 1 + n) =~= v@.subrange(i + 1, i + 1 + n));
                    assert(rest.skip(1 + n) =~= v@.skip(i + 1 + n));
                    assert(old_out + url_decoded(rest) =~= out@ + url_decoded(v@.skip(i + 1 + n)));
                    i = i + 1 + n;
                },
            }
        } else {
            if v[i] == '+' {
                out.push(' ');
            } else {
                out.push(v[i]);
            }
            assert(rest.drop_first() =~= v@.skip(i + 1));
            assert(old_out + url_decoded(rest) =~= out@ + url_decoded(v@.skip(i + 1)));
            i = i + 1;
        }
    }
    assert(v@.skip(i as int) =~= Seq::<char>::empty());
    assert(out@ + Seq::<char>::empty() =~= out@);
    string_of(out.as_slice())
}

/// The value of `key` in a query string, percent-decoded.
pub fn parse_query_param_decoded(query: &str, key: &str) -> (r: Option<String>)
    ensures
        match r {
            Some(s) => raw_param(query@, key@) matches Some(v) && s@ == url_decoded(v),
            None => raw_param(query@, key@) is None,
        },
{
    match raw_param_chars(query, key) {
        Some(v) => {
            let s = string_of(v.as_slice());
            Some(url_decode(s.as_str()))
        },
        None => None,
    }
}

} // verus!
