//! Replies of the HTTP tool the backends run: its output carries the body, then a
//! line with the HTTP status code; the exit code stands in when no status parses.
use vstd::prelude::*;

use crate::text::{chars_of, string_of};
use crate::web::routes::{trim_chars, trimmed};

verus! {

/// The value of a string of decimal digits.
pub open spec fn digits_value(d: Seq<char>) -> int
    decreases d.len(),
{
    if d.len() == 0 {
        0
    } else {
        digits_value(d.drop_last()) * 10 + (d.last() as int - '0' as int)
    }
}

/// Whether every character is an ASCII decimal digit.
pub open spec fn all_digits(d: Seq<char>) -> bool {
    forall|i: int| 0 <= i < d.len() ==> '0' <= #[trigger] d[i] <= '9'
}

/// The `i32` a text denotes as `str::parse::<i32>` reads it: an optional `+` or
/// `-`, then one or more decimal digits, in range; none otherwise.
pub open spec fn decimal_i32(s: Seq<char>) -> Option<i32> {
    let neg = s.len() > 0 && s[0] == '-';
    let d = if s.len() > 0 && (s[0] == '-' || s[0] == '+') {
        s.drop_first()
    } else {
        s
    };
    let v = if neg {
        -digits_value(d)
    } else {
        digits_value(d)
    };
    if d.len() == 0 || !all_digits(d) || v < i32::MIN || v > i32::MAX {
        None
    } else {
        Some(v as i32)
    }
}

pub proof fn lemma_digits_nonneg(d: Seq<char>)
    requires
        all_digits(d),
    ensures
        digits_value(d) >= 0,
    decreases d.len(),
{
    if d.len() > 0 {
        assert(all_digits(d.drop_last()));
        lemma_digits_nonneg(d.drop_last());
        assert('0' <= d[d.len() - 1] <= '9');
    }
}

pub proof fn lemma_digits_grow(d: Seq<char>, k: int)
    requires
        all_digits(d),
        0 <= k <= d.len(),
    ensures
        digits_value(d.take(k)) <= digits_value(d),
    decreases d.len() - k,
{
    if k < d.len() {
        let t = d.take(k + 1);
        assert(t.drop_last() =~= d.take(k));
        assert(all_digits(d.take(k)));
        lemma_digits_nonneg(d.take(k));
        assert('0' <= t.last() <= '9') by {
            assert(t.last() == d[k]);
        }
        lemma_digits_grow(d, k + 1);
    } else {
        assert(d.take(k) =~= d);
    }
}

/// The `i32` that a text denotes, if any (`str::parse::<i32>`).
pub fn parse_i32(text: &Vec<char>) -> (r: Option<i32>)
    ensures
        r == decimal_i32(text@),
{
    let n = text.len();
    let neg = n > 0 && text[0] == '-';
    let start: usize = if n > 0 && (text[0] == '-' || text[0] == '+') {
        1
    } else {
        0
    };
    let ghost d = if text@.len() > 0 && (text@[0] == '-' || text@[0] == '+') {
        text@.drop_first()
    } else {
        text@
    };
    assert(d =~= text@.skip(start as int));
    if start == n {
        return None;
    }
    let mut acc: u64 = 0;
    let mut i: usize = start;
    while i < n
        invariant
            start <= i <= n,
            n == text@.len(),
            d =~= text@.skip(start as int),
            d == (if text@.len() > 0 && (text@[0] == '-' || text@[0] == '+') {
                text@.drop_first()
            } else {
                text@
            }),
            neg == (text@.len() > 0 && text@[0] == '-'),
            d.len() > 0,
            acc == digits_value(d.take(i - start)),
            acc <= 2147483648,
            all_digits(d.take(i - start)),
        decreases n - i,
    {
        let c = text[i];
        if c < '0' || c > '9' {
            proof {
                assert(d[i - start] == c);
                assert(!all_digits(d));
            }
            return None;
        }
        proof {
            let t = d.take(i - start + 1);
            assert(t.drop_last() =~= d.take(i - start));
            assert(t.last() == c);
            assert forall|j: int| 0 <= j < t.len() implies '0' <= #[trigger] t[j] <= '9' by {
                if j < t.len() - 1 {
                    assert(t[j] == d.take(i - start)[j]);
                }
            }
        }
        let digit: u64 = (c as u64) - ('0' as u64);
        acc = acc * 10 + digit;
        i = i + 1;
        proof {
            let t = d.take(i - start);
            assert(acc == digits_value(t));
        }
        if acc > 2147483648 {
            proof {
                if all_digits(d) {
                    lemma_digits_grow(d, i - start);
                    assert(digits_value(d) > 2147483648);
                }
            }
            return None;
        }
    }
    proof {
        assert(d.take(n - start) =~= d);
    }
    if neg {
        let v: i64 = 0 - (acc as i64);
        Some(v as i32)
    } else if acc > 2147483647 {
        None
    } else {
        Some(acc as i32)
    }
}

/// What a reply holds: the text before its last line break (empty when it has none)
/// and its last line.
pub open spec fn last_line_break(out: Seq<char>) -> Option<int> {
    if exists|i: int| 0 <= i < out.len() && out[i] == '\n' {
        Some(choose|i: int| 0 <= i < out.len() && out[i] == '\n' && forall|j: int| i < j < out.len() ==> out[j] != '\n')
    } else {
        None
    }
}

/// The status of a reply: its last line as an `i32` (surrounding white space
/// trimmed), else the exit code.
pub open spec fn reply_status(out: Seq<char>, exit_code: i32) -> i32 {
    let tail = match last_line_break(out) {
        Some(i) => out.skip(i + 1),
        None => out,
    };
    match decimal_i32(trimmed(tail)) {
        Some(v) => v,
        None => exit_code,
    }
}

/// The body of a reply: the text before its last line break, empty when it has none.
pub open spec fn reply_body(out: Seq<char>) -> Seq<char> {
    match last_line_break(out) {
        Some(i) => out.take(i),
        None => Seq::empty(),
    }
}

/// A reply split into its HTTP status and body.
pub struct HttpReply {
    pub status: i32,
    pub body: String,
}

/// Splits a reply of the HTTP tool into status and body.
pub fn parse_reply(out: &str, exit_code: i32) -> (r: HttpReply)
    ensures
        r.status == reply_status(out@, exit_code),
        r.body@ == reply_body(out@),
{
    let c = chars_of(out);
    let mut k: usize = c.len();
    while k > 0 && c[k - 1] != '\n'
        invariant
            k <= c@.len(),
            c@ == out@,
            forall|j: int| k <= j < c@.len() ==> c@[j] != '\n',
        decreases k,
    {
        k = k - 1;
    }
    let mut tail: Vec<char> = Vec::new();
    let mut j: usize = k;
    while j < c.len()
        invariant
            k <= j <= c@.len(),
            tail@ == c@.subrange(k as int, j as int),
        decreases c.len() - j,
    {
        tail.push(c[j]);
        assert(c@.subrange(k as int, j + 1) =~= c@.subrange(k as int, j as int).push(c@[j as int]));
        j = j + 1;
    }
    let mut head: Vec<char> = Vec::new();
    if k > 0 {
        let mut m: usize = 0;
        while m < k - 1
            invariant
                0 < k <= c@.len(),
                m <= k - 1,
                head@ == c@.take(m as int),
            decreases k - 1 - m,
        {
            head.push(c[m]);
            assert(c@.take(m + 1) =~= c@.take(m as int).push(c@[m as int]));
            m = m + 1;
        }
    }
    proof {
        if k > 0 {
            let i = (k - 1) as int;
            assert(c@[i] == '\n');
            assert(exists|x: int| 0 <= x < out@.len() && out@[x] == '\n');
            let w = choose|x: int| 0 <= x < out@.len() && out@[x] == '\n' && forall|y: int| x < y < out@.len() ==> out@[y] != '\n';
            assert(forall|y: int| i < y < out@.len() ==> out@[y] != '\n');
            if w < i {
                assert(out@[i] == '\n');
            }
            if w > i {
                assert(out@[w] == '\n');
            }
            assert(w == i);
            assert(tail@ =~= out@.skip(i + 1));
            assert(head@ =~= out@.take(i));
        } else {
            assert(c@.subrange(0, c@.len() as int) =~= c@);
            if exists|x: int| 0 <= x < out@.len() && out@[x] == '\n' {
                let x = choose|x: int| 0 <= x < out@.len() && out@[x] == '\n';
                assert(c@[x] != '\n');
            }
            assert(head@ =~= Seq::<char>::empty());
        }
    }
    let trimmed_tail = trim_chars(&tail);
    let status = match parse_i32(&trimmed_tail) {
        Some(v) => v,
        None => exit_code,
    };
    HttpReply { status, body: string_of(head.as_slice()) }
}

/// The status of a reply that is only a status code: the whole output as an `i32`
/// (white space trimmed), else the exit code.
pub fn status_of(out: &str, exit_code: i32) -> (r: i32)
    ensures
        r == match decimal_i32(trimmed(out@)) {
            Some(v) => v,
            None => exit_code,
        },
{
    let c = chars_of(out);
    let t = trim_chars(&c);
    match parse_i32(&t) {
        Some(v) => v,
        None => exit_code,
    }
}

/// Whether a status means success (2xx).
pub fn is_success(status: i32) -> (r: bool)
    ensures
        r == (200 <= status < 300),
{
    200 <= status && status < 300
}

} // verus!
