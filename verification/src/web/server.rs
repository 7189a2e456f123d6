//! How the web server dispatches a connection: which part answers the request, and
//! what an `Authorization` header line carries.
use vstd::prelude::*;

use crate::text::{chars_of, eq_lit, lowercase, string_of, to_lowercase};
use crate::sync::reply::all_digits;
use crate::web::routes::{trim_chars, trimmed};

verus! {

/// Which part of the server answers a request.
#[derive(Debug, Clone, Copy, PartialEq, Eq, Structural)]
pub enum Dispatch {
    /// The JSON API, for targets under `/api`.
    Api,
    /// A CORS preflight outside the API.
    Preflight,
    /// A static file, for `GET` and `HEAD`.
    StaticFile,
    /// Any other method outside the API (405).
    NotAllowed,
}

/// The part of the server that answers a method and request target.
pub open spec fn dispatch_of(method: Seq<char>, target: Seq<char>) -> Dispatch {
    if "/api/"@.is_prefix_of(target) || target == "/api"@ {
        Dispatch::Api
    } else if method == "OPTIONS"@ {
        Dispatch::Preflight
    } else if method == "GET"@ || method == "HEAD"@ {
        Dispatch::StaticFile
    } else {
        Dispatch::NotAllowed
    }
}

/// The first `n` characters and the rest.
fn split_at_chars(v: &Vec<char>, n: usize) -> (r: (Vec<char>, Vec<char>))
    requires
        n <= v@.len(),
    ensures
        r.0@ == v@.take(n as int),
        r.1@ == v@.skip(n as int),
{
    let mut head: Vec<char> = Vec::new();
    let mut tail: Vec<char> = Vec::new();
    let mut k: usize = 0;
    while k < v.len()
        invariant
            n <= v@.len(),
            k <= v@.len(),
            k <= n ==> head@ == v@.take(k as int) && tail@.len() == 0,
            k > n ==> head@ == v@.take(n as int) && tail@ == v@.subrange(n as int, k as int),
        decreases v.len() - k,
    {
        if k < n {
            head.push(v[k]);
            assert(v@.take(k + 1) =~= v@.take(k as int).push(v@[k as int]));
        } else {
            tail.push(v[k]);
            assert(v@.subrange(n as int, k + 1) =~= v@.subrange(n as int, k as int).push(v@[k as int]));
        }
        k = k + 1;
    }
    assert(tail@ =~= v@.skip(n as int));
    (head, tail)
}

/// Whether the characters start with the literal.
fn starts_with_lit(v: &Vec<char>, lit: &str) -> (r: bool)
    ensures
        r == lit@.is_prefix_of(v@),
{
    let n = lit.unicode_len();
    if v.len() < n {
        return false;
    }
    let (head, _) = split_at_chars(v, n);
    let r = eq_lit(head.as_slice(), lit);
    assert(r ==> lit@ =~= v@.subrange(0, lit@.len() as int));
    assert(lit@.is_prefix_of(v@) ==> head@ =~= lit@);
    r
}

/// Which part of the server answers a request.
pub fn dispatch(method: &str, target: &str) -> (r: Dispatch)
    ensures
        r == dispatch_of(method@, target@),
{
    let t = chars_of(target);
    let m = chars_of(method);
    if starts_with_lit(&t, "/api/") || eq_lit(t.as_slice(), "/api") {
        Dispatch::Api
    } else if eq_lit(m.as_slice(), "OPTIONS") {
        Dispatch::Preflight
    } else if eq_lit(m.as_slice(), "GET") || eq_lit(m.as_slice(), "HEAD") {
        Dispatch::StaticFile
    } else {
        Dispatch::NotAllowed
    }
}

/// What a request header line says of the `Authorization` header: none when it is not
/// such a line (names compared without regard to case, around white space); else the
/// value after `Authorization:` or `authorization:`, trimmed, or none when the name is
/// written in another case.
pub open spec fn authorization_of(line: Seq<char>) -> Option<Option<Seq<char>>> {
    let t = trimmed(line);
    if "authorization:"@.is_prefix_of(lowercase(t)) {
        Some(
            if "Authorization:"@.is_prefix_of(t) || "authorization:"@.is_prefix_of(t) {
                Some(trimmed(t.skip(14)))
            } else {
                None
            },
        )
    } else {
        None
    }
}

/// Reads a request header line for the `Authorization` header.
pub fn header_authorization(line: &str) -> (r: Option<Option<String>>)
    ensures
        match authorization_of(line@) {
            None => r is None,
            Some(None) => r == Some(None::<String>),
            Some(Some(v)) => r matches Some(Some(s)) && s@ == v,
        },
{
    proof {
        reveal_strlit("authorization:");
        reveal_strlit("Authorization:");
    }
    let c = chars_of(line);
    let t = trim_chars(&c);
    let ts = string_of(t.as_slice());
    let lowered = to_lowercase(ts.as_str());
    let l = chars_of(lowered.as_str());
    if !starts_with_lit(&l, "authorization:") {
        return None;
    }
    if starts_with_lit(&t, "Authorization:") || starts_with_lit(&t, "authorization:") {
        let (_, rest) = split_at_chars(&t, 14);
        let value = trim_chars(&rest);
        Some(Some(string_of(value.as_slice())))
    } else {
        Some(None)
    }
}


/// Whether what follows an origin's host is nothing, or `:` and a decimal port.
pub open spec fn port_suffix(r: Seq<char>) -> bool {
    r.len() == 0 || (r.len() > 1 && r[0] == ':' && all_digits(r.drop_first()))
}

/// The origins allowed to call the server from a browser: those on the local machine,
/// `http://localhost`, `http://127.0.0.1` or `tauri://localhost`, each with an optional port.
pub open spec fn allowed_origin(o: Seq<char>) -> bool {
    ||| ("http://localhost"@.is_prefix_of(o) && port_suffix(o.skip("http://localhost"@.len() as int)))
    ||| ("http://127.0.0.1"@.is_prefix_of(o) && port_suffix(o.skip("http://127.0.0.1"@.len() as int)))
    ||| ("tauri://localhost"@.is_prefix_of(o) && port_suffix(o.skip("tauri://localhost"@.len() as int)))
}

fn port_suffix_at(v: &Vec<char>, from: usize) -> (r: bool)
    requires
        from <= v@.len(),
    ensures
        r == port_suffix(v@.skip(from as int)),
{
    let ghost rest = v@.skip(from as int);
    if from == v.len() {
        return true;
    }
    if v[from] != ':' || from + 1 == v.len() {
        return false;
    }
    let mut k: usize = from + 1;
    while k < v.len()
        invariant
            from + 1 <= k <= v@.len(),
            rest == v@.skip(from as int),
            forall|j: int| from + 1 <= j < k ==> '0' <= #[trigger] v@[j] <= '9',
        decreases v.len() - k,
    {
        if v[k] < '0' || v[k] > '9' {
            assert(rest.drop_first()[k - from - 1] == v@[k as int]);
            return false;
        }
        k = k + 1;
    }
    assert forall|i: int| 0 <= i < rest.drop_first().len() implies '0' <= #[trigger] rest.drop_first()[i] <= '9' by {
        assert(rest.drop_first()[i] == v@[from + 1 + i]);
    }
    true
}

/// Whether a browser origin may call the server (see `allowed_origin`).
pub fn is_allowed_origin(origin: &str) -> (r: bool)
    ensures
        r == allowed_origin(origin@),
{
    proof {
        reveal_strlit("http://localhost");
        reveal_strlit("http://127.0.0.1");
        reveal_strlit("tauri://localhost");
    }
    let c = chars_of(origin);
    (starts_with_lit(&c, "http://localhost") && port_suffix_at(&c, 16))
        || (starts_with_lit(&c, "http://127.0.0.1") && port_suffix_at(&c, 16))
        || (starts_with_lit(&c, "tauri://localhost") && port_suffix_at(&c, 17))
}

/// What a request header line says of the `Origin` header: none when it is not such a line
/// (`Origin:` or `origin:` after white space); else the value after the name, trimmed.
pub open spec fn origin_of(line: Seq<char>) -> Option<Seq<char>> {
    let t = trimmed(line);
    if "Origin:"@.is_prefix_of(t) || "origin:"@.is_prefix_of(t) {
        Some(trimmed(t.skip(7)))
    } else {
        None
    }
}

/// Reads a request header line for the `Origin` header.
pub fn header_origin(line: &str) -> (r: Option<String>)
    ensures
        match origin_of(line@) {
            None => r is None,
            Some(v) => r matches Some(s) && s@ == v,
        },
{
    proof {
        reveal_strlit("Origin:");
        reveal_strlit("origin:");
    }
    let c = chars_of(line);
    let t = trim_chars(&c);
    if starts_with_lit(&t, "Origin:") || starts_with_lit(&t, "origin:") {
        let (_, rest) = split_at_chars(&t, 7);
        let value = trim_chars(&rest);
        Some(string_of(value.as_slice()))
    } else {
        None
    }
}

/// The answer to a CORS preflight request from `origin`: 204, and the origin allowed back
/// only when it is one of the allowed origins.
pub open spec fn preflight_for_text(origin: Option<Seq<char>>) -> Seq<char> {
    let tail = "Access-Control-Allow-Headers: Content-Type, Authorization\r\nAccess-Control-Allow-Methods: GET, POST, PUT, DELETE, OPTIONS\r\nAccess-Control-Max-Age: 86400\r\nContent-Length: 0\r\n\r\n"@;
    match origin {
        Some(o) if allowed_origin(o) => "HTTP/1.1 204 No Content\r\n"@ + "Access-Control-Allow-Origin: "@ + o
            + "\r\nVary: Origin\r\n"@ + tail,
        _ => "HTTP/1.1 204 No Content\r\n"@ + tail,
    }
}

/// Answer a CORS preflight request (see `preflight_for_text`).
pub fn cors_preflight_for(origin: Option<&str>) -> (r: String)
    ensures
        r@ == preflight_for_text(
            match origin {
                Some(o) => Some(o@),
                None => None,
            },
        ),
{
    let mut s = String::from_str("HTTP/1.1 204 No Content\r\n");
    match origin {
        Some(o) => {
            if is_allowed_origin(o) {
                s.append("Access-Control-Allow-Origin: ");
                s.append(o);
                s.append("\r\nVary: Origin\r\n");
            }
        },
        None => {},
    }
    s.append(
        "Access-Control-Allow-Headers: Content-Type, Authorization\r\nAccess-Control-Allow-Methods: GET, POST, PUT, DELETE, OPTIONS\r\nAccess-Control-Max-Age: 86400\r\nContent-Length: 0\r\n\r\n",
    );
    proof {
        let tail = "Access-Control-Allow-Headers: Content-Type, Authorization\r\nAccess-Control-Allow-Methods: GET, POST, PUT, DELETE, OPTIONS\r\nAccess-Control-Max-Age: 86400\r\nContent-Length: 0\r\n\r\n"@;
        if let Some(o) = origin {
            if allowed_origin(o@) {
                assert(s@ =~= "HTTP/1.1 204 No Content\r\n"@ + "Access-Control-Allow-Origin: "@ + o@ + "\r\nVary: Origin\r\n"@ + tail);
            }
        }
    }
    s
}

} // verus!
