//! Finding files by a search term in their name or path.
use vstd::prelude::*;

use crate::text::{contains_text, has_infix, lowercase, to_lowercase};
use crate::web::query::{parse_query_param, raw_param, simple_decoded};

verus! {

/// The search term of a query string: the lower-cased value of `q` (empty when
/// absent).
pub open spec fn search_term_of(query: Seq<char>) -> Seq<char> {
    lowercase(
        match raw_param(query, "q"@) {
            Some(v) => simple_decoded(v),
            None => Seq::empty(),
        },
    )
}

/// The search term of a query string, or none when it is empty (a request without
/// a term is refused).
pub fn search_term(query: &str) -> (r: Option<String>)
    ensures
        match r {
            Some(t) => t@ == search_term_of(query@) && t@.len() > 0,
            None => search_term_of(query@).len() == 0,
        },
{
    let value = match parse_query_param(query, "q") {
        Some(v) => v,
        None => String::new(),
    };
    let term = to_lowercase(value.as_str());
    if term.unicode_len() == 0 {
        None
    } else {
        Some(term)
    }
}

/// Whether a file matches a (lower-case) search term: the term occurs in its
/// lower-cased name or path.
pub fn matches_search(name: &str, path: &str, term: &str) -> (r: bool)
    ensures
        r == (has_infix(lowercase(name@), term@) || has_infix(lowercase(path@), term@)),
{
    let n = to_lowercase(name);
    if contains_text(n.as_str(), term) {
        return true;
    }
    let p = to_lowercase(path);
    contains_text(p.as_str(), term)
}

} // verus!
