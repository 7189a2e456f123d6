//! Static files of the frontend: which file a path asks for, whether it may be served, and
//! the response header.
use vstd::prelude::*;

use crate::text::{chars_of, decimal, push_decimal, string_of};
use crate::web::routes::trim_leading;

verus! {

/// The file a request path names, relative to the static directory: `index.html` for the root
/// or a directory path, else the path without its leading `/` characters.
pub open spec fn static_target_spec(path: Seq<char>) -> Seq<char> {
    if path == "/"@ || (path.len() > 0 && path.last() == '/') {
        "index.html"@
    } else {
        trim_leading(path, '/')
    }
}

/// The file a request path names, relative to the static directory.
pub fn static_target(request_path: &str) -> (r: String)
    ensures
        r@ == static_target_spec(request_path@),
{
    let p = chars_of(request_path);
    proof {
        reveal_strlit("/");
    }
    if (p.len() == 1 && p[0] == '/') || (p.len() > 0 && p[p.len() - 1] == '/') {
        proof {
            if p@.len() == 1 && p@[0] == '/' {
                assert(p@ =~= "/"@);
            }
        }
        String::from_str("index.html")
    } else {
        assert(p@ != "/"@);
        let mut i: usize = 0;
        assert(p@.skip(0) =~= p@);
        while i < p.len() && p[i] == '/'
            invariant
                i <= p@.len(),
                trim_leading(p@, '/') == trim_leading(p@.skip(i as int), '/'),
            decreases p.len() - i,
        {
            assert(p@.skip(i as int).drop_first() =~= p@.skip(i + 1));
            i = i + 1;
        }
        let mut r: Vec<char> = Vec::new();
        let mut j: usize = i;
        while j < p.len()
            invariant
                i <= j <= p@.len(),
                r@ == p@.subrange(i as int, j as int),
            decreases p.len() - j,
        {
            r.push(p[j]);
            assert(p@.subrange(i as int, j + 1) =~= p@.subrange(i as int, j as int).push(p@[j as int]));
            j = j + 1;
        }
        assert(r@ =~= p@.skip(i as int));
        string_of(r.as_slice())
    }
}

/// What to answer for a static file.
#[derive(Debug, Clone, Copy, PartialEq, Eq, Structural)]
pub enum StaticOutcome {
    /// The requested file does not resolve (404).
    NotFound,
    /// The static directory does not resolve (500).
    ServerError,
    /// The file resolves outside the static directory (403).
    Forbidden,
    /// Serve the resolved file.
    ServeFile,
    /// The file does not exist: serve the application's `index.html` instead.
    ServeIndex,
}

/// Whether the path components `root` begin the path components `p` (`Path::starts_with`).
pub open spec fn components_start_with(p: Seq<Seq<char>>, root: Seq<Seq<char>>) -> bool {
    root.len() <= p.len() && forall|i: int| 0 <= i < root.len() ==> p[i] == root[i]
}

/// The views of path components.
pub open spec fn component_views(v: Seq<String>) -> Seq<Seq<char>> {
    v.map_values(|s: String| s@)
}

/// The decision for a static request, from the canonical components of the requested file
/// and of the static directory (`None` when they do not resolve) and whether the file, or
/// else `index.html`, is a regular file.
pub open spec fn static_outcome(
    resolved: Option<Seq<Seq<char>>>,
    root: Option<Seq<Seq<char>>>,
    is_file: bool,
    index_is_file: bool,
) -> StaticOutcome {
    match (resolved, root) {
        (None, _) => StaticOutcome::NotFound,
        (Some(_), None) => StaticOutcome::ServerError,
        (Some(p), Some(r)) => if !components_start_with(p, r) {
            StaticOutcome::Forbidden
        } else if is_file {
            StaticOutcome::ServeFile
        } else if index_is_file {
            StaticOutcome::ServeIndex
        } else {
            StaticOutcome::NotFound
        },
    }
}

/// The optional views of optional components.
pub open spec fn opt_components(v: Option<&Vec<String>>) -> Option<Seq<Seq<char>>> {
    match v {
        Some(c) => Some(component_views(c@)),
        None => None,
    }
}

fn starts_with_components(p: &Vec<String>, root: &Vec<String>) -> (r: bool)
    ensures
        r == components_start_with(component_views(p@), component_views(root@)),
{
    if root.len() > p.len() {
        return false;
    }
    let mut i: usize = 0;
    while i < root.len()
        invariant
            root@.len() <= p@.len(),
            i <= root@.len(),
            forall|j: int| 0 <= j < i ==> component_views(p@)[j] == component_views(root@)[j],
        decreases root.len() - i,
    {
        if p[i] != root[i] {
            assert(component_views(p@)[i as int] != component_views(root@)[i as int]);
            return false;
        }
        i = i + 1;
    }
    true
}

/// Decide how to answer a static request, never serving a file outside the static directory.
pub fn serve_static_file(
    resolved: Option<&Vec<String>>,
    static_root: Option<&Vec<String>>,
    is_file: bool,
    index_is_file: bool,
) -> (r: StaticOutcome)
    ensures
        r == static_outcome(opt_components(resolved), opt_components(static_root), is_file, index_is_file),
        r == StaticOutcome::ServeFile ==> (resolved matches Some(p) && static_root matches Some(root)
            && components_start_with(component_views(p@), component_views(root@))),
{
    match (resolved, static_root) {
        (None, _) => StaticOutcome::NotFound,
        (Some(_), None) => StaticOutcome::ServerError,
        (Some(p), Some(root)) => {
            if !starts_with_components(p, root) {
                StaticOutcome::Forbidden
            } else if is_file {
                StaticOutcome::ServeFile
            } else if index_is_file {
                StaticOutcome::ServeIndex
            } else {
                StaticOutcome::NotFound
            }
        },
    }
}

/// The header of a static file response.
pub open spec fn static_header_text(content_type: Seq<char>, length: usize) -> Seq<char> {
    "HTTP/1.1 200 OK\r\nContent-Type: "@ + content_type + "\r\nContent-Length: "@ + decimal(length as nat)
        + "\r\nCache-Control: public, max-age=3600\r\nAccess-Control-Allow-Origin: *\r\nAccess-Control-Allow-Methods: GET, POST, PUT, DELETE, OPTIONS\r\nAccess-Control-Allow-Headers: Content-Type, Authorization\r\n\r\n"@
}

/// The header of a static file response with the file's content type and length in bytes.
pub fn static_header(content_type: &str, length: usize) -> (r: String)
    ensures
        r@ == static_header_text(content_type@, length),
{
    let mut s = String::from_str("HTTP/1.1 200 OK\r\nContent-Type: ");
    s.append(content_type);
    s.append("\r\nContent-Length: ");
    push_decimal(&mut s, length as u64);
    s.append(
        "\r\nCache-Control: public, max-age=3600\r\nAccess-Control-Allow-Origin: *\r\nAccess-Control-Allow-Methods: GET, POST, PUT, DELETE, OPTIONS\r\nAccess-Control-Allow-Headers: Content-Type, Authorization\r\n\r\n",
    );
    s
}

} // verus!
