//! What an imported file is: its media type, from its leading bytes or else from
//! its name, the name of a download, and the text that goes into the search index.
use vstd::prelude::*;
use vstd::utf8::{decode_utf8, valid_utf8};

verus! {

/// How many leading bytes of a file go into the search index as text.
pub const CONTENT_PREFIX_LEN: usize = 65536;

/// The media type that `mime_guess` gives first for the extension of `path`.
pub uninterp spec fn mime_from_extension(path: Seq<char>) -> Option<Seq<char>>;

/// The media type that `infer` recognises from the leading bytes of a file.
pub uninterp spec fn mime_from_magic(head: Seq<u8>) -> Option<Seq<char>>;

/// The last segment of the path of `url` as the `url` crate parses it; none where
/// it does not parse or has no hierarchical path.
pub uninterp spec fn url_last_segment(url: Seq<char>) -> Option<Seq<char>>;

/// The views of an optional string.
pub open spec fn opt_view(o: Option<String>) -> Option<Seq<char>> {
    match o {
        Some(s) => Some(s@),
        None => None,
    }
}

/// Calls `mime_guess::from_path(path).first()`: the first media type registered
/// for the path's extension, as text. The contract names the result.
#[verifier::external_body]
fn guess_from_extension(path: &str) -> (r: Option<String>)
    ensures
        opt_view(r) == mime_from_extension(path@),
{
    mime_guess::from_path(path).first().map(|m| m.to_string())
}

/// Calls `infer::get(head)`: the type whose magic bytes start `head`, as text. The
/// contract names the result.
#[verifier::external_body]
fn sniff_magic(head: &[u8]) -> (r: Option<String>)
    ensures
        opt_view(r) == mime_from_magic(head@),
{
    infer::get(head).map(|t| t.mime_type().to_string())
}

/// Calls `url::Url::parse(url)` and takes the last of its path segments. The
/// contract names the result.
#[verifier::external_body]
fn last_path_segment(url: &str) -> (r: Option<String>)
    ensures
        opt_view(r) == url_last_segment(url@),
{
    match url::Url::parse(url) {
        Ok(u) => u.path_segments().and_then(|s| s.last()).map(|s| s.to_string()),
        Err(_) => None,
    }
}

/// Calls `String::from_utf8`: the text that `bytes` encode, or none when they are
/// not valid UTF-8.
#[verifier::external_body]
fn utf8_text(bytes: Vec<u8>) -> (r: Option<String>)
    ensures
        match r {
            Some(s) => valid_utf8(bytes@) && s@ == decode_utf8(bytes@),
            None => !valid_utf8(bytes@),
        },
{
    String::from_utf8(bytes).ok()
}

/// The media type of an imported entry: none for a folder; for a file, the type its
/// leading bytes show (when they could be read), else the one registered for its
/// extension.
pub fn entry_mime(is_dir: bool, head: Option<&[u8]>, path: &str) -> (r: Option<String>)
    ensures
        opt_view(r) == (if is_dir {
            None
        } else {
            match head {
                Some(h) => match mime_from_magic(h@) {
                    Some(m) => Some(m),
                    None => mime_from_extension(path@),
                },
                None => mime_from_extension(path@),
            }
        }),
{
    if is_dir {
        return None;
    }
    let sniffed = match head {
        Some(h) => sniff_magic(h),
        None => None,
    };
    match sniffed {
        Some(m) => Some(m),
        None => guess_from_extension(path),
    }
}

/// The media type of a download: the one the server declared, else the one
/// registered for the file name's extension.
pub fn download_mime(content_type: Option<String>, file_name: &str) -> (r: Option<String>)
    ensures
        opt_view(r) == match content_type {
            Some(c) => Some(c@),
            None => mime_from_extension(file_name@),
        },
{
    match content_type {
        Some(c) => Some(c),
        None => guess_from_extension(file_name),
    }
}

/// The file name of a download, from a last path segment: that segment, or
/// "download" when there is none or it is empty or "/".
pub open spec fn download_name(segment: Option<Seq<char>>) -> Seq<char> {
    match segment {
        Some(s) => if s.len() == 0 || s == "/"@ {
            "download"@
        } else {
            s
        },
        None => "download"@,
    }
}

/// The file name of a download from `url`: the last segment of its path.
pub fn url_file_name(url: &str) -> (r: String)
    ensures
        r@ == download_name(url_last_segment(url@)),
{
    let segment = last_path_segment(url);
    name_from_segment(segment)
}

/// The file name of a download from the last segment of its URL's path.
pub fn name_from_segment(segment: Option<String>) -> (r: String)
    ensures
        r@ == download_name(opt_view(segment)),
{
    proof {
        reveal_strlit("/");
    }
    match segment {
        Some(s) => {
            let n = s.unicode_len();
            if n == 0 || (n == 1 && s.as_str().get_char(0) == '/') {
                proof {
                    if n == 1 {
                        assert(s@ =~= "/"@);
                    }
                }
                String::from_str("download")
            } else {
                proof {
                    if s@ == "/"@ {
                        assert(s@[0] == '/');
                    }
                }
                s
            }
        },
        None => String::from_str("download"),
    }
}

/// The text of a file for the search index: its first `CONTENT_PREFIX_LEN` bytes
/// as UTF-8, or empty when they are not valid UTF-8.
pub fn content_text(data: &[u8]) -> (r: String)
    ensures
        ({
            let head = data@.take(
                if data@.len() < CONTENT_PREFIX_LEN {
                    data@.len() as int
                } else {
                    CONTENT_PREFIX_LEN as int
                },
            );
            r@ == (if valid_utf8(head) {
                decode_utf8(head)
            } else {
                Seq::empty()
            })
        }),
{
    let n: usize = if data.len() < CONTENT_PREFIX_LEN {
        data.len()
    } else {
        CONTENT_PREFIX_LEN
    };
    let mut head: Vec<u8> = Vec::new();
    let mut i: usize = 0;
    while i < n
        invariant
            i <= n,
            n <= data@.len(),
            head@ == data@.take(i as int),
        decreases n - i,
    {
        head.push(data[i]);
        assert(data@.take(i + 1) =~= data@.take(i as int).push(data@[i as int]));
        i = i + 1;
    }
    match utf8_text(head) {
        Some(s) => s,
        None => String::new(),
    }
}

} // verus!
