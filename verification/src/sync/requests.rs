//! The requests the backends send: addresses, queries, and which upload or delete
//! outcome counts as done.
use vstd::prelude::*;

verus! {

/// Files larger than this go to GitHub as release assets (100 MiB).
pub const LARGE_FILE_THRESHOLD: u64 = 104857600;

/// Whether a file of this size is uploaded as a release asset rather than as
/// repository contents.
pub fn needs_release_upload(size_bytes: u64) -> (r: bool)
    ensures
        r == (size_bytes > LARGE_FILE_THRESHOLD),
{
    size_bytes > LARGE_FILE_THRESHOLD
}

/// The GitHub contents address of a path in a repository.
pub fn contents_url(owner: &str, repo: &str, path: &str) -> (r: String)
    ensures
        r@ == "https://api.github.com/repos/"@ + owner@ + "/"@ + repo@ + "/contents/"@ + path@,
{
    let mut u = String::from_str("https://api.github.com/repos/");
    u.append(owner);
    u.append("/");
    u.append(repo);
    u.append("/contents/");
    u.append(path);
    u
}

/// The Drive search for the files to list: those in the folder when one is set, and
/// never trashed ones.
pub fn drive_query(folder_id: Option<&str>) -> (r: String)
    ensures
        r@ == match folder_id {
            Some(f) => "'"@ + f@ + "' in parents and trashed=false"@,
            None => "trashed=false"@,
        },
{
    match folder_id {
        Some(f) => {
            let mut q = String::from_str("'");
            q.append(f);
            q.append("' in parents and trashed=false");
            q
        },
        None => String::from_str("trashed=false"),
    }
}

/// Whether a delete request succeeded: 200 or 204 (no content).
pub fn delete_succeeded(status: i32) -> (r: bool)
    ensures
        r == (status == 200 || status == 204),
{
    status == 200 || status == 204
}

} // verus!
