//! The decisions of a directory walk and the tally of what it imported.
use vstd::prelude::*;

verus! {

/// Files of this many bytes or more are not hashed on import (100 MiB).
pub const HASH_SIZE_LIMIT: u64 = 104857600;

/// Files of this many bytes or more get no content in the search index (1 MiB).
pub const CONTENT_INDEX_SIZE_LIMIT: u64 = 1048576;

/// How far below the scanned directory a recursive scan goes.
pub const RECURSIVE_SCAN_DEPTH: usize = 20;

/// The outcome of a directory scan.
pub struct ImportResult {
    pub files_imported: u32,
    pub folders_imported: u32,
    pub errors: Vec<String>,
    pub duration_ms: u64,
}

impl ImportResult {
    /// Nothing imported yet.
    pub fn new() -> (r: Self)
        ensures
            r.files_imported == 0,
            r.folders_imported == 0,
            r.errors@.len() == 0,
            r.duration_ms == 0,
    {
        ImportResult { files_imported: 0, folders_imported: 0, errors: Vec::new(), duration_ms: 0 }
    }

    /// Counts one imported entry: a folder or a file.
    pub fn count_entry(&mut self, is_dir: bool)
        requires
            is_dir ==> old(self).folders_imported < u32::MAX,
            !is_dir ==> old(self).files_imported < u32::MAX,
        ensures
            final(self).folders_imported == old(self).folders_imported + (if is_dir {
                1int
            } else {
                0int
            }),
            final(self).files_imported == old(self).files_imported + (if is_dir {
                0int
            } else {
                1int
            }),
            final(self).errors@ == old(self).errors@,
            final(self).duration_ms == old(self).duration_ms,
    {
        if is_dir {
            self.folders_imported = self.folders_imported + 1;
        } else {
            self.files_imported = self.files_imported + 1;
        }
    }

    /// Records an entry that could not be imported.
    pub fn add_error(&mut self, message: String)
        ensures
            final(self).errors@ == old(self).errors@.push(message),
            final(self).files_imported == old(self).files_imported,
            final(self).folders_imported == old(self).folders_imported,
            final(self).duration_ms == old(self).duration_ms,
    {
        self.errors.push(message);
    }
}

/// The deepest level a scan visits: the directory's own entries only, or
/// `RECURSIVE_SCAN_DEPTH` levels when recursive.
pub fn scan_depth(recursive: bool) -> (r: usize)
    ensures
        r == (if recursive {
            RECURSIVE_SCAN_DEPTH
        } else {
            1
        }),
{
    if recursive {
        RECURSIVE_SCAN_DEPTH
    } else {
        1
    }
}

/// Whether a walk skips an entry (and everything below it) for its name: hidden
/// names start with `.`.
pub fn is_hidden_name(name: &str) -> (r: bool)
    ensures
        r == (name@.len() > 0 && name@[0] == '.'),
{
    if name.unicode_len() == 0 {
        false
    } else {
        name.get_char(0) == '.'
    }
}

/// What a walk does with one entry it reaches.
#[derive(Debug, Clone, Copy, PartialEq, Eq, Structural)]
pub enum WalkStep {
    /// The scanned directory itself, at depth 0.
    SkipRoot,
    /// A symbolic link, which is never followed nor imported.
    SkipLink,
    /// A folder to import.
    Folder,
    /// A file to import.
    File,
}

/// The step for an entry at `depth` below the scanned directory.
pub fn walk_step(depth: usize, is_symlink: bool, is_dir: bool) -> (r: WalkStep)
    ensures
        r == (if depth == 0 {
            WalkStep::SkipRoot
        } else if is_symlink {
            WalkStep::SkipLink
        } else if is_dir {
            WalkStep::Folder
        } else {
            WalkStep::File
        }),
{
    if depth == 0 {
        WalkStep::SkipRoot
    } else if is_symlink {
        WalkStep::SkipLink
    } else if is_dir {
        WalkStep::Folder
    } else {
        WalkStep::File
    }
}

/// Whether an entry's contents are hashed: files under `HASH_SIZE_LIMIT` bytes.
pub fn should_hash_contents(is_dir: bool, size_bytes: u64) -> (r: bool)
    ensures
        r == (!is_dir && size_bytes < HASH_SIZE_LIMIT),
{
    !is_dir && size_bytes < HASH_SIZE_LIMIT
}

/// Whether an entry's text goes into the search index: files under
/// `CONTENT_INDEX_SIZE_LIMIT` bytes.
pub fn should_index_contents(is_dir: bool, size_bytes: u64) -> (r: bool)
    ensures
        r == (!is_dir && size_bytes < CONTENT_INDEX_SIZE_LIMIT),
{
    !is_dir && size_bytes < CONTENT_INDEX_SIZE_LIMIT
}

/// The parent given to every entry of a scan: the parent id when one is given,
/// else the scanned directory's path.
pub fn children_parent(dir_path: &str, parent_id: &str) -> (r: String)
    ensures
        r@ == (if parent_id@.len() == 0 {
            dir_path@
        } else {
            parent_id@
        }),
{
    if parent_id.unicode_len() == 0 {
        dir_path.to_string()
    } else {
        parent_id.to_string()
    }
}

/// The parent of a single imported file: none for an empty parent path.
pub fn import_parent(parent_path: String) -> (r: Option<String>)
    ensures
        r == (if parent_path@.len() == 0 {
            None::<String>
        } else {
            Some(parent_path)
        }),
{
    if parent_path.unicode_len() == 0 {
        None
    } else {
        Some(parent_path)
    }
}

/// The record type of an imported entry.
pub fn node_type(is_dir: bool) -> (r: String)
    ensures
        r@ == (if is_dir {
            "folder"@
        } else {
            "file"@
        }),
{
    if is_dir {
        String::from_str("folder")
    } else {
        String::from_str("file")
    }
}

} // verus!
