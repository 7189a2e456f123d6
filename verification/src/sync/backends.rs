//! Storage backends that files are synced to, and what can be decided about them without
//! talking to the remote service.
use vstd::prelude::*;
use vstd::utf8::encode_utf8;

use crate::text::{chars_of, push_char, string_of};
use crate::web::routes::trim_leading;
use crate::web::query::first_index;

verus! {

/// The kinds of storage backend.
#[derive(Debug, Clone, Copy, PartialEq, Eq, Structural)]
pub enum SyncBackendType {
    Local,
    GitHub,
    GoogleDrive,
    GooglePhotos,
}

/// How to sync to one backend.
#[derive(Debug, Clone)]
pub struct SyncConfig {
    pub id: String,
    pub backend_type: SyncBackendType,
    pub enabled: bool,
    pub account_id: Option<String>,
    pub name: Option<String>,
    pub base_path: Option<String>,
    pub repo_name: Option<String>,
    pub branch: Option<String>,
    pub token: Option<String>,
    pub folder_id: Option<String>,
    pub album_id: Option<String>,
    pub chat_id: Option<String>,
    pub auto_sync: bool,
    pub compress_before_upload: bool,
    pub create_previews: bool,
    pub delete_raw_after_sync: bool,
    pub max_concurrent_uploads: u32,
}

/// A file stored on a backend.
#[derive(Debug, Clone)]
pub struct RemoteFile {
    pub name: String,
    pub path: String,
    pub size_bytes: u64,
    pub modified_at: String,
    pub url: String,
}

/// Files kept in a directory of the local file system.
#[derive(Debug, Clone)]
pub struct LocalBackend {
    pub base_path: String,
}

/// Files kept in a GitHub repository, on one branch.
#[derive(Debug, Clone)]
pub struct GitHubBackend {
    pub token: String,
    pub repo_name: String,
    pub branch: String,
}

/// Files kept in Google Drive, optionally in one folder.
#[derive(Debug, Clone)]
pub struct GoogleDriveBackend {
    pub token: String,
    pub folder_id: Option<String>,
}

/// Media kept in Google Photos, optionally in one album.
#[derive(Debug, Clone)]
pub struct GooglePhotosBackend {
    pub token: String,
    pub album_id: Option<String>,
}

/// The views of an optional text.
pub open spec fn opt_str(s: Option<&str>) -> Option<Seq<char>> {
    match s {
        Some(t) => Some(t@),
        None => None,
    }
}

/// The views of an optional string.
pub open spec fn opt_string(s: Option<String>) -> Option<Seq<char>> {
    match s {
        Some(t) => Some(t@),
        None => None,
    }
}

fn own(s: Option<&str>) -> (r: Option<String>)
    ensures
        opt_string(r) == opt_str(s),
{
    match s {
        Some(t) => Some(String::from_str(t)),
        None => None,
    }
}

impl LocalBackend {
    /// A backend storing under `base_path`.
    pub fn new(base_path: &str) -> (r: Self)
        ensures
            r.base_path@ == base_path@,
    {
        LocalBackend { base_path: String::from_str(base_path) }
    }

    /// The backend's display name.
    pub fn name(&self) -> (r: &'static str)
        ensures
            r@ == "Local Storage"@,
    {
        "Local Storage"
    }

    /// The backend's kind.
    pub fn backend_type(&self) -> (r: SyncBackendType)
        ensures
            r == SyncBackendType::Local,
    {
        SyncBackendType::Local
    }
}

impl GitHubBackend {
    /// A backend storing in repository `repo_name` (`owner/repo`) on `branch`.
    pub fn new(token: &str, repo_name: &str, branch: &str) -> (r: Self)
        ensures
            r.token@ == token@,
            r.repo_name@ == repo_name@,
            r.branch@ == branch@,
    {
        GitHubBackend {
            token: String::from_str(token),
            repo_name: String::from_str(repo_name),
            branch: String::from_str(branch),
        }
    }

    /// The backend's display name.
    pub fn name(&self) -> (r: &'static str)
        ensures
            r@ == "GitHub"@,
    {
        "GitHub"
    }

    /// The backend's kind.
    pub fn backend_type(&self) -> (r: SyncBackendType)
        ensures
            r == SyncBackendType::GitHub,
    {
        SyncBackendType::GitHub
    }

    /// The raw download address of a file in the repository.
    pub fn get_file_url(&self, remote_path: &str) -> (r: Result<String, String>)
        ensures
            match repo_parts(self.repo_name@) {
                Some((owner, repo)) => r matches Ok(u) && u@ == "https://raw.githubusercontent.com/"@ + owner + "/"@
                    + repo + "/"@ + self.branch@ + "/"@ + remote_path@,
                None => r matches Err(m) && m@ == bad_repo_message(self.repo_name@),
            },
    {
        let (owner, repo) = parse_repo(self.repo_name.as_str())?;
        let mut u = String::from_str("https://raw.githubusercontent.com/");
        u.append(owner.as_str());
        u.append("/");
        u.append(repo.as_str());
        u.append("/");
        u.append(self.branch.as_str());
        u.append("/");
        u.append(remote_path);
        Ok(u)
    }
}

impl GoogleDriveBackend {
    /// A backend storing in Google Drive, in folder `folder_id` when given.
    pub fn new(token: &str, folder_id: Option<&str>) -> (r: Self)
        ensures
            r.token@ == token@,
            opt_string(r.folder_id) == opt_str(folder_id),
    {
        GoogleDriveBackend { token: String::from_str(token), folder_id: own(folder_id) }
    }

    /// The backend's display name.
    pub fn name(&self) -> (r: &'static str)
        ensures
            r@ == "Google Drive"@,
    {
        "Google Drive"
    }

    /// The backend's kind.
    pub fn backend_type(&self) -> (r: SyncBackendType)
        ensures
            r == SyncBackendType::GoogleDrive,
    {
        SyncBackendType::GoogleDrive
    }

    /// The viewing address of a Drive file by its id.
    pub fn get_file_url(&self, remote_path: &str) -> (r: Result<String, String>)
        ensures
            r matches Ok(u) && u@ == "https://drive.google.com/file/d/"@ + remote_path@ + "/view"@,
    {
        let mut u = String::from_str("https://drive.google.com/file/d/");
        u.append(remote_path);
        u.append("/view");
        Ok(u)
    }
}

impl GooglePhotosBackend {
    /// A backend storing in Google Photos, in album `album_id` when given.
    pub fn new(token: &str, album_id: Option<&str>) -> (r: Self)
        ensures
            r.token@ == token@,
            opt_string(r.album_id) == opt_str(album_id),
    {
        GooglePhotosBackend { token: String::from_str(token), album_id: own(album_id) }
    }

    /// The backend's display name.
    pub fn name(&self) -> (r: &'static str)
        ensures
            r@ == "Google Photos"@,
    {
        "Google Photos"
    }

    /// The backend's kind.
    pub fn backend_type(&self) -> (r: SyncBackendType)
        ensures
            r == SyncBackendType::GooglePhotos,
    {
        SyncBackendType::GooglePhotos
    }

    /// The API address of a media item, from which its base URL is read.
    pub fn media_item_url(&self, remote_path: &str) -> (r: String)
        ensures
            r@ == "https://photoslibrary.googleapis.com/v1/mediaItems/"@ + remote_path@,
    {
        let mut u = String::from_str("https://photoslibrary.googleapis.com/v1/mediaItems/");
        u.append(remote_path);
        u
    }
}

/// One of the storage backends.
#[derive(Debug, Clone)]
pub enum Backend {
    Local(LocalBackend),
    GitHub(GitHubBackend),
    GoogleDrive(GoogleDriveBackend),
    GooglePhotos(GooglePhotosBackend),
}

impl Backend {
    /// The backend's kind.
    pub open spec fn kind(&self) -> SyncBackendType {
        match self {
            Backend::Local(_) => SyncBackendType::Local,
            Backend::GitHub(_) => SyncBackendType::GitHub,
            Backend::GoogleDrive(_) => SyncBackendType::GoogleDrive,
            Backend::GooglePhotos(_) => SyncBackendType::GooglePhotos,
        }
    }

    /// The backend's kind.
    pub fn backend_type(&self) -> (r: SyncBackendType)
        ensures
            r == self.kind(),
    {
        match self {
            Backend::Local(b) => b.backend_type(),
            Backend::GitHub(b) => b.backend_type(),
            Backend::GoogleDrive(b) => b.backend_type(),
            Backend::GooglePhotos(b) => b.backend_type(),
        }
    }

    /// The backend's display name.
    pub fn name(&self) -> (r: &'static str)
        ensures
            r@ == match self.kind() {
                SyncBackendType::Local => "Local Storage"@,
                SyncBackendType::GitHub => "GitHub"@,
                SyncBackendType::GoogleDrive => "Google Drive"@,
                SyncBackendType::GooglePhotos => "Google Photos"@,
            },
    {
        match self {
            Backend::Local(b) => b.name(),
            Backend::GitHub(b) => b.name(),
            Backend::GoogleDrive(b) => b.name(),
            Backend::GooglePhotos(b) => b.name(),
        }
    }
}

/// The owner and repository of `owner/repo` (leading `/` ignored; both parts non-empty; the
/// repository part is everything after the first `/`).
pub open spec fn repo_parts(repo_name: Seq<char>) -> Option<(Seq<char>, Seq<char>)> {
    let s = trim_leading(repo_name, '/');
    match first_index(s, '/') {
        Some(i) => if i > 0 && i + 1 < s.len() {
            Some((s.take(i), s.skip(i + 1)))
        } else {
            None
        },
        None => None,
    }
}

/// The refusal of a repository name not of the form `owner/repo`.
pub open spec fn bad_repo_message(repo_name: Seq<char>) -> Seq<char> {
    "Invalid repo name '"@ + repo_name + "'. Expected 'owner/repo'."@
}

/// Split a GitHub repository name `owner/repo` into its two parts.
pub fn parse_repo(repo_name: &str) -> (r: Result<(String, String), String>)
    ensures
        match repo_parts(repo_name@) {
            Some((owner, repo)) => r matches Ok((o, p)) && o@ == owner && p@ == repo,
            None => r matches Err(m) && m@ == bad_repo_message(repo_name@),
        },
{
    let c = chars_of(repo_name);
    let mut i: usize = 0;
    assert(c@.skip(0) =~= c@);
    while i < c.len() && c[i] == '/'
        invariant
            i <= c@.len(),
            trim_leading(c@, '/') == trim_leading(c@.skip(i as int), '/'),
        decreases c.len() - i,
    {
        assert(c@.skip(i as int).drop_first() =~= c@.skip(i + 1));
        i = i + 1;
    }
    let mut s: Vec<char> = Vec::new();
    let mut j: usize = i;
    while j < c.len()
        invariant
            i <= j <= c@.len(),
            s@ == c@.subrange(i as int, j as int),
        decreases c.len() - j,
    {
        s.push(c[j]);
        assert(c@.subrange(i as int, j + 1) =~= c@.subrange(i as int, j as int).push(c@[j as int]));
        j = j + 1;
    }
    assert(s@ =~= trim_leading(repo_name@, '/'));
    match crate::web::query::find_char(s.as_slice(), '/') {
        Some(k) => {
            if k > 0 && k + 1 < s.len() {
                let mut owner: Vec<char> = Vec::new();
                for t in 0..k
                    invariant
                        k < s@.len(),
                        owner@ == s@.take(t as int),
                {
                    owner.push(s[t]);
                    assert(s@.take(t + 1) =~= s@.take(t as int).push(s@[t as int]));
                }
                let mut repo: Vec<char> = Vec::new();
                let mut t: usize = k + 1;
                while t < s.len()
                    invariant
                        k + 1 <= t <= s@.len(),
                        repo@ == s@.subrange(k + 1, t as int),
                    decreases s.len() - t,
                {
                    repo.push(s[t]);
                    assert(s@.subrange(k + 1, t + 1) =~= s@.subrange(k + 1, t as int).push(s@[t as int]));
                    t = t + 1;
                }
                assert(repo@ =~= s@.skip(k + 1));
                return Ok((string_of(owner.as_slice()), string_of(repo.as_slice())));
            }
        },
        None => {},
    }
    let mut m = String::from_str("Invalid repo name '");
    m.append(repo_name);
    m.append("'. Expected 'owner/repo'.");
    Err(m)
}

/// The upper-case hexadecimal digit of a value below 16.
pub open spec fn hex_upper(d: int) -> char {
    if d < 10 {
        (('0' as int) + d) as char
    } else {
        (('A' as int) + d - 10) as char
    }
}

/// Whether a byte is one that URLs carry unencoded: an ASCII letter (65 to 90, 97 to 122) or
/// digit (48 to 57), or one of `-_.~` (45, 95, 46, 126).
pub open spec fn unreserved(b: u8) -> bool {
    ||| (65 <= b && b <= 90)
    ||| (97 <= b && b <= 122)
    ||| (48 <= b && b <= 57)
    ||| b == 45 || b == 95 || b == 46 || b == 126
}

/// The URL encoding of one byte: kept (as the ASCII character) when unreserved, else `%`
/// and its two upper-case hex digits.
pub open spec fn encode_byte(b: u8) -> Seq<char> {
    if unreserved(b) {
        seq![b as char]
    } else {
        seq!['%', hex_upper((b / 16) as int), hex_upper((b % 16) as int)]
    }
}

/// The percent encoding of a byte sequence, byte by byte.
pub open spec fn percent_encoded(bytes: Seq<u8>) -> Seq<char>
    decreases bytes.len(),
{
    if bytes.len() == 0 {
        Seq::empty()
    } else {
        percent_encoded(bytes.drop_last()) + encode_byte(bytes.last())
    }
}

/// The URL encoding of a text: each byte of its UTF-8 encoding, percent-encoded.
pub open spec fn url_encoded(s: Seq<char>) -> Seq<char> {
    percent_encoded(encode_utf8(s))
}

fn hex_digit_upper(d: u8) -> (r: char)
    requires
        d < 16,
    ensures
        r == hex_upper(d as int),
{
    if d < 10 {
        (48 + d) as char
    } else {
        (55 + d) as char
    }
}

/// URL-encode a text: the bytes of its UTF-8 encoding, with every byte but an ASCII letter,
/// digit or one of `-_.~` written as `%` and two upper-case hex digits.
pub fn urlencoding(s: &str) -> (r: String)
    ensures
        r@ == url_encoded(s@),
{
    let bytes = s.as_bytes();
    let mut out = String::new();
    assert(bytes@.take(0) =~= Seq::<u8>::empty());
    for i in 0..bytes.len()
        invariant
            bytes@ == encode_utf8(s@),
            out@ == percent_encoded(bytes@.take(i as int)),
    {
        let b = bytes[i];
        let ghost before = out@;
        assert(bytes@.take(i + 1).drop_last() =~= bytes@.take(i as int));
        assert(bytes@.take(i + 1).last() == b);
        if (65 <= b && b <= 90) || (97 <= b && b <= 122) || (48 <= b && b <= 57) || b == 45 || b == 95 || b == 46
            || b == 126 {
            push_char(&mut out, b as char);
        } else {
            push_char(&mut out, '%');
            push_char(&mut out, hex_digit_upper(b / 16));
            push_char(&mut out, hex_digit_upper(b % 16));
        }
        assert(out@ =~= before + encode_byte(b));
    }
    assert(bytes@.take(bytes@.len() as int) =~= bytes@);
    out
}

/// Build the backend a sync configuration names, or say which setting it lacks.
pub fn create_backend(config: &SyncConfig) -> (r: Result<Backend, String>)
    ensures
        match config.backend_type {
            SyncBackendType::Local => match config.base_path {
                Some(p) => r matches Ok(Backend::Local(b)) && b.base_path@ == p@,
                None => r matches Err(m) && m@ == "Local backend requires base_path"@,
            },
            SyncBackendType::GitHub => match (config.token, config.repo_name) {
                (Some(t), Some(n)) => r matches Ok(Backend::GitHub(b)) && b.token@ == t@ && b.repo_name@ == n@
                    && b.branch@ == match config.branch {
                    Some(br) => br@,
                    None => "main"@,
                },
                (None, _) => r matches Err(m) && m@ == "GitHub backend requires token"@,
                (Some(_), None) => r matches Err(m) && m@ == "GitHub backend requires repo_name"@,
            },
            SyncBackendType::GoogleDrive => match config.token {
                Some(t) => r matches Ok(Backend::GoogleDrive(b)) && b.token@ == t@ && opt_string(b.folder_id)
                    == opt_string(config.folder_id),
                None => r matches Err(m) && m@ == "Google Drive backend requires token"@,
            },
            SyncBackendType::GooglePhotos => match config.token {
                Some(t) => r matches Ok(Backend::GooglePhotos(b)) && b.token@ == t@ && opt_string(b.album_id)
                    == opt_string(config.album_id),
                None => r matches Err(m) && m@ == "Google Photos backend requires token"@,
            },
        },
{
    match config.backend_type {
        SyncBackendType::Local => match &config.base_path {
            Some(p) => Ok(Backend::Local(LocalBackend::new(p.as_str()))),
            None => Err(String::from_str("Local backend requires base_path")),
        },
        SyncBackendType::GitHub => {
            let token = match &config.token {
                Some(t) => t,
                None => return Err(String::from_str("GitHub backend requires token")),
            };
            let repo = match &config.repo_name {
                Some(n) => n,
                None => return Err(String::from_str("GitHub backend requires repo_name")),
            };
            let branch = match &config.branch {
                Some(b) => b.as_str(),
                None => "main",
            };
            Ok(Backend::GitHub(GitHubBackend::new(token.as_str(), repo.as_str(), branch)))
        },
        SyncBackendType::GoogleDrive => match &config.token {
            Some(t) => {
                let folder = match &config.folder_id {
                    Some(f) => Some(f.as_str()),
                    None => None,
                };
                Ok(Backend::GoogleDrive(GoogleDriveBackend::new(t.as_str(), folder)))
            },
            None => Err(String::from_str("Google Drive backend requires token")),
        },
        SyncBackendType::GooglePhotos => match &config.token {
            Some(t) => {
                let album = match &config.album_id {
                    Some(a) => Some(a.as_str()),
                    None => None,
                };
                Ok(Backend::GooglePhotos(GooglePhotosBackend::new(t.as_str(), album)))
            },
            None => Err(String::from_str("Google Photos backend requires token")),
        },
    }
}

} // verus!
