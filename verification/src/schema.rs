//! Records stored in the database, one JSON document per key.
use vstd::prelude::*;

verus! {

/// A storage origin (local, cloud or network).
#[derive(Debug, Clone)]
pub struct Account {
    pub id: String,
    pub name: String,
    /// `local`, `cloud` or `network`.
    pub account_type: String,
    pub path: Option<String>,
    pub color: String,
    pub is_active: bool,
    pub created_at: String,
    pub updated_at: String,
}

/// A curated group of files.
#[derive(Debug, Clone)]
pub struct Collection {
    pub id: String,
    pub name: String,
    /// `highlights`, `best_moments` or `custom`.
    pub collection_type: String,
    pub color: String,
    pub description: Option<String>,
    pub item_ids: Vec<String>,
    pub created_at: String,
    pub updated_at: String,
}

/// A link between a file and a collection.
#[derive(Debug, Clone)]
pub struct CollectionItem {
    pub id: String,
    pub collection_id: String,
    pub file_id: String,
    pub note: Option<String>,
    pub added_at: String,
}

/// A stored key pair, its key material in Base64.
#[derive(Debug, Clone)]
pub struct EncryptionKey {
    pub id: String,
    pub algorithm: String,
    pub public_key: String,
    pub private_key: String,
    pub label: Option<String>,
    pub created_at: String,
}

/// A user-defined ad-hoc grouping of files.
#[derive(Debug, Clone)]
pub struct LooseGroup {
    pub id: String,
    pub name: String,
    pub color: String,
    pub file_ids: Vec<String>,
    pub created_at: String,
}

/// An application user with a role.
#[derive(Debug, Clone)]
pub struct User {
    pub id: String,
    pub username: String,
    pub password_hash: String,
    pub display_name: Option<String>,
    /// `admin`, `user` or `viewer`.
    pub role: String,
    pub is_active: bool,
    pub created_at: String,
    pub updated_at: String,
}

/// Access of one user to one file.
#[derive(Debug, Clone)]
pub struct UserFilePermission {
    pub id: String,
    pub user_id: String,
    pub file_id: String,
    /// `read`, `write` or `admin`.
    pub access: String,
    pub granted_by: String,
    pub granted_at: String,
}

/// A numbered snapshot of a file.
#[derive(Debug, Clone)]
pub struct FileVersion {
    pub id: String,
    pub file_id: String,
    pub version_number: u32,
    pub hash_blake3: Option<String>,
    pub size_bytes: u64,
    pub snapshot_data: Option<String>,
    pub created_at: String,
}

/// A token that gives access to one file until it expires.
#[derive(Debug, Clone)]
pub struct ShareLink {
    pub id: String,
    pub file_id: String,
    pub token: String,
    pub expires_at: String,
    pub created_at: String,
    pub url: Option<String>,
}

/// The public address of a share token on the local server.
pub open spec fn share_url(token: Seq<char>) -> Seq<char> {
    "http://localhost:3456/api/shared/"@ + token
}

impl ShareLink {
    /// The link with its public address filled in.
    pub fn with_url(self) -> (r: ShareLink)
        ensures
            r.url matches Some(u) && u@ == share_url(self.token@),
            r.id == self.id,
            r.file_id == self.file_id,
            r.token == self.token,
            r.expires_at == self.expires_at,
            r.created_at == self.created_at,
    {
        let mut url = String::from_str("http://localhost:3456/api/shared/");
        url.append(self.token.as_str());
        ShareLink { url: Some(url), ..self }
    }
}

} // verus!
