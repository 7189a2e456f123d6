use cybermanju_drive::access::{
    argon2_hash_password, argon2_verify_password, authenticate_user, register_user, set_file_permission,
    verify_file_access,
};
use cybermanju_drive::accounts::{check_deletable, new_account, switch_account};
use cybermanju_drive::audit::{select_audit, AuditKey};
use cybermanju_drive::keystore::{
    algorithm_info, check_encryptable, encryption_label, encryption_status, key_info, latest_key, new_key_record,
    reconstruct_keypair, str_greater,
};
use cybermanju_drive::membership::{IndexEntry, add_all_unique, add_unique, entry_without, find_collection_item, new_collection, relink, remove_id};
use cybermanju_drive::schema::{Account, CollectionItem, EncryptionKey, ShareLink, User, UserFilePermission};
use cybermanju_drive::sharing::{
    check_share_link, check_share_link_now, create_share_link, dashboard_status_for, find_share_link, share_link_result,
};
use cybermanju_drive::versions::{is_version_key, new_version, next_version_number};
use cybermanju_drive::crypto::pqc::algorithm_from_str;

fn key(id: &str, algorithm: &str, created_at: &str) -> EncryptionKey {
    EncryptionKey {
        id: id.to_string(),
        algorithm: algorithm.to_string(),
        public_key: "AAECAwQFBgcICQoLDA0ODxAR".to_string(),
        private_key: "AQID".to_string(),
        label: None,
        created_at: created_at.to_string(),
    }
}

#[test]
fn test_algorithm_info_agrees_with_algorithms() {
    for name in ["kyber1024", "kyber768", "kyber512", "hybrid", "classical_sign", "hmac", "sphincsplus", "sphincs+", "aes256", "chacha20"] {
        let a = algorithm_from_str(name).unwrap();
        let (display, level, _) = algorithm_info(name);
        assert_eq!(display, a.display_name());
        assert_eq!(level, a.nist_level());
    }
    for name in ["ml-dsa-44", "ml_dsa65", "dilithium5"] {
        let a = algorithm_from_str(name).unwrap();
        let (display, level, _) = algorithm_info(name);
        assert!(display.starts_with(a.display_name()));
        assert_eq!(level, a.nist_level());
    }
    assert_eq!(algorithm_info("rsa"), ("Unknown", 0, "#6B7280"));
}

#[test]
fn test_algorithm_info_table() {
    assert_eq!(algorithm_info("kyber1024"), ("ML-KEM-1024 — FIPS 203", 5, "#00FF41"));
    assert_eq!(algorithm_info("ml-dsa-65"), ("ML-DSA-65 — FIPS 204 (NIST Level 3)", 3, "#A855F7"));
    assert_eq!(algorithm_info("sphincs+"), ("HMAC-SHA512 (Classical — NOT post-quantum)", 0, "#6B7280"));
    assert_eq!(algorithm_info("nope"), ("Unknown", 0, "#6B7280"));
    assert_eq!(encryption_label("aes256"), "ChaCha20Poly1305 (Classical)+ChaCha20Poly1305");
}

#[test]
fn test_check_encryptable() {
    assert!(check_encryptable("sphincsplus").is_ok());
    assert!(check_encryptable("sphincs+").unwrap_err().starts_with("Unsupported algorithm: sphincs+. Supported: kyber512"));
}

#[test]
fn test_latest_key_selection() {
    let keys = vec![
        key("a", "hybrid", "2024-01-01T00:00:00+00:00"),
        key("b", "aes256", "2025-01-01T00:00:00+00:00"),
        key("c", "hybrid", "2024-06-01T00:00:00+00:00"),
        key("d", "hybrid", "2024-06-01T00:00:00+00:00"),
    ];
    assert_eq!(latest_key(&keys, Some("hybrid")), Some(2));
    assert_eq!(latest_key(&keys, None), Some(1));
    assert_eq!(latest_key(&keys, Some("kyber1024")), None);
    assert!(str_greater("b", "a"));
    assert!(str_greater("ab", "a"));
    assert!(!str_greater("a", "a"));
}

#[test]
fn test_key_info_preview() {
    let info = key_info(&key("a", "kyber1024", "t"));
    assert_eq!(info.public_key_preview, "AAECAwQFBgcICQoLDA0ODw==...");
    assert_eq!(info.algorithm_display, "ML-KEM-1024 — FIPS 203");
    assert!(info.has_private_key);
    let mut odd = key("b", "x", "t");
    odd.public_key = "not base64 at all, clearly".to_string();
    assert_eq!(key_info(&odd).public_key_preview, "not base64 at al...");
    odd.public_key = "short!".to_string();
    assert_eq!(key_info(&odd).public_key_preview, "short!");
}

#[test]
fn test_encryption_status_from_latest() {
    let k = key("a", "hybrid", "2024");
    let s = encryption_status(Some(&k), false);
    assert!(s.is_encrypted);
    assert_eq!(s.nist_level, Some(5));
    assert_eq!(s.key_id.as_deref(), Some("a"));
    let unknown = key("b", "mystery", "2024");
    assert!(!encryption_status(Some(&unknown), false).is_encrypted);
    assert!(encryption_status(Some(&unknown), true).is_encrypted);
    assert!(encryption_status(None, true).algorithm.is_none());
}

#[test]
fn test_new_key_record_reconstructs() {
    let rec = new_key_record("aes256").unwrap();
    assert_eq!(rec.label.as_deref(), Some("ChaCha20Poly1305 (Classical) keypair"));
    let kp = reconstruct_keypair(&rec).unwrap();
    assert_eq!(kp.private_key.len(), 32);
    assert_eq!(kp.public_key, kp.private_key);
    assert_eq!(
        new_key_record("rot13").unwrap_err(),
        "Unsupported algorithm: rot13. Supported: kyber1024, hybrid, ml_dsa44, ml_dsa65, ml_dsa87, classical_sign, aes256"
    );
    let mut bad = rec.clone();
    bad.algorithm = "zzz".to_string();
    assert_eq!(reconstruct_keypair(&bad).unwrap_err(), "Unknown algorithm: zzz");
    let mut bad_key = rec.clone();
    bad_key.public_key = "%%%".to_string();
    assert!(reconstruct_keypair(&bad_key).unwrap_err().starts_with("Failed to decode public key: "));
}

fn user(id: &str, name: &str, hash: &str, role: &str, active: bool) -> User {
    User {
        id: id.to_string(),
        username: name.to_string(),
        password_hash: hash.to_string(),
        display_name: None,
        role: role.to_string(),
        is_active: active,
        created_at: String::new(),
        updated_at: String::new(),
    }
}

#[test]
fn test_register_then_authenticate() {
    let mut users: Vec<User> = Vec::new();
    let u = register_user(&users, "alice", "s3cret", Some("Alice".to_string()), None).unwrap();
    assert_eq!(u.role, "user");
    assert!(u.password_hash.starts_with("$argon2"));
    users.push(u.clone());
    assert_eq!(
        register_user(&users, "alice", "x", None, None).unwrap_err(),
        "Username 'alice' already exists"
    );
    assert_eq!(
        register_user(&users, "bob", "x", None, Some("root".to_string())).unwrap_err(),
        "Invalid role: root. Must be admin, user, or viewer"
    );
    assert_eq!(register_user(&users, "", "x", None, None).unwrap_err(), "Username and password are required");
    let auth = authenticate_user(&users, "alice", "s3cret").unwrap();
    assert_eq!(auth.user_id, u.id);
    assert_eq!(auth.token.len(), 64);
    assert_eq!(authenticate_user(&users, "alice", "wrong").unwrap_err(), "Invalid username or password");
    assert_eq!(authenticate_user(&users, "carol", "x").unwrap_err(), "Invalid username or password");
}

#[test]
fn test_authenticate_legacy_and_disabled() {
    let legacy_hash = blake3::hash(b"pw").to_hex().to_string();
    let users = vec![user("1", "old", &legacy_hash, "user", true), user("2", "off", &legacy_hash, "user", false)];
    assert!(authenticate_user(&users, "old", "pw").is_ok());
    assert_eq!(authenticate_user(&users, "off", "pw").unwrap_err(), "User account is disabled");
}

#[test]
fn argon2_hashes_verify_their_password() {
    let h = argon2_hash_password("pw").unwrap();
    assert_eq!(argon2_verify_password("pw", &h), Ok(true));
    assert_eq!(argon2_verify_password("nope", &h), Ok(false));
    assert!(argon2_verify_password("pw", "garbage").unwrap_err().starts_with("Invalid hash format: "));
}

fn perm(id: &str, user_id: &str, file_id: &str, access: &str) -> UserFilePermission {
    UserFilePermission {
        id: id.to_string(),
        user_id: user_id.to_string(),
        file_id: file_id.to_string(),
        access: access.to_string(),
        granted_by: "sys".to_string(),
        granted_at: String::new(),
    }
}

#[test]
fn test_verify_file_access() {
    let perms = vec![perm("p1", "u1", "f1", "read"), perm("p2", "u2", "f1", "write")];
    let users = vec![user("u3", "admin", "", "admin", true), user("u4", "ex", "", "admin", false)];
    assert!(verify_file_access(&perms, &users, "u1", "f1", "read"));
    assert!(!verify_file_access(&perms, &users, "u1", "f1", "write"));
    assert!(verify_file_access(&perms, &users, "u2", "f1", "read"));
    assert!(verify_file_access(&perms, &users, "u3", "f9", "admin"));
    assert!(!verify_file_access(&perms, &users, "u4", "f9", "read"));
    assert!(verify_file_access(&perms, &users, "u1", "f1", "whatever"));
}

#[test]
fn test_set_file_permission() {
    let perms = vec![perm("p1", "u1", "f1", "read"), perm("p2", "u1", "f1", "admin")];
    let (replaced, p) = set_file_permission(&perms, "u1", "f1", "write", "me").unwrap();
    assert_eq!(replaced.as_deref(), Some("p1"));
    assert_eq!(p.access, "write");
    let (none, _) = set_file_permission(&perms, "u9", "f1", "read", "me").unwrap();
    assert!(none.is_none());
    assert_eq!(
        set_file_permission(&perms, "u1", "f1", "owner", "me").unwrap_err(),
        "Invalid access level: owner. Must be read, write, or admin"
    );
}

fn account(id: &str, active: bool) -> Account {
    Account {
        id: id.to_string(),
        name: id.to_string(),
        account_type: "local".to_string(),
        path: None,
        color: "#fff".to_string(),
        is_active: active,
        created_at: "c".to_string(),
        updated_at: "u".to_string(),
    }
}

#[test]
fn test_accounts() {
    let first = new_account(false, "Main".to_string(), "local".to_string(), None, None, "now".to_string());
    assert!(first.is_active);
    assert_eq!(first.color, "#6366f1");
    let second = new_account(true, "B".to_string(), "cloud".to_string(), None, Some("#000".to_string()), "now".to_string());
    assert!(!second.is_active);

    let mut accounts = vec![account("a", true), account("b", false), account("c", false)];
    let k = switch_account(&mut accounts, "b", &"t2".to_string()).unwrap();
    assert_eq!(k, 1);
    assert_eq!(accounts.iter().filter(|a| a.is_active).count(), 1);
    assert!(accounts[1].is_active);
    assert!(accounts.iter().all(|a| a.updated_at == "t2"));
    let before: Vec<bool> = accounts.iter().map(|a| a.is_active).collect();
    assert_eq!(switch_account(&mut accounts, "zz", &"t3".to_string()).unwrap_err(), "Account not found: zz");
    assert_eq!(accounts.iter().map(|a| a.is_active).collect::<Vec<_>>(), before);

    assert_eq!(
        check_deletable(Some(&accounts[1]), "b").unwrap_err(),
        "Cannot delete the active account. Switch to another account first."
    );
    assert!(check_deletable(Some(&accounts[0]), "a").is_ok());
    assert_eq!(check_deletable(None, "q").unwrap_err(), "Account not found: q");
}

#[test]
fn test_membership_lists() {
    let mut ids = vec!["a".to_string(), "b".to_string()];
    add_unique(&mut ids, "b");
    add_unique(&mut ids, "c");
    assert_eq!(ids, vec!["a", "b", "c"]);
    let mut with_dup = vec!["x".to_string(), "y".to_string(), "x".to_string()];
    remove_id(&mut with_dup, "x");
    assert_eq!(with_dup, vec!["y"]);
    let original = vec!["p".to_string(), "q".to_string()];
    let mut ids2 = original.clone();
    add_unique(&mut ids2, "r");
    remove_id(&mut ids2, "r");
    assert_eq!(ids2, original);
    match entry_without(vec!["only".to_string()], "only") {
        IndexEntry::Delete => {},
        IndexEntry::Store(_) => panic!("expected the entry to be deleted"),
    }
    match entry_without(vec!["a".to_string(), "b".to_string()], "a") {
        IndexEntry::Store(v) => assert_eq!(v, vec!["b"]),
        IndexEntry::Delete => panic!("expected remaining children"),
    }
}

#[test]
fn test_find_collection_item() {
    let items = vec![
        CollectionItem { id: "i1".into(), collection_id: "c1".into(), file_id: "f1".into(), note: None, added_at: String::new() },
        CollectionItem { id: "i2".into(), collection_id: "c2".into(), file_id: "f1".into(), note: None, added_at: String::new() },
    ];
    assert_eq!(find_collection_item(&items, "c2", "f1"), Some(1));
    assert_eq!(find_collection_item(&items, "c3", "f1"), None);
}

#[test]
fn test_versions() {
    assert!(is_version_key("file1/v3", "file1"));
    assert!(!is_version_key("file10/v3", "file1"));
    assert!(!is_version_key("file1", "file1"));
    assert_eq!(next_version_number(&vec![]), 1);
    assert_eq!(next_version_number(&vec![3, 7, 2]), 8);
    let v = new_version("f", &vec![1, 2], None, 10, None, "now".to_string());
    assert_eq!(v.id, "f/v3");
    assert_eq!(v.version_number, 3);
}

#[test]
fn test_share_links() {
    let link = create_share_link("file1", 0);
    assert_eq!(link.token.len(), 43);
    assert_eq!(link.file_id, "file1");
    let links = vec![link.clone()];
    assert_eq!(find_share_link(&links, &link.token), Some(0));
    assert_eq!(find_share_link(&links, "nope"), None);
    assert_eq!(check_share_link(Some(true)).unwrap_err(), "Share link has expired");
    assert!(check_share_link(None).is_ok());
    let result = share_link_result(link.clone());
    assert_eq!(result.url, format!("/api/share/{}", link.token));
    let with = ShareLink { url: None, ..link }.with_url();
    assert_eq!(with.url, Some(format!("http://localhost:3456/api/shared/{}", with.token)));
}

#[test]
fn adding_lists_and_moving_references() {
    let mut ids = vec!["a".to_string(), "b".to_string()];
    add_all_unique(&mut ids, &vec!["b".to_string(), "c".to_string(), "c".to_string()]);
    assert_eq!(ids, vec!["a", "b", "c"]);
    let mut refs = vec!["g1".to_string(), "g2".to_string(), "g1".to_string()];
    relink(&mut refs, "g1", "g3");
    assert_eq!(refs, vec!["g2", "g3"]);
    relink(&mut refs, "g2", "g3");
    assert_eq!(refs, vec!["g3"]);
}

fn audit_key(entity_type: &str, timestamp: &str) -> AuditKey {
    AuditKey { entity_type: entity_type.to_string(), timestamp: timestamp.to_string() }
}

#[test]
fn audit_entries_newest_first_with_type_and_limit() {
    let keys = vec![
        audit_key("file", "2024-01-02T00:00:00Z"),
        audit_key("user", "2024-01-03T00:00:00Z"),
        audit_key("file", "2024-01-01T00:00:00Z"),
        audit_key("file", "2024-01-02T00:00:00Z"),
    ];
    assert_eq!(select_audit(&keys, None, None), vec![1, 0, 3, 2]);
    assert_eq!(select_audit(&keys, Some(2), Some("file")), vec![0, 3]);
    assert_eq!(select_audit(&keys, Some(0), None), Vec::<usize>::new());
    assert_eq!(select_audit(&keys, None, Some("account")), Vec::<usize>::new());
    let many: Vec<AuditKey> = (0..150).map(|i| audit_key("file", &format!("{:03}", i))).collect();
    let top = select_audit(&many, None, None);
    assert_eq!(top.len(), 100);
    assert_eq!(top[0], 149);
    assert_eq!(top[99], 50);
}

#[test]
fn share_links_last_the_asked_hours_or_a_year() {
    let micros = |t: &str| chrono::DateTime::parse_from_rfc3339(t).unwrap().timestamp_micros();
    let link = create_share_link("f", 5);
    assert_eq!(micros(&link.expires_at) - micros(&link.created_at), 5 * 3_600_000_000);
    let link = create_share_link("f", 0);
    assert_eq!(micros(&link.expires_at) - micros(&link.created_at), 8760 * 3_600_000_000);
    assert!(check_share_link_now(&link).is_ok());
    let old = ShareLink { expires_at: "2001-01-01T00:00:00Z".to_string(), ..link.clone() };
    assert_eq!(check_share_link_now(&old).unwrap_err(), "Share link has expired");
    let odd = ShareLink { expires_at: "someday".to_string(), ..link };
    assert!(check_share_link_now(&odd).is_ok());
}

#[test]
fn dashboard_status_reports_the_default_port() {
    let s = dashboard_status_for(true);
    assert!(s.running);
    assert_eq!(s.port, 3456);
    assert_eq!(s.url, "http://localhost:3456");
    assert_eq!(s.active_connections, 0);
    assert!(!dashboard_status_for(false).running);
}

#[test]
fn new_collections_start_empty() {
    let c = new_collection("Trip".into(), "custom".into(), "#fff".into(), Some("d".into()), "now".into());
    assert_eq!(c.name, "Trip");
    assert_eq!(c.collection_type, "custom");
    assert_eq!(c.color, "#fff");
    assert_eq!(c.description.as_deref(), Some("d"));
    assert!(c.item_ids.is_empty());
    assert_eq!(c.created_at, "now");
    assert_eq!(c.updated_at, "now");
    assert_eq!(c.id.len(), 36);
}
