use cybermanju_drive::access::argon2_hash_password;
use cybermanju_drive::web::embedded::{
    embedded_json_error, embedded_login, embedded_not_found, embedded_permission, embedded_register,
    embedded_response, embedded_route, embedded_search_matches, embedded_search_term, embedded_verify_access,
    header_content_length, missing_credentials, EmbeddedKind, WebPermissionEntry, WebUser,
};

fn user(name: Option<&str>, active: Option<bool>, hash: Option<&str>) -> WebUser {
    WebUser {
        username: name.map(|s| s.to_string()),
        is_active: active,
        password_hash: hash.map(|s| s.to_string()),
    }
}

#[test]
fn embedded_responses_frame_status_headers_and_body() {
    let r = embedded_response(409, "text/plain", "héllo");
    assert_eq!(
        r,
        "HTTP/1.1 409 Conflict\r\nContent-Type: text/plain\r\nAccess-Control-Allow-Origin: *\r\nAccess-Control-Allow-Headers: Content-Type, Authorization\r\nAccess-Control-Allow-Methods: GET, POST, PUT, DELETE, OPTIONS\r\nContent-Length: 6\r\n\r\nhéllo"
    );
    assert!(embedded_response(302, "a", "").starts_with("HTTP/1.1 302 OK\r\n"));
    let e = embedded_json_error(400, "bad \"x\"");
    assert!(e.ends_with("\r\n\r\n{\"error\":true,\"message\":\"bad \\\"x\\\"\",\"status\":400}"));
    assert!(e.starts_with("HTTP/1.1 400 Bad Request\r\n"));
    assert!(embedded_not_found("PUT", "/api/x?y=1").ends_with("{\"error\":true,\"message\":\"Not found: PUT /api/x?y=1\",\"status\":404}"));
}

#[test]
fn embedded_routes_follow_the_servers_table() {
    let p = embedded_route("GET", "/api/files/abc?x=1");
    assert_eq!(p.kind, EmbeddedKind::GetFile);
    assert_eq!(p.item, "abc");
    assert_eq!(p.query, "x=1");
    assert_eq!(embedded_route("DELETE", "/api/files/abc").kind, EmbeddedKind::DeleteFile);
    assert_eq!(embedded_route("GET", "//api//files/").kind, EmbeddedKind::ListFiles);
    assert_eq!(embedded_route("OPTIONS", "/anything").kind, EmbeddedKind::Preflight);
    assert_eq!(embedded_route("POST", "/api/permissions/verify").kind, EmbeddedKind::VerifyAccess);
    let p = embedded_route("GET", "/api/permissions/verify");
    assert_eq!(p.kind, EmbeddedKind::FilePermissions);
    assert_eq!(p.item, "verify");
    assert_eq!(embedded_route("POST", "/api/permissions").kind, EmbeddedKind::SetPermission);
    assert_eq!(embedded_route("POST", "/api/users/login").kind, EmbeddedKind::Login);
    assert_eq!(embedded_route("GET", "/api/users/login").kind, EmbeddedKind::NotFound);
    assert_eq!(embedded_route("GET", "/api").kind, EmbeddedKind::Health);
    assert_eq!(embedded_route("GET", "/api/health").kind, EmbeddedKind::Health);
    assert_eq!(embedded_route("GET", "/api/search?q=a").query, "q=a");
    let p = embedded_route("GET", "/nope");
    assert_eq!(p.kind, EmbeddedKind::NotFound);
    assert_eq!(p.item, "");
}

#[test]
fn embedded_header_lines_give_the_body_length() {
    assert_eq!(header_content_length("Content-Length: 42\r\n"), Some(42));
    assert_eq!(header_content_length("  CONTENT-LENGTH:+7  "), Some(7));
    assert_eq!(header_content_length("content-length: abc"), Some(0));
    assert_eq!(header_content_length("content-length: -1"), Some(0));
    assert_eq!(header_content_length("content-length: 99999999999999999999999"), Some(0));
    assert_eq!(header_content_length("Content-Type: text/plain"), None);
    assert_eq!(header_content_length("content-len"), None);
}

#[test]
fn embedded_login_checks_in_order() {
    let hash = argon2_hash_password("secret").unwrap();
    let users = vec![
        user(None, None, None),
        user(Some("bob"), Some(false), Some(&hash)),
        user(Some("amy"), None, None),
        user(Some("eve"), Some(true), Some(&hash)),
        user(Some("eve"), Some(false), Some(&hash)),
        user(Some("zed"), None, Some("not-a-hash")),
    ];
    assert_eq!(embedded_login(&users, "", "x"), Err((400, "username and password are required".to_string())));
    assert_eq!(missing_credentials("a", ""), Some((400, "username and password are required".to_string())));
    assert_eq!(missing_credentials("a", "b"), None);
    assert_eq!(embedded_login(&users, "nobody", "x"), Err((401, "Invalid credentials".to_string())));
    assert_eq!(embedded_login(&users, "bob", "secret"), Err((403, "User account is deactivated".to_string())));
    assert_eq!(embedded_login(&users, "amy", "secret"), Err((500, "User record has no password hash".to_string())));
    assert_eq!(embedded_login(&users, "eve", "wrong"), Err((401, "Invalid credentials".to_string())));
    let (index, token) = embedded_login(&users, "eve", "secret").unwrap();
    assert_eq!(index, 3);
    assert_eq!(token.len(), 64);
    let (status, message) = embedded_login(&users, "zed", "x").unwrap_err();
    assert_eq!(status, 500);
    assert!(message.starts_with("Password verification error: Invalid hash: "));
}

#[test]
fn embedded_registration_refuses_missing_and_taken_names() {
    let users = vec![user(Some("amy"), None, None)];
    assert_eq!(
        embedded_register(&users, "amy", "pw", None, None).err(),
        Some((409, "Username 'amy' already exists".to_string()))
    );
    assert_eq!(
        embedded_register(&users, "", "pw", None, None).err(),
        Some((400, "username and password are required".to_string()))
    );
    let u = embedded_register(&users, "ben", "pw", Some("Ben".to_string()), None).unwrap();
    assert_eq!(u.username, "ben");
    assert_eq!(u.role, "user");
    assert!(u.is_active);
    assert_eq!(u.id.len(), 36);
    assert_eq!(u.display_name.as_deref(), Some("Ben"));
    assert_eq!(u.created_at, u.updated_at);
    assert!(u.password_hash.starts_with("$argon2"));
    let u = embedded_register(&users, "cat", "pw", None, Some("admin".to_string())).unwrap();
    assert_eq!(u.role, "admin");
}

#[test]
fn embedded_permissions_are_validated_and_checked() {
    assert_eq!(
        embedded_permission("u", "", "read").err(),
        Some((400, "user_id, file_id, and access are required".to_string()))
    );
    assert_eq!(
        embedded_permission("u", "f", "owner").err(),
        Some((400, "access must be 'read', 'write', or 'admin'".to_string()))
    );
    let p = embedded_permission("u", "f", "write").unwrap();
    assert_eq!((p.user_id.as_str(), p.file_id.as_str(), p.access.as_str(), p.granted_by.as_str()), ("u", "f", "write", "system"));
    assert_eq!(p.id.len(), 36);

    let perms = vec![
        WebPermissionEntry { user_id: "u".into(), file_id: "f".into(), access: "read".into() },
        WebPermissionEntry { user_id: "u".into(), file_id: "f".into(), access: "write".into() },
    ];
    let v = embedded_verify_access(Some("admin"), &Vec::new(), "u", "f", "admin");
    assert!(v.granted);
    assert_eq!(v.reason, "admin_role");
    let v = embedded_verify_access(Some("user"), &perms, "u", "f", "write");
    assert!(v.granted);
    assert_eq!(v.reason, "permission_match");
    let v = embedded_verify_access(None, &perms, "u", "f", "admin");
    assert!(!v.granted);
    assert_eq!(v.reason, "no_matching_permission");
    let v = embedded_verify_access(None, &perms, "u", "g", "read");
    assert!(!v.granted);
}

#[test]
fn embedded_search_decodes_and_lowercases_the_term() {
    assert_eq!(embedded_search_term("a=1&q=Caf%C3+Notes"), "cafã notes");
    assert_eq!(embedded_search_term("x=1"), "");
    assert!(embedded_search_matches("Report.PDF", "/docs", "", "report"));
    assert!(embedded_search_matches("a", "b", "Quarterly NOTES", "notes"));
    assert!(!embedded_search_matches("a", "b", "c", "zz"));
    assert!(embedded_search_matches("a", "b", "c", ""));
}

#[test]
fn error_messages_are_escaped_as_json_strings() {
    let r = cybermanju_drive::web::http::json_error(400, "a\"b\\c\n\t\u{1}\u{8}\u{c}\r/é");
    assert!(r.ends_with("\r\n\r\n{\"error\":\"a\\\"b\\\\c\\n\\t\\u0001\\b\\f\\r/é\"}"));
    let r = embedded_json_error(500, "\u{1f}");
    assert!(r.ends_with("{\"error\":true,\"message\":\"\\u001f\",\"status\":500}"));
}
