use cybermanju_drive::web::routes::is_secret_field;
use cybermanju_drive::web::jwt::{admit_request, create_jwt, verify_request_token};
use cybermanju_drive::web::server::{
    cors_preflight_for, dispatch, header_authorization, header_origin, is_allowed_origin, Dispatch,
};
use cybermanju_drive::text::contains_text;
use cybermanju_drive::web::search::{matches_search, search_term};
use cybermanju_drive::web::http::{
    cors_preflight_response, http_response, json_error, mime_type, status_text, DEFAULT_PORT,
};
use cybermanju_drive::web::limits::{RateLimiter, RATE_LIMIT_MAX, RATE_LIMIT_WINDOW_SECS};
use cybermanju_drive::web::query::{parse_query_param, parse_query_param_decoded, url_decode};
use cybermanju_drive::web::routes::{access_level_sufficient, bearer_token, not_found_response, plan_request, Route};
use cybermanju_drive::web::statics::{serve_static_file, static_header, static_target, StaticOutcome};

#[test]
fn test_mime_type() {
    assert_eq!(mime_type("test.html"), "text/html; charset=utf-8");
    assert_eq!(mime_type("style.css"), "text/css; charset=utf-8");
    assert_eq!(mime_type("app.js"), "application/javascript; charset=utf-8");
    assert_eq!(mime_type("data.json"), "application/json; charset=utf-8");
    assert_eq!(mime_type("image.png"), "image/png");
    assert_eq!(mime_type("photo.jpg"), "image/jpeg");
    assert_eq!(mime_type("photo.jpeg"), "image/jpeg");
    assert_eq!(mime_type("anim.gif"), "image/gif");
    assert_eq!(mime_type("icon.svg"), "image/svg+xml");
    assert_eq!(mime_type("icon.ico"), "image/x-icon");
    assert_eq!(mime_type("font.woff"), "font/woff");
    assert_eq!(mime_type("font.woff2"), "font/woff2");
    assert_eq!(mime_type("font.ttf"), "font/ttf");
    assert_eq!(mime_type("doc.pdf"), "application/pdf");
    assert_eq!(mime_type("archive.zip"), "application/zip");
    assert_eq!(mime_type("code.wasm"), "application/wasm");
    assert_eq!(mime_type("data.xml"), "application/xml; charset=utf-8");
    assert_eq!(mime_type("readme.txt"), "text/plain; charset=utf-8");
    assert_eq!(mime_type("data.csv"), "text/csv; charset=utf-8");
    assert_eq!(mime_type("unknown.xyz"), "application/octet-stream");
}

#[test]
fn test_mime_type_no_extension() {
    assert_eq!(mime_type("Makefile"), "application/octet-stream");
}

#[test]
fn test_mime_type_uses_last_dot() {
    assert_eq!(mime_type("bundle.min.js"), "application/javascript; charset=utf-8");
    assert_eq!(mime_type("/assets.v2/logo"), "application/octet-stream");
    assert_eq!(mime_type("archive.tar.gz"), "application/gzip");
}

#[test]
fn test_serve_static_file_exists() {
    let _ = serve_static_file;
}

#[test]
fn test_default_port() {
    assert_eq!(DEFAULT_PORT, 3456);
}

#[test]
fn test_status_text() {
    assert_eq!(status_text(200), "OK");
    assert_eq!(status_text(204), "No Content");
    assert_eq!(status_text(401), "Unauthorized");
    assert_eq!(status_text(418), "Unknown");
}

#[test]
fn test_http_response_exact() {
    let r = http_response(200, "text/plain", "héllo");
    assert_eq!(
        r,
        "HTTP/1.1 200 OK\r\nContent-Type: text/plain\r\nContent-Length: 6\r\nAccess-Control-Allow-Origin: *\r\nAccess-Control-Allow-Methods: GET, POST, PUT, DELETE, OPTIONS\r\nAccess-Control-Allow-Headers: Content-Type, Authorization\r\n\r\nhéllo"
    );
}

#[test]
fn test_json_error_body() {
    let r = json_error(404, "Not found: GET /x \"q\"");
    assert!(r.starts_with("HTTP/1.1 404 Not Found\r\n"));
    assert!(r.ends_with("{\"error\":\"Not found: GET /x \\\"q\\\"\"}"));
}

#[test]
fn test_cors_preflight() {
    let r = cors_preflight_response();
    assert!(r.starts_with("HTTP/1.1 204 No Content"));
    assert!(r.contains("Access-Control-Allow-Origin"));
    assert!(r.contains("Access-Control-Max-Age: 86400"));
}

#[test]
fn test_parse_query_param() {
    assert_eq!(parse_query_param("q=hello%20world&x=1", "q"), Some("hello world".to_string()));
    assert_eq!(parse_query_param("a=1&b=x%26y%3Dz", "b"), Some("x&y=z".to_string()));
    assert_eq!(parse_query_param("a=1&b", "b"), None);
    assert_eq!(parse_query_param("a=1&a=2", "a"), Some("1".to_string()));
    assert_eq!(parse_query_param("k=v=w", "k"), Some("v=w".to_string()));
    assert_eq!(parse_query_param("", "q"), None);
}

#[test]
fn test_url_decode() {
    assert_eq!(url_decode("a+b%41%zz%4"), "a bA%zz%4");
    assert_eq!(url_decode("%+5"), "\u{5}");
    assert_eq!(url_decode("100%"), "100%");
    assert_eq!(parse_query_param_decoded("q=caf%E9+au+lait", "q"), Some("caf\u{e9} au lait".to_string()));
}

#[test]
fn test_plan_request_routes() {
    let p = plan_request("GET", "/api/files?x=1");
    assert_eq!(p.route, Route::Files);
    assert!(p.requires_auth);
    assert_eq!(p.query, "x=1");
    assert_eq!(p.segments, vec!["api".to_string(), "files".to_string()]);

    let h = plan_request("GET", "//api//health/");
    assert_eq!(h.route, Route::Health);
    assert!(!h.requires_auth);

    assert_eq!(plan_request("POST", "/api/users/login").route, Route::Login);
    assert_eq!(plan_request("GET", "/api/users/login").route, Route::NotFound);
    assert!(!plan_request("GET", "/api/users/login").requires_auth);
    assert_eq!(plan_request("OPTIONS", "/api/anything").route, Route::Preflight);
    let perms = plan_request("GET", "/api/permissions/file42");
    assert_eq!(perms.route, Route::FilePermissions);
    assert_eq!(perms.segments[2], "file42");
    assert_eq!(plan_request("GET", "/api/nonexistent").route, Route::NotFound);
    assert!(plan_request("POST", "/api/users/register").requires_auth);
    assert!(plan_request("POST", "/api/auth/login").requires_auth);
    assert!(plan_request("GET", "/api").requires_auth);
    assert!(!plan_request("OPTIONS", "/api/files").requires_auth);
}

#[test]
fn test_handle_request_health() {
    let plan = plan_request("GET", "/api/health");
    assert_eq!(plan.route, Route::Health);
    assert!(!plan.requires_auth);
}

#[test]
fn test_handle_request_options_cors() {
    let plan = plan_request("OPTIONS", "/api/health");
    assert_eq!(plan.route, Route::Preflight);
    assert!(!plan.requires_auth);
    let resp = cors_preflight_for(Some("http://localhost:3456"));
    assert!(resp.contains("204"));
    assert!(resp.contains("Access-Control-Allow-Origin"));
}

#[test]
fn test_handle_request_404() {
    let plan = plan_request("GET", "/api/nonexistent");
    assert_eq!(plan.route, Route::NotFound);
    assert!(!plan.requires_auth);
    let resp = not_found_response("GET", "/api/nonexistent");
    assert!(resp.contains("404"));
    assert!(resp.starts_with("HTTP/1.1 404 Not Found\r\n"));
    assert!(resp.ends_with("{\"error\":\"Not found: GET /api/nonexistent\"}"));
}

#[test]
fn test_bearer_token() {
    assert_eq!(bearer_token(Some("Bearer  abc.def ")), Ok("abc.def".to_string()));
    assert_eq!(bearer_token(Some("bearer xyz")), Ok("xyz".to_string()));
    assert!(bearer_token(Some("Basic abc")).is_err());
    let missing = bearer_token(None).unwrap_err();
    assert!(missing.starts_with("HTTP/1.1 401 Unauthorized"));
    assert!(missing.ends_with("{\"error\":\"Authorization header required\"}"));
}

#[test]
fn test_access_level_sufficient() {
    assert!(access_level_sufficient("admin", "write"));
    assert!(access_level_sufficient("write", "read"));
    assert!(!access_level_sufficient("read", "write"));
    assert!(access_level_sufficient("bogus", "read"));
    assert!(!access_level_sufficient("bogus", "admin"));
}

#[test]
fn test_rate_limit_check() {
    let mut limits = RateLimiter::new();
    for _ in 0..100 {
        assert!(limits.check_rate_limit("1.2.3.4", 1000));
    }
}

#[test]
fn test_rate_limit_exceeded() {
    let mut limits = RateLimiter::new();
    for _ in 0..101 {
        limits.check_rate_limit("5.6.7.8", 1000);
    }
    assert!(!limits.check_rate_limit("5.6.7.8", 1000));
}

#[test]
fn test_rate_limit_different_ips() {
    let mut limits = RateLimiter::new();
    for _ in 0..100 {
        limits.check_rate_limit("ip1", 1000);
    }
    assert!(limits.check_rate_limit("ip2", 1000));
}

#[test]
fn test_rate_limit_window_resets() {
    let mut limits = RateLimiter::new();
    for _ in 0..RATE_LIMIT_MAX + 5 {
        limits.check_rate_limit("ip", 10);
    }
    assert!(!limits.check_rate_limit("ip", 10));
    assert!(limits.check_rate_limit("ip", 10 + RATE_LIMIT_WINDOW_SECS));
}

#[test]
fn test_static_target() {
    assert_eq!(static_target("/"), "index.html");
    assert_eq!(static_target("/docs/"), "index.html");
    assert_eq!(static_target("//assets/app.js"), "assets/app.js");
}

#[test]
fn test_serve_static_file_decisions() {
    let root = vec!["srv".to_string(), "static".to_string()];
    let inside = vec!["srv".to_string(), "static".to_string(), "app.js".to_string()];
    let outside = vec!["srv".to_string(), "secret".to_string()];
    assert_eq!(serve_static_file(None, Some(&root), true, true), StaticOutcome::NotFound);
    assert_eq!(serve_static_file(Some(&inside), None, true, true), StaticOutcome::ServerError);
    assert_eq!(serve_static_file(Some(&outside), Some(&root), true, true), StaticOutcome::Forbidden);
    assert_eq!(serve_static_file(Some(&inside), Some(&root), true, true), StaticOutcome::ServeFile);
    assert_eq!(serve_static_file(Some(&inside), Some(&root), false, true), StaticOutcome::ServeIndex);
    assert_eq!(serve_static_file(Some(&inside), Some(&root), false, false), StaticOutcome::NotFound);
}

#[test]
fn test_static_header() {
    let h = static_header("image/png", 1234);
    assert!(h.starts_with("HTTP/1.1 200 OK\r\nContent-Type: image/png\r\nContent-Length: 1234\r\nCache-Control: public, max-age=3600\r\n"));
    assert!(h.ends_with("\r\n\r\n"));
}

#[test]
fn search_terms_and_matches() {
    assert_eq!(search_term("q=Holiday%20Photos"), Some("holiday photos".to_string()));
    assert_eq!(search_term("x=1"), None);
    assert_eq!(search_term("q="), None);
    assert!(matches_search("Report-2024.PDF", "", "report"));
    assert!(matches_search("a.txt", "/Home/Docs/a.txt", "docs"));
    assert!(!matches_search("a.txt", "/home/x", "docs"));
    assert!(contains_text("abc", ""));
    assert!(contains_text("abcabd", "abd"));
    assert!(!contains_text("ab", "abc"));
}

#[test]
fn connections_dispatch_by_target_and_method() {
    assert_eq!(dispatch("POST", "/api/users/login"), Dispatch::Api);
    assert_eq!(dispatch("DELETE", "/api"), Dispatch::Api);
    assert_eq!(dispatch("GET", "/apix"), Dispatch::StaticFile);
    assert_eq!(dispatch("HEAD", "/index.html"), Dispatch::StaticFile);
    assert_eq!(dispatch("OPTIONS", "/x"), Dispatch::Preflight);
    assert_eq!(dispatch("PUT", "/x"), Dispatch::NotAllowed);
    assert_eq!(header_authorization("Authorization: Bearer abc \r\n"), Some(Some("Bearer abc".to_string())));
    assert_eq!(header_authorization("  authorization:x"), Some(Some("x".to_string())));
    assert_eq!(header_authorization("AUTHORIZATION: x"), Some(None));
    assert_eq!(header_authorization("Content-Length: 3"), None);
}

#[test]
fn test_cors_allow_list() {
    assert!(is_allowed_origin("http://localhost:3456"));
    assert!(is_allowed_origin("http://localhost"));
    assert!(is_allowed_origin("http://127.0.0.1:8080"));
    assert!(is_allowed_origin("tauri://localhost"));
    assert!(!is_allowed_origin("http://localhost.evil.com"));
    assert!(!is_allowed_origin("http://localhost:"));
    assert!(!is_allowed_origin("http://localhost:80a"));
    assert!(!is_allowed_origin("https://example.com"));
    assert!(!is_allowed_origin(""));
    let ok = cors_preflight_for(Some("http://localhost:3456"));
    assert!(ok.starts_with("HTTP/1.1 204 No Content\r\n"));
    assert!(ok.contains("Access-Control-Allow-Origin: http://localhost:3456\r\n"));
    let refused = cors_preflight_for(Some("https://example.com"));
    assert!(refused.starts_with("HTTP/1.1 204 No Content\r\n"));
    assert!(!refused.contains("Access-Control-Allow-Origin"));
    assert!(!cors_preflight_for(None).contains("Access-Control-Allow-Origin"));
    assert_eq!(header_origin("Origin: http://localhost:3456\r\n"), Some("http://localhost:3456".to_string()));
    assert_eq!(header_origin("  origin:x"), Some("x".to_string()));
    assert_eq!(header_origin("Host: localhost"), None);
}

#[test]
fn test_request_token_gate() {
    let secret = [7u8; 32];
    let missing = verify_request_token(&secret, None).unwrap_err();
    assert!(missing.starts_with("HTTP/1.1 401 Unauthorized\r\n"));
    assert!(missing.ends_with("{\"error\":\"Authorization header required\"}"));
    assert_eq!(verify_request_token(&secret, Some("Basic abc")).unwrap_err(), missing);
    let bad = verify_request_token(&secret, Some("Bearer not.a.token")).unwrap_err();
    assert!(bad.starts_with("HTTP/1.1 401 Unauthorized\r\n"));
    assert!(bad.contains("Invalid or expired token: "));
    let token = create_jwt(&secret, "u1", "alice", "admin").unwrap();
    let header = format!("Bearer {}", token);
    assert_eq!(verify_request_token(&secret, Some(&header)), Ok(()));
    assert!(verify_request_token(&[8u8; 32], Some(&header)).is_err());

    let files = plan_request("GET", "/api/files");
    assert_eq!(admit_request(&files, &secret, None).unwrap_err(), missing);
    assert_eq!(admit_request(&files, &secret, Some(&header)), Ok(()));
    let health = plan_request("GET", "/api/health");
    assert_eq!(admit_request(&health, &secret, None), Ok(()));
}

#[test]
fn test_secret_fields_are_withheld() {
    for f in ["private_key", "privateKey", "passwordHash", "password_hash"] {
        assert!(is_secret_field(f));
    }
    for f in ["public_key", "username", "id", "password", ""] {
        assert!(!is_secret_field(f));
    }
}
