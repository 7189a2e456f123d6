use cybermanju_drive::sync::requests::{contents_url, delete_succeeded, drive_query, needs_release_upload};
use cybermanju_drive::sync::reply::{is_success, parse_reply, status_of};
use cybermanju_drive::sync::backends::{
    create_backend, parse_repo, urlencoding, Backend, GitHubBackend, GoogleDriveBackend, SyncBackendType, SyncConfig,
};
use cybermanju_drive::sync::oauth::{
    get_valid_token, refresh_github_token, refresh_gitlab_token, refresh_google_token, OAuthCredentials, TokenResponse,
    TokenStep,
};

fn now_secs() -> u64 {
    std::time::SystemTime::now().duration_since(std::time::UNIX_EPOCH).unwrap().as_secs()
}

#[test]
fn test_is_expired() {
    let now = now_secs();

    let mut creds = OAuthCredentials {
        access_token: "test".to_string(),
        refresh_token: None,
        expires_at: Some(now + 3600),
        client_id: "test".to_string(),
        client_secret: None,
    };

    assert!(!creds.is_expired(300));
    assert!(creds.is_expired(7200));

    creds.expires_at = None;
    assert!(!creds.is_expired(300));
}

fn creds(expires_at: Option<u64>, refresh: Option<&str>, secret: Option<&str>) -> OAuthCredentials {
    OAuthCredentials {
        access_token: "old".to_string(),
        refresh_token: refresh.map(|s| s.to_string()),
        expires_at,
        client_id: "cid".to_string(),
        client_secret: secret.map(|s| s.to_string()),
    }
}

#[test]
fn test_is_expired_at_boundary() {
    let c = creds(Some(1000), None, None);
    assert!(c.is_expired_at(0, 1000));
    assert!(!c.is_expired_at(0, 999));
    assert!(c.is_expired_at(1, 999));
    assert!(c.is_expired_at(u64::MAX, u64::MAX));
}

#[test]
fn test_refresh_requests() {
    let c = creds(None, Some("rt"), Some("sec"));
    let g = refresh_google_token(&c).unwrap();
    assert_eq!(g.url, "https://oauth2.googleapis.com/token");
    assert_eq!(
        g.params,
        vec![
            ("grant_type".to_string(), "refresh_token".to_string()),
            ("refresh_token".to_string(), "rt".to_string()),
            ("client_id".to_string(), "cid".to_string()),
            ("client_secret".to_string(), "sec".to_string()),
        ]
    );
    assert_eq!(refresh_github_token(&c).unwrap().url, "https://github.com/login/oauth/access_token");
    assert_eq!(refresh_gitlab_token(&c, None).unwrap().url, "https://gitlab.com/oauth/token");
    assert_eq!(
        refresh_gitlab_token(&c, Some("https://git.example.org//")).unwrap().url,
        "https://git.example.org/oauth/token"
    );
    let no_refresh = creds(None, None, None);
    assert_eq!(refresh_google_token(&no_refresh).unwrap_err(), "No refresh token available");
}

#[test]
fn test_get_valid_token_steps() {
    let fresh = creds(Some(10_000), Some("rt"), None);
    match get_valid_token(&fresh, "https://t", 60, 100).unwrap() {
        TokenStep::UseToken(t) => assert_eq!(t, "old"),
        _ => panic!("expected the stored token"),
    }
    match get_valid_token(&fresh, "https://t", 60, 9_950).unwrap() {
        TokenStep::Refresh(q) => {
            assert_eq!(q.url, "https://t");
            assert_eq!(q.params.len(), 3);
        },
        _ => panic!("expected a refresh"),
    }
    let stale = creds(Some(5), None, None);
    assert_eq!(get_valid_token(&stale, "https://t", 0, 10).unwrap_err(), "No refresh token available");
}

#[test]
fn test_apply_refresh_response() {
    let mut c = creds(Some(5), Some("rt"), None);
    let resp = TokenResponse {
        access_token: "new".to_string(),
        token_type: "Bearer".to_string(),
        expires_in: Some(3600),
        refresh_token: None,
        scope: None,
    };
    assert_eq!(c.apply_refresh_response(500, "boom", Ok(resp.clone()), 100).unwrap_err(), "Token refresh failed (500): boom");
    assert_eq!(c.access_token, "old");
    c.apply_refresh_response(200, "{}", Ok(resp), 100).unwrap();
    assert_eq!(c.access_token, "new");
    assert_eq!(c.refresh_token.as_deref(), Some("rt"));
    assert_eq!(c.expires_at, Some(3700));
    assert!(!c.is_expired_at(300, 100));
    let err = c.apply_refresh_response(201, "x", Err("bad json".to_string()), 0).unwrap_err();
    assert_eq!(err, "Failed to parse token refresh response: bad json");
}

#[test]
fn test_parse_repo() {
    assert_eq!(parse_repo("/owner/repo/sub"), Ok(("owner".to_string(), "repo/sub".to_string())));
    assert_eq!(parse_repo("owner/"), Err("Invalid repo name 'owner/'. Expected 'owner/repo'.".to_string()));
    assert!(parse_repo("noslash").is_err());
}

#[test]
fn test_urlencoding() {
    assert_eq!(urlencoding("a b/c~d.e-f_g"), "a%20b%2Fc~d.e-f_g");
    assert_eq!(urlencoding("é"), "%C3%A9");
    assert_eq!(urlencoding("中€"), "%E4%B8%AD%E2%82%AC");
    assert_eq!(urlencoding("AZaz09"), "AZaz09");
    assert_eq!(urlencoding(""), "");
}

fn config(kind: SyncBackendType) -> SyncConfig {
    SyncConfig {
        id: "sc1".to_string(),
        backend_type: kind,
        enabled: true,
        account_id: None,
        name: None,
        base_path: None,
        repo_name: Some("user/repo".to_string()),
        branch: None,
        token: Some("tok".to_string()),
        folder_id: Some("f1".to_string()),
        album_id: None,
        chat_id: None,
        auto_sync: false,
        compress_before_upload: true,
        create_previews: true,
        delete_raw_after_sync: false,
        max_concurrent_uploads: 4,
    }
}

#[test]
fn test_create_backend() {
    assert_eq!(create_backend(&config(SyncBackendType::Local)).unwrap_err(), "Local backend requires base_path");
    match create_backend(&config(SyncBackendType::GitHub)).unwrap() {
        Backend::GitHub(b) => {
            assert_eq!(b.branch, "main");
            assert_eq!(b.name(), "GitHub");
        },
        _ => panic!("expected a GitHub backend"),
    }
    let drive = create_backend(&config(SyncBackendType::GoogleDrive)).unwrap();
    assert_eq!(drive.backend_type(), SyncBackendType::GoogleDrive);
    assert_eq!(drive.name(), "Google Drive");
    let mut no_token = config(SyncBackendType::GooglePhotos);
    no_token.token = None;
    assert_eq!(create_backend(&no_token).unwrap_err(), "Google Photos backend requires token");
}

#[test]
fn test_file_urls() {
    let gh = GitHubBackend::new("t", "me/files", "dev");
    assert_eq!(gh.get_file_url("a/b.txt").unwrap(), "https://raw.githubusercontent.com/me/files/dev/a/b.txt");
    let drive = GoogleDriveBackend::new("t", None);
    assert_eq!(drive.get_file_url("ID9").unwrap(), "https://drive.google.com/file/d/ID9/view");
}

#[test]
fn replies_split_into_status_and_body() {
    let r = parse_reply("{\"id\":1}\n201", 0);
    assert_eq!(r.status, 201);
    assert_eq!(r.body, "{\"id\":1}");
    let r = parse_reply("no status line", 7);
    assert_eq!(r.status, 7);
    assert_eq!(r.body, "");
    let r = parse_reply("a\n b \n 404 ", 0);
    assert_eq!(r.status, 404);
    assert_eq!(r.body, "a\n b ");
    let r = parse_reply("body\n", 28);
    assert_eq!(r.status, 28);
    assert_eq!(r.body, "body");
}

#[test]
fn statuses_parse_like_i32() {
    assert_eq!(status_of("  -12 ", 0), -12);
    assert_eq!(status_of("+5", 0), 5);
    assert_eq!(status_of("2147483647", 3), i32::MAX);
    assert_eq!(status_of("2147483648", 3), 3);
    assert_eq!(status_of("-2147483648", 3), i32::MIN);
    assert_eq!(status_of("-2147483649", 3), 3);
    assert_eq!(status_of("", 9), 9);
    assert_eq!(status_of("-", 9), 9);
    assert_eq!(status_of("1 2", 9), 9);
    assert_eq!(status_of("99999999999999999999", 4), 4);
    assert!(is_success(200));
    assert!(is_success(299));
    assert!(!is_success(300));
    assert!(!is_success(199));
}

#[test]
fn backend_requests() {
    assert!(!needs_release_upload(100 * 1024 * 1024));
    assert!(needs_release_upload(100 * 1024 * 1024 + 1));
    assert_eq!(contents_url("me", "repo", "a/b.txt"), "https://api.github.com/repos/me/repo/contents/a/b.txt");
    assert_eq!(drive_query(Some("F1")), "'F1' in parents and trashed=false");
    assert_eq!(drive_query(None), "trashed=false");
    assert!(delete_succeeded(204));
    assert!(delete_succeeded(200));
    assert!(!delete_succeeded(201));
}
