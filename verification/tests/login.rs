use cybermanju_drive::access::argon2_hash_password;
use cybermanju_drive::web::login::{server_login, server_register, StoredLogin};

fn stored(id: Option<&str>, role: Option<&str>, hash: Option<&str>) -> Option<StoredLogin> {
    Some(StoredLogin {
        id: id.map(|s| s.to_string()),
        role: role.map(|s| s.to_string()),
        password_hash: hash.map(|s| s.to_string()),
    })
}

#[test]
fn server_login_decides_from_the_stored_record() {
    let hash = argon2_hash_password("pw").unwrap();
    assert_eq!(server_login(None, "", "pw").err(), Some((400, "username and password are required".to_string())));
    assert_eq!(server_login(None, "ann", "pw").err(), Some((401, "Invalid username or password".to_string())));
    assert_eq!(
        server_login(stored(None, None, None), "ann", "pw").err(),
        Some((500, "User has no password hash".to_string()))
    );
    assert_eq!(
        server_login(stored(None, None, Some("")), "ann", "pw").err(),
        Some((500, "User has no password hash".to_string()))
    );
    assert_eq!(
        server_login(stored(None, None, Some("garbage")), "ann", "pw").err(),
        Some((500, "Invalid password hash format".to_string()))
    );
    assert_eq!(
        server_login(stored(None, None, Some(&hash)), "ann", "nope").err(),
        Some((401, "Invalid username or password".to_string()))
    );
    let g = server_login(stored(None, None, Some(&hash)), "ann", "pw").unwrap();
    assert_eq!((g.user_id.as_str(), g.role.as_str()), ("ann", "user"));
    let g = server_login(stored(Some("u-1"), Some("admin"), Some(&hash)), "ann", "pw").unwrap();
    assert_eq!((g.user_id.as_str(), g.role.as_str()), ("u-1", "admin"));
}

#[test]
fn server_registration_makes_administrators() {
    assert_eq!(
        server_register("ann", "", "Ann").err(),
        Some((400, "username and password are required".to_string()))
    );
    let u = server_register("ann", "pw", "Ann").unwrap();
    assert_eq!(u.username, "ann");
    assert_eq!(u.display_name, "Ann");
    assert_eq!(u.role, "admin");
    assert_eq!(u.id.len(), 36);
    let g = server_login(stored(Some(&u.id), Some(&u.role), Some(&u.password_hash)), "ann", "pw").unwrap();
    assert_eq!(g.user_id, u.id);
}
