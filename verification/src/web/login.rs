//! Logging in and registering on the web server: what a stored user record and the
//! submitted credentials decide. The token itself is signed by the host.
use vstd::prelude::*;

use crate::access::{argon2_check, argon2_hash_reporting, argon2_verify_reporting, hashable_password};
use crate::crypto::primitives::{new_uuid_v4, now_rfc3339};
use crate::web::embedded::missing_credentials;

verus! {

/// A stored user as logging in reads it: its id, role and password hash, each when the
/// record has it.
pub struct StoredLogin {
    pub id: Option<String>,
    pub role: Option<String>,
    pub password_hash: Option<String>,
}

/// Who a successful login is for.
pub struct LoginGrant {
    pub user_id: String,
    pub role: String,
}

/// The stored hash, or empty when the record has none.
pub open spec fn hash_of(s: StoredLogin) -> Seq<char> {
    match s.password_hash {
        Some(h) => h@,
        None => Seq::empty(),
    }
}

/// Logs a user in against the record stored under the name: name and password must be
/// given (400); the record must exist (401) and carry a password hash (500); the password
/// must match it (401), and a hash that does not parse is a server error (500). The
/// grant names the record's id (the name when it has none) and role (`user` when none).
pub fn server_login(stored: Option<StoredLogin>, username: &str, password: &str) -> (r: Result<LoginGrant, (u16, String)>)
    ensures
        username@.len() == 0 || password@.len() == 0 ==> (r matches Err((400, m)) && m@
            == "username and password are required"@),
        username@.len() > 0 && password@.len() > 0 ==> match stored {
            None => r matches Err((401, m)) && m@ == "Invalid username or password"@,
            Some(s) => if hash_of(s).len() == 0 {
                r matches Err((500, m)) && m@ == "User has no password hash"@
            } else {
                match argon2_check(password@, hash_of(s)) {
                    Some(true) => r matches Ok(g) && g.user_id@ == (match s.id {
                        Some(i) => i@,
                        None => username@,
                    }) && g.role@ == (match s.role {
                        Some(x) => x@,
                        None => "user"@,
                    }),
                    Some(false) => r matches Err((401, m)) && m@ == "Invalid username or password"@,
                    None => r matches Err((500, m)) && m@ == "Invalid password hash format"@,
                }
            },
        },
{
    if let Some(refusal) = missing_credentials(username, password) {
        return Err(refusal);
    }
    let s = match stored {
        Some(s) => s,
        None => return Err((401, String::from_str("Invalid username or password"))),
    };
    let hash = match s.password_hash {
        Some(h) => h,
        None => String::new(),
    };
    if hash.unicode_len() == 0 {
        return Err((500, String::from_str("User has no password hash")));
    }
    match argon2_verify_reporting(password, hash.as_str(), "") {
        Ok(true) => {
            let user_id = match s.id {
                Some(i) => i,
                None => String::from_str(username),
            };
            let role = match s.role {
                Some(x) => x,
                None => String::from_str("user"),
            };
            Ok(LoginGrant { user_id, role })
        },
        Ok(false) => Err((401, String::from_str("Invalid username or password"))),
        Err(_) => Err((500, String::from_str("Invalid password hash format"))),
    }
}

/// A user as the web server registers it.
pub struct ServerUser {
    pub id: String,
    pub username: String,
    pub display_name: String,
    pub role: String,
    pub password_hash: String,
    pub created_at: String,
}

/// Registers a user on the web server: name and password must be given (400); the
/// password is stored as an Argon2 hash (500 when Argon2 refuses a password too long for
/// it, reported after `Password hash error: `); the user is an administrator.
pub fn server_register(username: &str, password: &str, display_name: &str) -> (r: Result<ServerUser, (u16, String)>)
    ensures
        username@.len() == 0 || password@.len() == 0 ==> (r matches Err((400, m)) && m@
            == "username and password are required"@),
        r matches Err((code, m)) ==> (code == 400 && (username@.len() == 0 || password@.len() == 0)) || (code == 500
            && username@.len() > 0 && password@.len() > 0 && !hashable_password(password@)
            && "Password hash error: "@.is_prefix_of(m@)),
        username@.len() > 0 && password@.len() > 0 && hashable_password(password@) ==> r is Ok,
        r matches Ok(u) ==> {
            &&& username@.len() > 0 && password@.len() > 0
            &&& u.username@ == username@
            &&& u.display_name@ == display_name@
            &&& u.role@ == "admin"@
            &&& argon2_check(password@, u.password_hash@) == Some(true)
            &&& "$argon2"@.is_prefix_of(u.password_hash@)
            &&& u.id@.len() == 36
        },
{
    if let Some(refusal) = missing_credentials(username, password) {
        return Err(refusal);
    }
    let password_hash = match argon2_hash_reporting(password, "Password hash error: ") {
        Ok(h) => h,
        Err(m) => return Err((500, m)),
    };
    Ok(ServerUser {
        id: new_uuid_v4(),
        username: String::from_str(username),
        display_name: String::from_str(display_name),
        role: String::from_str("admin"),
        password_hash,
        created_at: now_rfc3339(),
    })
}

/// A user the server registers can log in with the same password once its record is
/// stored: the stored hash is present and accepts the password, so `server_login` grants
/// it under the stored id and role.
pub proof fn registered_server_user_can_log_in(u: ServerUser, stored: StoredLogin, password: Seq<char>)
    requires
        argon2_check(password, u.password_hash@) == Some(true),
        "$argon2"@.is_prefix_of(u.password_hash@),
        stored.password_hash matches Some(h) && h@ == u.password_hash@,
    ensures
        hash_of(stored).len() > 0,
        argon2_check(password, hash_of(stored)) == Some(true),
{
    reveal_strlit("$argon2");
}

} // verus!
