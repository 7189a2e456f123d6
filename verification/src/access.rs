//! Users, their passwords and sessions, and per-file access permissions.
use argon2::password_hash::{PasswordHasher, PasswordVerifier};
use vstd::prelude::*;
use vstd::string::StringSliceAdditionalSpecFns;
use vstd::utf8::encode_utf8;

use crate::clock::unix_now_millis;
use crate::crypto::primitives::{new_uuid_v4, now_rfc3339};
use crate::digest::{blake3_hex, blake3_hex_digest};
use crate::schema::{User, UserFilePermission};
use crate::text::{chars_of, decimal, eq_lit, prefixed, push_decimal};

verus! {

/// Whether Argon2 accepts the password for a PHC hash string (`None` when the string is
/// not a valid hash).
pub uninterp spec fn argon2_check(password: Seq<char>, hash: Seq<char>) -> Option<bool>;

/// Whether Argon2 takes the password: its UTF-8 encoding is at most `MAX_PWD_LEN`
/// (`0xFFFF_FFFF`) bytes long.
pub open spec fn hashable_password(password: Seq<char>) -> bool {
    encode_utf8(password).len() <= 0xFFFF_FFFF
}

/// Calls `SaltString::generate(&mut OsRng)` and `Argon2::default().hash_password` with that
/// salt: the PHC string, or the text of the error. The salt is random; what is stated is
/// when it succeeds (the default parameters and a generated salt are always valid, so only
/// a password longer than `MAX_PWD_LEN` bytes is refused), that the string names the
/// algorithm (`$argon2id$…` for the default Argon2id), and that verifying the same password
/// against it succeeds, since verification recomputes the hash with the salt and parameters
/// the string records.
#[verifier::external_body]
fn argon2_hash_with_random_salt(password: &str) -> (r: Result<String, String>)
    ensures
        r is Ok <==> hashable_password(password@),
        r matches Ok(h) ==> argon2_check(password@, h@) == Some(true) && "$argon2"@.is_prefix_of(h@),
{
    let salt = argon2::password_hash::SaltString::generate(&mut rand_core::OsRng);
    match argon2::Argon2::default().hash_password(password.as_bytes(), &salt) {
        Ok(h) => Ok(h.to_string()),
        Err(e) => Err(e.to_string()),
    }
}

/// Calls `PasswordHash::new(hash)` and, when the string parses, `Argon2::default().verify_password`:
/// whether the password matches, or the text of the parse error.
#[verifier::external_body]
fn argon2_parse_and_verify(password: &str, hash: &str) -> (r: Result<bool, String>)
    ensures
        match argon2_check(password@, hash@) {
            Some(b) => r == Ok::<bool, String>(b),
            None => r is Err,
        },
{
    match argon2::password_hash::PasswordHash::new(hash) {
        Ok(parsed) => Ok(argon2::Argon2::default().verify_password(password.as_bytes(), &parsed).is_ok()),
        Err(e) => Err(e.to_string()),
    }
}

/// Hashes a password with Argon2id and a random salt, with a failure reported after
/// `prefix`.
pub fn argon2_hash_reporting(password: &str, prefix: &str) -> (r: Result<String, String>)
    ensures
        r is Ok <==> hashable_password(password@),
        r matches Ok(h) ==> argon2_check(password@, h@) == Some(true) && "$argon2"@.is_prefix_of(h@),
        r matches Err(m) ==> prefix@.is_prefix_of(m@),
{
    match argon2_hash_with_random_salt(password) {
        Ok(h) => Ok(h),
        Err(e) => Err(prefixed(prefix, e.as_str())),
    }
}

/// Hashes a password with Argon2id and a random salt; a failure is reported after
/// `Argon2 hash error: `.
pub fn argon2_hash_password(password: &str) -> (r: Result<String, String>)
    ensures
        r is Ok <==> hashable_password(password@),
        r matches Ok(h) ==> argon2_check(password@, h@) == Some(true) && "$argon2"@.is_prefix_of(h@),
        r matches Err(m) ==> "Argon2 hash error: "@.is_prefix_of(m@),
{
    argon2_hash_reporting(password, "Argon2 hash error: ")
}

/// Whether a password matches an Argon2 PHC string, with a hash that does not parse
/// reported after `prefix`.
pub fn argon2_verify_reporting(password: &str, hash: &str, prefix: &str) -> (r: Result<bool, String>)
    ensures
        match argon2_check(password@, hash@) {
            Some(b) => r == Ok::<bool, String>(b),
            None => r matches Err(m) && prefix@.is_prefix_of(m@),
        },
{
    match argon2_parse_and_verify(password, hash) {
        Ok(b) => Ok(b),
        Err(e) => Err(prefixed(prefix, e.as_str())),
    }
}

/// Whether a password matches an Argon2 PHC string; a hash that does not parse is reported
/// after `Invalid hash format: `.
pub fn argon2_verify_password(password: &str, hash: &str) -> (r: Result<bool, String>)
    ensures
        match argon2_check(password@, hash@) {
            Some(b) => r == Ok::<bool, String>(b),
            None => r matches Err(m) && "Invalid hash format: "@.is_prefix_of(m@),
        },
{
    argon2_verify_reporting(password, hash, "Invalid hash format: ")
}

/// The result of a successful login.
#[derive(Debug, Clone)]
pub struct AuthResult {
    pub user_id: String,
    pub username: String,
    pub role: String,
    pub display_name: Option<String>,
    pub token: String,
}

/// The roles a user may have.
pub open spec fn valid_role(role: Seq<char>) -> bool {
    role == "admin"@ || role == "user"@ || role == "viewer"@
}

/// The access levels a permission may grant.
pub open spec fn valid_access(access: Seq<char>) -> bool {
    access == "read"@ || access == "write"@ || access == "admin"@
}

/// `i` is the first user with the name.
pub open spec fn is_first_named(users: Seq<User>, username: Seq<char>, i: int) -> bool {
    0 <= i < users.len() && users[i].username@ == username && forall|j: int|
        0 <= j < i ==> (#[trigger] users[j]).username@ != username
}

fn same(a: &str, b: &str) -> (r: bool)
    ensures
        r == (a@ == b@),
{
    let x = chars_of(a);
    eq_lit(&x, b)
}

fn find_user(users: &Vec<User>, username: &str) -> (r: Option<usize>)
    ensures
        match r {
            Some(i) => is_first_named(users@, username@, i as int),
            None => forall|j: int| 0 <= j < users@.len() ==> (#[trigger] users@[j]).username@ != username@,
        },
{
    let mut i: usize = 0;
    while i < users.len()
        invariant
            i <= users@.len(),
            forall|j: int| 0 <= j < i ==> (#[trigger] users@[j]).username@ != username@,
        decreases users.len() - i,
    {
        if same(users[i].username.as_str(), username) {
            return Some(i);
        }
        i = i + 1;
    }
    None
}

/// Check a registration and make the new user: role defaults to `user` and must be `admin`,
/// `user` or `viewer`; name and password must be non-empty; the name must not be taken.
/// The password is stored as an Argon2 hash that verifies it.
pub fn register_user(
    users: &Vec<User>,
    username: &str,
    password: &str,
    display_name: Option<String>,
    role: Option<String>,
) -> (r: Result<User, String>)
    ensures
        ({
            let role_name = match role {
                Some(x) => x@,
                None => "user"@,
            };
            &&& !valid_role(role_name) ==> (r matches Err(m) && m@ == "Invalid role: "@ + role_name
                + ". Must be admin, user, or viewer"@)
            &&& valid_role(role_name) && (username@.len() == 0 || password@.len() == 0) ==> (r matches Err(m) && m@
                == "Username and password are required"@)
            &&& valid_role(role_name) && username@.len() > 0 && password@.len() > 0 && (exists|j: int|
                0 <= j < users@.len() && (#[trigger] users@[j]).username@ == username@) ==> (r matches Err(m) && m@
                == "Username '"@ + username@ + "' already exists"@)
            &&& valid_role(role_name) && username@.len() > 0 && password@.len() > 0 && (forall|j: int|
                0 <= j < users@.len() ==> (#[trigger] users@[j]).username@ != username@) ==> if hashable_password(
                password@,
            ) {
                r is Ok
            } else {
                r matches Err(m) && "Argon2 hash error: "@.is_prefix_of(m@)
            }
            &&& r matches Ok(u) ==> {
                &&& valid_role(role_name) && username@.len() > 0 && password@.len() > 0
                &&& forall|j: int| 0 <= j < users@.len() ==> (#[trigger] users@[j]).username@ != username@
                &&& u.username@ == username@
                &&& u.role@ == role_name
                &&& u.is_active
                &&& argon2_check(password@, u.password_hash@) == Some(true)
                &&& accepts(password@, u.password_hash@) == Some(true)
                &&& u.id@.len() == 36
                &&& u.display_name == display_name
            }
        }),
{
    let role = match role {
        Some(x) => x,
        None => String::from_str("user"),
    };
    let rc = chars_of(role.as_str());
    if !(eq_lit(&rc, "admin") || eq_lit(&rc, "user") || eq_lit(&rc, "viewer")) {
        let mut m = String::from_str("Invalid role: ");
        m.append(role.as_str());
        m.append(". Must be admin, user, or viewer");
        return Err(m);
    }
    if username.unicode_len() == 0 || password.unicode_len() == 0 {
        return Err(String::from_str("Username and password are required"));
    }
    match find_user(users, username) {
        Some(_) => {
            let mut m = String::from_str("Username '");
            m.append(username);
            m.append("' already exists");
            return Err(m);
        },
        None => {},
    }
    let password_hash = argon2_hash_password(password)?;
    let now = now_rfc3339();
    Ok(User {
        id: new_uuid_v4(),
        username: String::from_str(username),
        password_hash,
        display_name,
        role,
        is_active: true,
        created_at: now.clone(),
        updated_at: now,
    })
}

/// The session token of a user name at a time in milliseconds: the BLAKE3 hex digest of
/// the name, `|` and the time.
pub open spec fn session_token(username: Seq<char>, ms: u64) -> Seq<char> {
    blake3_hex(utf8_bytes(username + "|"@ + decimal(ms as nat)))
}

/// The UTF-8 bytes of a text.
pub open spec fn utf8_bytes(s: Seq<char>) -> Seq<u8> {
    vstd::utf8::encode_utf8(s)
}

/// Log a user in: the first user with the name must be active and the password must match
/// its stored hash; the session token is the BLAKE3 hex digest of the name, `|` and the
/// current Unix time in milliseconds.
pub fn authenticate_user(users: &Vec<User>, username: &str, password: &str) -> (r: Result<AuthResult, String>)
    ensures
        (forall|j: int| 0 <= j < users@.len() ==> (#[trigger] users@[j]).username@ != username@) ==> (r matches Err(m)
            && m@ == "Invalid username or password"@),
        forall|i: int|
            is_first_named(users@, username@, i) ==> {
                let u = users@[i];
                &&& !u.is_active ==> (r matches Err(m) && m@ == "User account is disabled"@)
                &&& u.is_active && "$argon2"@.is_prefix_of(u.password_hash@) && argon2_check(password@, u.password_hash@) is None
                    ==> (r matches Err(m) && "Invalid hash format: "@.is_prefix_of(m@))
                &&& u.is_active && accepts(password@, u.password_hash@) == Some(false) ==> (r matches Err(m) && m@
                    == "Invalid username or password"@)
                &&& u.is_active && accepts(password@, u.password_hash@) == Some(true) ==> r is Ok
                &&& r matches Ok(a) ==> {
                    &&& u.is_active
                    &&& accepts(password@, u.password_hash@) == Some(true)
                    &&& a.user_id@ == u.id@
                    &&& a.username@ == u.username@
                    &&& a.role@ == u.role@
                    &&& a.display_name == u.display_name
                    &&& exists|ms: u64| a.token@ == session_token(username@, ms)
                }
            },
{
    let i = match find_user(users, username) {
        Some(i) => i,
        None => return Err(String::from_str("Invalid username or password")),
    };
    proof {
        assert forall|k: int| is_first_named(users@, username@, k) implies k == i as int by {
            if k < i {
                assert(users@[k].username@ == username@);
            } else if k > i {
                assert(users@[i as int].username@ == username@);
            }
        }
    }
    let user = &users[i];
    if !user.is_active {
        return Err(String::from_str("User account is disabled"));
    }
    let hc = chars_of(user.password_hash.as_str());
    let valid = if starts_with(&hc, "$argon2") {
        argon2_verify_password(password, user.password_hash.as_str())?
    } else {
        let digest = blake3_hex_digest(password.as_bytes());
        digest == user.password_hash
    };
    if !valid {
        return Err(String::from_str("Invalid username or password"));
    }
    let mut input = String::from_str(username);
    input.append("|");
    let ms = unix_now_millis();
    push_decimal(&mut input, ms);
    let token = blake3_hex_digest(input.as_str().as_bytes());
    assert(token@ == session_token(username@, ms));
    let display_name = match &user.display_name {
        Some(d) => Some(d.clone()),
        None => None,
    };
    Ok(AuthResult {
        user_id: user.id.clone(),
        username: user.username.clone(),
        role: user.role.clone(),
        display_name,
        token,
    })
}

/// Whether a stored password hash accepts a password (see `password_accepted`).
pub open spec fn accepts(password: Seq<char>, hash: Seq<char>) -> Option<bool> {
    if "$argon2"@.is_prefix_of(hash) {
        argon2_check(password, hash)
    } else {
        Some(hash == blake3_hex(utf8_bytes(password)))
    }
}

fn starts_with(v: &Vec<char>, lit: &str) -> (r: bool)
    ensures
        r == lit@.is_prefix_of(v@),
{
    let n = lit.unicode_len();
    if v.len() < n {
        return false;
    }
    let mut i: usize = 0;
    while i < n
        invariant
            n == lit@.len(),
            n <= v@.len(),
            i <= n,
            forall|j: int| 0 <= j < i ==> v@[j] == lit@[j],
        decreases n - i,
    {
        if v[i] != lit.get_char(i) {
            return false;
        }
        i = i + 1;
    }
    true
}

/// The rank of an access level when checking a file: `admin` 3, `write` 2, `read` 1,
/// anything else 0.
pub open spec fn access_level(a: Seq<char>) -> int {
    if a == "admin"@ {
        3
    } else if a == "write"@ {
        2
    } else if a == "read"@ {
        1
    } else {
        0
    }
}

fn level_of(a: &str) -> (r: u8)
    ensures
        r as int == access_level(a@),
{
    let c = chars_of(a);
    if eq_lit(&c, "admin") {
        3
    } else if eq_lit(&c, "write") {
        2
    } else if eq_lit(&c, "read") {
        1
    } else {
        0
    }
}

/// Whether a user may access a file at the required level: a permission of the user on the
/// file grants at least that level, or the user is an active administrator.
pub open spec fn access_granted(
    perms: Seq<UserFilePermission>,
    users: Seq<User>,
    user_id: Seq<char>,
    file_id: Seq<char>,
    required: Seq<char>,
) -> bool {
    ||| exists|i: int|
        0 <= i < perms.len() && (#[trigger] perms[i]).user_id@ == user_id && perms[i].file_id@ == file_id
            && access_level(perms[i].access@) >= access_level(required)
    ||| exists|j: int|
        0 <= j < users.len() && (#[trigger] users[j]).id@ == user_id && users[j].role@ == "admin"@ && users[j].is_active
}

/// Whether a user may access a file at the required level.
pub fn verify_file_access(
    perms: &Vec<UserFilePermission>,
    users: &Vec<User>,
    user_id: &str,
    file_id: &str,
    required_access: &str,
) -> (r: bool)
    ensures
        r == access_granted(perms@, users@, user_id@, file_id@, required_access@),
{
    let required = level_of(required_access);
    let mut i: usize = 0;
    while i < perms.len()
        invariant
            i <= perms@.len(),
            required as int == access_level(required_access@),
            forall|k: int|
                0 <= k < i ==> !((#[trigger] perms@[k]).user_id@ == user_id@ && perms@[k].file_id@ == file_id@
                    && access_level(perms@[k].access@) >= access_level(required_access@)),
        decreases perms.len() - i,
    {
        let p = &perms[i];
        if same(p.user_id.as_str(), user_id) && same(p.file_id.as_str(), file_id) && level_of(p.access.as_str())
            >= required {
            return true;
        }
        i = i + 1;
    }
    let mut j: usize = 0;
    while j < users.len()
        invariant
            j <= users@.len(),
            forall|k: int|
                0 <= k < j ==> !((#[trigger] users@[k]).id@ == user_id@ && users@[k].role@ == "admin"@ && users@[k].is_active),
        decreases users.len() - j,
    {
        let u = &users[j];
        if same(u.id.as_str(), user_id) && same(u.role.as_str(), "admin") && u.is_active {
            return true;
        }
        j = j + 1;
    }
    false
}

proof fn access_names_differ()
    ensures
        "read"@ != "write"@,
        "read"@ != "admin"@,
        "write"@ != "admin"@,
{
    reveal_strlit("read");
    reveal_strlit("write");
    reveal_strlit("admin");
    assert("read"@.len() == 4 && "write"@.len() == 5 && "admin"@.len() == 5);
    assert("write"@[0] == 'w' && "admin"@[0] == 'a');
}

/// Access levels are strictly ordered: `read` below `write` below `admin`, and any other
/// text below `read` (it grants nothing a named level asks for).
pub proof fn access_levels_are_ordered(a: Seq<char>)
    ensures
        access_level("read"@) < access_level("write"@),
        access_level("write"@) < access_level("admin"@),
        a != "read"@ && a != "write"@ && a != "admin"@ ==> access_level(a) < access_level("read"@),
{
    access_names_differ();
}

/// A user whose permissions on a file are all `write`, and who is no active administrator,
/// may write and read the file but may not administer it.
pub proof fn write_permission_is_not_admin(
    perms: Seq<UserFilePermission>,
    users: Seq<User>,
    user_id: Seq<char>,
    file_id: Seq<char>,
)
    requires
        exists|i: int| 0 <= i < perms.len() && (#[trigger] perms[i]).user_id@ == user_id && perms[i].file_id@ == file_id,
        forall|i: int|
            0 <= i < perms.len() && (#[trigger] perms[i]).user_id@ == user_id && perms[i].file_id@ == file_id
                ==> perms[i].access@ == "write"@,
        forall|j: int|
            0 <= j < users.len() && (#[trigger] users[j]).id@ == user_id ==> !(users[j].role@ == "admin"@
                && users[j].is_active),
    ensures
        !access_granted(perms, users, user_id, file_id, "admin"@),
        access_granted(perms, users, user_id, file_id, "write"@),
        access_granted(perms, users, user_id, file_id, "read"@),
{
    access_names_differ();
    let i = choose|i: int| 0 <= i < perms.len() && (#[trigger] perms[i]).user_id@ == user_id && perms[i].file_id@ == file_id;
    assert(perms[i].access@ == "write"@);
}

/// Access at a level implies access at every lower level: whoever may administer a file
/// may write it, and whoever may write it may read it.
pub proof fn access_is_monotone(
    perms: Seq<UserFilePermission>,
    users: Seq<User>,
    user_id: Seq<char>,
    file_id: Seq<char>,
)
    ensures
        access_granted(perms, users, user_id, file_id, "admin"@) ==> access_granted(perms, users, user_id, file_id, "write"@),
        access_granted(perms, users, user_id, file_id, "write"@) ==> access_granted(perms, users, user_id, file_id, "read"@),
{
    access_names_differ();
}

fn find_permission(perms: &Vec<UserFilePermission>, user_id: &str, file_id: &str) -> (r: Option<usize>)
    ensures
        match r {
            Some(i) => i < perms@.len() && perms@[i as int].user_id@ == user_id@ && perms@[i as int].file_id@
                == file_id@ && forall|k: int|
                0 <= k < i ==> !((#[trigger] perms@[k]).user_id@ == user_id@ && perms@[k].file_id@ == file_id@),
            None => forall|k: int|
                0 <= k < perms@.len() ==> !((#[trigger] perms@[k]).user_id@ == user_id@ && perms@[k].file_id@
                    == file_id@),
        },
{
    let mut i: usize = 0;
    while i < perms.len()
        invariant
            i <= perms@.len(),
            forall|k: int|
                0 <= k < i ==> !((#[trigger] perms@[k]).user_id@ == user_id@ && perms@[k].file_id@ == file_id@),
        decreases perms.len() - i,
    {
        if same(perms[i].user_id.as_str(), user_id) && same(perms[i].file_id.as_str(), file_id) {
            return Some(i);
        }
        i = i + 1;
    }
    None
}

/// The new permission to store, and the id of the permission it replaces (the first one of
/// the same user on the same file), or the refusal of an unknown access level.
pub fn set_file_permission(
    perms: &Vec<UserFilePermission>,
    user_id: &str,
    file_id: &str,
    access: &str,
    granted_by: &str,
) -> (r: Result<(Option<String>, UserFilePermission), String>)
    ensures
        !valid_access(access@) ==> (r matches Err(m) && m@ == "Invalid access level: "@ + access@
            + ". Must be read, write, or admin"@),
        valid_access(access@) ==> (r matches Ok((replaced, p)) && {
            &&& p.user_id@ == user_id@
            &&& p.file_id@ == file_id@
            &&& p.access@ == access@
            &&& p.granted_by@ == granted_by@
            &&& p.id@.len() == 36
            &&& match replaced {
                Some(id) => exists|i: int|
                    0 <= i < perms@.len() && (#[trigger] perms@[i]).id@ == id@ && perms@[i].user_id@ == user_id@
                        && perms@[i].file_id@ == file_id@ && forall|k: int|
                        0 <= k < i ==> !((#[trigger] perms@[k]).user_id@ == user_id@ && perms@[k].file_id@ == file_id@),
                None => forall|k: int|
                    0 <= k < perms@.len() ==> !((#[trigger] perms@[k]).user_id@ == user_id@ && perms@[k].file_id@
                        == file_id@),
            }
        }),
{
    let ac = chars_of(access);
    if !(eq_lit(&ac, "read") || eq_lit(&ac, "write") || eq_lit(&ac, "admin")) {
        let mut m = String::from_str("Invalid access level: ");
        m.append(access);
        m.append(". Must be read, write, or admin");
        return Err(m);
    }
    let replaced: Option<String> = match find_permission(perms, user_id, file_id) {
        Some(i) => Some(perms[i].id.clone()),
        None => None,
    };
    let p = UserFilePermission {
        id: new_uuid_v4(),
        user_id: String::from_str(user_id),
        file_id: String::from_str(file_id),
        access: String::from_str(access),
        granted_by: String::from_str(granted_by),
        granted_at: now_rfc3339(),
    };
    Ok((replaced, p))
}

/// A user that registration accepts can log in with the same name and password once
/// stored: it is the first user with the name, it is active, and its stored hash accepts
/// the password, so `authenticate_user` answers with a session for it.
pub proof fn registered_user_can_authenticate(users: Seq<User>, u: User, username: Seq<char>, password: Seq<char>)
    requires
        forall|j: int| 0 <= j < users.len() ==> (#[trigger] users[j]).username@ != username,
        u.username@ == username,
        u.is_active,
        accepts(password, u.password_hash@) == Some(true),
    ensures
        is_first_named(users.push(u), username, users.len() as int),
        users.push(u)[users.len() as int].is_active,
        accepts(password, users.push(u)[users.len() as int].password_hash@) == Some(true),
{
    assert forall|j: int| 0 <= j < users.len() implies (#[trigger] users.push(u)[j]).username@ != username by {
        assert(users.push(u)[j] == users[j]);
    }
}

} // verus!
