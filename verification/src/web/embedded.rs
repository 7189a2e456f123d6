//! The web server embedded in the desktop app: its responses, its routes, the
//! `Content-Length` header it reads, and the decisions of its login, registration,
//! permission and access handlers. The records themselves are read and written by the
//! host from the database.
use vstd::prelude::*;
use vstd::utf8::encode_utf8;

use crate::access::{argon2_check, argon2_hash_password, argon2_verify_reporting, hashable_password, session_token};
use crate::clock::unix_now_millis;
use crate::crypto::primitives::{new_uuid_v4, now_rfc3339};
use crate::digest::blake3_hex_digest;
use crate::sync::reply::{all_digits, digits_value, lemma_digits_grow};
use crate::text::{chars_of, contains_text, decimal, eq_lit, has_infix, lowercase, prefixed, push_decimal, to_lowercase};
use crate::web::http::{json_quote, json_string};
use crate::web::query::{parse_query_param_decoded, raw_param, url_decoded};
use crate::web::routes::{
    access_level_sufficient, access_rank, path_segments, plan_request, query_part, string_views, trim_chars, trimmed,
};

verus! {

/// The reason phrase the embedded server gives a status code (`OK` for codes it does
/// not name).
pub open spec fn embedded_status_text_spec(status: u16) -> Seq<char> {
    if status == 200 {
        "OK"@
    } else if status == 201 {
        "Created"@
    } else if status == 400 {
        "Bad Request"@
    } else if status == 401 {
        "Unauthorized"@
    } else if status == 403 {
        "Forbidden"@
    } else if status == 404 {
        "Not Found"@
    } else if status == 409 {
        "Conflict"@
    } else if status == 500 {
        "Internal Server Error"@
    } else {
        "OK"@
    }
}

/// The reason phrase of a status code.
pub fn embedded_status_text(status: u16) -> (r: &'static str)
    ensures
        r@ == embedded_status_text_spec(status),
{
    let r = if status == 200 {
        "OK"
    } else if status == 201 {
        "Created"
    } else if status == 400 {
        "Bad Request"
    } else if status == 401 {
        "Unauthorized"
    } else if status == 403 {
        "Forbidden"
    } else if status == 404 {
        "Not Found"
    } else if status == 409 {
        "Conflict"
    } else if status == 500 {
        "Internal Server Error"
    } else {
        "OK"
    };
    proof {
        reveal_strlit("OK");
        reveal_strlit("Created");
        reveal_strlit("Bad Request");
        reveal_strlit("Unauthorized");
        reveal_strlit("Forbidden");
        reveal_strlit("Not Found");
        reveal_strlit("Conflict");
        reveal_strlit("Internal Server Error");
    }
    r
}

/// A complete response of the embedded server: status line, content type, the CORS
/// headers, the body's length in bytes, a blank line and the body.
pub open spec fn embedded_response_text(status: u16, content_type: Seq<char>, body: Seq<char>) -> Seq<char> {
    "HTTP/1.1 "@ + decimal(status as nat) + " "@ + embedded_status_text_spec(status) + "\r\nContent-Type: "@
        + content_type
        + "\r\nAccess-Control-Allow-Origin: *\r\nAccess-Control-Allow-Headers: Content-Type, Authorization\r\nAccess-Control-Allow-Methods: GET, POST, PUT, DELETE, OPTIONS\r\nContent-Length: "@
        + decimal(encode_utf8(body).len() as usize as nat) + "\r\n\r\n"@ + body
}

/// A complete response with the given status, content type and body.
pub fn embedded_response(status: u16, content_type: &str, body: &str) -> (r: String)
    ensures
        r@ == embedded_response_text(status, content_type@, body@),
{
    let mut s = String::from_str("HTTP/1.1 ");
    push_decimal(&mut s, status as u64);
    s.append(" ");
    s.append(embedded_status_text(status));
    s.append("\r\nContent-Type: ");
    s.append(content_type);
    s.append(
        "\r\nAccess-Control-Allow-Origin: *\r\nAccess-Control-Allow-Headers: Content-Type, Authorization\r\nAccess-Control-Allow-Methods: GET, POST, PUT, DELETE, OPTIONS\r\nContent-Length: ",
    );
    push_decimal(&mut s, body.len() as u64);
    s.append("\r\n\r\n");
    s.append(body);
    s
}

/// The JSON body of an error as `serde_json` writes the object `{error: true, status,
/// message}` (its keys in sorted order).
pub open spec fn embedded_error_body(status: u16, message: Seq<char>) -> Seq<char> {
    "{\"error\":true,\"message\":"@ + json_string(message) + ",\"status\":"@ + decimal(status as nat) + "}"@
}

/// An error response of the embedded server.
pub fn embedded_json_error(status: u16, message: &str) -> (r: String)
    ensures
        r@ == embedded_response_text(status, "application/json"@, embedded_error_body(status, message@)),
{
    let mut body = String::from_str("{\"error\":true,\"message\":");
    let quoted = json_quote(message);
    body.append(quoted.as_str());
    body.append(",\"status\":");
    push_decimal(&mut body, status as u64);
    body.append("}");
    embedded_response(status, "application/json", body.as_str())
}

/// The endpoints of the embedded server.
#[derive(Debug, Clone, Copy, PartialEq, Eq, Structural)]
pub enum EmbeddedKind {
    Preflight,
    ListFiles,
    GetFile,
    DeleteFile,
    Accounts,
    Collections,
    CollectionItems,
    FaceGroups,
    LooseGroups,
    EncryptionStatus,
    EncryptionKeys,
    GeoFiles,
    Search,
    Locations,
    Users,
    Login,
    Register,
    SetPermission,
    VerifyAccess,
    FilePermissions,
    Health,
    NotFound,
}

/// Whether the segments are `api`, the word and one more segment.
pub open spec fn api_item(segs: Seq<Seq<char>>, word: Seq<char>) -> bool {
    segs.len() == 3 && segs[0] == "api"@ && segs[1] == word
}

/// The endpoint a method and path segments name, tried in the order the server lists
/// them.
pub open spec fn embedded_kind(method: Seq<char>, segs: Seq<Seq<char>>) -> EmbeddedKind {
    let get = method == "GET"@;
    let post = method == "POST"@;
    if method == "OPTIONS"@ {
        EmbeddedKind::Preflight
    } else if segs == seq!["api"@, "files"@] && get {
        EmbeddedKind::ListFiles
    } else if api_item(segs, "files"@) && get {
        EmbeddedKind::GetFile
    } else if api_item(segs, "files"@) && method == "DELETE"@ {
        EmbeddedKind::DeleteFile
    } else if segs == seq!["api"@, "accounts"@] && get {
        EmbeddedKind::Accounts
    } else if segs == seq!["api"@, "collections"@] && get {
        EmbeddedKind::Collections
    } else if segs == seq!["api"@, "collection-items"@] && get {
        EmbeddedKind::CollectionItems
    } else if segs == seq!["api"@, "face-groups"@] && get {
        EmbeddedKind::FaceGroups
    } else if segs == seq!["api"@, "loose-groups"@] && get {
        EmbeddedKind::LooseGroups
    } else if segs == seq!["api"@, "encryption"@, "status"@] && get {
        EmbeddedKind::EncryptionStatus
    } else if segs == seq!["api"@, "encryption"@, "keys"@] && get {
        EmbeddedKind::EncryptionKeys
    } else if segs == seq!["api"@, "geo-files"@] && get {
        EmbeddedKind::GeoFiles
    } else if segs == seq!["api"@, "search"@] && get {
        EmbeddedKind::Search
    } else if segs == seq!["api"@, "locations"@] && get {
        EmbeddedKind::Locations
    } else if segs == seq!["api"@, "users"@] && get {
        EmbeddedKind::Users
    } else if segs == seq!["api"@, "users"@, "login"@] && post {
        EmbeddedKind::Login
    } else if segs == seq!["api"@, "users"@, "register"@] && post {
        EmbeddedKind::Register
    } else if segs == seq!["api"@, "permissions"@] && post {
        EmbeddedKind::SetPermission
    } else if segs == seq!["api"@, "permissions"@, "verify"@] && post {
        EmbeddedKind::VerifyAccess
    } else if api_item(segs, "permissions"@) && get {
        EmbeddedKind::FilePermissions
    } else if (segs == seq!["api"@] || segs == seq!["api"@, "health"@]) && get {
        EmbeddedKind::Health
    } else {
        EmbeddedKind::NotFound
    }
}

/// Whether an endpoint names a record by the third path segment.
pub open spec fn takes_item(kind: EmbeddedKind) -> bool {
    kind == EmbeddedKind::GetFile || kind == EmbeddedKind::DeleteFile || kind == EmbeddedKind::FilePermissions
}

/// How the embedded server answers a request: the endpoint, the record it names (empty
/// when none) and the query string.
pub struct EmbeddedPlan {
    pub kind: EmbeddedKind,
    pub item: String,
    pub query: String,
}

fn seg_is(segs: &Vec<String>, i: usize, lit: &str) -> (r: bool)
    requires
        i < segs@.len(),
    ensures
        r == (string_views(segs@)[i as int] == lit@),
{
    let c = chars_of(segs[i].as_str());
    eq_lit(c.as_slice(), lit)
}

fn segs_are1(segs: &Vec<String>, a: &str) -> (r: bool)
    ensures
        r == (string_views(segs@) == seq![a@]),
{
    if segs.len() != 1 {
        assert(string_views(segs@).len() != 1);
        return false;
    }
    let r = seg_is(segs, 0, a);
    assert(r ==> string_views(segs@) =~= seq![a@]);
    r
}

fn segs_are2(segs: &Vec<String>, a: &str, b: &str) -> (r: bool)
    ensures
        r == (string_views(segs@) == seq![a@, b@]),
{
    if segs.len() != 2 {
        assert(string_views(segs@).len() != 2);
        return false;
    }
    let r = seg_is(segs, 0, a) && seg_is(segs, 1, b);
    assert(r ==> string_views(segs@) =~= seq![a@, b@]);
    assert(string_views(segs@) == seq![a@, b@] ==> string_views(segs@)[0] == a@ && string_views(segs@)[1] == b@);
    r
}

fn segs_are3(segs: &Vec<String>, a: &str, b: &str, c: &str) -> (r: bool)
    ensures
        r == (string_views(segs@) == seq![a@, b@, c@]),
{
    if segs.len() != 3 {
        assert(string_views(segs@).len() != 3);
        return false;
    }
    let r = seg_is(segs, 0, a) && seg_is(segs, 1, b) && seg_is(segs, 2, c);
    assert(r ==> string_views(segs@) =~= seq![a@, b@, c@]);
    assert(string_views(segs@) == seq![a@, b@, c@] ==> string_views(segs@)[0] == a@ && string_views(segs@)[1] == b@
        && string_views(segs@)[2] == c@);
    r
}

fn item_of(segs: &Vec<String>, word: &str) -> (r: bool)
    ensures
        r == api_item(string_views(segs@), word@),
{
    segs.len() == 3 && seg_is(segs, 0, "api") && seg_is(segs, 1, word)
}

fn kind_of(method: &str, segs: &Vec<String>) -> (r: EmbeddedKind)
    ensures
        r == embedded_kind(method@, string_views(segs@)),
{
    let m = chars_of(method);
    let get = eq_lit(m.as_slice(), "GET");
    let post = eq_lit(m.as_slice(), "POST");
    if eq_lit(m.as_slice(), "OPTIONS") {
        EmbeddedKind::Preflight
    } else if segs_are2(segs, "api", "files") && get {
        EmbeddedKind::ListFiles
    } else if item_of(segs, "files") && get {
        EmbeddedKind::GetFile
    } else if item_of(segs, "files") && eq_lit(m.as_slice(), "DELETE") {
        EmbeddedKind::DeleteFile
    } else if segs_are2(segs, "api", "accounts") && get {
        EmbeddedKind::Accounts
    } else if segs_are2(segs, "api", "collections") && get {
        EmbeddedKind::Collections
    } else if segs_are2(segs, "api", "collection-items") && get {
        EmbeddedKind::CollectionItems
    } else if segs_are2(segs, "api", "face-groups") && get {
        EmbeddedKind::FaceGroups
    } else if segs_are2(segs, "api", "loose-groups") && get {
        EmbeddedKind::LooseGroups
    } else if segs_are3(segs, "api", "encryption", "status") && get {
        EmbeddedKind::EncryptionStatus
    } else if segs_are3(segs, "api", "encryption", "keys") && get {
        EmbeddedKind::EncryptionKeys
    } else if segs_are2(segs, "api", "geo-files") && get {
        EmbeddedKind::GeoFiles
    } else if segs_are2(segs, "api", "search") && get {
        EmbeddedKind::Search
    } else if segs_are2(segs, "api", "locations") && get {
        EmbeddedKind::Locations
    } else if segs_are2(segs, "api", "users") && get {
        EmbeddedKind::Users
    } else if segs_are3(segs, "api", "users", "login") && post {
        EmbeddedKind::Login
    } else if segs_are3(segs, "api", "users", "register") && post {
        EmbeddedKind::Register
    } else if segs_are2(segs, "api", "permissions") && post {
        EmbeddedKind::SetPermission
    } else if segs_are3(segs, "api", "permissions", "verify") && post {
        EmbeddedKind::VerifyAccess
    } else if item_of(segs, "permissions") && get {
        EmbeddedKind::FilePermissions
    } else if (segs_are1(segs, "api") || segs_are2(segs, "api", "health")) && get {
        EmbeddedKind::Health
    } else {
        EmbeddedKind::NotFound
    }
}

/// Finds the endpoint of a request, the record it names and its query string.
pub fn embedded_route(method: &str, target: &str) -> (r: EmbeddedPlan)
    ensures
        r.kind == embedded_kind(method@, path_segments(target@)),
        takes_item(r.kind) ==> r.item@ == path_segments(target@)[2],
        !takes_item(r.kind) ==> r.item@.len() == 0,
        r.query@ == query_part(target@),
{
    let plan = plan_request(method, target);
    let kind = kind_of(method, &plan.segments);
    let item = if kind == EmbeddedKind::GetFile || kind == EmbeddedKind::DeleteFile || kind
        == EmbeddedKind::FilePermissions {
        assert(string_views(plan.segments@)[2] == plan.segments@[2]@);
        plan.segments[2].clone()
    } else {
        String::new()
    };
    EmbeddedPlan { kind, item, query: plan.query }
}

/// The answer to a request no endpoint takes: 404 with `Not found: ` and the method and
/// request target.
pub fn embedded_not_found(method: &str, target: &str) -> (r: String)
    ensures
        r@ == embedded_response_text(404, "application/json"@, embedded_error_body(404, "Not found: "@ + method@ + " "@ + target@)),
{
    let mut m = String::from_str("Not found: ");
    m.append(method);
    m.append(" ");
    m.append(target);
    embedded_json_error(404, m.as_str())
}

/// The `usize` a text denotes as `str::parse::<usize>` reads it: an optional `+`, then
/// one or more decimal digits, in range; none otherwise.
pub open spec fn decimal_usize(s: Seq<char>) -> Option<usize> {
    let d = if s.len() > 0 && s[0] == '+' {
        s.drop_first()
    } else {
        s
    };
    if d.len() == 0 || !all_digits(d) || digits_value(d) > usize::MAX {
        None
    } else {
        Some(digits_value(d) as usize)
    }
}

/// The `usize` that a text denotes, if any (`str::parse::<usize>`).
pub fn parse_usize(text: &Vec<char>) -> (r: Option<usize>)
    ensures
        r == decimal_usize(text@),
{
    let n = text.len();
    let start: usize = if n > 0 && text[0] == '+' {
        1
    } else {
        0
    };
    let ghost d = if text@.len() > 0 && text@[0] == '+' {
        text@.drop_first()
    } else {
        text@
    };
    assert(d =~= text@.skip(start as int));
    if start == n {
        return None;
    }
    let mut acc: usize = 0;
    let mut i: usize = start;
    assert(d.take(0) =~= Seq::<char>::empty());
    while i < n
        invariant
            start <= i <= n,
            n == text@.len(),
            d =~= text@.skip(start as int),
            d == (if text@.len() > 0 && text@[0] == '+' {
                text@.drop_first()
            } else {
                text@
            }),
            d.len() > 0,
            acc == digits_value(d.take(i - start)),
            all_digits(d.take(i - start)),
        decreases n - i,
    {
        let c = text[i];
        assert(c == d[i - start]);
        if !('0' <= c && c <= '9') {
            assert(!all_digits(d));
            return None;
        }
        let digit = (c as u32 - '0' as u32) as usize;
        let ghost t = d.take(i - start + 1);
        assert(t.drop_last() =~= d.take(i - start));
        assert(t.last() == c);
        assert(digits_value(t) == acc * 10 + digit);
        assert(all_digits(t)) by {
            assert forall|k: int| 0 <= k < t.len() implies '0' <= #[trigger] t[k] <= '9' by {
                if k < t.len() - 1 {
                    assert(t[k] == d.take(i - start)[k]);
                }
            }
        }
        let grown = match acc.checked_mul(10) {
            Some(x) => x.checked_add(digit),
            None => None,
        };
        match grown {
            Some(v) => {
                acc = v;
            },
            None => {
                proof {
                    if all_digits(d) {
                        lemma_digits_grow(d, i - start + 1);
                    }
                }
                return None;
            },
        }
        i = i + 1;
    }
    assert(d.take(n - start) =~= d);
    Some(acc)
}

/// What a request header line says of the body's length: none when it is not a
/// `Content-Length` line (names compared without regard to case, around white space),
/// else the number it gives, or 0 when that does not parse.
pub open spec fn content_length_of(line: Seq<char>) -> Option<usize> {
    let l = lowercase(trimmed(line));
    if "content-length:"@.is_prefix_of(l) {
        Some(
            match decimal_usize(trimmed(l.skip(15))) {
                Some(n) => n,
                None => 0,
            },
        )
    } else {
        None
    }
}

/// Reads a request header line for the body's length.
pub fn header_content_length(line: &str) -> (r: Option<usize>)
    ensures
        r == content_length_of(line@),
{
    let c = chars_of(line);
    let t = trim_chars(&c);
    let joined = crate::text::string_of(t.as_slice());
    let lowered = to_lowercase(joined.as_str());
    let l = chars_of(lowered.as_str());
    proof {
        reveal_strlit("content-length:");
    }
    if l.len() < 15 {
        return None;
    }
    let mut head: Vec<char> = Vec::new();
    let mut rest: Vec<char> = Vec::new();
    let mut k: usize = 0;
    while k < l.len()
        invariant
            15 <= l@.len(),
            k <= l@.len(),
            k <= 15 ==> head@ == l@.subrange(0, k as int) && rest@.len() == 0,
            k > 15 ==> head@ == l@.subrange(0, 15) && rest@ == l@.subrange(15, k as int),
        decreases l.len() - k,
    {
        if k < 15 {
            head.push(l[k]);
            assert(l@.subrange(0, k + 1) =~= l@.subrange(0, k as int).push(l@[k as int]));
        } else {
            rest.push(l[k]);
            assert(l@.subrange(15, k + 1) =~= l@.subrange(15, k as int).push(l@[k as int]));
        }
        k = k + 1;
    }
    if !eq_lit(head.as_slice(), "content-length:") {
        return None;
    }
    assert(head@ =~= l@.subrange(0, 15));
    assert(rest@ =~= l@.skip(15));
    let value = trim_chars(&rest);
    match parse_usize(&value) {
        Some(n) => Some(n),
        None => Some(0),
    }
}

/// A user record of the embedded server's table, as far as logging in and registering
/// read it: the name, the active flag and the password hash, each when present.
pub struct WebUser {
    pub username: Option<String>,
    pub is_active: Option<bool>,
    pub password_hash: Option<String>,
}

/// Whether the record carries the user name.
pub open spec fn named(u: WebUser, username: Seq<char>) -> bool {
    u.username matches Some(n) && n@ == username
}

/// `i` is the first record that carries the user name.
pub open spec fn first_named(users: Seq<WebUser>, username: Seq<char>, i: int) -> bool {
    0 <= i < users.len() && named(users[i], username) && forall|j: int| 0 <= j < i ==> !named(#[trigger] users[j], username)
}

fn opt_same(o: &Option<String>, s: &str) -> (r: bool)
    ensures
        r == (o matches Some(n) && n@ == s@),
{
    match o {
        Some(n) => {
            let c = chars_of(n.as_str());
            eq_lit(c.as_slice(), s)
        },
        None => false,
    }
}

fn find_named(users: &Vec<WebUser>, username: &str) -> (r: Option<usize>)
    ensures
        match r {
            Some(i) => first_named(users@, username@, i as int),
            None => forall|j: int| 0 <= j < users@.len() ==> !named(#[trigger] users@[j], username@),
        },
{
    let mut i: usize = 0;
    while i < users.len()
        invariant
            i <= users@.len(),
            forall|j: int| 0 <= j < i ==> !named(#[trigger] users@[j], username@),
        decreases users.len() - i,
    {
        if opt_same(&users[i].username, username) {
            return Some(i);
        }
        i = i + 1;
    }
    None
}

/// The refusal of a login or registration that lacks the name or the password.
pub fn missing_credentials(username: &str, password: &str) -> (r: Option<(u16, String)>)
    ensures
        r is Some <==> (username@.len() == 0 || password@.len() == 0),
        r matches Some((code, m)) ==> code == 400 && m@ == "username and password are required"@,
{
    if username.unicode_len() == 0 || password.unicode_len() == 0 {
        Some((400, String::from_str("username and password are required")))
    } else {
        None
    }
}

/// Logs a user in: name and password must be given (400); the first record with the
/// name must exist (401) and not be marked inactive (403), must carry a password hash
/// (500), and the password must match it (401 when it does not, 500 when the hash does
/// not parse). The result is the record's index and a session token: the BLAKE3 hex
/// digest of the name, `|` and the current Unix time in milliseconds.
pub fn embedded_login(users: &Vec<WebUser>, username: &str, password: &str) -> (r: Result<(usize, String), (u16, String)>)
    ensures
        username@.len() == 0 || password@.len() == 0 ==> (r matches Err((400, m)) && m@
            == "username and password are required"@),
        username@.len() > 0 && password@.len() > 0 && (forall|j: int| 0 <= j < users@.len() ==> !named(#[trigger] users@[j], username@)) ==> (r matches Err((401, m)) && m@ == "Invalid credentials"@),
        username@.len() > 0 && password@.len() > 0 ==> forall|i: int|
            first_named(users@, username@, i) ==> {
                let u = users@[i];
                &&& u.is_active == Some(false) ==> (r matches Err((403, m)) && m@ == "User account is deactivated"@)
                &&& u.is_active != Some(false) && u.password_hash is None ==> (r matches Err((500, m)) && m@
                    == "User record has no password hash"@)
                &&& u.is_active != Some(false) ==> (u.password_hash matches Some(h) ==> match argon2_check(password@, h@) {
                    Some(true) => r matches Ok((k, token)) && k == i && exists|ms: u64| token@ == session_token(username@, ms),
                    Some(false) => r matches Err((401, m)) && m@ == "Invalid credentials"@,
                    None => r matches Err((500, m)) && "Password verification error: Invalid hash: "@.is_prefix_of(m@),
                })
            },
{
    if let Some(refusal) = missing_credentials(username, password) {
        return Err(refusal);
    }
    let i = match find_named(users, username) {
        Some(i) => i,
        None => return Err((401, String::from_str("Invalid credentials"))),
    };
    proof {
        assert forall|k: int| first_named(users@, username@, k) implies k == i as int by {
            if k < i {
                assert(named(users@[k], username@));
            } else if k > i {
                assert(named(users@[i as int], username@));
            }
        }
    }
    let user = &users[i];
    if user.is_active == Some(false) {
        return Err((403, String::from_str("User account is deactivated")));
    }
    let hash = match &user.password_hash {
        Some(h) => h,
        None => return Err((500, String::from_str("User record has no password hash"))),
    };
    match argon2_verify_reporting(password, hash.as_str(), "Invalid hash: ") {
        Ok(true) => {
            let mut input = String::from_str(username);
            input.append("|");
            let ms = unix_now_millis();
            push_decimal(&mut input, ms);
            let token = blake3_hex_digest(input.as_str().as_bytes());
            assert(token@ == session_token(username@, ms));
            Ok((i, token))
        },
        Ok(false) => Err((401, String::from_str("Invalid credentials"))),
        Err(e) => {
            let m = prefixed("Password verification error: ", e.as_str());
            proof {
                reveal_strlit("Password verification error: ");
                reveal_strlit("Invalid hash: ");
                reveal_strlit("Password verification error: Invalid hash: ");
                assert("Password verification error: Invalid hash: "@ =~= "Password verification error: "@ + "Invalid hash: "@);
                assert(("Password verification error: "@ + e@).subrange(0, 43) =~= "Password verification error: "@ + e@.subrange(0, 14));
            }
            Err((500, m))
        },
    }
}

/// A user as the embedded server registers it.
pub struct WebUserRecord {
    pub id: String,
    pub username: String,
    pub password_hash: String,
    pub display_name: Option<String>,
    pub role: String,
    pub is_active: bool,
    pub created_at: String,
    pub updated_at: String,
}

/// Registers a user: name and password must be given (400) and the name must not be on
/// any record yet (409); the password is stored as an Argon2 hash (500 when Argon2 refuses
/// a password too long for it); the role is `user` unless given; the account starts active.
pub fn embedded_register(
    users: &Vec<WebUser>,
    username: &str,
    password: &str,
    display_name: Option<String>,
    role: Option<String>,
) -> (r: Result<WebUserRecord, (u16, String)>)
    ensures
        username@.len() == 0 || password@.len() == 0 ==> (r matches Err((400, m)) && m@
            == "username and password are required"@),
        username@.len() > 0 && password@.len() > 0 && (exists|j: int| 0 <= j < users@.len() && named(#[trigger] users@[j], username@)) ==> (r matches Err((409, m)) && m@ == "Username '"@ + username@ + "' already exists"@),
        r matches Err((code, m)) ==> {
            ||| code == 400 && (username@.len() == 0 || password@.len() == 0)
            ||| code == 409 && username@.len() > 0 && password@.len() > 0 && (exists|j: int|
                0 <= j < users@.len() && named(#[trigger] users@[j], username@))
            ||| code == 500 && username@.len() > 0 && password@.len() > 0 && (forall|j: int|
                0 <= j < users@.len() ==> !named(#[trigger] users@[j], username@)) && !hashable_password(password@)
                && "Hashing error: Argon2 hash error: "@.is_prefix_of(m@)
        },
        username@.len() > 0 && password@.len() > 0 && (forall|j: int|
            0 <= j < users@.len() ==> !named(#[trigger] users@[j], username@)) && hashable_password(password@)
            ==> r is Ok,
        r matches Ok(u) ==> {
            &&& username@.len() > 0 && password@.len() > 0
            &&& forall|j: int| 0 <= j < users@.len() ==> !named(#[trigger] users@[j], username@)
            &&& u.username@ == username@
            &&& argon2_check(password@, u.password_hash@) == Some(true)
            &&& u.display_name == display_name
            &&& u.role@ == (match role {
                Some(x) => x@,
                None => "user"@,
            })
            &&& u.is_active
            &&& u.id@.len() == 36
            &&& u.created_at@ == u.updated_at@
        },
{
    if let Some(refusal) = missing_credentials(username, password) {
        return Err(refusal);
    }
    if let Some(_) = find_named(users, username) {
        let mut m = String::from_str("Username '");
        m.append(username);
        m.append("' already exists");
        return Err((409, m));
    }
    let password_hash = match argon2_hash_password(password) {
        Ok(h) => h,
        Err(e) => {
            let m = prefixed("Hashing error: ", e.as_str());
            proof {
                reveal_strlit("Hashing error: ");
                reveal_strlit("Argon2 hash error: ");
                reveal_strlit("Hashing error: Argon2 hash error: ");
                assert("Hashing error: Argon2 hash error: "@ =~= "Hashing error: "@ + "Argon2 hash error: "@);
                assert(("Hashing error: "@ + e@).subrange(0, 34) =~= "Hashing error: "@ + e@.subrange(0, 19));
            }
            return Err((500, m));
        },
    };
    let role = match role {
        Some(x) => x,
        None => String::from_str("user"),
    };
    let now = now_rfc3339();
    Ok(WebUserRecord {
        id: new_uuid_v4(),
        username: String::from_str(username),
        password_hash,
        display_name,
        role,
        is_active: true,
        created_at: now.clone(),
        updated_at: now,
    })
}

/// A file permission as the embedded server grants it.
pub struct WebPermission {
    pub id: String,
    pub user_id: String,
    pub file_id: String,
    pub access: String,
    pub granted_by: String,
    pub granted_at: String,
}

/// Grants a user access to a file: all three must be given and the access must be
/// `read`, `write` or `admin` (400 otherwise); the grant is recorded as made by
/// `system`.
pub fn embedded_permission(user_id: &str, file_id: &str, access: &str) -> (r: Result<WebPermission, (u16, String)>)
    ensures
        user_id@.len() == 0 || file_id@.len() == 0 || access@.len() == 0 ==> (r matches Err((400, m)) && m@
            == "user_id, file_id, and access are required"@),
        user_id@.len() > 0 && file_id@.len() > 0 && access@.len() > 0 && !(access@ == "read"@ || access@ == "write"@
            || access@ == "admin"@) ==> (r matches Err((400, m)) && m@ == "access must be 'read', 'write', or 'admin'"@),
        r is Ok <==> (user_id@.len() > 0 && file_id@.len() > 0 && (access@ == "read"@ || access@ == "write"@ || access@
            == "admin"@)),
        r matches Ok(p) ==> {
            &&& p.user_id@ == user_id@
            &&& p.file_id@ == file_id@
            &&& p.access@ == access@
            &&& p.granted_by@ == "system"@
            &&& p.id@.len() == 36
        },
{
    proof {
        reveal_strlit("read");
        reveal_strlit("write");
        reveal_strlit("admin");
    }
    if user_id.unicode_len() == 0 || file_id.unicode_len() == 0 || access.unicode_len() == 0 {
        return Err((400, String::from_str("user_id, file_id, and access are required")));
    }
    let a = chars_of(access);
    if !(eq_lit(a.as_slice(), "read") || eq_lit(a.as_slice(), "write") || eq_lit(a.as_slice(), "admin")) {
        return Err((400, String::from_str("access must be 'read', 'write', or 'admin'")));
    }
    Ok(WebPermission {
        id: new_uuid_v4(),
        user_id: String::from_str(user_id),
        file_id: String::from_str(file_id),
        access: String::from_str(access),
        granted_by: String::from_str("system"),
        granted_at: now_rfc3339(),
    })
}

/// A permission record as checking access reads it (a missing field reads as empty).
pub struct WebPermissionEntry {
    pub user_id: String,
    pub file_id: String,
    pub access: String,
}

/// Whether a permission grants the user at least the required access to the file.
pub open spec fn grants(p: WebPermissionEntry, user_id: Seq<char>, file_id: Seq<char>, required: Seq<char>) -> bool {
    p.user_id@ == user_id && p.file_id@ == file_id && access_rank(p.access@) >= access_rank(required)
}

/// The verdict of an access check and its reason.
pub struct AccessVerdict {
    pub granted: bool,
    pub reason: String,
}

/// Checks access to a file: an admin user is granted (`admin_role`); otherwise a
/// permission for the user and file with at least the required level grants it
/// (`permission_match`); otherwise it is refused (`no_matching_permission`).
pub fn embedded_verify_access(
    user_role: Option<&str>,
    perms: &Vec<WebPermissionEntry>,
    user_id: &str,
    file_id: &str,
    required: &str,
) -> (r: AccessVerdict)
    ensures
        (user_role matches Some(role) && role@ == "admin"@) ==> r.granted && r.reason@ == "admin_role"@,
        !(user_role matches Some(role) && role@ == "admin"@) ==> {
            if exists|i: int| 0 <= i < perms@.len() && grants(#[trigger] perms@[i], user_id@, file_id@, required@) {
                r.granted && r.reason@ == "permission_match"@
            } else {
                !r.granted && r.reason@ == "no_matching_permission"@
            }
        },
{
    let is_admin = match user_role {
        Some(role) => {
            let c = chars_of(role);
            eq_lit(c.as_slice(), "admin")
        },
        None => false,
    };
    assert(is_admin == (user_role matches Some(role) && role@ == "admin"@));
    if is_admin {
        return AccessVerdict { granted: true, reason: String::from_str("admin_role") };
    }
    let mut i: usize = 0;
    while i < perms.len()
        invariant
            i <= perms@.len(),
            !(user_role matches Some(role) && role@ == "admin"@),
            forall|j: int| 0 <= j < i ==> !grants(#[trigger] perms@[j], user_id@, file_id@, required@),
        decreases perms.len() - i,
    {
        let p = &perms[i];
        let u = chars_of(p.user_id.as_str());
        let f = chars_of(p.file_id.as_str());
        if eq_lit(u.as_slice(), user_id) && eq_lit(f.as_slice(), file_id) && access_level_sufficient(
            p.access.as_str(),
            required,
        ) {
            assert(grants(perms@[i as int], user_id@, file_id@, required@));
            return AccessVerdict { granted: true, reason: String::from_str("permission_match") };
        }
        i = i + 1;
    }
    AccessVerdict { granted: false, reason: String::from_str("no_matching_permission") }
}

/// The term of a search request: the percent-decoded `q` parameter, lower-cased (empty
/// when absent).
pub open spec fn embedded_search_term_of(query: Seq<char>) -> Seq<char> {
    lowercase(
        match raw_param(query, "q"@) {
            Some(v) => url_decoded(v),
            None => Seq::empty(),
        },
    )
}

/// The term of a search request.
pub fn embedded_search_term(query: &str) -> (r: String)
    ensures
        r@ == embedded_search_term_of(query@),
{
    proof {
        reveal_strlit("");
    }
    let v = match parse_query_param_decoded(query, "q") {
        Some(v) => v,
        None => String::new(),
    };
    to_lowercase(v.as_str())
}

/// Whether a file matches a (lower-case) search term: the term occurs in its
/// lower-cased name, path or indexed text.
pub fn embedded_search_matches(name: &str, path: &str, content: &str, term: &str) -> (r: bool)
    ensures
        r == (has_infix(lowercase(name@), term@) || has_infix(lowercase(path@), term@) || has_infix(
            lowercase(content@),
            term@,
        )),
{
    let n = to_lowercase(name);
    if contains_text(n.as_str(), term) {
        return true;
    }
    let p = to_lowercase(path);
    if contains_text(p.as_str(), term) {
        return true;
    }
    let c = to_lowercase(content);
    contains_text(c.as_str(), term)
}

/// A user that registration accepts can log in with the same name and password once its
/// record is stored after the others: it is the first record with the name, it is not
/// marked inactive, and its hash accepts the password, so `embedded_login` grants a
/// session for it.
pub proof fn registered_web_user_can_log_in(
    users: Seq<WebUser>,
    registered: WebUserRecord,
    stored: WebUser,
    username: Seq<char>,
    password: Seq<char>,
)
    requires
        forall|j: int| 0 <= j < users.len() ==> !named(#[trigger] users[j], username),
        registered.username@ == username,
        registered.is_active,
        argon2_check(password, registered.password_hash@) == Some(true),
        stored.username matches Some(n) && n@ == registered.username@,
        stored.is_active == Some(registered.is_active),
        stored.password_hash matches Some(h) && h@ == registered.password_hash@,
    ensures
        first_named(users.push(stored), username, users.len() as int),
        users.push(stored)[users.len() as int].is_active != Some(false),
        users.push(stored)[users.len() as int].password_hash matches Some(h) && argon2_check(password, h@) == Some(true),
{
    assert forall|j: int| 0 <= j < users.len() implies !named(#[trigger] users.push(stored)[j], username) by {
        assert(users.push(stored)[j] == users[j]);
    }
}

} // verus!
