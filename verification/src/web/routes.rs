//! Routing of API requests: path segments, the endpoint they name, and which endpoints
//! need a bearer token.
use vstd::prelude::*;

use crate::text::{chars_of, eq_lit, string_of};
use crate::web::http::json_error;
use crate::web::http::{error_body, response_text};
use crate::web::query::{first_index, find_char, split_chars, split_on, views};

verus! {

/// `s` without its leading `c` characters.
pub open spec fn trim_leading(s: Seq<char>, c: char) -> Seq<char>
    decreases s.len(),
{
    if s.len() > 0 && s[0] == c {
        trim_leading(s.drop_first(), c)
    } else {
        s
    }
}

/// The non-empty pieces, in order.
pub open spec fn nonempty_pieces(pieces: Seq<Seq<char>>) -> Seq<Seq<char>>
    decreases pieces.len(),
{
    if pieces.len() == 0 {
        pieces
    } else if pieces.last().len() > 0 {
        nonempty_pieces(pieces.drop_last()).push(pieces.last())
    } else {
        nonempty_pieces(pieces.drop_last())
    }
}

/// The part of a request target before its first `?`.
pub open spec fn path_part(target: Seq<char>) -> Seq<char> {
    match first_index(target, '?') {
        Some(i) => target.take(i),
        None => target,
    }
}

/// The part of a request target after its first `?` (empty when there is none).
pub open spec fn query_part(target: Seq<char>) -> Seq<char> {
    match first_index(target, '?') {
        Some(i) => target.skip(i + 1),
        None => Seq::empty(),
    }
}

/// The non-empty `/`-separated segments of the path part of a request target.
pub open spec fn path_segments(target: Seq<char>) -> Seq<Seq<char>> {
    nonempty_pieces(split_on(trim_leading(path_part(target), '/'), '/'))
}

/// The endpoints of the API.
#[derive(Debug, Clone, Copy, PartialEq, Eq, Structural)]
pub enum Route {
    Preflight,
    Login,
    Register,
    Files,
    Accounts,
    Collections,
    CollectionItems,
    FaceGroups,
    LooseGroups,
    EncryptionStatus,
    EncryptionKeys,
    GeoFiles,
    Search,
    Locations,
    Users,
    FilePermissions,
    SyncConfigs,
    SyncStatus,
    DashboardStatus,
    Health,
    NotFound,
}

/// Whether an endpoint path may be called without a token: health and user login.
pub open spec fn is_public_path(segs: Seq<Seq<char>>) -> bool {
    ||| segs == seq!["api"@, "health"@]
    ||| segs == seq!["api"@, "users"@, "login"@]
}

/// Whether a request must carry a valid token before it is answered: every endpoint but the
/// public ones. A preflight is answered at once, and a request that names no endpoint is
/// answered "not found" without a token.
pub open spec fn needs_token(route: Route, segs: Seq<Seq<char>>) -> bool {
    !(route is Preflight || route is NotFound || is_public_path(segs))
}

/// The endpoint that a method and path segments name.
pub open spec fn route_of(method: Seq<char>, segs: Seq<Seq<char>>) -> Route {
    let get = method == "GET"@;
    let post = method == "POST"@;
    if method == "OPTIONS"@ {
        Route::Preflight
    } else if (segs == seq!["api"@, "auth"@, "login"@] || segs == seq!["api"@, "users"@, "login"@]) && post {
        Route::Login
    } else if segs == seq!["api"@, "users"@, "register"@] && post {
        Route::Register
    } else if segs == seq!["api"@, "files"@] && get {
        Route::Files
    } else if segs == seq!["api"@, "accounts"@] && get {
        Route::Accounts
    } else if segs == seq!["api"@, "collections"@] && get {
        Route::Collections
    } else if segs == seq!["api"@, "collection-items"@] && get {
        Route::CollectionItems
    } else if segs == seq!["api"@, "face-groups"@] && get {
        Route::FaceGroups
    } else if segs == seq!["api"@, "loose-groups"@] && get {
        Route::LooseGroups
    } else if segs == seq!["api"@, "encryption"@, "status"@] && get {
        Route::EncryptionStatus
    } else if segs == seq!["api"@, "encryption"@, "keys"@] && get {
        Route::EncryptionKeys
    } else if segs == seq!["api"@, "geo-files"@] && get {
        Route::GeoFiles
    } else if segs == seq!["api"@, "search"@] && get {
        Route::Search
    } else if segs == seq!["api"@, "locations"@] && get {
        Route::Locations
    } else if segs == seq!["api"@, "users"@] && get {
        Route::Users
    } else if segs.len() == 3 && segs[0] == "api"@ && segs[1] == "permissions"@ && get {
        Route::FilePermissions
    } else if segs == seq!["api"@, "sync"@, "configs"@] && get {
        Route::SyncConfigs
    } else if segs == seq!["api"@, "sync"@, "status"@] && get {
        Route::SyncStatus
    } else if segs == seq!["api"@, "dashboard"@, "status"@] && get {
        Route::DashboardStatus
    } else if (segs == seq!["api"@] || segs == seq!["api"@, "health"@]) && get {
        Route::Health
    } else {
        Route::NotFound
    }
}

/// The views of a sequence of strings.
pub open spec fn string_views(v: Seq<String>) -> Seq<Seq<char>> {
    v.map_values(|s: String| s@)
}

/// How a request is to be answered: its endpoint, whether a token is needed first, the path
/// segments and the query string.
#[derive(Debug, Clone)]
pub struct RequestPlan {
    pub route: Route,
    pub requires_auth: bool,
    pub segments: Vec<String>,
    pub query: String,
}

fn trim_leading_chars(v: &Vec<char>, c: char) -> (r: Vec<char>)
    ensures
        r@ == trim_leading(v@, c),
{
    let mut i: usize = 0;
    assert(v@.skip(0) =~= v@);
    while i < v.len() && v[i] == c
        invariant
            i <= v@.len(),
            trim_leading(v@, c) == trim_leading(v@.skip(i as int), c),
        decreases v.len() - i,
    {
        assert(v@.skip(i as int).drop_first() =~= v@.skip(i + 1));
        i = i + 1;
    }
    let mut r: Vec<char> = Vec::new();
    let mut j: usize = i;
    while j < v.len()
        invariant
            i <= j <= v@.len(),
            r@ == v@.subrange(i as int, j as int),
        decreases v.len() - j,
    {
        r.push(v[j]);
        assert(v@.subrange(i as int, j + 1) =~= v@.subrange(i as int, j as int).push(v@[j as int]));
        j = j + 1;
    }
    assert(r@ =~= v@.skip(i as int));
    r
}

fn seg_is(segs: &Vec<Vec<char>>, i: usize, lit: &str) -> (r: bool)
    requires
        i < segs@.len(),
    ensures
        r == (views(segs@)[i as int] == lit@),
{
    eq_lit(segs[i].as_slice(), lit)
}

/// Whether the segments are exactly the given words (each test reads one segment).
fn segs_eq1(segs: &Vec<Vec<char>>, a: &str) -> (r: bool)
    ensures
        r == (views(segs@) == seq![a@]),
{
    if segs.len() != 1 {
        assert(views(segs@).len() != 1);
        return false;
    }
    let r = seg_is(segs, 0, a);
    assert(r ==> views(segs@) =~= seq![a@]);
    r
}

fn segs_eq2(segs: &Vec<Vec<char>>, a: &str, b: &str) -> (r: bool)
    ensures
        r == (views(segs@) == seq![a@, b@]),
{
    if segs.len() != 2 {
        assert(views(segs@).len() != 2);
        return false;
    }
    let r = seg_is(segs, 0, a) && seg_is(segs, 1, b);
    assert(r ==> views(segs@) =~= seq![a@, b@]);
    assert(views(segs@) == seq![a@, b@] ==> views(segs@)[0] == a@ && views(segs@)[1] == b@);
    r
}

fn segs_eq3(segs: &Vec<Vec<char>>, a: &str, b: &str, c: &str) -> (r: bool)
    ensures
        r == (views(segs@) == seq![a@, b@, c@]),
{
    if segs.len() != 3 {
        assert(views(segs@).len() != 3);
        return false;
    }
    let r = seg_is(segs, 0, a) && seg_is(segs, 1, b) && seg_is(segs, 2, c);
    assert(r ==> views(segs@) =~= seq![a@, b@, c@]);
    assert(views(segs@) == seq![a@, b@, c@] ==> views(segs@)[0] == a@ && views(segs@)[1] == b@ && views(segs@)[2]
        == c@);
    r
}

fn route_segments(method: &Vec<char>, segs: &Vec<Vec<char>>) -> (r: Route)
    ensures
        r == route_of(method@, views(segs@)),
{
    let get = eq_lit(method.as_slice(), "GET");
    let post = eq_lit(method.as_slice(), "POST");
    if eq_lit(method.as_slice(), "OPTIONS") {
        Route::Preflight
    } else if (segs_eq3(segs, "api", "auth", "login") || segs_eq3(segs, "api", "users", "login")) && post {
        Route::Login
    } else if segs_eq3(segs, "api", "users", "register") && post {
        Route::Register
    } else if segs_eq2(segs, "api", "files") && get {
        Route::Files
    } else if segs_eq2(segs, "api", "accounts") && get {
        Route::Accounts
    } else if segs_eq2(segs, "api", "collections") && get {
        Route::Collections
    } else if segs_eq2(segs, "api", "collection-items") && get {
        Route::CollectionItems
    } else if segs_eq2(segs, "api", "face-groups") && get {
        Route::FaceGroups
    } else if segs_eq2(segs, "api", "loose-groups") && get {
        Route::LooseGroups
    } else if segs_eq3(segs, "api", "encryption", "status") && get {
        Route::EncryptionStatus
    } else if segs_eq3(segs, "api", "encryption", "keys") && get {
        Route::EncryptionKeys
    } else if segs_eq2(segs, "api", "geo-files") && get {
        Route::GeoFiles
    } else if segs_eq2(segs, "api", "search") && get {
        Route::Search
    } else if segs_eq2(segs, "api", "locations") && get {
        Route::Locations
    } else if segs_eq2(segs, "api", "users") && get {
        Route::Users
    } else if segs.len() == 3 && seg_is(segs, 0, "api") && seg_is(segs, 1, "permissions") && get {
        Route::FilePermissions
    } else if segs_eq3(segs, "api", "sync", "configs") && get {
        Route::SyncConfigs
    } else if segs_eq3(segs, "api", "sync", "status") && get {
        Route::SyncStatus
    } else if segs_eq3(segs, "api", "dashboard", "status") && get {
        Route::DashboardStatus
    } else if (segs_eq1(segs, "api") || segs_eq2(segs, "api", "health")) && get {
        Route::Health
    } else {
        Route::NotFound
    }
}

fn is_public(segs: &Vec<Vec<char>>) -> (r: bool)
    ensures
        r == is_public_path(views(segs@)),
{
    segs_eq2(segs, "api", "health") || segs_eq3(segs, "api", "users", "login")
}

pub fn keep_nonempty(pieces: Vec<Vec<char>>) -> (r: Vec<Vec<char>>)
    ensures
        views(r@) == nonempty_pieces(views(pieces@)),
{
    let mut out: Vec<Vec<char>> = Vec::new();
    let ghost pv = views(pieces@);
    assert(pv.take(0) =~= Seq::<Seq<char>>::empty());
    for i in 0..pieces.len()
        invariant
            pv == views(pieces@),
            views(out@) == nonempty_pieces(pv.take(i as int)),
    {
        assert(pv.take(i + 1).drop_last() =~= pv.take(i as int));
        assert(pv.take(i + 1).last() == pieces@[i as int]@);
        if pieces[i].len() > 0 {
            out.push(pieces[i].clone());
            assert(views(out@) =~= nonempty_pieces(pv.take(i as int)).push(pv[i as int]));
        }
    }
    assert(pv.take(pv.len() as int) =~= pv);
    out
}

/// Split a request target into its path segments and query string, and find the endpoint
/// and whether it needs a token (see `needs_token`).
pub fn plan_request(method: &str, path: &str) -> (r: RequestPlan)
    ensures
        r.route == route_of(method@, path_segments(path@)),
        r.requires_auth == needs_token(r.route, path_segments(path@)),
        string_views(r.segments@) == path_segments(path@),
        r.query@ == query_part(path@),
{
    let m = chars_of(method);
    let p = chars_of(path);
    let (clean, query): (Vec<char>, Vec<char>) = match find_char(p.as_slice(), '?') {
        Some(i) => {
            let mut a: Vec<char> = Vec::new();
            for k in 0..i
                invariant
                    i < p@.len(),
                    a@ == p@.take(k as int),
            {
                a.push(p[k]);
                assert(p@.take(k + 1) =~= p@.take(k as int).push(p@[k as int]));
            }
            assert(i < p.len());
            let mut b: Vec<char> = Vec::new();
            let mut k: usize = i + 1;
            while k < p.len()
                invariant
                    i + 1 <= k <= p@.len(),
                    b@ == p@.subrange(i + 1, k as int),
                decreases p.len() - k,
            {
                b.push(p[k]);
                assert(p@.subrange(i + 1, k + 1) =~= p@.subrange(i + 1, k as int).push(p@[k as int]));
                k = k + 1;
            }
            assert(b@ =~= p@.skip(i + 1));
            (a, b)
        },
        None => (p.clone(), Vec::new()),
    };
    let trimmed = trim_leading_chars(&clean, '/');
    let pieces = split_chars(trimmed.as_slice(), '/');
    let segs = keep_nonempty(pieces);
    let route = route_segments(&m, &segs);
    let open_route = match route {
        Route::Preflight | Route::NotFound => true,
        _ => false,
    };
    let requires_auth = !(open_route || is_public(&segs));
    let mut segments: Vec<String> = Vec::new();
    for i in 0..segs.len()
        invariant
            string_views(segments@) == views(segs@).take(i as int),
    {
        let s = string_of(segs[i].as_slice());
        let ghost before = segments@;
        segments.push(s);
        assert(string_views(segments@) =~= string_views(before).push(segs@[i as int]@));
        assert(string_views(segments@) =~= views(segs@).take(i + 1));
    }
    assert(views(segs@).take(segs@.len() as int) =~= views(segs@));
    RequestPlan { route, requires_auth, segments, query: string_of(query.as_slice()) }
}

/// Whether a record field is never sent in a response: a private key or a password hash,
/// under either spelling the stores use.
pub open spec fn secret_field(field: Seq<char>) -> bool {
    field == "private_key"@ || field == "privateKey"@ || field == "passwordHash"@ || field == "password_hash"@
}

/// Whether a record field must be left out of every response (see `secret_field`).
pub fn is_secret_field(field: &str) -> (r: bool)
    ensures
        r == secret_field(field@),
{
    let c = chars_of(field);
    eq_lit(&c, "private_key") || eq_lit(&c, "privateKey") || eq_lit(&c, "passwordHash") || eq_lit(&c, "password_hash")
}

/// The answer to a request that names no endpoint: 404 with `Not found: `, the method and
/// the request target.
pub fn not_found_response(method: &str, target: &str) -> (r: String)
    ensures
        r@ == response_text(404, "application/json"@, error_body("Not found: "@ + method@ + " "@ + target@)),
{
    let mut m = String::from_str("Not found: ");
    m.append(method);
    m.append(" ");
    m.append(target);
    json_error(404, m.as_str())
}

/// Whether a character is Unicode white space (what `str::trim` removes).
pub open spec fn is_white_space(c: char) -> bool {
    ||| ('\u{9}' <= c && c <= '\u{d}')
    ||| c == ' '
    ||| c == '\u{85}'
    ||| c == '\u{a0}'
    ||| c == '\u{1680}'
    ||| ('\u{2000}' <= c && c <= '\u{200a}')
    ||| c == '\u{2028}'
    ||| c == '\u{2029}'
    ||| c == '\u{202f}'
    ||| c == '\u{205f}'
    ||| c == '\u{3000}'
}

pub fn white_space(c: char) -> (r: bool)
    ensures
        r == is_white_space(c),
{
    ('\u{9}' <= c && c <= '\u{d}') || c == ' ' || c == '\u{85}' || c == '\u{a0}' || c == '\u{1680}' || (
    '\u{2000}' <= c && c <= '\u{200a}') || c == '\u{2028}' || c == '\u{2029}' || c == '\u{202f}' || c
        == '\u{205f}' || c == '\u{3000}'
}

/// `s` without leading white space.
pub open spec fn trim_start(s: Seq<char>) -> Seq<char>
    decreases s.len(),
{
    if s.len() > 0 && is_white_space(s[0]) {
        trim_start(s.drop_first())
    } else {
        s
    }
}

/// `s` without trailing white space.
pub open spec fn trim_end(s: Seq<char>) -> Seq<char>
    decreases s.len(),
{
    if s.len() > 0 && is_white_space(s.last()) {
        trim_end(s.drop_last())
    } else {
        s
    }
}

/// `s` without leading and trailing white space.
pub open spec fn trimmed(s: Seq<char>) -> Seq<char> {
    trim_end(trim_start(s))
}

/// `s` without leading and trailing white space.
pub fn trim_chars(v: &Vec<char>) -> (r: Vec<char>)
    ensures
        r@ == trimmed(v@),
{
    let mut a: usize = 0;
    assert(v@.skip(0) =~= v@);
    while a < v.len() && white_space(v[a])
        invariant
            a <= v@.len(),
            trim_start(v@) == trim_start(v@.skip(a as int)),
        decreases v.len() - a,
    {
        assert(v@.skip(a as int).drop_first() =~= v@.skip(a + 1));
        a = a + 1;
    }
    let ghost s = v@.skip(a as int);
    assert(trim_start(v@) == s);
    let mut b: usize = v.len();
    assert(s.take(s.len() as int) =~= s);
    while b > a && white_space(v[b - 1])
        invariant
            a <= b <= v@.len(),
            s == v@.skip(a as int),
            trim_end(s) == trim_end(s.take(b - a)),
        decreases b,
    {
        assert(s.take(b - a).drop_last() =~= s.take(b - a - 1));
        assert(s.take(b - a).last() == v@[b - 1]);
        b = b - 1;
    }
    let mut r: Vec<char> = Vec::new();
    let mut j: usize = a;
    while j < b
        invariant
            a <= j <= b <= v@.len(),
            r@ == v@.subrange(a as int, j as int),
        decreases b - j,
    {
        r.push(v[j]);
        assert(v@.subrange(a as int, j + 1) =~= v@.subrange(a as int, j as int).push(v@[j as int]));
        j = j + 1;
    }
    assert(r@ =~= s.take(b - a));
    r
}

/// The token of an `Authorization` header: what follows `Bearer ` (or `bearer `), trimmed.
pub open spec fn bearer_token_of(header: Seq<char>) -> Option<Seq<char>> {
    if "Bearer "@.is_prefix_of(header) || "bearer "@.is_prefix_of(header) {
        Some(trimmed(header.skip(7)))
    } else {
        None
    }
}

/// The token of an `Authorization` header, or the 401 response that asks for one.
pub fn bearer_token(auth_header: Option<&str>) -> (r: Result<String, String>)
    ensures
        match auth_header {
            Some(h) => bearer_token_of(h@) matches Some(t) ==> r matches Ok(s) && s@ == t,
            None => true,
        },
        r matches Err(e) ==> e@ == response_text(401, "application/json"@, error_body("Authorization header required"@)),
        r is Err <==> match auth_header {
            Some(h) => bearer_token_of(h@) is None,
            None => true,
        },
{
    match auth_header {
        Some(h) => {
            let c = chars_of(h);
            proof {
                reveal_strlit("Bearer ");
                reveal_strlit("bearer ");
            }
            if c.len() >= 7 {
                let mut head: Vec<char> = Vec::new();
                for k in 0..7
                    invariant
                        c@.len() >= 7,
                        head@ == c@.take(k as int),
                {
                    head.push(c[k]);
                    assert(c@.take(k + 1) =~= c@.take(k as int).push(c@[k as int]));
                }
                if eq_lit(head.as_slice(), "Bearer ") || eq_lit(head.as_slice(), "bearer ") {
                    let mut rest: Vec<char> = Vec::new();
                    let mut k: usize = 7;
                    while k < c.len()
                        invariant
                            7 <= k <= c@.len(),
                            rest@ == c@.subrange(7, k as int),
                        decreases c.len() - k,
                    {
                        rest.push(c[k]);
                        assert(c@.subrange(7, k + 1) =~= c@.subrange(7, k as int).push(c@[k as int]));
                        k = k + 1;
                    }
                    assert(rest@ =~= c@.skip(7));
                    let t = trim_chars(&rest);
                    assert("Bearer "@.is_prefix_of(h@) || "bearer "@.is_prefix_of(h@));
                    return Ok(string_of(t.as_slice()));
                }
                assert(!"Bearer "@.is_prefix_of(h@)) by {
                    if "Bearer "@.is_prefix_of(h@) {
                        assert(head@ =~= "Bearer "@);
                    }
                }
                assert(!"bearer "@.is_prefix_of(h@)) by {
                    if "bearer "@.is_prefix_of(h@) {
                        assert(head@ =~= "bearer "@);
                    }
                }
            }
            Err(json_error(401, "Authorization header required"))
        },
        None => Err(json_error(401, "Authorization header required")),
    }
}

/// The rank of an access level: `read` < `write` < `admin`; anything else ranks as `read`.
pub open spec fn access_rank(level: Seq<char>) -> int {
    if level == "write"@ {
        1
    } else if level == "admin"@ {
        2
    } else {
        0
    }
}

/// Whether a granted access level is at least the required one.
pub fn access_level_sufficient(granted: &str, required: &str) -> (r: bool)
    ensures
        r == (access_rank(granted@) >= access_rank(required@)),
{
    let g = chars_of(granted);
    let q = chars_of(required);
    let gi: u8 = if eq_lit(&g, "write") {
        1
    } else if eq_lit(&g, "admin") {
        2
    } else {
        0
    };
    let ri: u8 = if eq_lit(&q, "write") {
        1
    } else if eq_lit(&q, "admin") {
        2
    } else {
        0
    };
    gi >= ri
}

} // verus!
