//! Share links: a random token that gives access to one file until it expires.
use vstd::prelude::*;

use crate::clock::{parse_rfc3339_micros, rfc3339_micros, rfc3339_of_micros, rfc3339_text, utc_now_micros};
use crate::crypto::primitives::{new_uuid_v4, random_bytes};
use crate::schema::ShareLink;
use crate::text::{chars_of, eq_lit};

verus! {

/// The URL-safe, unpadded Base64 text of the bytes.
pub uninterp spec fn base64_url_text(data: Seq<u8>) -> Seq<char>;

/// Calls `base64::engine::general_purpose::URL_SAFE_NO_PAD.encode`: URL-safe Base64 without
/// padding, which for 32 bytes is 43 characters.
#[verifier::external_body]
pub(crate) fn base64_url_encode(data: &[u8]) -> (r: String)
    ensures
        r@ == base64_url_text(data@),
        data@.len() == 32 ==> r@.len() == 43,
{
    base64::Engine::encode(&base64::engine::general_purpose::URL_SAFE_NO_PAD, data)
}

/// How long a share link lasts, in hours: as asked, or a year (365 days) when 0 is asked.
pub open spec fn share_hours(expires_in_hours: u64) -> u64 {
    if expires_in_hours > 0 {
        expires_in_hours
    } else {
        8760
    }
}

/// The longest validity a share link may be asked for, in hours: the expiry stays within
/// the calendar's range.
pub const MAX_SHARE_HOURS: u64 = 2_280_000_000;

/// The RFC 3339 text of an instant, or empty when the instant is outside the calendar's
/// range.
fn instant_text(micros: i64) -> (r: String)
    ensures
        match rfc3339_text(micros as int) {
            Some(t) => r@ == t,
            None => r@.len() == 0,
        },
        r@.len() > 0 ==> (rfc3339_micros(r@) is Some ==> rfc3339_micros(r@) == Some(micros as int)),
{
    match rfc3339_of_micros(micros) {
        Some(t) => t,
        None => String::new(),
    }
}

/// A new share link for a file: a token of 32 random bytes in URL-safe Base64, created now
/// and valid for the asked number of hours (a year when 0). An expiry beyond the calendar's
/// range is left empty, which is never enforced.
pub fn create_share_link(file_id: &str, expires_in_hours: u64) -> (r: ShareLink)
    requires
        expires_in_hours <= MAX_SHARE_HOURS,
    ensures
        r.file_id@ == file_id@,
        r.token@.len() == 43,
        r.id@.len() == 36,
        r.url is None,
        r.created_at@.len() > 0 && r.expires_at@.len() > 0 ==> match (
            rfc3339_micros(r.created_at@),
            rfc3339_micros(r.expires_at@),
        ) {
            (Some(c), Some(e)) => e == c + share_hours(expires_in_hours) * 3_600_000_000,
            _ => true,
        },
{
    let bytes = random_bytes(32);
    let token = base64_url_encode(bytes.as_slice());
    let hours: u64 = if expires_in_hours > 0 { expires_in_hours } else { 8760 };
    let now = utc_now_micros();
    let created_at = instant_text(now);
    let span: i64 = (hours * 3_600_000_000) as i64;
    let expires_at = match now.checked_add(span) {
        Some(later) => instant_text(later),
        None => String::new(),
    };
    ShareLink { id: new_uuid_v4(), file_id: String::from_str(file_id), token, expires_at, created_at, url: None }
}

/// The position of the first share link with the token.
pub fn find_share_link(links: &Vec<ShareLink>, token: &str) -> (r: Option<usize>)
    ensures
        match r {
            Some(i) => i < links@.len() && links@[i as int].token@ == token@ && forall|j: int|
                0 <= j < i ==> (#[trigger] links@[j]).token@ != token@,
            None => forall|j: int| 0 <= j < links@.len() ==> (#[trigger] links@[j]).token@ != token@,
        },
{
    let mut i: usize = 0;
    while i < links.len()
        invariant
            i <= links@.len(),
            forall|j: int| 0 <= j < i ==> (#[trigger] links@[j]).token@ != token@,
        decreases links.len() - i,
    {
        let c = chars_of(links[i].token.as_str());
        if eq_lit(&c, token) {
            return Some(i);
        }
        i = i + 1;
    }
    None
}

/// Whether a share link may still be used: refused when its expiry has passed; an expiry
/// that is not RFC 3339 text is not enforced.
pub fn check_share_link(expired: Option<bool>) -> (r: Result<(), String>)
    ensures
        expired == Some(true) ==> (r matches Err(m) && m@ == "Share link has expired"@),
        expired != Some(true) ==> r is Ok,
{
    match expired {
        Some(true) => Err(String::from_str("Share link has expired")),
        _ => Ok(()),
    }
}

/// Whether an expiry has passed at the instant `now`: it is RFC 3339 text for an earlier
/// instant.
pub open spec fn expired_at_instant(expires_at: Seq<char>, now: int) -> bool {
    rfc3339_micros(expires_at) matches Some(e) && now > e
}

/// Once passed, an expiry stays passed: a link refused at one instant is refused at every
/// later one, and a link whose expiry parses is accepted up to and at that instant and
/// refused just after it.
pub proof fn expiry_is_permanent(expires_at: Seq<char>, t1: int, t2: int)
    ensures
        t1 <= t2 && expired_at_instant(expires_at, t1) ==> expired_at_instant(expires_at, t2),
        rfc3339_micros(expires_at) matches Some(e) ==> !expired_at_instant(expires_at, e) && expired_at_instant(
            expires_at,
            e + 1,
        ),
        rfc3339_micros(expires_at) is None ==> !expired_at_instant(expires_at, t1),
{
}

/// Whether a share link may be used at the instant `now` (microseconds since the Unix
/// epoch): it is refused exactly when its expiry is RFC 3339 text and `now` is after it.
pub fn check_share_link_at(link: &ShareLink, now: i64) -> (r: Result<(), String>)
    ensures
        expired_at_instant(link.expires_at@, now as int) ==> (r matches Err(m) && m@ == "Share link has expired"@),
        !expired_at_instant(link.expires_at@, now as int) ==> r is Ok,
{
    check_share_link(link_expired(now, link.expires_at.as_str()))
}

/// Whether a share link may still be used now: `check_share_link_at` at the clock's
/// current reading, so an expiry that has passed refuses the link and an expiry that is not
/// RFC 3339 text is not enforced.
pub fn check_share_link_now(link: &ShareLink) -> (r: Result<(), String>)
    ensures
        r matches Err(m) ==> m@ == "Share link has expired"@,
        rfc3339_micros(link.expires_at@) is None ==> r is Ok,
        exists|now: i64| (#[trigger] expired_at_instant(link.expires_at@, now as int)) <==> r is Err,
{
    let now = utc_now_micros();
    let r = check_share_link_at(link, now);
    assert(expired_at_instant(link.expires_at@, now as int) <==> r is Err);
    r
}

/// Whether an expiry has passed at the instant `now` (microseconds since the Unix epoch):
/// none when the expiry is not RFC 3339 text.
pub fn link_expired(now: i64, expires_at: &str) -> (r: Option<bool>)
    ensures
        r == match rfc3339_micros(expires_at@) {
            Some(e) => Some(now > e),
            None => None::<bool>,
        },
{
    match parse_rfc3339_micros(expires_at) {
        Some(e) => Some(now > e),
        None => None,
    }
}

/// A share link as the frontend receives it.
#[derive(Debug, Clone)]
pub struct ShareLinkResult {
    pub id: String,
    pub file_id: String,
    pub token: String,
    pub expires_at: String,
    pub url: String,
}

/// The frontend's view of a share link, with its API path `/api/share/<token>`.
pub fn share_link_result(link: ShareLink) -> (r: ShareLinkResult)
    ensures
        r.id == link.id,
        r.file_id == link.file_id,
        r.token == link.token,
        r.expires_at == link.expires_at,
        r.url@ == "/api/share/"@ + link.token@,
{
    let mut url = String::from_str("/api/share/");
    url.append(link.token.as_str());
    ShareLinkResult { id: link.id, file_id: link.file_id, token: link.token, expires_at: link.expires_at, url }
}

/// The state of the local web dashboard as the frontend shows it.
#[derive(Debug, Clone)]
pub struct DashboardStatus {
    pub running: bool,
    pub port: u16,
    pub url: String,
    pub active_connections: u64,
}

/// The dashboard's status: on the default port, at `http://localhost:3456`.
pub fn dashboard_status_for(running: bool) -> (r: DashboardStatus)
    ensures
        r.running == running,
        r.port == 3456,
        r.url@ == "http://localhost:3456"@,
        r.active_connections == 0,
{
    DashboardStatus { running, port: 3456, url: String::from_str("http://localhost:3456"), active_connections: 0 }
}

} // verus!
