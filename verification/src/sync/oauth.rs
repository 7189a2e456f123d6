//! OAuth2 tokens of the cloud backends: when a token counts as expired, the request that
//! refreshes it, and what a provider's answer changes.
use vstd::prelude::*;

use crate::clock::unix_now_secs;
use crate::text::{chars_of, push_signed_decimal, signed_decimal, string_of};

verus! {

/// A provider's answer to a token request.
#[derive(Debug, Clone)]
pub struct TokenResponse {
    pub access_token: String,
    pub token_type: String,
    pub expires_in: Option<u64>,
    pub refresh_token: Option<String>,
    pub scope: Option<String>,
}

/// Stored OAuth2 credentials.
#[derive(Debug, Clone)]
pub struct OAuthCredentials {
    pub access_token: String,
    pub refresh_token: Option<String>,
    /// Unix time (seconds) when the access token expires.
    pub expires_at: Option<u64>,
    pub client_id: String,
    pub client_secret: Option<String>,
}

/// Whether a token expiring at `expires_at` counts as expired at `now`, keeping `buffer`
/// seconds of margin; a token without expiry never does.
pub open spec fn expired_at(expires_at: Option<u64>, now: u64, buffer: u64) -> bool {
    match expires_at {
        Some(e) => now + buffer >= e,
        None => false,
    }
}

/// A token refresh request: the token endpoint and the form fields to post to it.
#[derive(Debug, Clone)]
pub struct RefreshRequest {
    pub url: String,
    pub params: Vec<(String, String)>,
}

/// The views of form fields.
pub open spec fn param_views(v: Seq<(String, String)>) -> Seq<(Seq<char>, Seq<char>)> {
    v.map_values(|p: (String, String)| (p.0@, p.1@))
}

/// The form fields that refresh a token: grant type, refresh token, client id, and the client
/// secret when there is one.
pub open spec fn refresh_params(refresh_token: Seq<char>, client_id: Seq<char>, client_secret: Option<Seq<char>>) -> Seq<
    (Seq<char>, Seq<char>),
> {
    let base = seq![
        ("grant_type"@, "refresh_token"@),
        ("refresh_token"@, refresh_token),
        ("client_id"@, client_id),
    ];
    match client_secret {
        Some(s) => base.push(("client_secret"@, s)),
        None => base,
    }
}

/// What to do to obtain a usable access token.
#[derive(Debug, Clone)]
pub enum TokenStep {
    /// The stored access token is still valid.
    UseToken(String),
    /// The token must first be refreshed with this request.
    Refresh(RefreshRequest),
}

/// The optional view of an optional string.
pub open spec fn opt_view(s: Option<String>) -> Option<Seq<char>> {
    match s {
        Some(t) => Some(t@),
        None => None,
    }
}

/// The credentials after a provider's successful answer at `now`: the new access token, the
/// new refresh token when one is given, and a new expiry when a lifetime is given.
pub open spec fn refreshed(c: OAuthCredentials, resp: TokenResponse, now: u64) -> (Seq<char>, Option<Seq<char>>, Option<u64>) {
    (
        resp.access_token@,
        match resp.refresh_token {
            Some(r) => Some(r@),
            None => opt_view(c.refresh_token),
        },
        match resp.expires_in {
            Some(e) => Some((now + e) as u64),
            None => c.expires_at,
        },
    )
}

impl OAuthCredentials {
    /// Whether the token counts as expired at `now` (Unix seconds), keeping `buffer_seconds`
    /// of margin.
    pub fn is_expired_at(&self, buffer_seconds: u64, now: u64) -> (r: bool)
        ensures
            r == expired_at(self.expires_at, now, buffer_seconds),
    {
        match self.expires_at {
            Some(expires) => (now as u128) + (buffer_seconds as u128) >= expires as u128,
            None => false,
        }
    }

    /// Whether the token counts as expired now, keeping `buffer_seconds` of margin: the
    /// answer of `is_expired_at` at the system clock's reading, so never for a token
    /// without expiry.
    pub fn is_expired(&self, buffer_seconds: u64) -> (r: bool)
        ensures
            self.expires_at is None ==> !r,
            exists|now: u64| r == expired_at(self.expires_at, now, buffer_seconds),
    {
        let now = unix_now_secs();
        self.is_expired_at(buffer_seconds, now)
    }

    /// The request that refreshes the token at `token_url`, or the refusal when there is no
    /// refresh token.
    pub fn refresh_request(&self, token_url: &str) -> (r: Result<RefreshRequest, String>)
        ensures
            match self.refresh_token {
                Some(t) => r matches Ok(q) && q.url@ == token_url@ && param_views(q.params@) == refresh_params(
                    t@,
                    self.client_id@,
                    opt_view(self.client_secret),
                ),
                None => r matches Err(m) && m@ == "No refresh token available"@,
            },
    {
        let refresh_token = match &self.refresh_token {
            Some(t) => t,
            None => return Err(String::from_str("No refresh token available")),
        };
        let mut params: Vec<(String, String)> = Vec::new();
        params.push((String::from_str("grant_type"), String::from_str("refresh_token")));
        params.push((String::from_str("refresh_token"), refresh_token.clone()));
        params.push((String::from_str("client_id"), self.client_id.clone()));
        match &self.client_secret {
            Some(s) => {
                params.push((String::from_str("client_secret"), s.clone()));
            },
            None => {},
        }
        let r = RefreshRequest { url: String::from_str(token_url), params };
        assert(param_views(r.params@) =~= refresh_params(refresh_token@, self.client_id@, opt_view(self.client_secret)));
        Ok(r)
    }

    /// Take in a provider's answer to a refresh request made at `now`: the HTTP status, and
    /// the answer parsed as a token response (or the parser's message). A status outside
    /// 2xx or an unparsable answer changes nothing and is reported.
    pub fn apply_refresh_response(
        &mut self,
        status: i32,
        body: &str,
        parsed: Result<TokenResponse, String>,
        now: u64,
    ) -> (r: Result<(), String>)
        requires
            parsed matches Ok(resp) && resp.expires_in matches Some(e) ==> now + e <= u64::MAX,
        ensures
            !(200 <= status < 300) ==> (r matches Err(m) && m@ == "Token refresh failed ("@ + signed_decimal(
                status as int,
            ) + "): "@ + body@ && *final(self) == *old(self)),
            200 <= status < 300 ==> match parsed {
                Ok(resp) => {
                    &&& r is Ok
                    &&& final(self).access_token@ == refreshed(*old(self), resp, now).0
                    &&& opt_view(final(self).refresh_token) == refreshed(*old(self), resp, now).1
                    &&& final(self).expires_at == refreshed(*old(self), resp, now).2
                    &&& final(self).client_id == old(self).client_id
                    &&& final(self).client_secret == old(self).client_secret
                },
                Err(e) => r matches Err(m) && m@ == "Failed to parse token refresh response: "@ + e@
                    && *final(self) == *old(self),
            },
    {
        if status < 200 || status >= 300 {
            let mut m = String::from_str("Token refresh failed (");
            push_signed_decimal(&mut m, status as i64);
            m.append("): ");
            m.append(body);
            return Err(m);
        }
        match parsed {
            Ok(resp) => {
                self.access_token = resp.access_token;
                match resp.refresh_token {
                    Some(t) => {
                        self.refresh_token = Some(t);
                    },
                    None => {},
                }
                match resp.expires_in {
                    Some(e) => {
                        self.expires_at = Some(now + e);
                    },
                    None => {},
                }
                Ok(())
            },
            Err(e) => {
                let mut m = String::from_str("Failed to parse token refresh response: ");
                m.append(e.as_str());
                Err(m)
            },
        }
    }
}

/// A refreshed token with a lifetime is not expired at the time of the refresh for any
/// margin shorter than that lifetime.
pub proof fn fresh_token_not_expired(c: OAuthCredentials, resp: TokenResponse, now: u64, buffer: u64)
    requires
        resp.expires_in matches Some(e) && now + e <= u64::MAX && buffer < e,
    ensures
        !expired_at(refreshed(c, resp, now).2, now, buffer),
{
}

/// The request that refreshes a Google token.
pub fn refresh_google_token(credentials: &OAuthCredentials) -> (r: Result<RefreshRequest, String>)
    ensures
        match credentials.refresh_token {
            Some(t) => r matches Ok(q) && q.url@ == "https://oauth2.googleapis.com/token"@ && param_views(q.params@)
                == refresh_params(t@, credentials.client_id@, opt_view(credentials.client_secret)),
            None => r matches Err(m) && m@ == "No refresh token available"@,
        },
{
    credentials.refresh_request("https://oauth2.googleapis.com/token")
}

/// The request that refreshes a GitHub OAuth-app token.
pub fn refresh_github_token(credentials: &OAuthCredentials) -> (r: Result<RefreshRequest, String>)
    ensures
        match credentials.refresh_token {
            Some(t) => r matches Ok(q) && q.url@ == "https://github.com/login/oauth/access_token"@ && param_views(
                q.params@,
            ) == refresh_params(t@, credentials.client_id@, opt_view(credentials.client_secret)),
            None => r matches Err(m) && m@ == "No refresh token available"@,
        },
{
    credentials.refresh_request("https://github.com/login/oauth/access_token")
}

/// `s` without its trailing `/` characters.
pub open spec fn trim_trailing_slashes(s: Seq<char>) -> Seq<char>
    decreases s.len(),
{
    if s.len() > 0 && s.last() == '/' {
        trim_trailing_slashes(s.drop_last())
    } else {
        s
    }
}

/// The token endpoint of a GitLab instance (`https://gitlab.com` when none is given).
pub open spec fn gitlab_token_url(instance_url: Option<Seq<char>>) -> Seq<char> {
    let base = match instance_url {
        Some(u) => u,
        None => "https://gitlab.com"@,
    };
    trim_trailing_slashes(base) + "/oauth/token"@
}

/// The request that refreshes a GitLab token at the given instance.
pub fn refresh_gitlab_token(credentials: &OAuthCredentials, instance_url: Option<&str>) -> (r: Result<RefreshRequest, String>)
    ensures
        match credentials.refresh_token {
            Some(t) => r matches Ok(q) && q.url@ == gitlab_token_url(
                match instance_url {
                    Some(u) => Some(u@),
                    None => None,
                },
            ) && param_views(q.params@) == refresh_params(t@, credentials.client_id@, opt_view(credentials.client_secret)),
            None => r matches Err(m) && m@ == "No refresh token available"@,
        },
{
    let base = match instance_url {
        Some(u) => u,
        None => "https://gitlab.com",
    };
    let c = chars_of(base);
    let mut n: usize = c.len();
    assert(c@.take(n as int) =~= c@);
    while n > 0 && c[n - 1] == '/'
        invariant
            n <= c@.len(),
            trim_trailing_slashes(c@) == trim_trailing_slashes(c@.take(n as int)),
        decreases n,
    {
        assert(c@.take(n as int).drop_last() =~= c@.take(n - 1));
        n = n - 1;
    }
    let mut kept: Vec<char> = Vec::new();
    for i in 0..n
        invariant
            n <= c@.len(),
            kept@ == c@.take(i as int),
    {
        kept.push(c[i]);
        assert(c@.take(i + 1) =~= c@.take(i as int).push(c@[i as int]));
    }
    let mut url = string_of(kept.as_slice());
    url.append("/oauth/token");
    credentials.refresh_request(url.as_str())
}

/// What to do to get a usable access token at `now`: use the stored one, or refresh it at
/// `token_url` first (refused without a refresh token).
pub fn get_valid_token(credentials: &OAuthCredentials, token_url: &str, buffer_seconds: u64, now: u64) -> (r: Result<
    TokenStep,
    String,
>)
    ensures
        !expired_at(credentials.expires_at, now, buffer_seconds) ==> (r matches Ok(TokenStep::UseToken(t)) && t@
            == credentials.access_token@),
        expired_at(credentials.expires_at, now, buffer_seconds) ==> match credentials.refresh_token {
            Some(t) => r matches Ok(TokenStep::Refresh(q)) && q.url@ == token_url@ && param_views(q.params@)
                == refresh_params(t@, credentials.client_id@, opt_view(credentials.client_secret)),
            None => r matches Err(m) && m@ == "No refresh token available"@,
        },
{
    if credentials.is_expired_at(buffer_seconds, now) {
        let q = credentials.refresh_request(token_url)?;
        Ok(TokenStep::Refresh(q))
    } else {
        Ok(TokenStep::UseToken(credentials.access_token.clone()))
    }
}

} // verus!
