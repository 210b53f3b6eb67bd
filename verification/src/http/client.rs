//! The decision logic of the raw Architect HTTP client: its configuration and
//! session state, the request URL, authentication headers, rate-limit keys,
//! response status handling and retry errors. The transport itself (sending
//! requests, awaiting responses) is outside the library.

use vstd::prelude::*;

use crate::common::consts::ARCHITECT_HTTP_URL;
use crate::common::credential::{Credential, BEARER_PREFIX};
use crate::common::text::{first_segment, first_segment_of, lemma_first_segment};
use crate::http::error::ArchitectHttpError;

verus! {

/// Name of the User-Agent header.
pub const USER_AGENT_HEADER: &'static str = "user-agent";

/// Reads `nautilus_core::consts::NAUTILUS_USER_AGENT`, the User-Agent of
/// Nautilus clients (fixed when `nautilus_core` is built; nothing is stated
/// of its text).
#[verifier::external_body]
fn nautilus_user_agent() -> String {
    nautilus_core::consts::NAUTILUS_USER_AGENT.to_string()
}

/// The (name, value) views of a list of headers.
pub open spec fn header_entries(h: Seq<(String, String)>) -> Seq<(Seq<char>, Seq<char>)> {
    h.map_values(|p: (String, String)| (p.0@, p.1@))
}

/// Rate-limit key shared by every request.
pub const ARCHITECT_GLOBAL_RATE_KEY: &'static str = "architect:global";

/// Prefix of a per-route rate-limit key.
pub const ARCHITECT_ROUTE_RATE_PREFIX: &'static str = "architect:";

/// Default number of retries.
pub const DEFAULT_MAX_RETRIES: u32 = 3;

/// Default initial retry delay (milliseconds).
pub const DEFAULT_RETRY_DELAY_MS: u64 = 1000;

/// Default maximum retry delay (milliseconds).
pub const DEFAULT_RETRY_DELAY_MAX_MS: u64 = 10_000;

/// Retry jitter (milliseconds).
pub const RETRY_JITTER_MS: u64 = 1000;

/// Timeout of a single attempt (milliseconds).
pub const RETRY_OPERATION_TIMEOUT_MS: u64 = 60_000;

/// Total time allowed for all attempts (milliseconds).
pub const RETRY_MAX_ELAPSED_MS: u64 = 180_000;

/// Header carrying the bearer token.
pub const AUTHORIZATION_HEADER: &'static str = "Authorization";

/// Error message when an authenticated request is made without a session token.
pub const SESSION_TOKEN_NOT_SET: &'static str = "Session token not set";

/// Message of the retry layer when the cancellation token fired.
pub const CANCELED_MESSAGE: &'static str = "canceled";

/// Error text of a canceled request.
pub const CANCELED_REASON: &'static str = "Adapter disconnecting or shutting down";

/// Separator between a path and its query string.
pub const QUERY_SEPARATOR: char = '?';

/// Retry policy of the client (the backoff factor, 2.0, is applied by the
/// transport).
#[derive(Clone, Copy, Debug, PartialEq, Eq, Structural)]
pub struct RetrySettings {
    /// Maximum number of retries.
    pub max_retries: u32,
    /// Delay before the first retry (milliseconds).
    pub initial_delay_ms: u64,
    /// Upper bound of the delay (milliseconds).
    pub max_delay_ms: u64,
    /// Random jitter added to delays (milliseconds).
    pub jitter_ms: u64,
    /// Timeout of a single attempt (milliseconds).
    pub operation_timeout_ms: Option<u64>,
    /// Whether the first retry happens without delay.
    pub immediate_first: bool,
    /// Total time allowed for all attempts (milliseconds).
    pub max_elapsed_ms: Option<u64>,
}

/// The value of an option, or a default.
pub open spec fn or_default<T>(o: Option<T>, d: T) -> T {
    match o {
        Some(v) => v,
        None => d,
    }
}

/// The retry policy for the given settings, with defaults for those not given.
pub open spec fn retry_settings_for(
    max_retries: Option<u32>,
    retry_delay_ms: Option<u64>,
    retry_delay_max_ms: Option<u64>,
) -> RetrySettings {
    RetrySettings {
        max_retries: or_default(max_retries, DEFAULT_MAX_RETRIES),
        initial_delay_ms: or_default(retry_delay_ms, DEFAULT_RETRY_DELAY_MS),
        max_delay_ms: or_default(retry_delay_max_ms, DEFAULT_RETRY_DELAY_MAX_MS),
        jitter_ms: RETRY_JITTER_MS,
        operation_timeout_ms: Some(RETRY_OPERATION_TIMEOUT_MS),
        immediate_first: false,
        max_elapsed_ms: Some(RETRY_MAX_ELAPSED_MS),
    }
}

/// Whether a retry policy uses each given setting as given and the
/// documented default for each setting not given: 3 retries, a first delay
/// of 1000 ms and a maximum delay of 10 000 ms; its jitter is 1000 ms, each
/// attempt may take 60 000 ms, all attempts 180 000 ms, and the first retry
/// waits.
pub open spec fn uses_retry_settings(
    r: RetrySettings,
    max_retries: Option<u32>,
    retry_delay_ms: Option<u64>,
    retry_delay_max_ms: Option<u64>,
) -> bool {
    &&& (max_retries matches Some(v) ==> r.max_retries == v)
    &&& (max_retries is None ==> r.max_retries == 3)
    &&& (retry_delay_ms matches Some(v) ==> r.initial_delay_ms == v)
    &&& (retry_delay_ms is None ==> r.initial_delay_ms == 1000)
    &&& (retry_delay_max_ms matches Some(v) ==> r.max_delay_ms == v)
    &&& (retry_delay_max_ms is None ==> r.max_delay_ms == 10_000)
    &&& r.jitter_ms == 1000
    &&& r.operation_timeout_ms == Some(60_000u64)
    &&& r.max_elapsed_ms == Some(180_000u64)
    &&& !r.immediate_first
}

/// Law: the retry policy built from the settings uses each given setting as
/// given and the default for each setting not given.
pub proof fn law_retry_settings(
    max_retries: Option<u32>,
    retry_delay_ms: Option<u64>,
    retry_delay_max_ms: Option<u64>,
)
    ensures
        uses_retry_settings(
            retry_settings_for(max_retries, retry_delay_ms, retry_delay_max_ms),
            max_retries,
            retry_delay_ms,
            retry_delay_max_ms,
        ),
{
}

/// Builds the retry policy, with defaults for the settings not given.
pub fn retry_settings(
    max_retries: Option<u32>,
    retry_delay_ms: Option<u64>,
    retry_delay_max_ms: Option<u64>,
) -> (r: RetrySettings)
    ensures
        r == retry_settings_for(max_retries, retry_delay_ms, retry_delay_max_ms),
        uses_retry_settings(r, max_retries, retry_delay_ms, retry_delay_max_ms),
{
    RetrySettings {
        max_retries: match max_retries {
            Some(v) => v,
            None => DEFAULT_MAX_RETRIES,
        },
        initial_delay_ms: match retry_delay_ms {
            Some(v) => v,
            None => DEFAULT_RETRY_DELAY_MS,
        },
        max_delay_ms: match retry_delay_max_ms {
            Some(v) => v,
            None => DEFAULT_RETRY_DELAY_MAX_MS,
        },
        jitter_ms: RETRY_JITTER_MS,
        operation_timeout_ms: Some(RETRY_OPERATION_TIMEOUT_MS),
        immediate_first: false,
        max_elapsed_ms: Some(RETRY_MAX_ELAPSED_MS),
    }
}

/// The URL of a request to `endpoint` with an optional query string.
pub open spec fn request_url_of(base: Seq<char>, endpoint: Seq<char>, query: Option<Seq<char>>) -> Seq<char> {
    match query {
        Some(q) => if q.len() > 0 {
            base + endpoint + seq![QUERY_SEPARATOR] + q
        } else {
            base + endpoint
        },
        None => base + endpoint,
    }
}

/// An empty query string leaves the URL of a request as it is without a
/// query string.
pub proof fn lemma_empty_query_is_no_query(base: Seq<char>, endpoint: Seq<char>)
    ensures
        request_url_of(base, endpoint, Some(Seq::empty())) == request_url_of(base, endpoint, None),
{
}

/// The rate-limit keys of a request to `endpoint`: the global key, then the
/// key of the route (the endpoint without its query string).
pub open spec fn rate_limit_keys_of(endpoint: Seq<char>) -> Seq<Seq<char>> {
    seq![
        ARCHITECT_GLOBAL_RATE_KEY@,
        ARCHITECT_ROUTE_RATE_PREFIX@ + first_segment(endpoint, QUERY_SEPARATOR),
    ]
}

/// Requests to one path share their rate-limit keys whatever query string
/// they carry.
pub proof fn lemma_rate_limit_keys_ignore_query(path: Seq<char>, query: Seq<char>)
    requires
        !path.contains(QUERY_SEPARATOR),
    ensures
        rate_limit_keys_of(path + seq![QUERY_SEPARATOR] + query) == rate_limit_keys_of(path),
{
    lemma_first_segment_of_prefixed(path, query);
    lemma_first_segment(path, QUERY_SEPARATOR);
    assert(rate_limit_keys_of(path + seq![QUERY_SEPARATOR] + query) =~= rate_limit_keys_of(path));
}

/// Splitting `path?query` at the first `?` gives back `path`.
proof fn lemma_first_segment_of_prefixed(path: Seq<char>, query: Seq<char>)
    requires
        !path.contains(QUERY_SEPARATOR),
    ensures
        first_segment(path + seq![QUERY_SEPARATOR] + query, QUERY_SEPARATOR) == path,
    decreases path.len(),
{
    let s = path + seq![QUERY_SEPARATOR] + query;
    if path.len() == 0 {
        assert(s[0] == QUERY_SEPARATOR);
    } else {
        let rest = path.drop_first();
        assert(!rest.contains(QUERY_SEPARATOR)) by {
            if rest.contains(QUERY_SEPARATOR) {
                let i = choose|i: int| 0 <= i < rest.len() && rest[i] == QUERY_SEPARATOR;
                assert(path[i + 1] == QUERY_SEPARATOR);
            }
        }
        lemma_first_segment_of_prefixed(rest, query);
        assert(s[0] == path[0]);
        assert(path[0] != QUERY_SEPARATOR) by {
            if path[0] == QUERY_SEPARATOR {
                assert(path.contains(QUERY_SEPARATOR));
            }
        }
        assert(s.drop_first() =~= rest + seq![QUERY_SEPARATOR] + query);
        assert(path =~= seq![path[0]] + rest);
    }
}

/// Returns the rate-limit keys of a request to `endpoint`.
pub fn rate_limit_keys(endpoint: &str) -> (keys: Vec<String>)
    ensures
        keys@.map_values(|k: String| k@) == rate_limit_keys_of(endpoint@),
{
    let normalized = first_segment_of(endpoint, QUERY_SEPARATOR);
    let mut route = ARCHITECT_ROUTE_RATE_PREFIX.to_owned();
    route.append(normalized);
    let mut keys: Vec<String> = Vec::new();
    keys.push(ARCHITECT_GLOBAL_RATE_KEY.to_owned());
    keys.push(route);
    assert(keys@.map_values(|k: String| k@) =~= rate_limit_keys_of(endpoint@));
    keys
}

/// Accepts a response with a success status (200 to 299) and hands back its
/// body; any other status is an error carrying the status and the body.
pub fn check_response_status(status: u16, body: String) -> (res: Result<String, ArchitectHttpError>)
    ensures
        200 <= status <= 299 ==> (res matches Ok(b) && b@ == body@),
        !(200 <= status <= 299) ==> (res matches Err(ArchitectHttpError::UnexpectedStatus { status: s, body: b })
            && s == status && b@ == body@),
{
    if 200 <= status && status <= 299 {
        Ok(body)
    } else {
        Err(ArchitectHttpError::UnexpectedStatus { status, body })
    }
}

/// Turns a message of the retry layer into an error: the cancellation message
/// becomes [`ArchitectHttpError::Canceled`], anything else a network error.
pub fn retry_error(msg: String) -> (e: ArchitectHttpError)
    ensures
        msg@ == CANCELED_MESSAGE@ ==> (e matches ArchitectHttpError::Canceled(r) && r@ == CANCELED_REASON@),
        msg@ != CANCELED_MESSAGE@ ==> (e matches ArchitectHttpError::NetworkError(m) && m@ == msg@),
{
    let canceled = CANCELED_MESSAGE.to_owned();
    if msg == canceled {
        ArchitectHttpError::Canceled(CANCELED_REASON.to_owned())
    } else {
        ArchitectHttpError::NetworkError(msg)
    }
}

/// Whether a failed request is retried (no error is retried).
pub fn should_retry(error: &ArchitectHttpError) -> (b: bool)
    ensures
        !b,
{
    false
}

/// Once a session token is set on a client with credentials, its requests
/// carry `Authorization: Bearer <token>`.
pub proof fn lemma_session_token_authorizes(
    before: RawHttpClientState,
    after: RawHttpClientState,
    token: Seq<char>,
)
    requires
        before.credential_view() is Some,
        after.credential_view() == before.credential_view(),
        after.session_token_view() == Some(token),
    ensures
        after.auth_header_entries() == Some(seq![(AUTHORIZATION_HEADER@, BEARER_PREFIX@ + token)]),
{
}

/// Configuration and session state of the raw HTTP client.
pub struct RawHttpClientState {
    base_url: String,
    timeout_secs: Option<u64>,
    proxy_url: Option<String>,
    retry: RetrySettings,
    credential: Option<Credential>,
    session_token: Option<String>,
}

impl RawHttpClientState {
    /// The base URL.
    pub closed spec fn base_url_view(&self) -> Seq<char> {
        self.base_url@
    }

    /// The request timeout (seconds).
    pub closed spec fn timeout_secs_view(&self) -> Option<u64> {
        self.timeout_secs
    }

    /// The proxy URL.
    pub closed spec fn proxy_url_view(&self) -> Option<Seq<char>> {
        match self.proxy_url {
            Some(p) => Some(p@),
            None => None,
        }
    }

    /// The retry policy.
    pub closed spec fn retry_view(&self) -> RetrySettings {
        self.retry
    }

    /// The API key and secret, where credentials are configured.
    pub closed spec fn credential_view(&self) -> Option<(Seq<char>, Seq<char>)> {
        match self.credential {
            Some(c) => Some((c.api_key_view(), c.api_secret_view())),
            None => None,
        }
    }

    /// The session token, once set.
    pub closed spec fn session_token_view(&self) -> Option<Seq<char>> {
        match self.session_token {
            Some(t) => Some(t@),
            None => None,
        }
    }

    /// Creates the state of a client without credentials, using the default
    /// Architect HTTP URL when none is given.
    pub fn new(
        base_url: Option<String>,
        timeout_secs: Option<u64>,
        max_retries: Option<u32>,
        retry_delay_ms: Option<u64>,
        retry_delay_max_ms: Option<u64>,
        proxy_url: Option<String>,
    ) -> (s: Self)
        ensures
            s.base_url_view() == (match base_url {
                Some(u) => u@,
                None => ARCHITECT_HTTP_URL@,
            }),
            s.timeout_secs_view() == timeout_secs,
            s.proxy_url_view() == (match proxy_url {
                Some(p) => Some(p@),
                None => None::<Seq<char>>,
            }),
            s.retry_view() == retry_settings_for(max_retries, retry_delay_ms, retry_delay_max_ms),
            uses_retry_settings(s.retry_view(), max_retries, retry_delay_ms, retry_delay_max_ms),
            s.credential_view() is None,
            s.session_token_view() is None,
    {
        let base_url = match base_url {
            Some(u) => u,
            None => ARCHITECT_HTTP_URL.to_owned(),
        };
        RawHttpClientState {
            base_url,
            timeout_secs,
            proxy_url,
            retry: retry_settings(max_retries, retry_delay_ms, retry_delay_max_ms),
            credential: None,
            session_token: None,
        }
    }

    /// Creates the state of a client configured with credentials.
    pub fn with_credentials(
        api_key: String,
        api_secret: String,
        base_url: Option<String>,
        timeout_secs: Option<u64>,
        max_retries: Option<u32>,
        retry_delay_ms: Option<u64>,
        retry_delay_max_ms: Option<u64>,
        proxy_url: Option<String>,
    ) -> (s: Self)
        ensures
            s.base_url_view() == (match base_url {
                Some(u) => u@,
                None => ARCHITECT_HTTP_URL@,
            }),
            s.timeout_secs_view() == timeout_secs,
            s.proxy_url_view() == (match proxy_url {
                Some(p) => Some(p@),
                None => None::<Seq<char>>,
            }),
            s.retry_view() == retry_settings_for(max_retries, retry_delay_ms, retry_delay_max_ms),
            uses_retry_settings(s.retry_view(), max_retries, retry_delay_ms, retry_delay_max_ms),
            s.credential_view() == Some((api_key@, api_secret@)),
            s.session_token_view() is None,
    {
        let mut s = Self::new(
            base_url,
            timeout_secs,
            max_retries,
            retry_delay_ms,
            retry_delay_max_ms,
            proxy_url,
        );
        s.credential = Some(Credential::new(api_key, api_secret));
        s
    }

    /// Sets the session token for authenticated requests.
    pub fn set_session_token(&mut self, token: String)
        ensures
            final(self).session_token_view() == Some(token@),
            final(self).base_url_view() == old(self).base_url_view(),
            final(self).timeout_secs_view() == old(self).timeout_secs_view(),
            final(self).proxy_url_view() == old(self).proxy_url_view(),
            final(self).retry_view() == old(self).retry_view(),
            final(self).credential_view() == old(self).credential_view(),
    {
        self.session_token = Some(token);
    }

    /// Returns the base URL.
    pub fn base_url(&self) -> (u: &str)
        ensures
            u@ == self.base_url_view(),
    {
        self.base_url.as_str()
    }

    /// Returns the request timeout (seconds).
    pub fn timeout_secs(&self) -> (t: Option<u64>)
        ensures
            t == self.timeout_secs_view(),
    {
        self.timeout_secs
    }

    /// Returns the proxy URL.
    pub fn proxy_url(&self) -> (p: Option<&str>)
        ensures
            p matches Some(u) ==> self.proxy_url_view() == Some(u@),
            p is None <==> self.proxy_url_view() is None,
    {
        match &self.proxy_url {
            Some(u) => Some(u.as_str()),
            None => None,
        }
    }

    /// Returns the retry policy.
    pub fn retry(&self) -> (r: RetrySettings)
        ensures
            r == self.retry_view(),
    {
        self.retry
    }

    /// Whether credentials are configured.
    pub fn has_credentials(&self) -> (b: bool)
        ensures
            b == self.credential_view() is Some,
    {
        self.credential.is_some()
    }

    /// Whether a session token is set.
    pub fn has_session_token(&self) -> (b: bool)
        ensures
            b == self.session_token_view() is Some,
    {
        self.session_token.is_some()
    }

    /// The authentication headers, as (name, value) pairs, where both
    /// credentials and a session token are present.
    pub open spec fn auth_header_entries(&self) -> Option<Seq<(Seq<char>, Seq<char>)>> {
        match (self.credential_view(), self.session_token_view()) {
            (Some(_), Some(t)) => Some(seq![(AUTHORIZATION_HEADER@, BEARER_PREFIX@ + t)]),
            _ => None,
        }
    }

    /// Builds the authentication headers: `Authorization: Bearer <token>`.
    pub fn auth_headers(&self) -> (res: Result<Vec<(String, String)>, ArchitectHttpError>)
        ensures
            res is Ok <==> self.auth_header_entries() is Some,
            res matches Ok(h) ==> h@.map_values(|p: (String, String)| (p.0@, p.1@))
                == self.auth_header_entries()->0,
            self.credential_view() is None ==> res matches Err(ArchitectHttpError::MissingCredentials),
            self.credential_view() is Some && self.session_token_view() is None ==> (res matches Err(
                ArchitectHttpError::ValidationError(m),
            ) && m@ == SESSION_TOKEN_NOT_SET@),
    {
        let credential = match &self.credential {
            Some(c) => c,
            None => {
                return Err(ArchitectHttpError::MissingCredentials);
            },
        };
        let session_token = match &self.session_token {
            Some(t) => t,
            None => {
                return Err(ArchitectHttpError::ValidationError(SESSION_TOKEN_NOT_SET.to_owned()));
            },
        };
        let mut headers: Vec<(String, String)> = Vec::new();
        headers.push(
            (AUTHORIZATION_HEADER.to_owned(), credential.bearer_token(session_token.as_str())),
        );
        assert(headers@.map_values(|p: (String, String)| (p.0@, p.1@)) =~= self.auth_header_entries()->0);
        Ok(headers)
    }

    /// The headers of a request: the User-Agent header, followed, for an
    /// authenticated request, by the authentication headers.
    pub fn request_headers(&self, authenticate: bool) -> (res: Result<Vec<(String, String)>, ArchitectHttpError>)
        ensures
            !authenticate ==> res is Ok,
            authenticate ==> (res is Ok <==> self.auth_header_entries() is Some),
            res matches Ok(h) ==> {
                &&& h@.len() >= 1
                &&& h@[0].0@ == USER_AGENT_HEADER@
                &&& header_entries(h@.drop_first()) == (if authenticate {
                    self.auth_header_entries()->0
                } else {
                    Seq::empty()
                })
            },
            authenticate && self.credential_view() is None ==> res matches Err(
                ArchitectHttpError::MissingCredentials,
            ),
            authenticate && self.credential_view() is Some && self.session_token_view() is None ==> (
            res matches Err(ArchitectHttpError::ValidationError(m)) && m@ == SESSION_TOKEN_NOT_SET@),
    {
        let mut headers: Vec<(String, String)> = Vec::new();
        headers.push((USER_AGENT_HEADER.to_owned(), nautilus_user_agent()));
        if authenticate {
            let mut auth = self.auth_headers()?;
            let ghost added = auth@;
            headers.append(&mut auth);
            assert(headers@.drop_first() =~= added);
        } else {
            assert(header_entries(headers@.drop_first()) =~= Seq::<(Seq<char>, Seq<char>)>::empty());
        }
        Ok(headers)
    }

    /// Builds the URL of a request: the base URL, the endpoint, then `?` and
    /// the query string where there is a non-empty one.
    pub fn request_url(&self, endpoint: &str, query: Option<&str>) -> (url: String)
        ensures
            url@ == request_url_of(self.base_url_view(), endpoint@, match query {
                Some(q) => Some(q@),
                None => None::<Seq<char>>,
            }),
    {
        let mut url = self.base_url.clone();
        url.append(endpoint);
        match query {
            Some(q) => {
                if q.unicode_len() > 0 {
                    proof {
                        reveal_strlit("?");
                    }
                    url.append("?");
                    url.append(q);
                }
            },
            None => {},
        }
        url
    }
}

} // verus!
