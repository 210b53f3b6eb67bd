//! API credentials and bearer tokens.

use vstd::prelude::*;

verus! {

/// The scheme prefix of an `Authorization` header value.
pub const BEARER_PREFIX: &'static str = "Bearer ";

/// Architect API credentials.
pub struct Credential {
    api_key: String,
    api_secret: String,
}

impl Credential {
    /// Creates a new [`Credential`].
    pub fn new(api_key: String, api_secret: String) -> (c: Self)
        ensures
            c.api_key_view() == api_key@,
            c.api_secret_view() == api_secret@,
    {
        Credential { api_key, api_secret }
    }

    /// The API key.
    pub closed spec fn api_key_view(&self) -> Seq<char> {
        self.api_key@
    }

    /// The API secret.
    pub closed spec fn api_secret_view(&self) -> Seq<char> {
        self.api_secret@
    }

    /// Returns the API key.
    pub fn api_key(&self) -> (k: &str)
        ensures
            k@ == self.api_key_view(),
    {
        self.api_key.as_str()
    }

    /// Returns the API secret.
    pub fn api_secret(&self) -> (s: &str)
        ensures
            s@ == self.api_secret_view(),
    {
        self.api_secret.as_str()
    }

    /// Formats the `Authorization` header value for a session token.
    pub fn bearer_token(&self, session_token: &str) -> (v: String)
        ensures
            v@ == BEARER_PREFIX@ + session_token@,
    {
        let mut v = BEARER_PREFIX.to_owned();
        v.append(session_token);
        v
    }
}

} // verus!
