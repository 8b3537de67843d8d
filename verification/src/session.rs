//! The cache a successful login produces: the numeric account id, the
//! session tokens, and the optional API key. It exists exactly while the
//! authenticator is in its authenticated state.

use vstd::prelude::*;

verus! {

#[derive(Debug)]
pub struct SessionCache {
    /// The account id in its packed 64-bit form.
    pub steamid: u64,
    /// The long-lived token handed back on login.
    pub oauth_token: String,
    /// The session token installed on the plain domains.
    pub wgtoken: String,
    /// The session token installed on the secure domains.
    pub wgtoken_secure: String,
    /// The API key, cached best-effort after login.
    pub api_key: Option<String>,
}

impl SessionCache {
    pub fn new(steamid: u64, oauth_token: String, wgtoken: String, wgtoken_secure: String) -> (r:
        SessionCache)
        ensures
            r.steamid == steamid,
            r.oauth_token == oauth_token,
            r.wgtoken == wgtoken,
            r.wgtoken_secure == wgtoken_secure,
            r.api_key is None,
    {
        SessionCache { steamid, oauth_token, wgtoken, wgtoken_secure, api_key: None }
    }

    pub fn steam_id(&self) -> (r: u64)
        ensures
            r == self.steamid,
    {
        self.steamid
    }

    pub fn api_key(&self) -> (r: Option<&String>)
        ensures
            match r {
                Some(k) => self.api_key == Some(*k),
                None => self.api_key is None,
            },
    {
        self.api_key.as_ref()
    }

    /// Sets or clears the cached API key; nothing else moves.
    pub fn set_api_key(&mut self, api_key: Option<String>)
        ensures
            final(self).api_key == api_key,
            final(self).steamid == old(self).steamid,
            final(self).oauth_token == old(self).oauth_token,
            final(self).wgtoken == old(self).wgtoken,
            final(self).wgtoken_secure == old(self).wgtoken_secure,
    {
        self.api_key = api_key;
    }
}

} // verus!
