//! The typed authenticator: a two-state lifecycle from unauthenticated to
//! authenticated, driven by the login handshake under the retry policy.
//! Confirmation operations are exposed only on an authenticated value whose
//! identity carries the secret bundle.

use vstd::prelude::*;
use core::marker::PhantomData;
use crate::confirmation::{
    build_confirmation_query, process_confirmations as process_confirmation_items,
    spec_confirmation_query, spec_multi_accept_request, ConfirmationAction, Confirmations,
};
use crate::cookies::{
    lemma_add_all_lookup, spec_add_all, spec_cookie_value, spec_distinct_keys, CookieDomainStore,
    CookieRecord,
};
use crate::crypto::{base64_encode, base64_std_of, base64_url_encode, base64_url_of};
use crate::errors::{AuthError, InternalError};
use crate::guard::{ensure_session, spec_probe_expired, ProbeOutcome};
use crate::login::{
    run_login_attempts, spec_attempt_outcome_ok, spec_attempt_retries, spec_error_of_outcome,
    spec_session_id_of, AttemptScript, LoginOutcome,
};
use crate::retry::{login_retry_strategy, spec_login_max_attempts};
use crate::session::SessionCache;
use crate::strutil::{spec_i64_dec, spec_u64_dec, i64_to_dec_string,
    u64_to_dec_string};
use crate::totp::Secret;
use crate::types::ConfirmationMultiAcceptRequest;
use crate::user::{PresentMaFile, SteamUser};

verus! {

/// A successfully logged-in state.
#[derive(Clone, Copy, Debug)]
pub struct Authenticated;

/// A pending authorization state.
#[derive(Clone, Copy, Debug)]
pub struct Unauthenticated;

/// Everything the transport hands the login flow, as plain values: the
/// per-attempt handshake replies, the machine's timezone offset for the
/// timezone cookie, and the best-effort API key fetched after login.
#[derive(Debug)]
pub struct LoginScript {
    pub attempts: Vec<AttemptScript>,
    pub tz_offset_secs: i64,
    pub api_key: Option<String>,
}

impl LoginScript {
    pub open spec fn wf(&self) -> bool {
        &&& forall|i: int| 0 <= i < self.attempts@.len() ==> (#[trigger] self.attempts@[i]).wf()
        &&& -86400 <= self.tz_offset_secs <= 86400
    }
}

/// The "{steamid}%7C%7C{token}" form a session token is installed under.
pub open spec fn spec_fmt_token(steamid: u64, token: Seq<char>) -> Seq<char> {
    spec_u64_dec(steamid as nat) + "%7C%7C"@ + token
}

/// The "{offset},0" form of the timezone cookie.
pub open spec fn spec_tz_cookie(tz_offset_secs: i64) -> Seq<char> {
    spec_i64_dec(tz_offset_secs as int) + ",0"@
}

/// The session cookies stand installed: on each of the community, help and
/// store hosts, its own domain-scoped copy of both session tokens, the
/// session identifier, and the timezone offset.
pub open spec fn spec_session_cookies_installed(
    rs: Seq<CookieRecord>,
    steamid: u64,
    token: Seq<char>,
    token_secure: Seq<char>,
    session_id: Seq<char>,
    tz_offset_secs: i64,
) -> bool {
    &&& spec_cookie_value(rs, "steamcommunity.com"@, "steamLoginSecure"@) == Some(
        spec_fmt_token(steamid, token_secure),
    )
    &&& spec_cookie_value(rs, "steamcommunity.com"@, "steamLogin"@) == Some(
        spec_fmt_token(steamid, token),
    )
    &&& spec_cookie_value(rs, "steamcommunity.com"@, "sessionid"@) == Some(session_id)
    &&& spec_cookie_value(rs, "steamcommunity.com"@, "timezoneOffset"@) == Some(
        spec_tz_cookie(tz_offset_secs),
    )
    &&& spec_cookie_value(rs, "help.steampowered.com"@, "steamLoginSecure"@) == Some(
        spec_fmt_token(steamid, token_secure),
    )
    &&& spec_cookie_value(rs, "help.steampowered.com"@, "steamLogin"@) == Some(
        spec_fmt_token(steamid, token),
    )
    &&& spec_cookie_value(rs, "help.steampowered.com"@, "sessionid"@) == Some(session_id)
    &&& spec_cookie_value(rs, "help.steampowered.com"@, "timezoneOffset"@) == Some(
        spec_tz_cookie(tz_offset_secs),
    )
    &&& spec_cookie_value(rs, "store.steampowered.com"@, "steamLoginSecure"@) == Some(
        spec_fmt_token(steamid, token_secure),
    )
    &&& spec_cookie_value(rs, "store.steampowered.com"@, "steamLogin"@) == Some(
        spec_fmt_token(steamid, token),
    )
    &&& spec_cookie_value(rs, "store.steampowered.com"@, "sessionid"@) == Some(session_id)
    &&& spec_cookie_value(rs, "store.steampowered.com"@, "timezoneOffset"@) == Some(
        spec_tz_cookie(tz_offset_secs),
    )
}

/// Builds the twelve domain-scoped session cookie records: one copy of the
/// secure token, the plain token, the session identifier, and the timezone
/// offset for each of the three hosts.
pub fn login_cookie_records(
    steamid: u64,
    token: &str,
    token_secure: &str,
    session_id: &str,
    tz_offset_secs: i64,
) -> (r: Vec<CookieRecord>)
    ensures
        r@.len() == 12,
        spec_distinct_keys(r@),
        forall|i: int| 0 <= i < 12 ==> (#[trigger] r@[i]).path@ == "/"@,
        forall|i: int|
            0 <= i < 12 ==> (#[trigger] r@[i]).domain@ == (if i < 4 {
                "steamcommunity.com"@
            } else if i < 8 {
                "help.steampowered.com"@
            } else {
                "store.steampowered.com"@
            }),
        forall|i: int|
            0 <= i < 12 ==> (#[trigger] r@[i]).name@ == (if i % 4 == 0 {
                "steamLoginSecure"@
            } else if i % 4 == 1 {
                "steamLogin"@
            } else if i % 4 == 2 {
                "sessionid"@
            } else {
                "timezoneOffset"@
            }),
        forall|i: int|
            0 <= i < 12 ==> (#[trigger] r@[i]).value@ == (if i % 4 == 0 {
                spec_fmt_token(steamid, token_secure@)
            } else if i % 4 == 1 {
                spec_fmt_token(steamid, token@)
            } else if i % 4 == 2 {
                session_id@
            } else {
                spec_tz_cookie(tz_offset_secs)
            }),
{
    let fmt_token = u64_to_dec_string(steamid).concat("%7C%7C").concat(token);
    let fmt_secure = u64_to_dec_string(steamid).concat("%7C%7C").concat(token_secure);
    let tz = i64_to_dec_string(tz_offset_secs).concat(",0");
    let hosts = [
        crate::STEAM_COMMUNITY_HOST,
        crate::STEAM_HELP_HOST,
        crate::STEAM_STORE_HOST,
    ];
    let mut out: Vec<CookieRecord> = Vec::new();
    let mut h: usize = 0;
    while h < 3
        invariant
            0 <= h <= 3,
            out@.len() == 4 * h,
            fmt_token@ == spec_fmt_token(steamid, token@),
            fmt_secure@ == spec_fmt_token(steamid, token_secure@),
            tz@ == spec_tz_cookie(tz_offset_secs),
            hosts@.len() == 3,
            hosts@[0]@ == "steamcommunity.com"@ && hosts@[1]@ == "help.steampowered.com"@
                && hosts@[2]@ == "store.steampowered.com"@,
            forall|i: int| 0 <= i < out@.len() ==> (#[trigger] out@[i]).path@ == "/"@,
            forall|i: int|
                0 <= i < out@.len() ==> (#[trigger] out@[i]).domain@ == (if i < 4 {
                    "steamcommunity.com"@
                } else if i < 8 {
                    "help.steampowered.com"@
                } else {
                    "store.steampowered.com"@
                }),
            forall|i: int|
                0 <= i < out@.len() ==> (#[trigger] out@[i]).name@ == (if i % 4 == 0 {
                    "steamLoginSecure"@
                } else if i % 4 == 1 {
                    "steamLogin"@
                } else if i % 4 == 2 {
                    "sessionid"@
                } else {
                    "timezoneOffset"@
                }),
            forall|i: int|
                0 <= i < out@.len() ==> (#[trigger] out@[i]).value@ == (if i % 4 == 0 {
                    spec_fmt_token(steamid, token_secure@)
                } else if i % 4 == 1 {
                    spec_fmt_token(steamid, token@)
                } else if i % 4 == 2 {
                    session_id@
                } else {
                    spec_tz_cookie(tz_offset_secs)
                }),
        decreases 3 - h,
    {
        let host = hosts[h];
        out.push(
            CookieRecord::new(
                String::from_str(host),
                String::from_str("steamLoginSecure"),
                fmt_secure.clone(),
                String::from_str("/"),
            ),
        );
        out.push(
            CookieRecord::new(
                String::from_str(host),
                String::from_str("steamLogin"),
                fmt_token.clone(),
                String::from_str("/"),
            ),
        );
        out.push(
            CookieRecord::new(
                String::from_str(host),
                String::from_str("sessionid"),
                String::from_str(session_id),
                String::from_str("/"),
            ),
        );
        out.push(
            CookieRecord::new(
                String::from_str(host),
                String::from_str("timezoneOffset"),
                tz.clone(),
                String::from_str("/"),
            ),
        );
        h += 1;
    }
    proof {
        reveal_strlit("steamcommunity.com");
        reveal_strlit("help.steampowered.com");
        reveal_strlit("store.steampowered.com");
        reveal_strlit("steamLoginSecure");
        reveal_strlit("steamLogin");
        reveal_strlit("sessionid");
        reveal_strlit("timezoneOffset");
        assert forall|i: int, j: int| 0 <= i < j < out@.len() implies !crate::cookies::spec_cookie_matches(
            out@[i],
            out@[j].domain@,
            out@[j].name@,
        ) by {
            if i / 4 == j / 4 {
                assert(out@[i].name@.len() != out@[j].name@.len());
            } else {
                assert(out@[i].domain@.len() != out@[j].domain@.len());
            }
        }
    }
    out
}

/// The same cache with no API key cached: what the handshake itself
/// produced, before the best-effort key was attached.
pub open spec fn spec_cache_sans_key(c: SessionCache) -> SessionCache {
    SessionCache {
        steamid: c.steamid,
        oauth_token: c.oauth_token,
        wgtoken: c.wgtoken,
        wgtoken_secure: c.wgtoken_secure,
        api_key: None,
    }
}

/// Main authenticator: drives the login flow and, once authenticated, the
/// session-guarded and confirmation operations.
#[derive(Debug)]
pub struct SteamAuthenticator<AuthState, MaFileState> {
    pub user: SteamUser<MaFileState>,
    pub cookie_store: CookieDomainStore,
    pub cache: Option<SessionCache>,
    pub auth_level: PhantomData<AuthState>,
}

impl<A, M> SteamAuthenticator<A, M> {
    /// The store is well formed, and the cache exists exactly in the
    /// authenticated state, which the typestate transitions enforce.
    pub open spec fn store_wf(&self) -> bool {
        self.cookie_store.wf()
    }
}

impl<M> SteamAuthenticator<Unauthenticated, M> {
    /// A fresh, unauthenticated authenticator around an identity. No
    /// network activity; the store starts with the three cookies that make
    /// the client look like the mobile app.
    pub fn new(user: SteamUser<M>) -> (r: SteamAuthenticator<Unauthenticated, M>)
        ensures
            r.user == user,
            r.cache is None,
            r.store_wf(),
            r.cookie_store.records@.len() == 3,
            spec_cookie_value(r.cookie_store.records@, "steamcommunity.com"@, "Steam_Language"@)
                == Some("english"@),
            spec_cookie_value(r.cookie_store.records@, "steamcommunity.com"@, "mobileClient"@)
                == Some("android"@),
            spec_cookie_value(
                r.cookie_store.records@,
                "steamcommunity.com"@,
                "mobileClientVersion"@,
            ) == Some("0 (2.1.3)"@),
    {
        proof {
            reveal_strlit("Steam_Language");
            reveal_strlit("mobileClient");
            reveal_strlit("mobileClientVersion");
            assert("Steam_Language"@.len() == 14);
            assert("mobileClient"@.len() == 12);
            assert("mobileClientVersion"@.len() == 19);
        }
        let mut store = CookieDomainStore::new();
        let c1 = CookieRecord::new(
            String::from_str("steamcommunity.com"),
            String::from_str("Steam_Language"),
            String::from_str("english"),
            String::from_str("/"),
        );
        let c2 = CookieRecord::new(
            String::from_str("steamcommunity.com"),
            String::from_str("mobileClient"),
            String::from_str("android"),
            String::from_str("/"),
        );
        let c3 = CookieRecord::new(
            String::from_str("steamcommunity.com"),
            String::from_str("mobileClientVersion"),
            String::from_str("0 (2.1.3)"),
            String::from_str("/"),
        );
        let ghost g1 = c1;
        let ghost g2 = c2;
        let ghost g3 = c3;
        store.add_original(c1);
        proof {
            assert(store.records@ =~= seq![g1]);
        }
        store.add_original(c2);
        proof {
            assert(!crate::cookies::spec_cookie_matches(g1, g2.domain@, g2.name@));
            assert(seq![g1].drop_last() =~= Seq::<CookieRecord>::empty());
            assert(crate::cookies::spec_remove_cookie(
                Seq::<CookieRecord>::empty(),
                g2.domain@,
                g2.name@,
            ) =~= Seq::<CookieRecord>::empty());
            assert(crate::cookies::spec_remove_cookie(seq![g1], g2.domain@, g2.name@) =~= seq![g1]);
            assert(store.records@ =~= seq![g1, g2]);
        }
        store.add_original(c3);
        proof {
            assert(!crate::cookies::spec_cookie_matches(g1, g3.domain@, g3.name@));
            assert(!crate::cookies::spec_cookie_matches(g2, g3.domain@, g3.name@));
            assert(seq![g1, g2].drop_last() =~= seq![g1]);
            assert(seq![g1].drop_last() =~= Seq::<CookieRecord>::empty());
            assert(crate::cookies::spec_remove_cookie(
                Seq::<CookieRecord>::empty(),
                g3.domain@,
                g3.name@,
            ) =~= Seq::<CookieRecord>::empty());
            assert(crate::cookies::spec_remove_cookie(seq![g1], g3.domain@, g3.name@) =~= seq![g1]);
            assert(crate::cookies::spec_remove_cookie(seq![g1, g2], g3.domain@, g3.name@)
                =~= seq![g1, g2]);
            assert(store.records@ =~= seq![g1, g2, g3]);
            assert(seq![g1, g2, g3].drop_first() =~= seq![g2, g3]);
            assert(seq![g2, g3].drop_first() =~= seq![g3]);
            assert(spec_cookie_value(store.records@, "steamcommunity.com"@, "Steam_Language"@)
                == Some("english"@));
            assert(spec_cookie_value(seq![g3], "steamcommunity.com"@, "mobileClientVersion"@)
                == Some("0 (2.1.3)"@));
            assert(spec_cookie_value(seq![g2, g3], "steamcommunity.com"@, "mobileClient"@)
                == Some("android"@));
            assert(spec_cookie_value(seq![g2, g3], "steamcommunity.com"@, "mobileClientVersion"@)
                == Some("0 (2.1.3)"@));
            assert(spec_cookie_value(store.records@, "steamcommunity.com"@, "mobileClient"@)
                == Some("android"@));
            assert(spec_cookie_value(store.records@, "steamcommunity.com"@, "mobileClientVersion"@)
                == Some("0 (2.1.3)"@));
        }
        SteamAuthenticator { user, cookie_store: store, cache: None, auth_level: PhantomData }
    }

    /// Logs in: drives the handshake under the retry policy over the
    /// scripted transport replies, consumes this value, and hands back an
    /// authenticated one. On success the session cache is populated from
    /// the successful attempt's token block, the session cookies stand
    /// installed on all three hosts, and the API key, where the script's
    /// best-effort fetch produced one, is cached; its absence is not an
    /// error. Permanent failures surface at once, transient ones only
    /// after the policy's attempts are spent.
    pub fn login(self, script: &LoginScript) -> (r: Result<
        SteamAuthenticator<Authenticated, M>,
        AuthError,
    >)
        requires
            self.store_wf(),
            script.wf(),
        ensures
            match r {
                Ok(auth) => {
                    &&& auth.user == self.user
                    &&& auth.cache is Some
                    &&& auth.store_wf()
                    &&& auth.cache->Some_0.api_key == script.api_key
                    &&& exists|k: int|
                        #![trigger script.attempts@[k]]
                        0 <= k < script.attempts@.len() && k < spec_login_max_attempts() && (
                        forall|j: int|
                            0 <= j < k ==> spec_attempt_retries(
                                self.user,
                                #[trigger] script.attempts@[j],
                            )) && spec_attempt_outcome_ok(
                            self.user,
                            script.attempts@[k],
                            LoginOutcome::Success(spec_cache_sans_key(auth.cache->Some_0)),
                        ) && (match spec_session_id_of(
                            script.attempts@[k].session_set_cookie->Some_0@,
                        ) {
                            Some(sid) => spec_session_cookies_installed(
                                auth.cookie_store.records@,
                                auth.cache->Some_0.steamid,
                                auth.cache->Some_0.wgtoken@,
                                auth.cache->Some_0.wgtoken_secure@,
                                sid,
                                script.tz_offset_secs,
                            ),
                            None => false,
                        })
                },
                Err(e) => script.attempts@.len() == 0 || (exists|k: int|
                    #![trigger script.attempts@[k]]
                    0 <= k < script.attempts@.len() && k < spec_login_max_attempts() && (forall|
                        j: int,
                    |
                        0 <= j < k ==> spec_attempt_retries(
                            self.user,
                            #[trigger] script.attempts@[j],
                        )) && (exists|o: LoginOutcome|
                        #[trigger] spec_attempt_outcome_ok(self.user, script.attempts@[k], o)
                            && spec_error_of_outcome(
                            o,
                            e,
                            k + 1 == spec_login_max_attempts() || k + 1
                                == script.attempts@.len(),
                        ))),
            },
    {
        let policy = login_retry_strategy();
        let user = self.user;
        let mut cookie_store = self.cookie_store;
        let (res, used) = run_login_attempts(&user, &script.attempts, &policy);
        match res {
            Err(e) => {
                proof {
                    if script.attempts@.len() > 0 {
                        let k = used - 1;
                        assert(0 <= k < script.attempts@.len());
                        assert(script.attempts@[k as int] == script.attempts@[k as int]);
                    }
                }
                Err(e)
            },
            Ok(data) => {
                let ghost cache0 = data.cache;
                let mut cache = data.cache;
                let api_key = match &script.api_key {
                    Some(k) => Some(k.clone()),
                    None => None,
                };
                cache.set_api_key(api_key);
                let records = login_cookie_records(
                    cache.steamid,
                    cache.wgtoken.as_str(),
                    cache.wgtoken_secure.as_str(),
                    data.session_id.as_str(),
                    script.tz_offset_secs,
                );
                let ghost old_records = cookie_store.records@;
                let n = records.len();
                let mut i: usize = 0;
                while i < n
                    invariant
                        0 <= i <= n,
                        n == records@.len(),
                        cookie_store.wf(),
                        cookie_store.records@ == spec_add_all(
                            old_records,
                            records@.subrange(0, i as int),
                        ),
                    decreases n - i,
                {
                    proof {
                        assert(records@.subrange(0, i + 1).drop_last() =~= records@.subrange(
                            0,
                            i as int,
                        ));
                        assert(records@.subrange(0, i + 1).last() == records@[i as int]);
                    }
                    let rec = records[i].duplicate();
                    cookie_store.add_original(rec);
                    i += 1;
                }
                proof {
                    assert(records@.subrange(0, n as int) =~= records@);
                    assert forall|ix: int| 0 <= ix < 12 implies spec_cookie_value(
                        cookie_store.records@,
                        records@[ix].domain@,
                        records@[ix].name@,
                    ) == Some(records@[ix].value@) by {
                        lemma_add_all_lookup(old_records, records@, ix);
                    }
                    assert(spec_session_cookies_installed(
                        cookie_store.records@,
                        cache.steamid,
                        cache.wgtoken@,
                        cache.wgtoken_secure@,
                        data.session_id@,
                        script.tz_offset_secs,
                    )) by {
                        assert(spec_cookie_value(
                            cookie_store.records@,
                            records@[0].domain@,
                            records@[0].name@,
                        ) == Some(records@[0].value@));
                        assert(spec_cookie_value(
                            cookie_store.records@,
                            records@[1].domain@,
                            records@[1].name@,
                        ) == Some(records@[1].value@));
                        assert(spec_cookie_value(
                            cookie_store.records@,
                            records@[2].domain@,
                            records@[2].name@,
                        ) == Some(records@[2].value@));
                        assert(spec_cookie_value(
                            cookie_store.records@,
                            records@[3].domain@,
                            records@[3].name@,
                        ) == Some(records@[3].value@));
                        assert(spec_cookie_value(
                            cookie_store.records@,
                            records@[4].domain@,
                            records@[4].name@,
                        ) == Some(records@[4].value@));
                        assert(spec_cookie_value(
                            cookie_store.records@,
                            records@[5].domain@,
                            records@[5].name@,
                        ) == Some(records@[5].value@));
                        assert(spec_cookie_value(
                            cookie_store.records@,
                            records@[6].domain@,
                            records@[6].name@,
                        ) == Some(records@[6].value@));
                        assert(spec_cookie_value(
                            cookie_store.records@,
                            records@[7].domain@,
                            records@[7].name@,
                        ) == Some(records@[7].value@));
                        assert(spec_cookie_value(
                            cookie_store.records@,
                            records@[8].domain@,
                            records@[8].name@,
                        ) == Some(records@[8].value@));
                        assert(spec_cookie_value(
                            cookie_store.records@,
                            records@[9].domain@,
                            records@[9].name@,
                        ) == Some(records@[9].value@));
                        assert(spec_cookie_value(
                            cookie_store.records@,
                            records@[10].domain@,
                            records@[10].name@,
                        ) == Some(records@[10].value@));
                        assert(spec_cookie_value(
                            cookie_store.records@,
                            records@[11].domain@,
                            records@[11].name@,
                        ) == Some(records@[11].value@));
                    }
                }
                let auth = SteamAuthenticator {
                    user,
                    cookie_store,
                    cache: Some(cache),
                    auth_level: PhantomData,
                };
                proof {
                    let k = used - 1;
                    assert(auth.cache->Some_0 == cache);
                    assert(cache0.api_key is None);
                    assert(spec_cache_sans_key(cache) == cache0);
                    assert(spec_attempt_outcome_ok(
                        self.user,
                        script.attempts@[k as int],
                        LoginOutcome::Success(spec_cache_sans_key(auth.cache->Some_0)),
                    ));
                }
                Ok(auth)
            },
        }
    }
}

impl<M> SteamAuthenticator<Authenticated, M> {
    /// An authenticated value always carries its cache.
    pub open spec fn wf(&self) -> bool {
        &&& self.cache is Some
        &&& self.store_wf()
    }

    /// The account's API key, where login managed to cache one. No network
    /// activity.
    pub fn api_key(&self) -> (r: Option<String>)
        requires
            self.wf(),
        ensures
            r == self.cache->Some_0.api_key,
    {
        match &self.cache {
            Some(c) => match c.api_key() {
                Some(k) => Some(k.clone()),
                None => None,
            },
            None => unreached(),
        }
    }

    /// One domain-qualified cookie, straight from the store.
    pub fn dump_cookie(&self, steam_domain_host: &str, steam_cookie_name: &str) -> (r: Option<
        String,
    >)
        ensures
            match r {
                Some(v) => spec_cookie_value(
                    self.cookie_store.records@,
                    steam_domain_host@,
                    steam_cookie_name@,
                ) == Some(v@),
                None => spec_cookie_value(
                    self.cookie_store.records@,
                    steam_domain_host@,
                    steam_cookie_name@,
                ) is None,
            },
    {
        self.cookie_store.get_cookie_value(steam_domain_host, steam_cookie_name)
    }

    /// The session guard, consulted with the probe's result before an
    /// authenticated request leaves: an expired session is the
    /// distinguished error, a failed probe is its own transport failure,
    /// and nothing else is an error.
    pub fn guard_session(&self, probe: &ProbeOutcome) -> (r: Result<(), AuthError>)
        ensures
            match r {
                Ok(()) => !(probe is Failed) && !spec_probe_expired(*probe),
                Err(e) => {
                    ||| (e is SessionExpired && spec_probe_expired(*probe))
                    ||| (probe is Failed && e is Internal)
                },
            },
    {
        ensure_session(probe)
    }
}

impl SteamAuthenticator<Authenticated, PresentMaFile> {
    /// The signed query that lists the confirmations pending on the
    /// account: the "conf" tag signed at the synchronized time, with the
    /// device id, account id, time, and device-kind constant attached.
    /// Fails exactly where the signing secret is not valid base64.
    pub fn fetch_confirmations_query(&self, time: u64) -> (r: Result<
        Vec<(String, String)>,
        AuthError,
    >)
        requires
            self.wf(),
            self.user.has_mafile(),
        ensures
            match r {
                Ok(q) => {
                    &&& crate::crypto::base64_std_decode_of(
                        self.user.mafile->Some_0.identity_secret@,
                    ) is Some
                    &&& q@.len() == 6
                    &&& ({
                        let sq = spec_confirmation_query(
                            crate::crypto::base64_std_decode_of(
                                self.user.mafile->Some_0.identity_secret@,
                            )->Some_0,
                            self.user.mafile->Some_0.device_id@,
                            self.cache->Some_0.steamid,
                            time,
                            "conf"@,
                        );
                        forall|i: int|
                            0 <= i < 6 ==> (#[trigger] q@[i]).0@ == sq[i].0 && q@[i].1@ == sq[i].1
                    })
                },
                Err(e) => crate::crypto::base64_std_decode_of(
                    self.user.mafile->Some_0.identity_secret@,
                ) is None && e is Internal,
            },
    {
        let secret = match Secret::from_b64(self.user.identity_secret().as_str()) {
            Ok(s) => s,
            Err(e) => {
                return Err(e);
            },
        };
        let steamid = match &self.cache {
            Some(c) => c.steam_id(),
            None => unreached(),
        };
        Ok(
            build_confirmation_query(
                &secret,
                self.user.device_id().as_str(),
                steamid,
                time,
                ConfirmationAction::Retrieve,
            ),
        )
    }

    /// Accept or deny a batch of confirmations: an empty selection is a
    /// no-op that issues nothing; otherwise exactly one batched request is
    /// built, carrying only the selected ids and keys, signed with the
    /// action's tag. Fails exactly where the signing secret is not valid
    /// base64.
    pub fn process_confirmations(&self, operation: ConfirmationAction, confirmations: &Confirmations, time: u64) -> (r:
        Result<Option<ConfirmationMultiAcceptRequest>, AuthError>)
        requires
            self.wf(),
            self.user.has_mafile(),
            !(operation is Retrieve),
        ensures
            match r {
                Ok(req) => {
                    &&& crate::crypto::base64_std_decode_of(
                        self.user.mafile->Some_0.identity_secret@,
                    ) is Some
                    &&& (match req {
                        Some(q) => confirmations.0@.len() > 0 && spec_multi_accept_request(
                            q,
                            crate::crypto::base64_std_decode_of(
                                self.user.mafile->Some_0.identity_secret@,
                            )->Some_0,
                            self.user.mafile->Some_0.device_id@,
                            self.cache->Some_0.steamid,
                            time,
                            operation,
                            confirmations.0@,
                        ),
                        None => confirmations.0@.len() == 0,
                    })
                },
                Err(e) => crate::crypto::base64_std_decode_of(
                    self.user.mafile->Some_0.identity_secret@,
                ) is None && e is Internal,
            },
    {
        let secret = match Secret::from_b64(self.user.identity_secret().as_str()) {
            Ok(s) => s,
            Err(e) => {
                return Err(e);
            },
        };
        let steamid = match &self.cache {
            Some(c) => c.steam_id(),
            None => unreached(),
        };
        Ok(
            process_confirmation_items(
                &secret,
                self.user.device_id().as_str(),
                steamid,
                operation,
                confirmations,
                time,
            ),
        )
    }
}

/// Which way a request travels.
#[derive(Debug, Clone, Copy, PartialEq, Eq, Structural)]
pub enum HttpMethod {
    Get,
    Post,
    Head,
}

/// The encoded form a protobuf payload travels in: URL-safe base64 as a
/// query parameter on a read, standard base64 as a form field on a write;
/// any other method is refused.
pub fn encode_proto_payload(method: HttpMethod, message: &Vec<u8>) -> (r: Result<
    (String, String),
    InternalError,
>)
    ensures
        match r {
            Ok(p) => {
                &&& p.0@ == "input_protobuf_encoded"@
                &&& (method is Get ==> p.1@ == base64_url_of(message@))
                &&& (method is Post ==> p.1@ == base64_std_of(message@))
                &&& (method is Get || method is Post)
            },
            Err(e) => !(method is Get || method is Post) && e is GeneralFailure,
        },
{
    match method {
        HttpMethod::Get => Ok(
            (String::from_str("input_protobuf_encoded"), base64_url_encode(message.as_slice())),
        ),
        HttpMethod::Post => Ok(
            (String::from_str("input_protobuf_encoded"), base64_encode(message.as_slice())),
        ),
        HttpMethod::Head => Err(InternalError::GeneralFailure(String::from_str("Unsupported Method"))),
    }
}

} // verus!
