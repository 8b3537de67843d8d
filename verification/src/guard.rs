//! The session guard: before an authenticated request, a lightweight probe
//! of the account page with redirects disabled tells whether the session
//! still stands. A redirect to the lost-auth sentinel host, or to any path
//! under the login prefix, means it does not; a probe that itself failed
//! settles nothing and is surfaced as the transport failure it is.

use vstd::prelude::*;
use crate::errors::{AuthError, InternalError};
use crate::strutil::{spec_starts_with, str_eq, str_starts_with};

verus! {

/// Where a probe response says the client is being redirected.
#[derive(Debug)]
pub struct RedirectTarget {
    pub host: String,
    pub path: String,
}

/// What the probe of the account page came back with.
#[derive(Debug)]
pub enum ProbeOutcome {
    /// The probe itself failed; nothing is known of the session.
    Failed(String),
    /// The page answered without redirecting.
    NoRedirect,
    /// The client was sent elsewhere.
    Redirect(RedirectTarget),
}

/// The sentinel host the mobile client is sent to once its session lapsed.
pub open spec fn spec_lost_auth_host() -> Seq<char> {
    "lostauth"@
}

/// The path prefix of the login pages.
pub open spec fn spec_login_path_prefix() -> Seq<char> {
    "/login"@
}

/// A redirect target means the session lapsed when its host is the
/// lost-auth sentinel or its path sits under the login prefix.
pub open spec fn spec_url_expired(host: Seq<char>, path: Seq<char>) -> bool {
    host == spec_lost_auth_host() || spec_starts_with(path, spec_login_path_prefix())
}

pub fn url_expired_check(host: &str, path: &str) -> (r: bool)
    ensures
        r == spec_url_expired(host@, path@),
{
    str_eq(host, "lostauth") || str_starts_with(path, "/login")
}

/// The probe showed an expired session: it answered with a redirect whose
/// target is one of the lapsed forms.
pub open spec fn spec_probe_expired(probe: ProbeOutcome) -> bool {
    match probe {
        ProbeOutcome::Redirect(t) => spec_url_expired(t.host@, t.path@),
        _ => false,
    }
}

/// Reads the probe: expired or alive where it answered, and the transport
/// failure where it did not — a failed probe never passes for an alive
/// session.
pub fn session_is_expired(probe: &ProbeOutcome) -> (r: Result<bool, AuthError>)
    ensures
        match r {
            Ok(b) => !(probe is Failed) && b == spec_probe_expired(*probe),
            Err(e) => (probe matches ProbeOutcome::Failed(m) && (e matches AuthError::Internal(
                InternalError::NetworkFailure(m2),
            ) && m2@ == m@)),
        },
{
    match probe {
        ProbeOutcome::Failed(m) => Err(
            AuthError::Internal(InternalError::NetworkFailure(m.clone())),
        ),
        ProbeOutcome::NoRedirect => Ok(false),
        ProbeOutcome::Redirect(t) => Ok(url_expired_check(t.host.as_str(), t.path.as_str())),
    }
}

/// The guard proper: surfaces the distinguished `SessionExpired` error on
/// an expired session, the probe's own failure where it had one, and
/// nothing else; on expiry the caller is to log in again with the same
/// identity and replace its authenticator.
pub fn ensure_session(probe: &ProbeOutcome) -> (r: Result<(), AuthError>)
    ensures
        match r {
            Ok(()) => !(probe is Failed) && !spec_probe_expired(*probe),
            Err(e) => {
                ||| (e is SessionExpired && spec_probe_expired(*probe))
                ||| (probe matches ProbeOutcome::Failed(m) && (e matches AuthError::Internal(
                    InternalError::NetworkFailure(m2),
                ) && m2@ == m@))
            },
        },
{
    match session_is_expired(probe) {
        Err(e) => Err(e),
        Ok(true) => Err(AuthError::SessionExpired),
        Ok(false) => Ok(()),
    }
}

} // verus!
