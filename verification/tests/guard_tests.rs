use steam_mobile::errors::{AuthError, InternalError};
use steam_mobile::guard::{ensure_session, session_is_expired, url_expired_check, ProbeOutcome,
    RedirectTarget};

fn redirect(host: &str, path: &str) -> ProbeOutcome {
    ProbeOutcome::Redirect(RedirectTarget { host: host.to_string(), path: path.to_string() })
}

#[test]
fn login_path_means_expired() {
    assert!(url_expired_check("store.example.com", "/login/home"));
    assert_eq!(session_is_expired(&redirect("store.example.com", "/login/home")).unwrap(), true);
}

#[test]
fn lost_auth_host_means_expired() {
    assert!(url_expired_check("lostauth", ""));
    assert_eq!(session_is_expired(&redirect("lostauth", "")).unwrap(), true);
}

#[test]
fn profile_path_means_alive() {
    assert!(!url_expired_check("store.example.com", "/my/profile"));
    assert_eq!(session_is_expired(&redirect("store.example.com", "/my/profile")).unwrap(), false);
}

#[test]
fn no_redirect_means_alive() {
    assert_eq!(session_is_expired(&ProbeOutcome::NoRedirect).unwrap(), false);
    assert!(ensure_session(&ProbeOutcome::NoRedirect).is_ok());
}

#[test]
fn guard_surfaces_the_distinguished_error() {
    let res = ensure_session(&redirect("lostauth", ""));
    assert!(matches!(res, Err(AuthError::SessionExpired)));
}

#[test]
fn failed_probe_is_not_an_alive_session() {
    let probe = ProbeOutcome::Failed("connection reset".to_string());
    match session_is_expired(&probe) {
        Err(AuthError::Internal(InternalError::NetworkFailure(m))) => {
            assert_eq!(m, "connection reset")
        }
        other => panic!("unexpected result: {:?}", other),
    }
    assert!(matches!(
        ensure_session(&probe),
        Err(AuthError::Internal(InternalError::NetworkFailure(_)))
    ));
}
