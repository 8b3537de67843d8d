use steam_mobile::errors::{AuthError, InternalError, LoginError};
use steam_mobile::login::{run_login_attempts, AttemptScript, LoginReply};
use steam_mobile::retry::{login_retry_strategy, RetryClass, RetryDecision, RetryPolicy};
use steam_mobile::types::{Oauth, RSAResponse};
use steam_mobile::user::{MobileAuthFile, PresentMaFile, SteamUser};

const SHARED_SECRET_B64: &str = "AAECAwQFBgcICQoLDA0ODxAREhM=";
const IDENTITY_SECRET_B64: &str = "ZGVmZ2hpamtsbW5vcHFyc3R1dnc=";
const SESSION_COOKIE: &str = "sessionid=0123456789abcdefghijklmn; Path=/";
const RSA_EXP_HEX: &str = "010001";
const RSA_MOD_HEX: &str = "db30abd2993d8f97235de77c5f02f39d51f13f9714cfad4d99b214948b5f57c6c8b6778dfaba0a5f07ed2eddb0c98a39c18afcccd233009a09323afefb38c3fb32bf1e080ff057c5b00b9d74a18e0af5c5d38c1c03fe263956cb5128da23dd1b483fe4f89e2bdaf58cd1c9256f622b262db1a97640a983f5efd75ada2eab224bd7d2e1311e6907e25e152512418a055522ff62325bfd2090a6919d6e7f0bb17464c209736fdd9d2a7b16c5c13925aa528218612f7400f38c425d0f12adec40cc1d7800f495222ba1912c4fa303726311b8d6f8614ac4cbc62f7e68b93eead8800936aa5983c978a6197542b279510154e1a6228720b897d1ac32cf0fe5ea3bc7";

fn test_user() -> SteamUser<PresentMaFile> {
    SteamUser::with_mafile(
        "testaccount".to_string(),
        "hunter2".to_string(),
        MobileAuthFile::new(
            SHARED_SECRET_B64.to_string(),
            IDENTITY_SECRET_B64.to_string(),
            "android:test-device".to_string(),
        ),
    )
}

fn rsa_response() -> RSAResponse {
    RSAResponse {
        publickey_mod: RSA_MOD_HEX.to_string(),
        publickey_exp: RSA_EXP_HEX.to_string(),
        timestamp: "123456".to_string(),
    }
}

fn success_attempt() -> AttemptScript {
    AttemptScript {
        session_set_cookie: Some(SESSION_COOKIE.to_string()),
        time_offset: Some(0),
        rsa: Some(rsa_response()),
        local_time: 1_000_000,
        submit: LoginReply::Parsed {
            success: true,
            requires_twofactor: true,
            captcha_needed: false,
            captcha_gid: String::new(),
            message: String::new(),
            oauth: Some(Oauth {
                steamid: "76561198092541763".to_string(),
                account_name: "testaccount".to_string(),
                oauth_token: "oauth-token".to_string(),
                wgtoken: "token".to_string(),
                wgtoken_secure: "securetoken".to_string(),
            }),
        },
    }
}

fn transient_attempt() -> AttemptScript {
    AttemptScript {
        session_set_cookie: None,
        time_offset: None,
        rsa: None,
        local_time: 0,
        submit: LoginReply::NetworkError("connection reset".to_string()),
    }
}

fn incorrect_credentials_attempt() -> AttemptScript {
    AttemptScript {
        session_set_cookie: Some(SESSION_COOKIE.to_string()),
        time_offset: Some(0),
        rsa: Some(rsa_response()),
        local_time: 1_000_000,
        submit: LoginReply::Parsed {
            success: false,
            requires_twofactor: false,
            captcha_needed: false,
            captcha_gid: String::new(),
            message: "The account name or password that you have entered is incorrect".to_string(),
            oauth: None,
        },
    }
}

#[test]
fn transient_failures_are_retried_until_success() {
    let user = test_user();
    let attempts = vec![transient_attempt(), transient_attempt(), success_attempt()];
    let (res, used) = run_login_attempts(&user, &attempts, &login_retry_strategy());
    let data = res.unwrap();
    assert_eq!(used, 3);
    assert_eq!(data.cache.steamid, 76561198092541763);
    assert_eq!(data.session_id, "0123456789abcdefghijklmn");
}

#[test]
fn incorrect_credentials_abort_with_zero_retries() {
    let user = test_user();
    let attempts = vec![incorrect_credentials_attempt(), success_attempt()];
    let (res, used) = run_login_attempts(&user, &attempts, &login_retry_strategy());
    assert_eq!(used, 1);
    assert!(matches!(res, Err(AuthError::Login(LoginError::IncorrectCredentials))));
}

#[test]
fn captcha_aborts_with_the_guid() {
    let user = test_user();
    let mut captcha = incorrect_credentials_attempt();
    captcha.submit = LoginReply::Parsed {
        success: false,
        requires_twofactor: false,
        captcha_needed: true,
        captcha_gid: "839439339".to_string(),
        message: String::new(),
        oauth: None,
    };
    let attempts = vec![captcha, success_attempt()];
    let (res, used) = run_login_attempts(&user, &attempts, &login_retry_strategy());
    assert_eq!(used, 1);
    match res {
        Err(AuthError::Login(LoginError::CaptchaRequired { captcha_guid })) => {
            assert_eq!(captcha_guid, "839439339");
        }
        other => panic!("unexpected result: {:?}", other),
    }
}

#[test]
fn exhausting_the_budget_surfaces_the_transient_reason() {
    let user = test_user();
    let attempts = vec![
        transient_attempt(),
        transient_attempt(),
        transient_attempt(),
        transient_attempt(),
        transient_attempt(),
        success_attempt(),
    ];
    let (res, used) = run_login_attempts(&user, &attempts, &login_retry_strategy());
    assert_eq!(used, 5);
    assert!(matches!(res, Err(AuthError::Internal(InternalError::NetworkFailure(_)))));
}

#[test]
fn backoff_delay_doubles_and_caps() {
    let policy = RetryPolicy { max_attempts: 10, base_delay_ms: 500, max_delay_ms: 3000 };
    assert_eq!(policy.delay_for_attempt(0), 500);
    assert_eq!(policy.delay_for_attempt(1), 1000);
    assert_eq!(policy.delay_for_attempt(2), 2000);
    assert_eq!(policy.delay_for_attempt(3), 3000);
    assert_eq!(policy.delay_for_attempt(9), 3000);
}

#[test]
fn decisions_follow_the_classification() {
    let policy = login_retry_strategy();
    assert!(matches!(policy.decide(1, RetryClass::Fatal), RetryDecision::Stop));
    assert!(matches!(policy.decide(5, RetryClass::Retryable), RetryDecision::Stop));
    assert!(matches!(policy.decide(1, RetryClass::Retryable), RetryDecision::RetryAfter(500)));
    assert!(matches!(policy.decide(2, RetryClass::Retryable), RetryDecision::RetryAfter(1000)));
}
