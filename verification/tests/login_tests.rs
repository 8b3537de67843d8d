use steam_mobile::client::{LoginScript, SteamAuthenticator};
use steam_mobile::errors::AuthError;
use steam_mobile::login::{
    build_login_submission, classify_login_reply, extract_session_id, AttemptScript, LoginOutcome,
    LoginReply,
};
use steam_mobile::types::{Oauth, RSAResponse};
use steam_mobile::user::{MobileAuthFile, PresentMaFile, SteamUser};

const SHARED_SECRET_B64: &str = "AAECAwQFBgcICQoLDA0ODxAREhM=";
const IDENTITY_SECRET_B64: &str = "ZGVmZ2hpamtsbW5vcHFyc3R1dnc=";
const SESSION_COOKIE: &str = "sessionid=0123456789abcdefghijklmn; Path=/";
const RSA_EXP_HEX: &str = "010001";
const RSA_MOD_HEX: &str = "db30abd2993d8f97235de77c5f02f39d51f13f9714cfad4d99b214948b5f57c6c8b6778dfaba0a5f07ed2eddb0c98a39c18afcccd233009a09323afefb38c3fb32bf1e080ff057c5b00b9d74a18e0af5c5d38c1c03fe263956cb5128da23dd1b483fe4f89e2bdaf58cd1c9256f622b262db1a97640a983f5efd75ada2eab224bd7d2e1311e6907e25e152512418a055522ff62325bfd2090a6919d6e7f0bb17464c209736fdd9d2a7b16c5c13925aa528218612f7400f38c425d0f12adec40cc1d7800f495222ba1912c4fa303726311b8d6f8614ac4cbc62f7e68b93eead8800936aa5983c978a6197542b279510154e1a6228720b897d1ac32cf0fe5ea3bc7";

fn test_user() -> SteamUser<PresentMaFile> {
    SteamUser::with_mafile(
        "testaccount".to_string(),
        "hunter2".to_string(),
        MobileAuthFile::new(
            SHARED_SECRET_B64.to_string(),
            IDENTITY_SECRET_B64.to_string(),
            "android:test-device".to_string(),
        ),
    )
}

fn rsa_response() -> RSAResponse {
    RSAResponse {
        publickey_mod: RSA_MOD_HEX.to_string(),
        publickey_exp: RSA_EXP_HEX.to_string(),
        timestamp: "123456".to_string(),
    }
}

fn success_attempt() -> AttemptScript {
    AttemptScript {
        session_set_cookie: Some(SESSION_COOKIE.to_string()),
        time_offset: Some(0),
        rsa: Some(rsa_response()),
        local_time: 1_000_000,
        submit: LoginReply::Parsed {
            success: true,
            requires_twofactor: true,
            captcha_needed: false,
            captcha_gid: String::new(),
            message: String::new(),
            oauth: Some(Oauth {
                steamid: "76561198092541763".to_string(),
                account_name: "testaccount".to_string(),
                oauth_token: "oauth-token".to_string(),
                wgtoken: "token".to_string(),
                wgtoken_secure: "securetoken".to_string(),
            }),
        },
    }
}

#[test]
fn session_id_is_cut_from_the_first_cookie() {
    let sid = extract_session_id(SESSION_COOKIE).unwrap();
    assert_eq!(sid, "0123456789abcdefghijklmn");
}

#[test]
fn short_cookie_headers_yield_nothing() {
    assert!(extract_session_id("sessionid=short").is_none());
    assert!(extract_session_id("no equals sign at all").is_none());
}

#[test]
fn submission_carries_the_one_time_code_and_wire_fields() {
    let user = test_user();
    let req = build_login_submission(&user, &rsa_response(), 0, 1_000_000, None).unwrap();
    assert_eq!(req.username, "testaccount");
    assert_eq!(req.twofactorcode, "WH888");
    assert_eq!(req.donotcache, "0");
    assert_eq!(req.rsa_timestamp, "123456");
    assert_eq!(req.remember_login, "false");
    assert_eq!(req.oauth_client_id, "DE45CD61");
    assert_eq!(req.oauth_scope, "read_profile write_profile read_client write_client");
    assert_eq!(req.captcha_gid, "-1");
    assert_eq!(req.captcha_text, "");
    assert_eq!(req.emailauth, "");
    assert_eq!(req.emailsteamid, "");
    // 2048-bit ciphertext, base64-rendered
    assert_eq!(req.password.len(), 344);
}

#[test]
fn form_fields_carry_the_exact_wire_names() {
    let user = test_user();
    let req = build_login_submission(&user, &rsa_response(), 0, 1_000_000, None).unwrap();
    let fields = req.to_form_fields();
    let names: Vec<&str> = fields.iter().map(|(k, _)| k.as_str()).collect();
    assert_eq!(
        names,
        vec![
            "donotcache",
            "username",
            "password",
            "twofactorcode",
            "emailauth",
            "captchagid",
            "captcha_text",
            "emailsteamid",
            "rsatimestamp",
            "remember_login",
            "oauth_client_id",
            "oauth_scope"
        ]
    );
    assert_eq!(fields[3].1, "WH888");
    assert_eq!(fields[5].1, "-1");
}

#[test]
fn submission_scales_the_offset_to_milliseconds() {
    let user = test_user();
    let req = build_login_submission(&user, &rsa_response(), -3, 1_000_000, None).unwrap();
    assert_eq!(req.donotcache, "-3000");
    // three seconds earlier stays inside the same 30-second window
    assert_eq!(req.twofactorcode, "WH888");
}

#[test]
fn bad_key_material_is_transient() {
    let user = test_user();
    let mut rsa = rsa_response();
    rsa.publickey_mod = "zz-not-hex".to_string();
    let res = build_login_submission(&user, &rsa, 0, 1_000_000, None);
    assert!(matches!(res, Err(LoginOutcome::TransientFailure(_))));
}

#[test]
fn tiny_modulus_is_rejected_not_a_panic() {
    let user = test_user();
    let mut rsa = rsa_response();
    rsa.publickey_mod = "03".to_string();
    rsa.publickey_exp = "03".to_string();
    match build_login_submission(&user, &rsa, 0, 1_000_000, None) {
        Err(LoginOutcome::TransientFailure(m)) => {
            assert_eq!(m, "public key material was rejected")
        }
        other => panic!("unexpected result: {:?}", other),
    }
}

#[test]
fn out_of_range_exponent_is_rejected() {
    let user = test_user();
    let mut rsa = rsa_response();
    rsa.publickey_exp = "01".to_string();
    assert!(matches!(
        build_login_submission(&user, &rsa, 0, 1_000_000, None),
        Err(LoginOutcome::TransientFailure(_))
    ));
    rsa.publickey_exp = "0facefacefaceface".to_string();
    assert!(matches!(
        build_login_submission(&user, &rsa, 0, 1_000_000, None),
        Err(LoginOutcome::TransientFailure(_))
    ));
}

#[test]
fn oversized_password_is_a_permanent_failure() {
    let mut user = test_user();
    // a 2048-bit key carries at most 245 message bytes
    user.password = "x".repeat(300);
    match build_login_submission(&user, &rsa_response(), 0, 1_000_000, None) {
        Err(LoginOutcome::GeneralFailure(m)) => {
            assert_eq!(m, "password too long for the service's key")
        }
        other => panic!("unexpected result: {:?}", other),
    }
}

#[test]
fn network_errors_classify_as_transient() {
    let out = classify_login_reply(&LoginReply::NetworkError("timed out".to_string()));
    match out {
        LoginOutcome::TransientFailure(m) => assert_eq!(m, "timed out"),
        other => panic!("unexpected outcome: {:?}", other),
    }
}

#[test]
fn other_messages_classify_as_general_failure() {
    let out = classify_login_reply(&LoginReply::Parsed {
        success: false,
        requires_twofactor: false,
        captcha_needed: false,
        captcha_gid: String::new(),
        message: "There have been too many login failures".to_string(),
        oauth: None,
    });
    match out {
        LoginOutcome::GeneralFailure(m) => {
            assert_eq!(m, "There have been too many login failures")
        }
        other => panic!("unexpected outcome: {:?}", other),
    }
}

#[test]
fn non_numeric_account_id_classifies_as_transient() {
    let out = classify_login_reply(&LoginReply::Parsed {
        success: true,
        requires_twofactor: false,
        captcha_needed: false,
        captcha_gid: String::new(),
        message: String::new(),
        oauth: Some(Oauth {
            steamid: "not-a-number".to_string(),
            account_name: String::new(),
            oauth_token: String::new(),
            wgtoken: String::new(),
            wgtoken_secure: String::new(),
        }),
    });
    assert!(matches!(out, LoginOutcome::TransientFailure(_)));
}

#[test]
fn login_populates_cache_and_domain_cookies() {
    let auth = SteamAuthenticator::new(test_user());
    let script = LoginScript {
        attempts: vec![success_attempt()],
        tz_offset_secs: 3600,
        api_key: Some("CAFEBABE0123".to_string()),
    };
    let auth = auth.login(&script).unwrap();
    assert_eq!(auth.api_key().as_deref(), Some("CAFEBABE0123"));
    assert_eq!(
        auth.dump_cookie("steamcommunity.com", "sessionid").as_deref(),
        Some("0123456789abcdefghijklmn")
    );
    assert_eq!(
        auth.dump_cookie("help.steampowered.com", "steamLogin").as_deref(),
        Some("76561198092541763%7C%7Ctoken")
    );
    assert_eq!(
        auth.dump_cookie("store.steampowered.com", "steamLoginSecure").as_deref(),
        Some("76561198092541763%7C%7Csecuretoken")
    );
    assert_eq!(
        auth.dump_cookie("steamcommunity.com", "timezoneOffset").as_deref(),
        Some("3600,0")
    );
    // the mobile-client disguise survives the login
    assert_eq!(auth.dump_cookie("steamcommunity.com", "mobileClient").as_deref(), Some("android"));
}

#[test]
fn login_without_an_api_key_is_not_an_error() {
    let auth = SteamAuthenticator::new(test_user());
    let script = LoginScript {
        attempts: vec![success_attempt()],
        tz_offset_secs: 0,
        api_key: None,
    };
    let auth = auth.login(&script).unwrap();
    assert!(auth.api_key().is_none());
}

#[test]
fn login_surfaces_permanent_errors_untouched() {
    let auth = SteamAuthenticator::new(test_user());
    let mut attempt = success_attempt();
    attempt.submit = LoginReply::Parsed {
        success: false,
        requires_twofactor: false,
        captcha_needed: true,
        captcha_gid: "271828".to_string(),
        message: String::new(),
        oauth: None,
    };
    let script = LoginScript { attempts: vec![attempt], tz_offset_secs: 0, api_key: None };
    match auth.login(&script) {
        Err(AuthError::Login(steam_mobile::errors::LoginError::CaptchaRequired {
            captcha_guid,
        })) => assert_eq!(captcha_guid, "271828"),
        other => panic!("unexpected result: {:?}", other),
    }
}
