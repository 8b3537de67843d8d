use steam_mobile::client::{LoginScript, SteamAuthenticator};
use steam_mobile::confirmation::{
    Confirmation, ConfirmationAction, Confirmations, EConfirmationType,
};
use steam_mobile::login::{AttemptScript, LoginReply};
use steam_mobile::types::{Oauth, RSAResponse};
use steam_mobile::user::{MobileAuthFile, PresentMaFile, SteamUser};

const SHARED_SECRET_B64: &str = "AAECAwQFBgcICQoLDA0ODxAREhM=";
const IDENTITY_SECRET_B64: &str = "ZGVmZ2hpamtsbW5vcHFyc3R1dnc=";
const SESSION_COOKIE: &str = "sessionid=0123456789abcdefghijklmn; Path=/";
const RSA_EXP_HEX: &str = "010001";
const RSA_MOD_HEX: &str = "db30abd2993d8f97235de77c5f02f39d51f13f9714cfad4d99b214948b5f57c6c8b6778dfaba0a5f07ed2eddb0c98a39c18afcccd233009a09323afefb38c3fb32bf1e080ff057c5b00b9d74a18e0af5c5d38c1c03fe263956cb5128da23dd1b483fe4f89e2bdaf58cd1c9256f622b262db1a97640a983f5efd75ada2eab224bd7d2e1311e6907e25e152512418a055522ff62325bfd2090a6919d6e7f0bb17464c209736fdd9d2a7b16c5c13925aa528218612f7400f38c425d0f12adec40cc1d7800f495222ba1912c4fa303726311b8d6f8614ac4cbc62f7e68b93eead8800936aa5983c978a6197542b279510154e1a6228720b897d1ac32cf0fe5ea3bc7";

fn authenticated() -> SteamAuthenticator<steam_mobile::client::Authenticated, PresentMaFile> {
    let user = SteamUser::with_mafile(
        "testaccount".to_string(),
        "hunter2".to_string(),
        MobileAuthFile::new(
            SHARED_SECRET_B64.to_string(),
            IDENTITY_SECRET_B64.to_string(),
            "android:test-device".to_string(),
        ),
    );
    let attempt = AttemptScript {
        session_set_cookie: Some(SESSION_COOKIE.to_string()),
        time_offset: Some(0),
        rsa: Some(RSAResponse {
            publickey_mod: RSA_MOD_HEX.to_string(),
            publickey_exp: RSA_EXP_HEX.to_string(),
            timestamp: "123456".to_string(),
        }),
        local_time: 1_000_000,
        submit: LoginReply::Parsed {
            success: true,
            requires_twofactor: true,
            captcha_needed: false,
            captcha_gid: String::new(),
            message: String::new(),
            oauth: Some(Oauth {
                steamid: "76561198092541763".to_string(),
                account_name: "testaccount".to_string(),
                oauth_token: "oauth-token".to_string(),
                wgtoken: "token".to_string(),
                wgtoken_secure: "securetoken".to_string(),
            }),
        },
    };
    let script = LoginScript { attempts: vec![attempt], tz_offset_secs: 0, api_key: None };
    SteamAuthenticator::new(user).login(&script).unwrap()
}

fn confirmation(id: &str, key: &str, kind: EConfirmationType, creator: &str) -> Confirmation {
    Confirmation {
        id: id.to_string(),
        key: key.to_string(),
        kind,
        creation_time: 1_600_000_000,
        creator_id: creator.to_string(),
        kind_name: "Confirm".to_string(),
    }
}

fn three_confirmations() -> Vec<Confirmation> {
    vec![
        confirmation("111", "k1", EConfirmationType::Trade, "1001"),
        confirmation("222", "k2", EConfirmationType::Market, "2002"),
        confirmation("333", "k3", EConfirmationType::Trade, "3003"),
    ]
}

#[test]
fn accepting_trade_confirmations_builds_one_batched_request() {
    let auth = authenticated();
    let fetched = Confirmations::new(three_confirmations());
    let selected: Vec<Confirmation> =
        fetched.0.iter().filter(|c| c.kind == EConfirmationType::Trade).map(|c| c.duplicate()).collect();
    let selected = Confirmations::new(selected);
    let req = auth
        .process_confirmations(ConfirmationAction::Accept, &selected, 1_600_000_000)
        .unwrap()
        .unwrap();
    assert_eq!(req.operation, "allow");
    assert_eq!(req.tag, "allow");
    assert_eq!(req.confirmation_hash, "Wq8fuBfH+6hpwtVLG+T5v0ZjP/c=");
    assert_eq!(req.steamid, "76561198092541763");
    assert_eq!(req.device_kind, "android");
    assert_eq!(req.device_id, "android:test-device");
    assert_eq!(req.time, "1600000000");
    assert_eq!(
        req.confirmation_id,
        vec![
            ("id[0]".to_string(), "111".to_string()),
            ("id[1]".to_string(), "333".to_string())
        ]
    );
    assert_eq!(
        req.confirmation_key,
        vec![
            ("key[0]".to_string(), "k1".to_string()),
            ("key[1]".to_string(), "k3".to_string())
        ]
    );
}

#[test]
fn denying_signs_with_the_cancel_tag() {
    let auth = authenticated();
    let selected = Confirmations::new(vec![confirmation(
        "444",
        "k4",
        EConfirmationType::Market,
        "4004",
    )]);
    let req = auth
        .process_confirmations(ConfirmationAction::Deny, &selected, 1_600_000_000)
        .unwrap()
        .unwrap();
    assert_eq!(req.operation, "cancel");
    assert_eq!(req.tag, "cancel");
    assert_eq!(req.confirmation_hash, "x1kSMc1jM9RJxyX8uxlVLd0zZRA=");
}

#[test]
fn an_empty_selection_is_a_no_op() {
    let auth = authenticated();
    let selected = Confirmations::new(Vec::new());
    let req = auth
        .process_confirmations(ConfirmationAction::Accept, &selected, 1_600_000_000)
        .unwrap();
    assert!(req.is_none());
}

#[test]
fn listing_query_signs_the_conf_tag() {
    let auth = authenticated();
    let q = auth.fetch_confirmations_query(1_600_000_000).unwrap();
    assert_eq!(q.len(), 6);
    assert_eq!(q[0], ("p".to_string(), "android:test-device".to_string()));
    assert_eq!(q[1], ("a".to_string(), "76561198092541763".to_string()));
    assert_eq!(q[2], ("k".to_string(), "rPdqP9PKeTFCE5Rh/v+i7V/eQUg=".to_string()));
    assert_eq!(q[3], ("t".to_string(), "1600000000".to_string()));
    assert_eq!(q[4], ("m".to_string(), "android".to_string()));
    assert_eq!(q[5], ("tag".to_string(), "conf".to_string()));
}

#[test]
fn trade_offer_ids_parse_only_for_trades() {
    let trade = confirmation("111", "k1", EConfirmationType::Trade, "424242");
    assert_eq!(trade.trade_offer_id(), Some(424242));
    assert!(trade.has_trade_offer_id(424242));
    assert!(!trade.has_trade_offer_id(424243));

    let market = confirmation("222", "k2", EConfirmationType::Market, "424242");
    assert_eq!(market.trade_offer_id(), None);
    assert!(!market.has_trade_offer_id(424242));

    let unparsable = confirmation("333", "k3", EConfirmationType::Trade, "not-numeric");
    assert_eq!(unparsable.trade_offer_id(), None);

    // a decimal parse allows one leading plus sign
    let plus = confirmation("444", "k4", EConfirmationType::Trade, "+424242");
    assert_eq!(plus.trade_offer_id(), Some(424242));
    let double_plus = confirmation("555", "k5", EConfirmationType::Trade, "++424242");
    assert_eq!(double_plus.trade_offer_id(), None);
}

#[test]
fn action_wire_forms() {
    assert_eq!(ConfirmationAction::Accept.as_operation(), Some("allow"));
    assert_eq!(ConfirmationAction::Deny.as_operation(), Some("cancel"));
    assert_eq!(ConfirmationAction::Retrieve.as_operation(), None);
    assert_eq!(ConfirmationAction::Retrieve.as_tag(), "conf");
    assert_eq!(ConfirmationAction::Accept.as_tag(), "allow");
    assert_eq!(ConfirmationAction::Deny.as_tag(), "cancel");
}

#[test]
fn confirmation_kind_codes_round_trip() {
    assert_eq!(EConfirmationType::Trade.code(), 2);
    assert_eq!(EConfirmationType::APIKey.code(), 9);
    assert_eq!(EConfirmationType::from_code(2), Some(EConfirmationType::Trade));
    assert_eq!(EConfirmationType::from_code(9), Some(EConfirmationType::APIKey));
    assert_eq!(EConfirmationType::from_code(7), None);
    assert_eq!(EConfirmationType::from_code(200), None);
}
