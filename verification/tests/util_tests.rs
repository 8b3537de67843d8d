use steam_mobile::crypto::hex_decode;
use steam_mobile::session::SessionCache;
use steam_mobile::strutil::{
    i64_to_dec_string, parse_u64, str_contains, str_starts_with, u64_to_dec_string,
};

#[test]
fn decimal_rendering() {
    assert_eq!(u64_to_dec_string(0), "0");
    assert_eq!(u64_to_dec_string(76561198092541763), "76561198092541763");
    assert_eq!(i64_to_dec_string(-3000), "-3000");
    assert_eq!(i64_to_dec_string(i64::MIN), "-9223372036854775808");
}

#[test]
fn decimal_parsing() {
    assert_eq!(parse_u64("0"), Some(0));
    assert_eq!(parse_u64("76561198092541763"), Some(76561198092541763));
    assert_eq!(parse_u64("18446744073709551615"), Some(u64::MAX));
    assert_eq!(parse_u64("18446744073709551616"), None);
    assert_eq!(parse_u64(""), None);
    assert_eq!(parse_u64("12a"), None);
    assert_eq!(parse_u64("-1"), None);
}

#[test]
fn substring_search() {
    assert!(str_contains("The account name or password that you have entered is incorrect, sorry",
        "password that you have entered is incorrect"));
    assert!(!str_contains("all good", "incorrect"));
    assert!(str_contains("abc", ""));
    assert!(str_starts_with("/login/home", "/login"));
    assert!(!str_starts_with("/my/profile", "/login"));
}

#[test]
fn hex_decoding_is_exact() {
    assert_eq!(hex_decode("0a1bFF"), Some(vec![0x0a, 0x1b, 0xff]));
    assert_eq!(hex_decode(""), Some(vec![]));
    assert_eq!(hex_decode("abc"), None);
    assert_eq!(hex_decode("zz"), None);
}

#[test]
fn session_cache_keeps_everything_but_the_key() {
    let mut cache = SessionCache::new(
        42,
        "oauth".to_string(),
        "token".to_string(),
        "secure".to_string(),
    );
    assert_eq!(cache.steam_id(), 42);
    assert!(cache.api_key().is_none());
    cache.set_api_key(Some("KEY".to_string()));
    assert_eq!(cache.api_key().map(|k| k.as_str()), Some("KEY"));
    assert_eq!(cache.steam_id(), 42);
    assert_eq!(cache.oauth_token, "oauth");
    cache.set_api_key(None);
    assert!(cache.api_key().is_none());
}
