use steam_mobile::cookies::{CookieDomainStore, CookieRecord};

fn record(domain: &str, name: &str, value: &str) -> CookieRecord {
    CookieRecord::new(
        domain.to_string(),
        name.to_string(),
        value.to_string(),
        "/".to_string(),
    )
}

#[test]
fn lookups_are_domain_qualified() {
    let mut store = CookieDomainStore::new();
    store.add_original(record("store.example.com", "sessionid", "store-value"));
    store.add_original(record("community.example.com", "sessionid", "community-value"));

    assert_eq!(
        store.get_cookie_value("store.example.com", "sessionid").as_deref(),
        Some("store-value")
    );
    assert_eq!(
        store.get_cookie_value("community.example.com", "sessionid").as_deref(),
        Some("community-value")
    );
    assert!(store.get_cookie_value("other.example.com", "sessionid").is_none());
}

#[test]
fn one_domain_never_leaks_into_the_other() {
    let mut store = CookieDomainStore::new();
    store.add_original(record("store.example.com", "sessionid", "store-value"));
    store.add_original(record("store.example.com", "token", "store-token"));
    store.add_original(record("community.example.com", "sessionid", "community-value"));

    let scoped = store.cookies_for_domain("store.example.com");
    assert_eq!(scoped.len(), 2);
    for c in &scoped {
        assert_eq!(c.domain, "store.example.com");
        assert_ne!(c.value, "community-value");
    }
    let scoped = store.cookies_for_domain("community.example.com");
    assert_eq!(scoped.len(), 1);
    assert_eq!(scoped[0].value, "community-value");
}

#[test]
fn header_dump_joins_in_store_order() {
    let mut store = CookieDomainStore::new();
    store.add_original(record("a.example.com", "first", "1"));
    store.add_original(record("a.example.com", "second", "2"));
    store.add_original(record("b.example.com", "third", "3"));

    assert_eq!(
        store.dump_cookies_by_domain("a.example.com").as_deref(),
        Some("first=1; second=2")
    );
    assert_eq!(store.dump_cookies_by_domain("b.example.com").as_deref(), Some("third=3"));
    assert!(store.dump_cookies_by_domain("c.example.com").is_none());
}

#[test]
fn adding_again_replaces_the_record() {
    let mut store = CookieDomainStore::new();
    store.add_original(record("a.example.com", "sessionid", "old"));
    store.add_original(record("a.example.com", "sessionid", "new"));

    assert_eq!(store.get_cookie_value("a.example.com", "sessionid").as_deref(), Some("new"));
    assert_eq!(store.cookies_for_domain("a.example.com").len(), 1);
}
