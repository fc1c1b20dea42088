use robertao::cache::{cache_in_use, expiry, CacheCollection, DAY_MS, MINUTE_MS};

#[test]
fn collections_and_their_sources() {
    assert_eq!(
        CacheCollection::all(),
        vec![CacheCollection::Items, CacheCollection::Market, CacheCollection::Fame]
    );
    assert_eq!(CacheCollection::Items.name(), "items");
    assert_eq!(CacheCollection::Market.name(), "market");
    assert_eq!(CacheCollection::Fame.name(), "fame");
    assert_eq!(CacheCollection::Items.payload_key(), "items");
    assert_eq!(CacheCollection::Market.payload_key(), "shops");
    assert_eq!(CacheCollection::Fame.payload_key(), "brewers");
    assert_eq!(CacheCollection::Market.url(), "https://api.originsro.org/api/v1/market/list");
}

#[test]
fn refresh_periods() {
    assert_eq!(CacheCollection::Items.period_ms(), 7 * 24 * 60 * 60 * 1000);
    assert_eq!(CacheCollection::Market.period_ms(), 10 * 60 * 1000);
    assert_eq!(CacheCollection::Fame.period_ms(), 10 * MINUTE_MS);
    assert_eq!(DAY_MS, 86_400_000);
}

#[test]
fn only_items_refresh_checks_sales() {
    assert!(CacheCollection::Items.checks_sales());
    assert!(!CacheCollection::Market.checks_sales());
    assert!(!CacheCollection::Fame.checks_sales());
}

#[test]
fn copy_is_used_until_it_expires() {
    assert!(!cache_in_use(None, 0));
    let taken = 1_700_000_000_000i64;
    let e = expiry(taken, CacheCollection::Market.period_ms());
    assert_eq!(e, taken + 600_000);
    assert!(cache_in_use(Some(e), taken));
    assert!(cache_in_use(Some(e), e - 1));
    assert!(!cache_in_use(Some(e), e));
    assert!(!cache_in_use(Some(e), e + 1));
}
