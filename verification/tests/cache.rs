use exchangerate::backend::CacheBackend;
use exchangerate::entry::{declared, source_expiry, CachedResponse};
use exchangerate::error::CacheError;
use exchangerate::key::{create_cache_key, join};
use exchangerate::memory::InMemoryCache;
use exchangerate::time::{
    Timestamp, CALENDAR_MAX_SECS, CALENDAR_MIN_SECS, CODES_TTL_SECS, DEFAULT_TTL_SECS,
};

const T: i64 = 1_620_000_000;

fn at(secs: i64) -> Timestamp {
    Timestamp { secs, nanos: 0 }
}

#[test]
fn key_has_endpoint_then_params() {
    assert_eq!(create_cache_key("latest", &["USD"]), "latest:USD");
    assert_eq!(create_cache_key("pair", &["USD", "EUR"]), "pair:USD:EUR");
    assert_eq!(create_cache_key("codes", &[]), "codes:");
    assert_eq!(create_cache_key("x", &["a", "b", "c"]), "x:a:b:c");
    assert_eq!(create_cache_key("x", &[""]), "x:");
}

#[test]
fn key_is_order_and_endpoint_sensitive() {
    assert_ne!(
        create_cache_key("pair", &["USD", "EUR"]),
        create_cache_key("pair", &["EUR", "USD"])
    );
    assert_ne!(create_cache_key("latest", &["USD"]), create_cache_key("pair", &["USD"]));
}

#[test]
fn key_with_colons_can_collide() {
    assert_eq!(create_cache_key("a", &["b:c"]), create_cache_key("a:b", &["c"]));
    assert_eq!(create_cache_key("p", &["x:x", "x"]), create_cache_key("p", &["x", "x:x"]));
}

#[test]
fn join_puts_separator_between() {
    assert_eq!(join(&[], "/"), "");
    assert_eq!(join(&["USD"], "/"), "USD");
    assert_eq!(join(&["USD", "EUR"], "/"), "USD/EUR");
    assert_eq!(join(&["a", "", "b"], "::"), "a::::b");
}

#[test]
fn timestamps_order_by_seconds_then_nanos() {
    let a = Timestamp { secs: 10, nanos: 5 };
    assert!(Timestamp { secs: 11, nanos: 0 }.after(&a));
    assert!(Timestamp { secs: 10, nanos: 6 }.after(&a));
    assert!(!Timestamp { secs: 10, nanos: 5 }.after(&a));
    assert!(!Timestamp { secs: 9, nanos: 999 }.after(&a));
    assert!(!Timestamp { secs: -1, nanos: 0 }.after(&Timestamp { secs: 0, nanos: 0 }));
    assert_eq!(a.plus_seconds(3600), Timestamp { secs: 3610, nanos: 5 });
    assert_eq!(a.plus_seconds(-20), Timestamp { secs: -10, nanos: 5 });
    assert_eq!(Timestamp::from_unix(7), at(7));
    assert_eq!(DEFAULT_TTL_SECS, 24 * 60 * 60);
    assert_eq!(CODES_TTL_SECS, 7 * 24 * 60 * 60);
}

#[test]
fn clock_agrees_with_chrono() {
    let before = chrono::Utc::now().timestamp();
    let t = CachedResponse::new(()).cached_at;
    let after = chrono::Utc::now().timestamp();
    assert!(before <= t.secs && t.secs <= after);
    assert!(t.secs > T);
}

#[test]
fn new_entry_lives_a_day() {
    let e = CachedResponse::new_at("payload".to_string(), at(T));
    assert_eq!(e.response, "payload");
    assert_eq!(e.cached_at, at(T));
    assert_eq!(e.expires_at, at(T + 86_400));
    assert!(!e.is_expired_at(at(T)));
    assert!(!e.is_expired_at(at(T + 86_400)));
    assert!(e.is_expired_at(Timestamp { secs: T + 86_400, nanos: 1 }));
    assert!(e.is_expired_at(at(T + 86_401)));
}

#[test]
fn new_entry_from_the_clock() {
    let e = CachedResponse::new(5u8);
    assert_eq!(e.response, 5);
    assert_eq!(e.expires_at, e.cached_at.plus_seconds(86_400));
    assert!(!e.is_expired());
    let old = CachedResponse { response: 5u8, cached_at: at(T), expires_at: at(T + 1) };
    assert!(old.is_expired());
}

#[test]
fn source_expiration_overrides_default() {
    let e = CachedResponse::new_with_api_expiration_at("rates".to_string(), (T + 3600) as u64, at(T));
    assert_eq!(e.cached_at, at(T));
    assert_eq!(e.expires_at, at(T + 3600));
    assert_ne!(e.expires_at, at(T + 86_400));
}

#[test]
fn source_expiration_absent_falls_back() {
    let e = CachedResponse::new_with_api_expiration_at((), 0, at(T));
    assert_eq!(e.expires_at, at(T + 86_400));
    let far = CachedResponse::new_with_api_expiration_at((), u64::MAX, at(T));
    assert_eq!(far.expires_at, at(T + 86_400));
    let beyond_calendar = CachedResponse::new_with_api_expiration_at((), i64::MAX as u64, at(T));
    assert_eq!(beyond_calendar.expires_at, at(T + 86_400));
    let e = CachedResponse::new_with_api_expiration((), 0);
    assert_eq!(e.expires_at, e.cached_at.plus_seconds(86_400));
}

#[test]
fn declared_instant_of_a_source() {
    assert_eq!(declared(0), None);
    assert_eq!(declared(1_620_086_400), Some(at(1_620_086_400)));
    assert_eq!(declared(u64::MAX), None);
    assert_eq!(declared(1), Some(at(1)));
    assert_eq!(declared(CALENDAR_MAX_SECS as u64), Some(at(CALENDAR_MAX_SECS)));
    assert_eq!(declared(CALENDAR_MAX_SECS as u64 + 1), None);
    assert_eq!(CALENDAR_MAX_SECS, 8_210_266_876_799);
    assert_eq!(CALENDAR_MIN_SECS, -8_334_601_228_800);
    assert_eq!(source_expiry(Some(at(5)), at(T)), at(5));
    assert_eq!(source_expiry(None, at(T)), at(T + 86_400));
}

#[test]
fn unwritten_key_is_not_found() {
    let cache = InMemoryCache::new();
    assert!(matches!(cache.get_raw_at("pair:USD:EUR", at(T)), Err(CacheError::NotFound)));
    assert!(matches!(cache.get_exchange_rate_at("latest:USD", at(T)), Err(CacheError::NotFound)));
    assert!(matches!(cache.get_raw("pair:USD:EUR"), Err(CacheError::NotFound)));
    assert!(matches!(cache.get_exchange_rate("latest:USD"), Err(CacheError::NotFound)));
}

#[test]
fn raw_payload_round_trip_and_expiry() {
    let mut cache = InMemoryCache::new();
    let json = "{\"conversion_rate\":0.85}".to_string();
    cache.set_raw("pair:USD:EUR", json.clone(), at(T), at(T + 3600)).unwrap();
    let (got, cached_at, expires_at) = cache.get_raw_at("pair:USD:EUR", at(T + 1800)).unwrap();
    assert_eq!(got, json);
    assert_eq!(cached_at, at(T));
    assert_eq!(expires_at, at(T + 3600));
    assert!(matches!(cache.get_raw_at("pair:USD:EUR", at(T + 5400)), Err(CacheError::Expired)));
    assert!(cache.get_raw_at("pair:USD:EUR", at(T + 3600)).is_ok());
    assert!(matches!(
        cache.get_raw_at("pair:USD:EUR", Timestamp { secs: T + 3600, nanos: 1 }),
        Err(CacheError::Expired)
    ));
    assert!(matches!(cache.get_raw_at("pair:EUR:USD", at(T)), Err(CacheError::NotFound)));
    assert!(matches!(cache.get_raw("pair:USD:EUR"), Err(CacheError::Expired)));
}

#[test]
fn typed_payload_round_trip_and_expiry() {
    let mut cache = InMemoryCache::new();
    let entry = CachedResponse {
        response: "{\"base_code\":\"USD\",\"conversion_rates\":{\"EUR\":0.8961}}".to_string(),
        cached_at: at(T),
        expires_at: at(T + 100),
    };
    cache.set_exchange_rate("latest:USD", entry.clone()).unwrap();
    let got = cache.get_exchange_rate_at("latest:USD", at(T + 99)).unwrap();
    assert_eq!(got.response, entry.response);
    assert_eq!(got.cached_at, at(T));
    assert_eq!(got.expires_at, at(T + 100));
    assert!(matches!(
        cache.get_exchange_rate_at("latest:USD", at(T + 101)),
        Err(CacheError::Expired)
    ));
    let fresh = CachedResponse::new("{}".to_string());
    cache.set_exchange_rate("latest:EUR", fresh).unwrap();
    assert_eq!(cache.get_exchange_rate("latest:EUR").unwrap().response, "{}");
    assert_eq!(cache.get_raw("latest:EUR").unwrap().0, "{}");
}

#[test]
fn write_replaces_whole_entry() {
    let mut cache = InMemoryCache::new();
    cache.set_raw("k", "one".to_string(), at(1), at(10)).unwrap();
    cache.set_raw("k", "two".to_string(), at(2), at(20)).unwrap();
    let (got, cached_at, expires_at) = cache.get_raw_at("k", at(15)).unwrap();
    assert_eq!((got.as_str(), cached_at, expires_at), ("two", at(2), at(20)));
}

#[test]
fn invalidate_removes_one_key() {
    let mut cache = InMemoryCache::new();
    cache.set_raw("a", "1".to_string(), at(T), at(T + 10)).unwrap();
    cache.set_raw("b", "2".to_string(), at(T), at(T + 10)).unwrap();
    cache.set_raw("old", "3".to_string(), at(T), at(T + 1)).unwrap();
    cache.invalidate("a").unwrap();
    cache.invalidate("old").unwrap();
    cache.invalidate("never-stored").unwrap();
    assert!(matches!(cache.get_raw_at("a", at(T + 5)), Err(CacheError::NotFound)));
    assert!(matches!(cache.get_raw_at("old", at(T + 5)), Err(CacheError::NotFound)));
    assert_eq!(cache.get_raw_at("b", at(T + 5)).unwrap().0, "2");
}

#[test]
fn clear_all_removes_every_key() {
    let mut cache = InMemoryCache::new();
    cache.set_raw("a", "1".to_string(), at(T), at(T + 10)).unwrap();
    cache
        .set_exchange_rate(
            "b",
            CachedResponse { response: "2".to_string(), cached_at: at(T), expires_at: at(T + 10) },
        )
        .unwrap();
    cache.clear_all().unwrap();
    assert!(matches!(cache.get_raw_at("a", at(T + 5)), Err(CacheError::NotFound)));
    assert!(matches!(cache.get_exchange_rate_at("b", at(T + 5)), Err(CacheError::NotFound)));
}

#[test]
fn writes_to_distinct_keys_keep_apart() {
    let mut cache = InMemoryCache::new();
    for i in 0..50 {
        let key = format!("pair:USD:{}", i);
        cache.set_raw(&key, format!("{}", i), at(T), at(T + 10)).unwrap();
    }
    for i in 0..50 {
        let key = format!("pair:USD:{}", i);
        assert_eq!(cache.get_raw_at(&key, at(T)).unwrap().0, format!("{}", i));
    }
}

#[test]
fn cache_error_messages() {
    assert_eq!(CacheError::NotFound.message(), "Item not found in cache");
    assert_eq!(CacheError::Expired.message(), "Cached item has expired");
    assert_eq!(
        CacheError::Backend("lock".to_string()).message(),
        "Cache backend error: lock"
    );
    assert_eq!(
        CacheError::Serialization("eof".to_string()).message(),
        "Cache serialization error: eof"
    );
}

#[test]
fn calendar_range() {
    assert!(chrono::DateTime::from_timestamp(8_210_266_876_799, 0).is_some());
    assert!(chrono::DateTime::from_timestamp(8_210_266_876_800, 0).is_none());
    assert!(chrono::DateTime::from_timestamp(-8_334_601_228_800, 0).is_some());
    assert!(chrono::DateTime::from_timestamp(-8_334_601_228_801, 0).is_none());
    assert_eq!(chrono::DateTime::<chrono::Utc>::MAX_UTC.timestamp(), 8_210_266_876_799);
    assert_eq!(chrono::DateTime::<chrono::Utc>::MIN_UTC.timestamp(), -8_334_601_228_800);
    assert!(chrono::DateTime::from_timestamp(59, 1_999_999_999).is_some());
    assert!(chrono::DateTime::from_timestamp(59, 2_000_000_000).is_none());
    assert!(chrono::DateTime::from_timestamp(58, 1_000_000_000).is_none());
    assert!(chrono::DateTime::from_timestamp(-1, 1_000_000_000).is_some());
    assert!(chrono::DateTime::from_timestamp(-2, 1_000_000_000).is_none());
    assert!(chrono::DateTime::from_timestamp(58, 999_999_999).is_some());
}
