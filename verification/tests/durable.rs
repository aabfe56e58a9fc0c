use exchangerate::durable::{decode_row, decode_row_at, encode_row, judge_row, row_of, StoredRow};
use exchangerate::error::CacheError;
use exchangerate::fetch::PayloadKind;
use exchangerate::time::Timestamp;

const T: i64 = 1_620_000_000;

fn at(secs: i64) -> Timestamp {
    Timestamp { secs, nanos: 0 }
}

fn row(cached_at: &str, expires_at: &str) -> StoredRow {
    StoredRow {
        response: "{\"conversion_rate\":0.85}".to_string(),
        cached_at: cached_at.to_string(),
        expires_at: expires_at.to_string(),
        response_type: "raw".to_string(),
    }
}

#[test]
fn row_holds_rfc3339_instants() {
    let r = encode_row("{}".to_string(), at(T), Timestamp { secs: T + 86_400, nanos: 500_000_000 }, PayloadKind::Raw)
        .unwrap();
    assert_eq!(r.response, "{}");
    assert_eq!(r.cached_at, "2021-05-03T00:00:00+00:00");
    assert_eq!(r.expires_at, "2021-05-04T00:00:00.500+00:00");
    assert_eq!(r.response_type, "raw");
    let typed = encode_row("{}".to_string(), at(0), at(1), PayloadKind::Typed).unwrap();
    assert_eq!(typed.cached_at, "1970-01-01T00:00:00+00:00");
    assert_eq!(typed.response_type, "typed");
    assert_eq!(PayloadKind::Typed.tag(), "typed");
    assert_eq!(PayloadKind::Raw.tag(), "raw");
}

#[test]
fn row_outside_calendar_is_refused() {
    let r = encode_row("{}".to_string(), at(T), at(i64::MAX), PayloadKind::Raw);
    assert!(matches!(r, Err(CacheError::Serialization(_))));
    let r = row_of("{}".to_string(), None, Some("x".to_string()), PayloadKind::Raw);
    match r {
        Err(CacheError::Serialization(why)) => assert_eq!(why, "instant outside the calendar"),
        _ => panic!("a row without an instant was written"),
    }
}

#[test]
fn row_read_back() {
    let stored = row("2021-05-03T00:00:00+00:00", "2021-05-03T01:00:00+00:00");
    let (json, cached_at, expires_at) = decode_row_at(Some(stored.clone()), at(T + 1800)).unwrap();
    assert_eq!(json, "{\"conversion_rate\":0.85}");
    assert_eq!(cached_at, at(T));
    assert_eq!(expires_at, at(T + 3600));
    assert!(decode_row_at(Some(stored.clone()), at(T + 3600)).is_ok());
    assert!(matches!(decode_row_at(Some(stored.clone()), at(T + 5400)), Err(CacheError::Expired)));
    assert!(matches!(decode_row(Some(stored)), Err(CacheError::Expired)));
    assert!(matches!(decode_row_at(None, at(T)), Err(CacheError::NotFound)));
    assert!(matches!(decode_row(None), Err(CacheError::NotFound)));
}

#[test]
fn row_with_offset_is_read_on_utc() {
    let stored = row("2021-05-03T02:00:00+02:00", "2021-05-03T03:00:00.25+02:00");
    let (_, cached_at, expires_at) = decode_row_at(Some(stored), at(T)).unwrap();
    assert_eq!(cached_at, at(T));
    assert_eq!(expires_at, Timestamp { secs: T + 3600, nanos: 250_000_000 });
}

#[test]
fn row_with_bad_instant_is_serialization_error() {
    let bad_expiry = row("2021-05-03T00:00:00+00:00", "tomorrow");
    assert!(matches!(decode_row_at(Some(bad_expiry), at(T)), Err(CacheError::Serialization(_))));
    let bad_cached = row("", "2021-05-03T00:00:00+00:00");
    assert!(matches!(decode_row_at(Some(bad_cached), at(T + 99_999)), Err(CacheError::Serialization(_))));
}

#[test]
fn judged_row() {
    let r = judge_row("p".to_string(), Ok(at(1)), Ok(at(5)), at(5)).unwrap();
    assert_eq!(r, ("p".to_string(), at(1), at(5)));
    assert!(matches!(judge_row("p".to_string(), Ok(at(1)), Ok(at(5)), at(6)), Err(CacheError::Expired)));
    match judge_row("p".to_string(), Err("first".to_string()), Err("second".to_string()), at(6)) {
        Err(CacheError::Serialization(why)) => assert_eq!(why, "first"),
        _ => panic!("an unreadable instant was accepted"),
    }
    match judge_row("p".to_string(), Ok(at(1)), Err("second".to_string()), at(0)) {
        Err(CacheError::Serialization(why)) => assert_eq!(why, "second"),
        _ => panic!("an unreadable instant was accepted"),
    }
}

#[test]
fn written_row_reads_back() {
    let cached_at = Timestamp { secs: T, nanos: 123_456_789 };
    let expires_at = Timestamp { secs: T + 604_800, nanos: 1_000 };
    let stored = encode_row("[]".to_string(), cached_at, expires_at, PayloadKind::Raw).unwrap();
    let got = decode_row_at(Some(stored), cached_at).unwrap();
    assert_eq!(got, ("[]".to_string(), cached_at, expires_at));
}

#[test]
fn rows_at_the_edges_of_the_calendar() {
    let ok = |t: Timestamp| encode_row("{}".to_string(), at(T), t, PayloadKind::Raw).is_ok();
    assert!(ok(at(8_210_266_876_799)));
    assert!(!ok(at(8_210_266_876_800)));
    assert!(ok(at(-8_334_601_228_800)));
    assert!(!ok(at(-8_334_601_228_801)));
    assert!(ok(Timestamp { secs: 59, nanos: 999_999_999 }));
    assert!(ok(Timestamp { secs: 59, nanos: 1_000_000_000 }));
    assert!(ok(Timestamp { secs: 59, nanos: 1_999_999_999 }));
    assert!(!ok(Timestamp { secs: 59, nanos: 2_000_000_000 }));
    assert!(!ok(Timestamp { secs: 58, nanos: 1_000_000_000 }));
    assert!(!ok(Timestamp { secs: 60, nanos: 1_000_000_000 }));
    assert!(ok(Timestamp { secs: -1, nanos: 1_000_000_000 }));
    assert!(!ok(Timestamp { secs: -2, nanos: 1_000_000_000 }));
    assert!(ok(Timestamp { secs: -61, nanos: 1_500_000_000 }));
    let first = encode_row("{}".to_string(), at(T), at(T), PayloadKind::Raw);
    let swapped = encode_row("{}".to_string(), at(i64::MIN), at(T), PayloadKind::Raw);
    assert!(first.is_ok());
    assert!(swapped.is_err());
}
