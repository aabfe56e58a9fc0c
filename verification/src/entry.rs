//! A cached payload and the instants between which it is valid.

use vstd::prelude::*;
use crate::time::{calendar_holds, calendar_instant, now, Timestamp, DEFAULT_TTL_SECS};

verus! {

/// A payload with the instant it was cached at and the instant it expires at.
///
/// The expiry is fixed when the entry is made. An entry is replaced as a
/// whole, never changed.
#[derive(Debug, Clone)]
pub struct CachedResponse<T> {
    /// The payload.
    pub response: T,
    /// When the payload was cached.
    pub cached_at: Timestamp,
    /// The last instant at which the payload is still valid.
    pub expires_at: Timestamp,
}

/// The expiry of an entry made at `now` whose source may have declared when
/// it is next updated: the declared instant, else 24 hours from `now`.
pub open spec fn expiry_with_source(declared: Option<Timestamp>, now: Timestamp) -> Timestamp {
    match declared {
        Some(t) => t,
        None => now.shifted(DEFAULT_TTL_SECS as int),
    }
}

/// The instant that a source declares by `next_update_unix`, its next update
/// in seconds since the epoch: none for 0, and none for an instant beyond the
/// calendar.
pub open spec fn declared_instant(next_update_unix: u64) -> Option<Timestamp> {
    if 0 < next_update_unix && calendar_holds(next_update_unix as int) {
        Some(Timestamp { secs: next_update_unix as i64, nanos: 0 })
    } else {
        None
    }
}

/// The instant that a source declares by `next_update_unix`.
pub fn declared(next_update_unix: u64) -> (t: Option<Timestamp>)
    ensures
        t == declared_instant(next_update_unix),
{
    if 0 < next_update_unix && next_update_unix <= 0x7fff_ffff_ffff_ffff {
        calendar_instant(next_update_unix as i64)
    } else {
        None
    }
}

/// An expiry that the source declares overrides the default: where the next
/// update is a positive number of seconds within the calendar, the entry
/// expires at exactly that second, whenever it was made.
pub proof fn lemma_source_expiration_overrides_default(next_update_unix: u64, now: Timestamp)
    requires
        0 < next_update_unix <= crate::time::CALENDAR_MAX_SECS,
    ensures
        expiry_with_source(declared_instant(next_update_unix), now) == (Timestamp {
            secs: next_update_unix as i64,
            nanos: 0,
        }),
{
}

/// The expiry of an entry made at `now`, given the instant its source declared.
pub fn source_expiry(declared: Option<Timestamp>, now: Timestamp) -> (t: Timestamp)
    requires
        declared is None ==> now.secs + DEFAULT_TTL_SECS <= i64::MAX,
    ensures
        t == expiry_with_source(declared, now),
{
    match declared {
        Some(t) => t,
        None => now.plus_seconds(DEFAULT_TTL_SECS),
    }
}

impl<T> CachedResponse<T> {
    /// An entry made at `now` that lives for the default 24 hours.
    pub fn new_at(response: T, now: Timestamp) -> (e: Self)
        requires
            now.secs + DEFAULT_TTL_SECS <= i64::MAX,
        ensures
            e.response == response,
            e.cached_at == now,
            e.expires_at == now.shifted(DEFAULT_TTL_SECS as int),
    {
        CachedResponse { response, cached_at: now, expires_at: now.plus_seconds(DEFAULT_TTL_SECS) }
    }

    /// An entry made at the clock's present instant that lives for the default 24 hours.
    pub fn new(response: T) -> (e: Self)
        ensures
            e.response == response,
            e.cached_at.in_clock_range(),
            e.expires_at == e.cached_at.shifted(DEFAULT_TTL_SECS as int),
    {
        let t = now();
        CachedResponse::new_at(response, t)
    }

    /// An entry made at `now` that expires when its source says it is next
    /// updated, and after the default 24 hours where the source gives no
    /// usable instant.
    pub fn new_with_api_expiration_at(response: T, next_update_unix: u64, now: Timestamp) -> (e:
        Self)
        requires
            declared_instant(next_update_unix) is None ==> now.secs + DEFAULT_TTL_SECS <= i64::MAX,
        ensures
            e.response == response,
            e.cached_at == now,
            e.expires_at == expiry_with_source(declared_instant(next_update_unix), now),
    {
        let expires_at = source_expiry(declared(next_update_unix), now);
        CachedResponse { response, cached_at: now, expires_at }
    }

    /// As `new_with_api_expiration_at`, at the clock's present instant.
    pub fn new_with_api_expiration(response: T, next_update_unix: u64) -> (e: Self)
        ensures
            e.response == response,
            e.cached_at.in_clock_range(),
            e.expires_at == expiry_with_source(declared_instant(next_update_unix), e.cached_at),
    {
        let t = now();
        CachedResponse::new_with_api_expiration_at(response, next_update_unix, t)
    }

    /// The entry is no longer valid at `now`: `now` is strictly later than its expiry.
    pub open spec fn expired_at(&self, now: Timestamp) -> bool {
        now.is_after(self.expires_at)
    }

    /// Whether the entry is no longer valid at `now`. At the expiry itself it still is.
    pub fn is_expired_at(&self, now: Timestamp) -> (r: bool)
        ensures
            r == self.expired_at(now),
    {
        now.after(&self.expires_at)
    }

    /// Whether the entry is no longer valid at the clock's present instant.
    pub fn is_expired(&self) -> (r: bool)
        ensures
            exists|t: Timestamp| t.in_clock_range() && r == #[trigger] self.expired_at(t),
    {
        let t = now();
        let r = self.is_expired_at(t);
        assert(t.in_clock_range() && r == self.expired_at(t));
        r
    }
}

} // verus!
