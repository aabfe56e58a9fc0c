//! Instants and the clock.

use vstd::prelude::*;

verus! {

/// Seconds in the default time to live of an entry: 24 hours.
pub const DEFAULT_TTL_SECS: i64 = 86_400;

/// Seconds in the time to live of the list of supported codes: one week.
pub const CODES_TTL_SECS: i64 = 604_800;

/// The first second of the calendar, 1 January of the year -262143, in seconds since the epoch.
pub const CALENDAR_MIN_SECS: i64 = -8_334_601_228_800;

/// The last second of the calendar, 31 December of the year 262142, in seconds since the epoch.
pub const CALENDAR_MAX_SECS: i64 = 8_210_266_876_799;

/// An instant on the UTC time line: the whole seconds since the Unix epoch and
/// the nanoseconds within that second.
///
/// Instants are ordered by `secs`, then by `nanos`. During a leap second
/// `nanos` may reach 1_999_999_999; the order stays the same.
#[derive(Clone, Copy, Debug, PartialEq, Eq, Structural)]
pub struct Timestamp {
    pub secs: i64,
    pub nanos: u32,
}

impl Timestamp {
    /// `self` is strictly later than `other`.
    pub open spec fn is_after(self, other: Timestamp) -> bool {
        self.secs > other.secs || (self.secs == other.secs && self.nanos > other.nanos)
    }

    /// The instant `delta` seconds after `self` (before it, where `delta` is negative).
    pub open spec fn shifted(self, delta: int) -> Timestamp
        recommends
            i64::MIN <= self.secs + delta <= i64::MAX,
    {
        Timestamp { secs: (self.secs + delta) as i64, nanos: self.nanos }
    }

    /// The seconds of `self` lie within the calendar, as those of every
    /// instant do that the clock gives.
    pub open spec fn in_clock_range(self) -> bool {
        calendar_holds(self.secs as int)
    }

    /// The calendar can write `self` down: its seconds lie within the
    /// calendar, and its nanoseconds are less than a second, or less than
    /// two within the last second of a minute, where a leap second may stand.
    pub open spec fn writable(self) -> bool {
        &&& calendar_holds(self.secs as int)
        &&& self.nanos < 1_000_000_000 || (self.nanos < 2_000_000_000 && self.secs % 60 == 59)
    }

    /// The instant at a whole number of seconds since the epoch.
    pub fn from_unix(secs: i64) -> (t: Timestamp)
        ensures
            t == (Timestamp { secs, nanos: 0 }),
    {
        Timestamp { secs, nanos: 0 }
    }

    /// Whether `self` is strictly later than `other`.
    pub fn after(&self, other: &Timestamp) -> (r: bool)
        ensures
            r == self.is_after(*other),
    {
        self.secs > other.secs || (self.secs == other.secs && self.nanos > other.nanos)
    }

    /// The instant `delta` seconds after `self`.
    pub fn plus_seconds(&self, delta: i64) -> (t: Timestamp)
        requires
            i64::MIN <= self.secs + delta <= i64::MAX,
        ensures
            t == self.shifted(delta as int),
    {
        Timestamp { secs: self.secs + delta, nanos: self.nanos }
    }
}

/// The calendar holds the instant at `secs` whole seconds since the epoch.
pub open spec fn calendar_holds(secs: int) -> bool {
    CALENDAR_MIN_SECS <= secs <= CALENDAR_MAX_SECS
}

/// Reads the system clock through `chrono::Utc::now`.
///
/// Nothing is known of the instant but that it lies within chrono's
/// calendar, as every `DateTime` does. The call fails where the system clock
/// stands before the epoch.
#[verifier::external_body]
pub(crate) fn now() -> (t: Timestamp)
    ensures
        t.in_clock_range(),
{
    let dt = chrono::Utc::now();
    Timestamp { secs: dt.timestamp(), nanos: dt.timestamp_subsec_nanos() }
}

/// Asks `chrono::DateTime::from_timestamp` for the instant at `secs` whole
/// seconds since the epoch.
///
/// chrono makes the date from the day that the seconds fall on and refuses a
/// year before -262143 or after 262142; what it makes has exactly these
/// seconds and no nanoseconds.
#[verifier::external_body]
pub(crate) fn calendar_instant(secs: i64) -> (r: Option<Timestamp>)
    ensures
        r == (if calendar_holds(secs as int) {
            Some(Timestamp { secs, nanos: 0 })
        } else {
            None
        }),
{
    match chrono::DateTime::from_timestamp(secs, 0) {
        Some(dt) => Some(Timestamp { secs: dt.timestamp(), nanos: dt.timestamp_subsec_nanos() }),
        None => None,
    }
}

} // verus!
