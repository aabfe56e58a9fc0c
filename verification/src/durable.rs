//! The rows of a durable backend: one row for each key, its instants written as RFC 3339 text.

use vstd::prelude::*;
use vstd::string::*;
use crate::text::text_of;
use crate::error::CacheError;
use crate::fetch::PayloadKind;
use crate::time::{now, Timestamp};

verus! {

/// The columns of a row besides its key.
#[derive(Debug, Clone)]
pub struct StoredRow {
    /// The serialized payload.
    pub response: String,
    /// When the payload was cached, as RFC 3339 text.
    pub cached_at: String,
    /// The last instant at which the payload is valid, as RFC 3339 text.
    pub expires_at: String,
    /// `typed` for a table of rates, `raw` for anything else.
    pub response_type: String,
}

/// The RFC 3339 text of the instant at `secs` seconds and `nanos` nanoseconds
/// since the epoch.
pub uninterp spec fn rfc3339_text(secs: int, nanos: int) -> Seq<char>;

/// The seconds and nanoseconds since the epoch of the instant that `text`
/// states in RFC 3339; none where `text` states no instant.
pub uninterp spec fn rfc3339_instant(text: Seq<char>) -> Option<(int, int)>;

/// Writes an instant as RFC 3339 text: `chrono::DateTime::from_timestamp`
/// makes the calendar's date and time, `to_rfc3339` writes it.
///
/// The text is whatever chrono writes for these seconds and nanoseconds.
/// There is none where chrono makes no date and time of them: for a year
/// before -262143 or after 262142, and for a second or more of nanoseconds
/// but within the last second of a minute, where there may be up to two.
#[verifier::external_body]
fn format_rfc3339(t: Timestamp) -> (r: Option<String>)
    ensures
        text_of(r) == (if t.writable() {
            Some(rfc3339_text(t.secs as int, t.nanos as int))
        } else {
            None
        }),
{
    match chrono::DateTime::from_timestamp(t.secs, t.nanos) {
        Some(dt) => Some(dt.to_rfc3339()),
        None => None,
    }
}

/// Reads an instant from RFC 3339 text with
/// `chrono::DateTime::parse_from_rfc3339`, on the UTC time line.
///
/// The instant is whatever chrono reads from this text; where it reads none,
/// the error carries chrono's own words.
#[verifier::external_body]
fn parse_rfc3339(text: &str) -> (r: Result<Timestamp, String>)
    ensures
        instant_of(r) == rfc3339_instant(text@),
{
    match chrono::DateTime::parse_from_rfc3339(text) {
        Ok(dt) => Ok(Timestamp { secs: dt.timestamp(), nanos: dt.timestamp_subsec_nanos() }),
        Err(e) => Err(e.to_string()),
    }
}

/// The RFC 3339 text of an instant, none where the calendar cannot write it down.
pub open spec fn written(t: Timestamp) -> Option<Seq<char>> {
    if t.writable() {
        Some(rfc3339_text(t.secs as int, t.nanos as int))
    } else {
        None
    }
}

/// The seconds and nanoseconds of an instant that was read, none where none was read.
pub open spec fn instant_of(r: Result<Timestamp, String>) -> Option<(int, int)> {
    match r {
        Ok(t) => Some((t.secs as int, t.nanos as int)),
        Err(_) => None,
    }
}

/// The instant with the given seconds and nanoseconds.
pub open spec fn instant_at(parts: (int, int)) -> Timestamp {
    Timestamp { secs: parts.0 as i64, nanos: parts.1 as u32 }
}

impl PayloadKind {
    /// The word that marks rows of this kind.
    pub open spec fn tag_text(self) -> Seq<char> {
        match self {
            PayloadKind::Typed => "typed"@,
            PayloadKind::Raw => "raw"@,
        }
    }

    /// The word that marks rows of this kind.
    pub fn tag(&self) -> (s: &'static str)
        ensures
            s@ == self.tag_text(),
    {
        match self {
            PayloadKind::Typed => "typed",
            PayloadKind::Raw => "raw",
        }
    }
}

/// The row for a payload and its instants, given the text of each instant. A
/// row needs both texts; without one of them it cannot be written.
pub fn row_of(
    payload: String,
    cached_at: Option<String>,
    expires_at: Option<String>,
    kind: PayloadKind,
) -> (r: Result<StoredRow, CacheError>)
    ensures
        match r {
            Ok(row) => {
                &&& row.response == payload
                &&& cached_at == Some(row.cached_at)
                &&& expires_at == Some(row.expires_at)
                &&& row.response_type@ == kind.tag_text()
            },
            Err(e) => {
                &&& cached_at is None || expires_at is None
                &&& e is Serialization
                &&& e->Serialization_0@ == "instant outside the calendar"@
            },
        },
{
    match (cached_at, expires_at) {
        (Some(c), Some(e)) => Ok(
            StoredRow {
                response: payload,
                cached_at: c,
                expires_at: e,
                response_type: String::from_str(kind.tag()),
            },
        ),
        _ => Err(CacheError::Serialization(String::from_str("instant outside the calendar"))),
    }
}

/// The row under which a payload is stored with its two instants. The row is
/// written exactly where the calendar can write both instants down.
pub fn encode_row(payload: String, cached_at: Timestamp, expires_at: Timestamp, kind: PayloadKind) -> (r:
    Result<StoredRow, CacheError>)
    ensures
        match r {
            Ok(row) => {
                &&& row.response == payload
                &&& Some(row.cached_at@) == written(cached_at)
                &&& Some(row.expires_at@) == written(expires_at)
                &&& row.response_type@ == kind.tag_text()
            },
            Err(e) => {
                &&& !cached_at.writable() || !expires_at.writable()
                &&& e is Serialization
                &&& e->Serialization_0@ == "instant outside the calendar"@
            },
        },
{
    let c = format_rfc3339(cached_at);
    let e = format_rfc3339(expires_at);
    row_of(payload, c, e, kind)
}

/// What a read finds at `now` in a row whose instants were read from their
/// texts: a `Serialization` error where an instant could not be read, with
/// the reader's words, that of `cached_at` first; `Expired` where `now` is
/// past the expiry; else the payload with its instants.
pub fn judge_row(
    response: String,
    cached_at: Result<Timestamp, String>,
    expires_at: Result<Timestamp, String>,
    now: Timestamp,
) -> (r: Result<(String, Timestamp, Timestamp), CacheError>)
    ensures
        match (cached_at, expires_at) {
            (Err(why), _) => r matches Err(CacheError::Serialization(m)) && m == why,
            (Ok(_), Err(why)) => r matches Err(CacheError::Serialization(m)) && m == why,
            (Ok(c), Ok(e)) => if now.is_after(e) {
                r matches Err(CacheError::Expired)
            } else {
                r matches Ok(t) && t.0 == response && t.1 == c && t.2 == e
            },
        },
{
    let c = match cached_at {
        Ok(c) => c,
        Err(why) => {
            return Err(CacheError::Serialization(why));
        },
    };
    let e = match expires_at {
        Ok(e) => e,
        Err(why) => {
            return Err(CacheError::Serialization(why));
        },
    };
    if now.after(&e) {
        Err(CacheError::Expired)
    } else {
        Ok((response, c, e))
    }
}

/// The answer `r` of a read at `now` says what the row under the key says,
/// if there is one: `NotFound` without a row; a `Serialization` error where
/// the text of an instant states none; `Expired` where `now` is past the
/// expiry; else the payload with its instants.
pub open spec fn row_answer_is(
    r: Result<(String, Timestamp, Timestamp), CacheError>,
    row: Option<StoredRow>,
    now: Timestamp,
) -> bool {
    match row {
        None => r matches Err(CacheError::NotFound),
        Some(row) => match (rfc3339_instant(row.cached_at@), rfc3339_instant(row.expires_at@)) {
            (Some(c), Some(e)) => if now.is_after(instant_at(e)) {
                r matches Err(CacheError::Expired)
            } else {
                r matches Ok(t) && t.0 == row.response && t.1 == instant_at(c) && t.2
                    == instant_at(e)
            },
            _ => r matches Err(CacheError::Serialization(_)),
        },
    }
}

/// What a read of a key finds at `now`, given the row stored under the key,
/// if there is one. Nothing is removed, an expired row neither.
pub fn decode_row_at(row: Option<StoredRow>, now: Timestamp) -> (r: Result<
    (String, Timestamp, Timestamp),
    CacheError,
>)
    ensures
        row_answer_is(r, row, now),
{
    match row {
        None => Err(CacheError::NotFound),
        Some(row) => {
            let c = parse_rfc3339(row.cached_at.as_str());
            let e = parse_rfc3339(row.expires_at.as_str());
            judge_row(row.response, c, e, now)
        },
    }
}

/// As `decode_row_at`, at the clock's present instant.
pub fn decode_row(row: Option<StoredRow>) -> (r: Result<(String, Timestamp, Timestamp), CacheError>)
    ensures
        exists|t: Timestamp| t.in_clock_range() && #[trigger] row_answer_is(r, row, t),
{
    let t = now();
    let r = decode_row_at(row, t);
    assert(t.in_clock_range() && row_answer_is(r, row, t));
    r
}

} // verus!
