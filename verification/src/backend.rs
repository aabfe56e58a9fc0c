//! What every backend owes its callers: a table from keys to entries, read against an instant.

use vstd::prelude::*;
use crate::entry::CachedResponse;
use crate::error::CacheError;
use crate::time::Timestamp;

verus! {

/// An entry as contracts see it.
pub ghost struct EntryView {
    pub payload: Seq<char>,
    pub cached_at: Timestamp,
    pub expires_at: Timestamp,
}

/// What a table holds: at most one entry for each key.
pub type Table = Map<Seq<char>, EntryView>;

/// What a read of a key finds at an instant.
pub ghost enum Lookup {
    /// The key is stored and still valid.
    Found(EntryView),
    /// The key is not stored.
    Missing,
    /// The key is stored and the instant is past its expiry.
    Stale,
}

/// What a read of `key` finds in `table` at `now`. An entry is still valid at
/// its expiry and stale at every later instant.
pub open spec fn lookup(table: Table, key: Seq<char>, now: Timestamp) -> Lookup {
    if !table.contains_key(key) {
        Lookup::Missing
    } else if now.is_after(table[key].expires_at) {
        Lookup::Stale
    } else {
        Lookup::Found(table[key])
    }
}

/// The answer `r` of a raw read says what `found` says: the payload with its
/// instants, `NotFound`, or `Expired`.
pub open spec fn raw_answer_is(
    r: Result<(String, Timestamp, Timestamp), CacheError>,
    found: Lookup,
) -> bool {
    match found {
        Lookup::Found(e) => r matches Ok(t) && t.0@ == e.payload && t.1 == e.cached_at && t.2
            == e.expires_at,
        Lookup::Missing => r matches Err(CacheError::NotFound),
        Lookup::Stale => r matches Err(CacheError::Expired),
    }
}

/// The answer `r` of a typed read says what `found` says.
pub open spec fn typed_answer_is(
    r: Result<CachedResponse<String>, CacheError>,
    found: Lookup,
) -> bool {
    match found {
        Lookup::Found(e) => r matches Ok(c) && c.response@ == e.payload && c.cached_at
            == e.cached_at && c.expires_at == e.expires_at,
        Lookup::Missing => r matches Err(CacheError::NotFound),
        Lookup::Stale => r matches Err(CacheError::Expired),
    }
}

/// A key that the table does not hold is not found, at any instant.
pub proof fn lemma_unwritten_key_is_missing(table: Table, key: Seq<char>, now: Timestamp)
    requires
        !table.contains_key(key),
    ensures
        lookup(table, key, now) == Lookup::Missing,
{
}

/// An entry written with a time to live of `ttl` seconds is read back
/// unchanged at every instant up to `cached_at + ttl`, and is stale at every
/// later instant.
pub proof fn lemma_read_after_write(
    table: Table,
    key: Seq<char>,
    entry: EntryView,
    ttl: int,
    now: Timestamp,
)
    requires
        entry.expires_at == entry.cached_at.shifted(ttl),
    ensures
        now.is_after(entry.cached_at.shifted(ttl)) ==> lookup(table.insert(key, entry), key, now)
            == Lookup::Stale,
        !now.is_after(entry.cached_at.shifted(ttl)) ==> lookup(table.insert(key, entry), key, now)
            == Lookup::Found(entry),
{
}

/// A write replaces the whole entry under its key, whatever was there.
pub proof fn lemma_write_replaces(
    table: Table,
    key: Seq<char>,
    first: EntryView,
    second: EntryView,
)
    ensures
        table.insert(key, first).insert(key, second) == table.insert(key, second),
{
    assert(table.insert(key, first).insert(key, second) =~= table.insert(key, second));
}

/// After a key is invalidated it is not found, whether or not it was stored
/// and whether or not it had expired.
pub proof fn lemma_invalidated_key_is_missing(table: Table, key: Seq<char>, now: Timestamp)
    ensures
        lookup(table.remove(key), key, now) == Lookup::Missing,
{
}

/// After everything is cleared no key is found.
pub proof fn lemma_cleared_table_finds_nothing(key: Seq<char>, now: Timestamp)
    ensures
        lookup(Map::<Seq<char>, EntryView>::empty(), key, now) == Lookup::Missing,
{
}

/// A write or an invalidation under one key changes no read of another key.
pub proof fn lemma_other_keys_untouched(
    table: Table,
    key: Seq<char>,
    entry: EntryView,
    other: Seq<char>,
    now: Timestamp,
)
    requires
        other != key,
    ensures
        lookup(table.insert(key, entry), other, now) == lookup(table, other, now),
        lookup(table.remove(key), other, now) == lookup(table, other, now),
{
}

/// The answer `r` of a raw read says what `found` says, or reports a fault of the backend.
pub open spec fn raw_answer_allows(
    r: Result<(String, Timestamp, Timestamp), CacheError>,
    found: Lookup,
) -> bool {
    raw_answer_is(r, found) || (r is Err && r->Err_0.is_fault())
}

/// The answer `r` of a typed read says what `found` says, or reports a fault of the backend.
pub open spec fn typed_answer_allows(
    r: Result<CachedResponse<String>, CacheError>,
    found: Lookup,
) -> bool {
    typed_answer_is(r, found) || (r is Err && r->Err_0.is_fault())
}

/// The entry that a typed write stores.
pub open spec fn entry_of(response: CachedResponse<String>) -> EntryView {
    EntryView {
        payload: response.response@,
        cached_at: response.cached_at,
        expires_at: response.expires_at,
    }
}

/// A storage medium for cached answers.
///
/// A backend holds a table. A read answers from the table as of an instant
/// and never hands out a payload past its expiry; a write replaces the entry
/// under its key; nothing but a write, an invalidation or a clearing changes
/// the table. An operation may instead report a fault of the medium, as
/// `Backend` or `Serialization`; a read never reports `NotFound` or `Expired`
/// of an entry that is stored and valid.
pub trait CacheBackend {
    /// What the backend holds.
    spec fn table(&self) -> Table;

    /// Reads the serialized rate table under `key` as of `now`.
    fn get_exchange_rate_at(&self, key: &str, now: Timestamp) -> (r: Result<
        CachedResponse<String>,
        CacheError,
    >)
        ensures
            typed_answer_allows(r, lookup(self.table(), key@, now)),
    ;

    /// Reads the serialized rate table under `key` as of the clock's present instant.
    fn get_exchange_rate(&self, key: &str) -> (r: Result<CachedResponse<String>, CacheError>)
        ensures
            exists|t: Timestamp|
                t.in_clock_range() && typed_answer_allows(
                    r,
                    #[trigger] lookup(self.table(), key@, t),
                ),
    ;

    /// Stores a serialized rate table under `key`, in place of whatever was stored there.
    fn set_exchange_rate(&mut self, key: &str, response: CachedResponse<String>) -> (r: Result<
        (),
        CacheError,
    >)
        ensures
            match r {
                Ok(_) => final(self).table() == old(self).table().insert(key@, entry_of(response)),
                Err(e) => e.is_fault(),
            },
    ;

    /// Reads the raw payload under `key` as of `now`, with the instants it was stored with.
    fn get_raw_at(&self, key: &str, now: Timestamp) -> (r: Result<
        (String, Timestamp, Timestamp),
        CacheError,
    >)
        ensures
            raw_answer_allows(r, lookup(self.table(), key@, now)),
    ;

    /// Reads the raw payload under `key` as of the clock's present instant.
    fn get_raw(&self, key: &str) -> (r: Result<(String, Timestamp, Timestamp), CacheError>)
        ensures
            exists|t: Timestamp|
                t.in_clock_range() && raw_answer_allows(
                    r,
                    #[trigger] lookup(self.table(), key@, t),
                ),
    ;

    /// Stores a raw payload under `key` with its two instants, in place of
    /// whatever was stored there.
    fn set_raw(
        &mut self,
        key: &str,
        json: String,
        cached_at: Timestamp,
        expires_at: Timestamp,
    ) -> (r: Result<(), CacheError>)
        ensures
            match r {
                Ok(_) => final(self).table() == old(self).table().insert(
                    key@,
                    EntryView { payload: json@, cached_at, expires_at },
                ),
                Err(e) => e.is_fault(),
            },
    ;

    /// Removes the entry under `key`, if there is one; an absent key is no error.
    fn invalidate(&mut self, key: &str) -> (r: Result<(), CacheError>)
        ensures
            match r {
                Ok(_) => final(self).table() == old(self).table().remove(key@),
                Err(e) => e.is_fault(),
            },
    ;

    /// Removes every entry.
    fn clear_all(&mut self) -> (r: Result<(), CacheError>)
        ensures
            match r {
                Ok(_) => final(self).table() == Map::<Seq<char>, EntryView>::empty(),
                Err(e) => e.is_fault(),
            },
    ;
}

} // verus!
