//! The in-memory backend: one table from keys to entries, with no fault to report.

use vstd::prelude::*;
use vstd::hash_map::StringHashMap;
use crate::backend::{
    lookup, raw_answer_is, typed_answer_is, CacheBackend, EntryView, Lookup, Table,
};
use crate::entry::CachedResponse;
use crate::error::CacheError;
use crate::time::{now, Timestamp};

verus! {

/// What the table holds of one entry: the serialized payload and its two instants.
pub struct StoredEntry {
    pub payload: String,
    pub cached_at: Timestamp,
    pub expires_at: Timestamp,
}

impl View for StoredEntry {
    type V = EntryView;

    open spec fn view(&self) -> EntryView {
        EntryView {
            payload: self.payload@,
            cached_at: self.cached_at,
            expires_at: self.expires_at,
        }
    }
}

/// The in-memory backend.
pub struct InMemoryCache {
    entries: StringHashMap<StoredEntry>,
}

impl View for InMemoryCache {
    type V = Map<Seq<char>, EntryView>;

    closed spec fn view(&self) -> Map<Seq<char>, EntryView> {
        self.entries@.map_values(|e: StoredEntry| e@)
    }
}

impl Default for InMemoryCache {
    /// An empty cache.
    fn default() -> (cache: Self)
        ensures
            cache@ == Map::<Seq<char>, EntryView>::empty(),
    {
        InMemoryCache::new()
    }
}

impl InMemoryCache {
    /// An empty cache.
    pub fn new() -> (cache: Self)
        ensures
            cache@ == Map::<Seq<char>, EntryView>::empty(),
    {
        let cache = InMemoryCache { entries: StringHashMap::new() };
        assert(cache@ =~= Map::<Seq<char>, EntryView>::empty());
        cache
    }

    fn put(&mut self, key: &str, entry: StoredEntry)
        ensures
            final(self)@ == old(self)@.insert(key@, entry@),
    {
        self.entries.insert(key.to_owned(), entry);
        assert(self@ =~= old(self)@.insert(key@, entry@));
    }

    fn find(&self, key: &str, now: Timestamp) -> (r: Result<&StoredEntry, CacheError>)
        ensures
            match lookup(self@, key@, now) {
                Lookup::Found(e) => r matches Ok(s) && s@ == e,
                Lookup::Missing => r matches Err(CacheError::NotFound),
                Lookup::Stale => r matches Err(CacheError::Expired),
            },
    {
        match self.entries.get(key) {
            None => Err(CacheError::NotFound),
            Some(stored) => {
                if now.after(&stored.expires_at) {
                    Err(CacheError::Expired)
                } else {
                    Ok(stored)
                }
            },
        }
    }
}

impl CacheBackend for InMemoryCache {
    open spec fn table(&self) -> Table {
        self@
    }

    /// Reads the raw payload under `key` as of `now`: the payload with the
    /// instants it was stored with, `NotFound` for a key that is not stored,
    /// `Expired` for one whose expiry lies before `now`.
    fn get_raw_at(&self, key: &str, now: Timestamp) -> (r: Result<
        (String, Timestamp, Timestamp),
        CacheError,
    >)
        ensures
            raw_answer_is(r, lookup(self@, key@, now)),
    {
        match self.find(key, now) {
            Ok(stored) => Ok((stored.payload.clone(), stored.cached_at, stored.expires_at)),
            Err(e) => Err(e),
        }
    }

    /// Reads the raw payload under `key` as of the clock's present instant.
    fn get_raw(&self, key: &str) -> (r: Result<(String, Timestamp, Timestamp), CacheError>)
        ensures
            exists|t: Timestamp|
                t.in_clock_range() && raw_answer_is(r, #[trigger] lookup(self@, key@, t)),
    {
        let t = now();
        let r = self.get_raw_at(key, t);
        assert(t.in_clock_range() && raw_answer_is(r, lookup(self@, key@, t)));
        r
    }

    /// Stores a raw payload under `key` with its two instants, in place of
    /// whatever was stored there. Never fails.
    fn set_raw(
        &mut self,
        key: &str,
        json: String,
        cached_at: Timestamp,
        expires_at: Timestamp,
    ) -> (r: Result<(), CacheError>)
        ensures
            r is Ok,
            final(self)@ == old(self)@.insert(
                key@,
                EntryView { payload: json@, cached_at, expires_at },
            ),
    {
        self.put(key, StoredEntry { payload: json, cached_at, expires_at });
        Ok(())
    }

    /// Reads the serialized rate table under `key` as of `now`, with the
    /// instants it was stored with.
    fn get_exchange_rate_at(&self, key: &str, now: Timestamp) -> (r: Result<
        CachedResponse<String>,
        CacheError,
    >)
        ensures
            typed_answer_is(r, lookup(self@, key@, now)),
    {
        match self.find(key, now) {
            Ok(stored) => Ok(
                CachedResponse {
                    response: stored.payload.clone(),
                    cached_at: stored.cached_at,
                    expires_at: stored.expires_at,
                },
            ),
            Err(e) => Err(e),
        }
    }

    /// Reads the serialized rate table under `key` as of the clock's present instant.
    fn get_exchange_rate(&self, key: &str) -> (r: Result<CachedResponse<String>, CacheError>)
        ensures
            exists|t: Timestamp|
                t.in_clock_range() && typed_answer_is(r, #[trigger] lookup(self@, key@, t)),
    {
        let t = now();
        let r = self.get_exchange_rate_at(key, t);
        assert(t.in_clock_range() && typed_answer_is(r, lookup(self@, key@, t)));
        r
    }

    /// Stores a serialized rate table under `key`, in place of whatever was
    /// stored there. Never fails.
    fn set_exchange_rate(&mut self, key: &str, response: CachedResponse<String>) -> (r: Result<
        (),
        CacheError,
    >)
        ensures
            r is Ok,
            final(self)@ == old(self)@.insert(
                key@,
                EntryView {
                    payload: response.response@,
                    cached_at: response.cached_at,
                    expires_at: response.expires_at,
                },
            ),
    {
        self.put(
            key,
            StoredEntry {
                payload: response.response,
                cached_at: response.cached_at,
                expires_at: response.expires_at,
            },
        );
        Ok(())
    }

    /// Removes the entry under `key`, if there is one. Never fails.
    fn invalidate(&mut self, key: &str) -> (r: Result<(), CacheError>)
        ensures
            r is Ok,
            final(self)@ == old(self)@.remove(key@),
    {
        self.entries.remove(key);
        assert(self@ =~= old(self)@.remove(key@));
        Ok(())
    }

    /// Removes every entry. Never fails.
    fn clear_all(&mut self) -> (r: Result<(), CacheError>)
        ensures
            r is Ok,
            final(self)@ == Map::<Seq<char>, EntryView>::empty(),
    {
        self.entries.clear();
        assert(self@ =~= Map::<Seq<char>, EntryView>::empty());
        Ok(())
    }
}

} // verus!
