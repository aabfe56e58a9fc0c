//! Errors of the cache.

use vstd::prelude::*;
use vstd::string::*;

verus! {

/// What a cache operation can fail with.
#[derive(Debug, Clone)]
pub enum CacheError {
    /// The key was never stored, or was removed.
    NotFound,
    /// The key is stored but its time to live has passed.
    Expired,
    /// The storage medium failed (a lock, a connection).
    Backend(String),
    /// A payload could not be encoded or decoded.
    Serialization(String),
}

impl CacheError {
    /// A miss: the caller goes on to fetch, and nothing is reported.
    pub open spec fn is_miss(self) -> bool {
        self is NotFound || self is Expired
    }

    /// A fault of the medium: the caller goes on to fetch, and the fault is reported.
    pub open spec fn is_fault(self) -> bool {
        self is Backend || self is Serialization
    }

    /// The text of the error.
    pub open spec fn message_text(self) -> Seq<char> {
        match self {
            CacheError::NotFound => "Item not found in cache"@,
            CacheError::Expired => "Cached item has expired"@,
            CacheError::Backend(m) => "Cache backend error: "@ + m@,
            CacheError::Serialization(m) => "Cache serialization error: "@ + m@,
        }
    }

    /// The text of the error, for a reader.
    pub fn message(&self) -> (s: String)
        ensures
            s@ == self.message_text(),
    {
        match self {
            CacheError::NotFound => String::from_str("Item not found in cache"),
            CacheError::Expired => String::from_str("Cached item has expired"),
            CacheError::Backend(m) => String::from_str("Cache backend error: ").concat(
                m.as_str(),
            ),
            CacheError::Serialization(m) => String::from_str(
                "Cache serialization error: ",
            ).concat(m.as_str()),
        }
    }
}

} // verus!
