//! Result cache policy: the deterministic cache key and the
//! verdict-dependent entry lifetime.

use vstd::prelude::*;
use vstd::string::StringExecFns;
use crate::digest::{hash_for_indexing, sha256_of};
use crate::model::{ClassificationResult, URLCheckRequest};
use crate::text::hex_of;

verus! {

/// What a cache read yielded. A transport or deserialization failure is
/// reported as `Unavailable`, never as an error of the outer request; the
/// orchestrator treats it exactly like a miss.
pub enum CacheLookup {
    Hit(ClassificationResult),
    Miss,
    Unavailable,
}

/// The key under which a URL's verdict is cached: a fixed prefix followed by
/// the lowercase hex of the URL's SHA-256 digest. A function of the URL
/// alone; in particular the sensitivity mode plays no part in it.
pub open spec fn cache_key_spec(url: Seq<char>) -> Seq<char> {
    "classify:v1:"@ + hex_of(sha256_of(url))
}

/// Builds the cache key for a URL.
pub fn cache_key(url: &str) -> (key: String)
    ensures
        key@ == cache_key_spec(url@),
{
    let mut key = String::from_str("classify:v1:");
    let digest_hex = hash_for_indexing(url);
    key.append(digest_hex.as_str());
    key
}

/// Cache lifetime, in seconds, applied to a stored phishing verdict.
pub const TTL_PHISHING_SECONDS: u64 = 604800;

/// Cache lifetime, in seconds, applied to a stored non-phishing verdict.
pub const TTL_SAFE_SECONDS: u64 = 86400;

/// Lifetime, in seconds, chosen for a stored entry: seven days for a
/// phishing verdict, one day otherwise.
pub open spec fn ttl_spec(is_phishing: bool) -> u64 {
    if is_phishing {
        TTL_PHISHING_SECONDS
    } else {
        TTL_SAFE_SECONDS
    }
}

/// The entry lifetime the orchestrator hands to the cache when it stores a
/// fresh verdict.
pub fn ttl_for_verdict(is_phishing: bool) -> (ttl: u64)
    ensures
        ttl == ttl_spec(is_phishing),
{
    if is_phishing {
        TTL_PHISHING_SECONDS
    } else {
        TTL_SAFE_SECONDS
    }
}

/// One stored cache entry of the model: the serialized verdict and the
/// instant, in seconds, at which the store forgets it.
pub struct StoredEntry {
    pub value: ClassificationResult,
    pub expires_at: int,
}

/// The idealized external store: what the cache holds after an entry for
/// `key` is written at `now` with lifetime `ttl`.
pub open spec fn store_after_set(
    store: Map<Seq<char>, StoredEntry>,
    key: Seq<char>,
    value: ClassificationResult,
    ttl: u64,
    now: int,
) -> Map<Seq<char>, StoredEntry> {
    store.insert(key, StoredEntry { value, expires_at: now + ttl })
}

/// The idealized external store: what a read of `key` at `now` yields. An
/// entry is served until its expiry and gone from then on.
pub open spec fn store_lookup(store: Map<Seq<char>, StoredEntry>, key: Seq<char>, now: int) -> CacheLookup {
    if store.contains_key(key) && now < store[key].expires_at {
        CacheLookup::Hit(store[key].value)
    } else {
        CacheLookup::Miss
    }
}

/// The cache key is a pure function of the URL alone: two requests that
/// differ only in sensitivity mode (or in any other field) share one cache
/// slot.
pub proof fn lemma_cache_key_ignores_mode(a: URLCheckRequest, b: URLCheckRequest)
    requires
        a.url@ == b.url@,
    ensures
        cache_key_spec(a.url@) == cache_key_spec(b.url@),
{
}

/// A fresh entry expires exactly its verdict's lifetime after the write:
/// seven days (604800 s) for a phishing verdict, one day (86400 s)
/// otherwise — neither earlier nor later.
pub proof fn lemma_entry_lifetime(
    store: Map<Seq<char>, StoredEntry>,
    key: Seq<char>,
    value: ClassificationResult,
    now: int,
)
    ensures
        ({
            let s1 = store_after_set(store, key, value, ttl_spec(value.is_phishing), now);
            &&& s1.contains_key(key)
            &&& value.is_phishing ==> s1[key].expires_at == now + 604800
            &&& !value.is_phishing ==> s1[key].expires_at == now + 86400
        }),
{
}

} // verus!
