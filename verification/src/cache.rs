//! The bounded learning cache of one VLAN, as the forwarding table sees it.
//!
//! The cache is `moka::sync::Cache`, which Verus cannot look into. This module
//! gives names to what such a cache holds and to the limit it was built with,
//! and states what building, writing and reading do to them. None of this is
//! proved: it is what the proofs about the forwarding table rest on. It
//! speaks of caches that `cache_with_limit` built, the only ones that the
//! library makes, and it holds only while such a cache is used from one thread
//! and never cloned, which is how the table uses it.
//!
//! The cache bounds itself lazily. A write may leave it above its limit, and
//! entries leave, least recently used first, when the cache next tidies up,
//! which it does in the course of some later write or read. So the contracts
//! say when entries may leave, not which ones do.

use vstd::prelude::*;

verus! {

/// `moka::sync::Cache`, taken as it is: verified code only hands it on.
#[verifier::external_type_specification]
#[verifier::external_body]
#[verifier::reject_recursive_types(K)]
#[verifier::reject_recursive_types(V)]
#[verifier::reject_recursive_types(S)]
pub struct ExCache<K, V, S>(moka::sync::Cache<K, V, S>);

/// What `cache` holds: for each address that a read would find now, the port
/// last written for it.
pub uninterp spec fn cache_entries(cache: moka::sync::Cache<[u8; 6], usize>) -> Map<Seq<u8>, usize>;

/// The number of entries that `cache` was built for.
pub uninterp spec fn cache_limit(cache: moka::sync::Cache<[u8; 6], usize>) -> u64;

/// What a cache holds before anything was written to it.
pub open spec fn no_entries() -> Map<Seq<u8>, usize> {
    Map::empty()
}

/// Builds a cache for `limit` entries that evicts by recency of use, with
/// `moka::sync::CacheBuilder`: `new`, `eviction_policy`, `build`.
///
/// Trusted: the cache starts out empty and keeps `limit` as its limit.
#[verifier::external_body]
pub(crate) fn cache_with_limit(limit: u64) -> (cache: moka::sync::Cache<[u8; 6], usize>)
    ensures
        cache_entries(cache) == no_entries(),
        cache_limit(cache) == limit,
{
    moka::sync::CacheBuilder::new(limit).eviction_policy(moka::policy::EvictionPolicy::lru()).build()
}

/// Writes `mac -> port` with `moka::sync::Cache::insert`.
///
/// Trusted: the write adds no other association and changes none. Unless the
/// limit is zero, the cache holds `mac -> port` when the call returns. If the
/// cache is within its limit with the new association, it has lost nothing;
/// else it may have. The limit stays, and the cache holds finitely many
/// entries.
#[verifier::external_body]
pub(crate) fn cache_insert(cache: &mut moka::sync::Cache<[u8; 6], usize>, mac: [u8; 6], port: usize)
    ensures
        cache_limit(*final(cache)) == cache_limit(*old(cache)),
        cache_entries(*final(cache)).dom().finite(),
        cache_entries(*final(cache)).submap_of(cache_entries(*old(cache)).insert(mac@, port)),
        cache_limit(*old(cache)) != 0 ==> cache_entries(*final(cache)).contains_pair(mac@, port),
        cache_entries(*old(cache)).insert(mac@, port).len() <= cache_limit(*old(cache))
            ==> cache_entries(*final(cache)) == cache_entries(*old(cache)).insert(mac@, port),
{
    cache.insert(mac, port);
}

/// Reads the port of `mac` with `moka::sync::Cache::get`.
///
/// The cache is taken by `&mut` although `get` asks for less: a read records
/// the use of the entry and may tidy the cache up, so the cache is not the
/// same afterwards.
///
/// Trusted: the result is what the cache held for `mac` when the call was
/// made. The read adds no association and changes none. If the cache was
/// within its limit, it has lost nothing; else it may have. The limit stays,
/// and the cache holds finitely many entries.
#[verifier::external_body]
pub(crate) fn cache_get(cache: &mut moka::sync::Cache<[u8; 6], usize>, mac: &[u8; 6]) -> (port: Option<usize>)
    ensures
        port == cache_entries(*old(cache)).get(mac@),
        cache_limit(*final(cache)) == cache_limit(*old(cache)),
        cache_entries(*final(cache)).dom().finite(),
        cache_entries(*final(cache)).submap_of(cache_entries(*old(cache))),
        cache_entries(*old(cache)).len() <= cache_limit(*old(cache))
            ==> cache_entries(*final(cache)) == cache_entries(*old(cache)),
{
    cache.get(mac)
}

} // verus!
