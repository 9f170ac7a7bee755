//! The `lru` crate's cache as the library uses it: a holder for each kind of
//! cache, the names under which contracts speak of what a cache holds, and a
//! wrapper for each method called. Nothing here is proved; each contract
//! restates what the crate's source does, over the model in
//! [`crate::recency`].

use vstd::prelude::*;
use crate::recency::{after_read, after_removal, after_write, value_of};

verus! {

/// An `lru::LruCache` from session token to user identity. Its default hasher
/// is a type of a crate beneath `lru`, so the cache is held behind this struct
/// and read only through the names and wrappers below.
#[verifier::external_body]
pub struct SessionCache {
    inner: lru::LruCache<u128, u64>,
}

/// The largest limit a cache of this library is made with.
pub const MAX_CAPACITY: usize = 1048576;

/// The token/user pairs a session cache holds, most recently used first.
pub uninterp spec fn session_entries(cache: SessionCache) -> Seq<(u128, u64)>;

/// The limit a session cache was made with.
pub uninterp spec fn session_limit(cache: SessionCache) -> nat;

/// `LruCache::new`: an empty cache that holds at most `limit` entries.
#[verifier::external_body]
pub(crate) fn session_cache_new(limit: usize) -> (cache: SessionCache)
    requires
        0 < limit <= MAX_CAPACITY,
    ensures
        session_entries(cache) == Seq::<(u128, u64)>::empty(),
        session_limit(cache) == limit,
{
    SessionCache { inner: lru::LruCache::new(std::num::NonZeroUsize::new(limit).unwrap()) }
}

/// `LruCache::put`: the entry of `token` becomes `user` and the most recently
/// used; a new key in a full cache pushes the least recently used entry out.
/// Returns the value `token` had before.
#[verifier::external_body]
pub(crate) fn session_cache_put(cache: &mut SessionCache, token: u128, user: u64) -> (previous:
    Option<u64>)
    ensures
        session_limit(*final(cache)) == session_limit(*old(cache)),
        session_entries(*final(cache)) == after_write(
            session_entries(*old(cache)),
            session_limit(*old(cache)),
            token,
            user,
        ),
        previous == value_of(session_entries(*old(cache)), token),
{
    cache.inner.put(token, user)
}

/// `LruCache::get`: the value under `token`, whose entry becomes the most
/// recently used; an absent key changes nothing.
#[verifier::external_body]
pub(crate) fn session_cache_get(cache: &mut SessionCache, token: u128) -> (found: Option<u64>)
    ensures
        session_limit(*final(cache)) == session_limit(*old(cache)),
        session_entries(*final(cache)) == after_read(session_entries(*old(cache)), token),
        found == value_of(session_entries(*old(cache)), token),
{
    cache.inner.get(&token).copied()
}

/// An `lru::LruCache` from group identifier to member list, held like
/// [`SessionCache`].
#[verifier::external_body]
pub struct RosterCache {
    inner: lru::LruCache<u64, Vec<u64>>,
}

/// The group/members pairs a roster cache holds, most recently used first.
pub uninterp spec fn roster_entries(cache: RosterCache) -> Seq<(u64, Seq<u64>)>;

/// The limit a roster cache was made with.
pub uninterp spec fn roster_limit(cache: RosterCache) -> nat;

/// `LruCache::new`: an empty cache that holds at most `limit` entries.
#[verifier::external_body]
pub(crate) fn roster_cache_new(limit: usize) -> (cache: RosterCache)
    requires
        0 < limit <= MAX_CAPACITY,
    ensures
        roster_entries(cache) == Seq::<(u64, Seq<u64>)>::empty(),
        roster_limit(cache) == limit,
{
    RosterCache { inner: lru::LruCache::new(std::num::NonZeroUsize::new(limit).unwrap()) }
}

/// `LruCache::put`: the entry of `group` becomes `members` and the most
/// recently used; a new key in a full cache pushes the least recently used
/// entry out. Returns the list `group` had before.
#[verifier::external_body]
pub(crate) fn roster_cache_put(cache: &mut RosterCache, group: u64, members: Vec<u64>) -> (previous:
    Option<Vec<u64>>)
    ensures
        roster_limit(*final(cache)) == roster_limit(*old(cache)),
        roster_entries(*final(cache)) == after_write(
            roster_entries(*old(cache)),
            roster_limit(*old(cache)),
            group,
            members@,
        ),
        match previous {
            Some(list) => value_of(roster_entries(*old(cache)), group) == Some(list@),
            None => value_of(roster_entries(*old(cache)), group).is_none(),
        },
{
    cache.inner.put(group, members)
}

/// `LruCache::get`: a copy of the list under `group`, whose entry becomes the
/// most recently used; an absent key changes nothing.
#[verifier::external_body]
pub(crate) fn roster_cache_get(cache: &mut RosterCache, group: u64) -> (found: Option<Vec<u64>>)
    ensures
        roster_limit(*final(cache)) == roster_limit(*old(cache)),
        roster_entries(*final(cache)) == after_read(roster_entries(*old(cache)), group),
        match found {
            Some(list) => value_of(roster_entries(*old(cache)), group) == Some(list@),
            None => value_of(roster_entries(*old(cache)), group).is_none(),
        },
{
    cache.inner.get(&group).cloned()
}

/// `LruCache::pop`: the entry of `group` leaves the cache, if there is one, and
/// its list is returned; every other entry keeps its place.
#[verifier::external_body]
pub(crate) fn roster_cache_pop(cache: &mut RosterCache, group: u64) -> (removed: Option<Vec<u64>>)
    ensures
        roster_limit(*final(cache)) == roster_limit(*old(cache)),
        roster_entries(*final(cache)) == after_removal(roster_entries(*old(cache)), group),
        match removed {
            Some(list) => value_of(roster_entries(*old(cache)), group) == Some(list@),
            None => value_of(roster_entries(*old(cache)), group).is_none(),
        },
{
    cache.inner.pop(&group)
}

} // verus!
