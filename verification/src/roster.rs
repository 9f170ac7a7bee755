//! The group membership cache: the member list of each group, as last fetched
//! from the group directory.
//!
//! The cache never talks to the directory itself. A lookup either answers from
//! what is held or tells the caller to fetch; the caller hands the directory's
//! answer back through [`GroupCache::complete_fetch`].

use vstd::prelude::*;
use crate::lru_cache::{
    roster_cache_get, roster_cache_new, roster_cache_pop, roster_cache_put, roster_entries,
    roster_limit, RosterCache, MAX_CAPACITY,
};
use crate::recency::{
    after_read, after_removal, after_write, bounded, distinct_keys, evicts, has_key, lemma_read,
    lemma_removal, lemma_write, value_of,
};

verus! {

/// The number of groups a server keeps by default.
pub const ROSTER_CAPACITY: usize = 65536;

/// What a lookup in the cache tells its caller.
pub enum Membership {
    /// The cache holds the group; these are its members.
    Cached(Vec<u64>),
    /// The cache does not hold the group; the directory must be asked.
    Fetch,
}

/// Caches the member list of each group.
pub struct GroupCache {
    cache: RosterCache,
}

impl GroupCache {
    /// The group/members pairs held, most recently used first.
    pub closed spec fn entries(&self) -> Seq<(u64, Seq<u64>)> {
        roster_entries(self.cache)
    }

    /// The number of groups the cache holds at most.
    pub closed spec fn capacity(&self) -> nat {
        roster_limit(self.cache)
    }

    /// The cache respects its capacity and holds each group once.
    pub open spec fn wf(&self) -> bool {
        bounded(self.entries(), self.capacity())
    }

    /// The members held for a group, if the cache holds it.
    pub open spec fn members_of(&self, group_id: u64) -> Option<Seq<u64>> {
        value_of(self.entries(), group_id)
    }

    /// An empty cache for at most `capacity` groups.
    pub fn new(capacity: usize) -> (cache: GroupCache)
        requires
            0 < capacity <= MAX_CAPACITY,
        ensures
            cache.wf(),
            cache.capacity() == capacity,
            cache.entries() == Seq::<(u64, Seq<u64>)>::empty(),
            forall|group_id: u64| cache.members_of(group_id).is_none(),
    {
        let cache = GroupCache { cache: roster_cache_new(capacity) };
        proof {
            assert(distinct_keys(cache.entries()));
            assert forall|group_id: u64| cache.members_of(group_id).is_none() by {
                assert(!has_key(cache.entries(), group_id));
            }
        }
        cache
    }

    /// The members of `group_id` if the cache holds them, else the order to
    /// fetch. A held group becomes the most recently used; no list changes.
    pub fn get_members(&mut self, group_id: u64) -> (answer: Membership)
        requires
            old(self).wf(),
        ensures
            match answer {
                Membership::Cached(members) => old(self).members_of(group_id) == Some(members@),
                Membership::Fetch => old(self).members_of(group_id).is_none(),
            },
            final(self).wf(),
            final(self).capacity() == old(self).capacity(),
            final(self).entries() == after_read(old(self).entries(), group_id),
            forall|other: u64| final(self).members_of(other) == old(self).members_of(other),
    {
        proof {
            lemma_read(self.entries(), self.capacity(), group_id);
        }
        match roster_cache_get(&mut self.cache, group_id) {
            Some(members) => Membership::Cached(members),
            None => Membership::Fetch,
        }
    }

    /// Takes the directory's answer for `group_id`. A fetched list is cached
    /// and returned, evicting the least recently used group where the cache is
    /// full; a failed fetch caches nothing and returns no members.
    pub fn complete_fetch(&mut self, group_id: u64, fetched: Option<Vec<u64>>) -> (members: Vec<
        u64,
    >)
        requires
            old(self).wf(),
        ensures
            final(self).wf(),
            final(self).capacity() == old(self).capacity(),
            match fetched {
                Some(list) => {
                    &&& members@ == list@
                    &&& final(self).entries() == after_write(
                        old(self).entries(),
                        old(self).capacity(),
                        group_id,
                        list@,
                    )
                    &&& final(self).members_of(group_id) == Some(list@)
                    &&& forall|other: u64|
                        other != group_id && !(evicts(
                            old(self).entries(),
                            old(self).capacity(),
                            group_id,
                        ) && other == old(self).entries().last().0) ==> final(self).members_of(
                            other,
                        ) == old(self).members_of(other)
                },
                None => members@ == Seq::<u64>::empty() && final(self).entries() == old(
                    self,
                ).entries(),
            },
    {
        match fetched {
            Some(list) => {
                proof {
                    lemma_write(self.entries(), self.capacity(), group_id, list@);
                }
                let members = list.clone();
                let _ = roster_cache_put(&mut self.cache, group_id, list);
                members
            },
            None => Vec::new(),
        }
    }

    /// Forgets the members of `group_id`, so that the next lookup orders a
    /// fetch. Every other group keeps its list.
    pub fn invalidate(&mut self, group_id: u64)
        requires
            old(self).wf(),
        ensures
            final(self).wf(),
            final(self).capacity() == old(self).capacity(),
            final(self).entries() == after_removal(old(self).entries(), group_id),
            final(self).members_of(group_id).is_none(),
            forall|other: u64|
                other != group_id ==> final(self).members_of(other) == old(self).members_of(other),
    {
        proof {
            lemma_removal(self.entries(), self.capacity(), group_id);
        }
        let _ = roster_cache_pop(&mut self.cache, group_id);
    }
}

/// Cache invalidation: whatever a bounded cache held for a group, once the
/// group was invalidated the cache holds nothing for it, so the next lookup
/// answers with the order to fetch.
pub proof fn law_invalidate_forces_fetch(
    entries: Seq<(u64, Seq<u64>)>,
    capacity: nat,
    group_id: u64,
)
    requires
        bounded(entries, capacity),
    ensures
        value_of(after_removal(entries, group_id), group_id).is_none(),
        value_of(after_read(after_removal(entries, group_id), group_id), group_id).is_none(),
{
    lemma_removal(entries, capacity, group_id);
    lemma_read(after_removal(entries, group_id), capacity, group_id);
}

} // verus!
