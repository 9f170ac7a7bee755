//! The session registry: which user a session token stands for.
//!
//! The registry is bounded. When a new token arrives at a full registry the
//! least recently used token leaves; a successful lookup counts as a use.

use vstd::prelude::*;
use crate::lru_cache::{
    session_cache_get, session_cache_new, session_cache_put, session_entries, session_limit,
    SessionCache, MAX_CAPACITY,
};
use crate::recency::{
    after_read, after_write, bounded, distinct_keys, evicts, has_key, lemma_read,
    lemma_slot_unique, lemma_write, value_of,
};

verus! {

/// The number of sessions a server keeps by default.
pub const SESSION_CAPACITY: usize = 1048576;

/// An opaque session token: the 128 bits of the identifier handed out at login.
#[derive(Clone, Copy, Debug, PartialEq, Eq, Structural)]
pub struct Session {
    pub session_id: u128,
}

/// Maps session tokens to user identities.
pub struct SessionRegistry {
    cache: SessionCache,
}

impl SessionRegistry {
    /// The token/user pairs held, most recently used first.
    pub closed spec fn entries(&self) -> Seq<(u128, u64)> {
        session_entries(self.cache)
    }

    /// The number of tokens the registry holds at most.
    pub closed spec fn capacity(&self) -> nat {
        session_limit(self.cache)
    }

    /// The registry respects its capacity and holds each token once.
    pub open spec fn wf(&self) -> bool {
        bounded(self.entries(), self.capacity())
    }

    /// The user a token stands for, if the registry holds it.
    pub open spec fn user_of(&self, token: u128) -> Option<u64> {
        value_of(self.entries(), token)
    }

    /// An empty registry for at most `capacity` tokens.
    pub fn new(capacity: usize) -> (registry: SessionRegistry)
        requires
            0 < capacity <= MAX_CAPACITY,
        ensures
            registry.wf(),
            registry.capacity() == capacity,
            registry.entries() == Seq::<(u128, u64)>::empty(),
            forall|token: u128| registry.user_of(token).is_none(),
    {
        let registry = SessionRegistry { cache: session_cache_new(capacity) };
        proof {
            assert(distinct_keys(registry.entries()));
            assert forall|token: u128| registry.user_of(token).is_none() by {
                assert(!has_key(registry.entries(), token));
            }
        }
        registry
    }

    /// Binds `token` to `user`, replacing an earlier binding of the token, and
    /// marks it most recently used. In a full registry a new token evicts the
    /// least recently used one; no other binding changes.
    pub fn bind(&mut self, token: u128, user: u64)
        requires
            old(self).wf(),
        ensures
            final(self).wf(),
            final(self).capacity() == old(self).capacity(),
            final(self).entries() == after_write(
                old(self).entries(),
                old(self).capacity(),
                token,
                user,
            ),
            final(self).user_of(token) == Some(user),
            forall|other: u128|
                other != token && !(evicts(old(self).entries(), old(self).capacity(), token)
                    && other == old(self).entries().last().0) ==> final(self).user_of(other) == old(
                    self,
                ).user_of(other),
            evicts(old(self).entries(), old(self).capacity(), token) ==> final(self).user_of(
                old(self).entries().last().0,
            ).is_none(),
    {
        proof {
            lemma_write(self.entries(), self.capacity(), token, user);
        }
        let _ = session_cache_put(&mut self.cache, token, user);
    }

    /// The user that `token` stands for, or `None` for a token that was never
    /// bound or has been evicted. A found token becomes the most recently used;
    /// no binding changes.
    pub fn authenticate(&mut self, token: u128) -> (user: Option<u64>)
        requires
            old(self).wf(),
        ensures
            user == old(self).user_of(token),
            final(self).wf(),
            final(self).capacity() == old(self).capacity(),
            final(self).entries() == after_read(old(self).entries(), token),
            forall|other: u128| final(self).user_of(other) == old(self).user_of(other),
    {
        proof {
            lemma_read(self.entries(), self.capacity(), token);
        }
        session_cache_get(&mut self.cache, token)
    }
}

/// The user behind `session`, as [`SessionRegistry::authenticate`] finds it.
pub fn get_user_id(session_map: &mut SessionRegistry, session: Session) -> (user: Option<u64>)
    requires
        old(session_map).wf(),
    ensures
        user == old(session_map).user_of(session.session_id),
        final(session_map).wf(),
        final(session_map).capacity() == old(session_map).capacity(),
        final(session_map).entries() == after_read(old(session_map).entries(), session.session_id),
        forall|other: u128| final(session_map).user_of(other) == old(session_map).user_of(other),
{
    session_map.authenticate(session.session_id)
}

/// The entries after each pair of `bindings` was bound in turn, first to last.
pub open spec fn bound_in_turn(
    entries: Seq<(u128, u64)>,
    capacity: nat,
    bindings: Seq<(u128, u64)>,
) -> Seq<(u128, u64)>
    decreases bindings.len(),
{
    if bindings.len() == 0 {
        entries
    } else {
        after_write(
            bound_in_turn(entries, capacity, bindings.drop_last()),
            capacity,
            bindings.last().0,
            bindings.last().1,
        )
    }
}

/// Binding distinct tokens to an empty registry that has room for all of them
/// keeps every one, the latest in front.
pub proof fn lemma_fill_keeps_all(capacity: nat, bindings: Seq<(u128, u64)>)
    requires
        capacity > 0,
        bindings.len() <= capacity,
        distinct_keys(bindings),
    ensures
        bound_in_turn(Seq::empty(), capacity, bindings).len() == bindings.len(),
        forall|i: int|
            0 <= i < bindings.len() ==> bound_in_turn(Seq::empty(), capacity, bindings)[i]
                == bindings[bindings.len() - 1 - i],
    decreases bindings.len(),
{
    if bindings.len() > 0 {
        let earlier = bindings.drop_last();
        lemma_fill_keeps_all(capacity, earlier);
        let before = bound_in_turn(Seq::empty(), capacity, earlier);
        let key = bindings.last().0;
        if has_key(before, key) {
            let i = choose|i: int| 0 <= i < before.len() && (#[trigger] before[i]).0 == key;
            assert(before[i] == earlier[earlier.len() - 1 - i]);
            assert(bindings[earlier.len() - 1 - i].0 == bindings[bindings.len() - 1].0);
            assert(false);
        }
    }
}

/// Least-recently-used eviction: a registry of capacity `n`, empty at first and
/// given `n + 1` bindings of distinct tokens with no lookup in between, has
/// lost exactly the first token. Every later token still stands for its user.
pub proof fn law_lru_eviction(capacity: nat, bindings: Seq<(u128, u64)>)
    requires
        capacity > 0,
        bindings.len() == capacity + 1,
        distinct_keys(bindings),
    ensures
        value_of(bound_in_turn(Seq::empty(), capacity, bindings), bindings[0].0).is_none(),
        forall|i: int|
            1 <= i < bindings.len() ==> value_of(
                bound_in_turn(Seq::empty(), capacity, bindings),
                (#[trigger] bindings[i]).0,
            ) == Some(bindings[i].1),
        bound_in_turn(Seq::empty(), capacity, bindings).len() == capacity,
{
    let earlier = bindings.drop_last();
    lemma_fill_keeps_all(capacity, earlier);
    let before = bound_in_turn(Seq::<(u128, u64)>::empty(), capacity, earlier);
    let after = bound_in_turn(Seq::<(u128, u64)>::empty(), capacity, bindings);
    let key = bindings.last().0;
    let user = bindings.last().1;
    assert(distinct_keys(before)) by {
        assert forall|a: int, b: int|
            0 <= a < before.len() && 0 <= b < before.len() && (#[trigger] before[a]).0 == (
            #[trigger] before[b]).0 implies a == b by {
            assert(before[a] == earlier[earlier.len() - 1 - a]);
            assert(before[b] == earlier[earlier.len() - 1 - b]);
            assert(bindings[earlier.len() - 1 - a].0 == bindings[earlier.len() - 1 - b].0);
        }
    }
    if has_key(before, key) {
        let i = choose|i: int| 0 <= i < before.len() && (#[trigger] before[i]).0 == key;
        assert(before[i] == earlier[earlier.len() - 1 - i]);
        assert(bindings[earlier.len() - 1 - i].0 == bindings[bindings.len() - 1].0);
        assert(false);
    }
    assert(evicts(before, capacity, key));
    assert(before.last() == bindings[0]) by {
        assert(before[before.len() - 1] == earlier[0]);
    }
    lemma_write(before, capacity, key, user);
    assert(after == after_write(before, capacity, key, user));
    assert forall|i: int| 1 <= i < bindings.len() implies value_of(
        after,
        (#[trigger] bindings[i]).0,
    ) == Some(bindings[i].1) by {
        if i < bindings.len() - 1 {
            let at = earlier.len() - 1 - i;
            assert(before[at] == earlier[i]);
            lemma_slot_unique(before, at);
            assert(bindings[i].0 != bindings[0].0);
            assert(bindings[i].0 != bindings[bindings.len() - 1].0);
        }
    }
}

} // verus!
