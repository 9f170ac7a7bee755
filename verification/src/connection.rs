//! The connection registry: the one live outbound channel of each user.
//!
//! Every registered connection gets a number of its own, never used again.
//! A connection is told apart from a later one of the same user by that
//! number, so a disconnect that arrives late removes nothing but itself.

use vstd::prelude::*;
use std::collections::HashMap;
use tokio::sync::mpsc::Sender;

verus! {

broadcast use vstd::std_specs::hash::group_hash_axioms;

/// `tokio::sync::mpsc::Sender`, the sending side of a bounded channel. The
/// library carries it through and never looks inside.
#[verifier::external_type_specification]
#[verifier::external_body]
#[verifier::reject_recursive_types(T)]
pub struct ExSender<T>(tokio::sync::mpsc::Sender<T>);

/// What became of one attempt to hand a text to an outbound channel.
#[derive(Clone, Copy, Debug, PartialEq, Eq, Structural)]
pub enum Offer {
    /// The channel took the text.
    Accepted,
    /// The channel is full; taking the text would have meant waiting.
    Full,
    /// The receiving side of the channel is gone.
    Closed,
}

/// `Sender::try_send`: offers `text` to the channel without waiting. Whether
/// the channel takes it depends on the channel's state at that moment, so
/// nothing is claimed of the outcome.
#[verifier::external_body]
pub(crate) fn try_offer(channel: &Sender<String>, text: String) -> (outcome: Offer) {
    match channel.try_send(text) {
        Ok(()) => Offer::Accepted,
        Err(tokio::sync::mpsc::error::TrySendError::Full(_)) => Offer::Full,
        Err(tokio::sync::mpsc::error::TrySendError::Closed(_)) => Offer::Closed,
    }
}

/// A live connection: its number and the sending side of its outbound channel.
pub struct Connection {
    pub id: u64,
    pub outbound: Sender<String>,
}

/// Whether `user` has the connection numbered `id` in `connections`.
pub open spec fn is_live_in(connections: Map<u64, Connection>, user: u64, id: u64) -> bool {
    connections.contains_key(user) && connections[user].id == id
}

/// Whether any user has the connection numbered `id` in `connections`.
pub open spec fn holds_in(connections: Map<u64, Connection>, id: u64) -> bool {
    exists|user: u64| is_live_in(connections, user, id)
}

/// No two users share a connection number.
pub open spec fn numbered_once(connections: Map<u64, Connection>) -> bool {
    forall|a: u64, b: u64|
        #![trigger connections[a], connections[b]]
        connections.contains_key(a) && connections.contains_key(b) && connections[a].id
            == connections[b].id ==> a == b
}

/// Every connection has a number below `issued`.
pub open spec fn numbered_below(connections: Map<u64, Connection>, issued: u64) -> bool {
    forall|user: u64| #[trigger]
        connections.contains_key(user) ==> connections[user].id < issued
}

/// The connections after `connection` became the live one of `user`.
pub open spec fn after_register(
    connections: Map<u64, Connection>,
    user: u64,
    connection: Connection,
) -> Map<u64, Connection> {
    connections.insert(user, connection)
}

/// The connections after `user` asked to remove the connection numbered `id`:
/// it leaves only if it still is the user's live one.
pub open spec fn after_unregister(
    connections: Map<u64, Connection>,
    user: u64,
    id: u64,
) -> Map<u64, Connection> {
    if is_live_in(connections, user, id) {
        connections.remove(user)
    } else {
        connections
    }
}

/// One change to a registry.
pub enum RegistryChange {
    /// `outbound` becomes the live connection of `user`.
    Register { user: u64, outbound: Sender<String> },
    /// `user` asks to remove the connection numbered `id`.
    Unregister { user: u64, id: u64 },
}

/// The connections and the next number to give, after one change. A
/// registration where no number is left does not take place.
pub open spec fn after_change(state: (Map<u64, Connection>, u64), change: RegistryChange) -> (
    Map<u64, Connection>,
    u64,
) {
    match change {
        RegistryChange::Register { user, outbound } => if state.1 < u64::MAX {
            (
                after_register(state.0, user, Connection { id: state.1, outbound }),
                (state.1 + 1) as u64,
            )
        } else {
            state
        },
        RegistryChange::Unregister { user, id } => (after_unregister(state.0, user, id), state.1),
    }
}

/// The connections and the next number to give, after each change in turn.
pub open spec fn after_changes(
    state: (Map<u64, Connection>, u64),
    changes: Seq<RegistryChange>,
) -> (Map<u64, Connection>, u64)
    decreases changes.len(),
{
    if changes.len() == 0 {
        state
    } else {
        after_change(after_changes(state, changes.drop_last()), changes.last())
    }
}

/// What [`ConnectionRegistry::register`] hands back.
pub struct Registration {
    /// The number of the connection just registered.
    pub id: u64,
    /// The connection it superseded, for the caller to close.
    pub superseded: Option<Connection>,
}

/// Maps each user to their one live connection.
pub struct ConnectionRegistry {
    live: HashMap<u64, Connection>,
    issued: u64,
}

impl ConnectionRegistry {
    /// The live connection of each connected user.
    pub closed spec fn connections(&self) -> Map<u64, Connection> {
        self.live@
    }

    /// How many connection numbers were given out; the next one to give.
    pub closed spec fn issued(&self) -> u64 {
        self.issued
    }

    /// Every live connection has a number already given out, and no two users
    /// share one.
    pub open spec fn wf(&self) -> bool {
        &&& numbered_below(self.connections(), self.issued())
        &&& numbered_once(self.connections())
    }

    /// Whether `user` has a live connection with the number `id`.
    pub open spec fn is_live(&self, user: u64, id: u64) -> bool {
        is_live_in(self.connections(), user, id)
    }

    /// Whether any user's live connection has the number `id`.
    pub open spec fn holds(&self, id: u64) -> bool {
        holds_in(self.connections(), id)
    }

    /// A registry without connections.
    pub fn new() -> (registry: ConnectionRegistry)
        ensures
            registry.wf(),
            registry.issued() == 0,
            registry.connections() == Map::<u64, Connection>::empty(),
    {
        ConnectionRegistry { live: HashMap::new(), issued: 0 }
    }

    /// Whether a connection number is left to give, which
    /// [`ConnectionRegistry::register`] asks for.
    pub fn has_room(&self) -> (room: bool)
        ensures
            room == (self.issued() < u64::MAX),
    {
        self.issued < u64::MAX
    }

    /// Makes `outbound` the live connection of `user` under a fresh number,
    /// whatever the user had before, and hands back the superseded connection.
    pub fn register(&mut self, user: u64, outbound: Sender<String>) -> (registration: Registration)
        requires
            old(self).wf(),
            old(self).issued() < u64::MAX,
        ensures
            final(self).wf(),
            registration.id == old(self).issued(),
            final(self).issued() == old(self).issued() + 1,
            final(self).connections() == after_register(
                old(self).connections(),
                user,
                (Connection { id: registration.id, outbound }),
            ),
            (final(self).connections(), final(self).issued()) == after_change(
                (old(self).connections(), old(self).issued()),
                (RegistryChange::Register { user, outbound }),
            ),
            registration.superseded == (if old(self).connections().contains_key(user) {
                Some(old(self).connections()[user])
            } else {
                None
            }),
            final(self).is_live(user, registration.id),
            forall|id: u64|
                id != registration.id && #[trigger] final(self).holds(id) ==> old(self).holds(id),
            old(self).connections().contains_key(user) ==> !final(self).holds(
                old(self).connections()[user].id,
            ),
    {
        let id = self.issued;
        let superseded = self.live.insert(user, Connection { id, outbound });
        self.issued = id + 1;
        proof {
            let before = old(self).connections();
            let after = self.connections();
            assert forall|other: u64| other != id && #[trigger] self.holds(other) implies old(
                self,
            ).holds(other) by {
                let u = choose|u: u64| is_live_in(after, u, other);
                assert(u != user);
                assert(is_live_in(before, u, other));
            }
            assert(self.is_live(user, id));
            if before.contains_key(user) {
                let stale = before[user].id;
                if self.holds(stale) {
                    let u = choose|u: u64| is_live_in(after, u, stale);
                    assert(u != user);
                    assert(before.contains_key(u) && before[u].id == before[user].id);
                    assert(false);
                }
            }
        }
        Registration { id, superseded }
    }

    /// The live connection of `user`, if there is one.
    pub fn lookup(&self, user: u64) -> (found: Option<&Connection>)
        ensures
            match found {
                Some(connection) => self.connections().contains_key(user) && *connection
                    == self.connections()[user],
                None => !self.connections().contains_key(user),
            },
    {
        self.live.get(&user)
    }

    /// Removes the connection of `user` only if it still is the one numbered
    /// `id`, and hands it back. A user who has since reconnected keeps the
    /// newer connection; nobody else is touched.
    pub fn unregister(&mut self, user: u64, id: u64) -> (removed: Option<Connection>)
        requires
            old(self).wf(),
        ensures
            final(self).wf(),
            final(self).issued() == old(self).issued(),
            final(self).connections() == after_unregister(old(self).connections(), user, id),
            (final(self).connections(), final(self).issued()) == after_change(
                (old(self).connections(), old(self).issued()),
                (RegistryChange::Unregister { user, id }),
            ),
            removed == (if old(self).is_live(user, id) {
                Some(old(self).connections()[user])
            } else {
                None
            }),
            !final(self).is_live(user, id),
            forall|other: u64| #[trigger] final(self).holds(other) ==> old(self).holds(other),
    {
        let current = match self.live.get(&user) {
            Some(connection) => connection.id == id,
            None => false,
        };
        let removed = if current {
            self.live.remove(&user)
        } else {
            None
        };
        proof {
            assert forall|other: u64| #[trigger] self.holds(other) implies old(self).holds(
                other,
            ) by {
                let u = choose|u: u64| is_live_in(self.connections(), u, other);
                assert(is_live_in(old(self).connections(), u, other));
            }
        }
        removed
    }
}

/// A connection that is no longer held is never held again: whatever is
/// registered and unregistered afterwards, no user's live connection has the
/// number of one that was superseded or removed, so nothing is delivered to
/// it through the registry.
pub proof fn law_superseded_stays_out(
    connections: Map<u64, Connection>,
    issued: u64,
    stale: u64,
    changes: Seq<RegistryChange>,
)
    requires
        numbered_below(connections, issued),
        stale < issued,
        !holds_in(connections, stale),
    ensures
        !holds_in(after_changes((connections, issued), changes).0, stale),
        numbered_below(
            after_changes((connections, issued), changes).0,
            after_changes((connections, issued), changes).1,
        ),
        issued <= after_changes((connections, issued), changes).1,
    decreases changes.len(),
{
    if changes.len() > 0 {
        law_superseded_stays_out(connections, issued, stale, changes.drop_last());
        let before = after_changes((connections, issued), changes.drop_last());
        let after = after_change(before, changes.last());
        if holds_in(after.0, stale) {
            let u = choose|u: u64| is_live_in(after.0, u, stale);
            match changes.last() {
                RegistryChange::Register { user, outbound } => {
                    if u != user {
                        assert(is_live_in(before.0, u, stale));
                    }
                },
                RegistryChange::Unregister { user, id } => {
                    assert(is_live_in(before.0, u, stale));
                },
            }
            assert(false);
        }
    }
}

/// The connections and the next number to give, after `user` registered
/// `first` and then `second`.
pub open spec fn registered_twice(
    connections: Map<u64, Connection>,
    issued: u64,
    user: u64,
    first: Sender<String>,
    second: Sender<String>,
) -> (Map<u64, Connection>, u64) {
    after_change(
        after_change((connections, issued), RegistryChange::Register { user, outbound: first }),
        RegistryChange::Register { user, outbound: second },
    )
}

/// Supersession: when a user registers a second connection after a first, the
/// user's live connection is the second; and whatever is registered or
/// unregistered later, the first is never again anybody's live connection.
pub proof fn law_supersession(
    connections: Map<u64, Connection>,
    issued: u64,
    user: u64,
    first: Sender<String>,
    second: Sender<String>,
    later: Seq<RegistryChange>,
)
    requires
        numbered_below(connections, issued),
        issued < u64::MAX - 1,
    ensures
        registered_twice(connections, issued, user, first, second).0.contains_key(user),
        registered_twice(connections, issued, user, first, second).0[user] == (Connection {
            id: (issued + 1) as u64,
            outbound: second,
        }),
        !holds_in(
            after_changes(registered_twice(connections, issued, user, first, second), later).0,
            issued,
        ),
{
    let twice = registered_twice(connections, issued, user, first, second);
    assert(numbered_below(twice.0, twice.1));
    if holds_in(twice.0, issued) {
        let u = choose|u: u64| is_live_in(twice.0, u, issued);
        assert(u != user);
        assert(connections.contains_key(u));
        assert(false);
    }
    law_superseded_stays_out(twice.0, twice.1, issued, later);
}

/// Compare-and-delete safety: when a user's first connection was superseded by
/// a second, an unregister in the name of the first changes nothing: the
/// second stays the user's live connection.
pub proof fn law_stale_unregister_keeps_successor(
    connections: Map<u64, Connection>,
    issued: u64,
    user: u64,
    first: Sender<String>,
    second: Sender<String>,
)
    requires
        issued < u64::MAX - 1,
    ensures
        after_change(
            registered_twice(connections, issued, user, first, second),
            RegistryChange::Unregister { user, id: issued },
        ) == registered_twice(connections, issued, user, first, second),
{
}

} // verus!
