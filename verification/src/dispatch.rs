//! The message dispatcher: the single consumer that takes submitted messages
//! in order, has each persisted, resolves its recipients and offers the
//! envelope to every recipient that is connected.
//!
//! The dispatcher performs no storage or directory access itself. It tells its
//! driver what to do next ([`DispatchAction`]) and learns how that went
//! ([`DispatchEvent`]); what it decides in between is stated here.

use vstd::prelude::*;
use std::collections::VecDeque;
use crate::connection::{
    holds_in, is_live_in, try_offer, Connection, ConnectionRegistry, Offer,
};
use crate::message::{envelope_of, ChatMessage, MessagePlain, MessageType};
use crate::recency::{after_read, after_write};
use crate::roster::{GroupCache, Membership};
use crate::session::{Session, SessionRegistry};

verus! {

/// Why a submission was refused.
#[derive(Clone, Copy, Debug, PartialEq, Eq, Structural)]
pub enum SubmitError {
    /// The submission queue is full; the submitter may try again.
    Busy,
}

/// Where the dispatcher stands with the message it is working on.
pub enum DispatchPhase {
    /// No message is in work.
    Idle,
    /// The message was handed out to be persisted.
    Storing(ChatMessage),
    /// The message was persisted and encoded; its group's members are being
    /// fetched.
    Fetching { message: ChatMessage, envelope: String },
}

/// What the driver reports to the dispatcher.
pub enum DispatchEvent {
    /// The driver is ready for work.
    Wake,
    /// Persisting the message in work succeeded (`true`) or failed.
    Stored(bool),
    /// The directory's answer for the group in work; `None` where it failed.
    Roster(Option<Vec<u64>>),
}

/// One attempt to deliver an envelope.
#[derive(Clone, Copy, Debug)]
pub struct Delivery {
    /// The recipient.
    pub user: u64,
    /// The number of the recipient's live connection.
    pub connection: u64,
    /// What the connection's channel did with the envelope.
    pub outcome: Offer,
}

/// What the dispatcher tells its driver.
pub enum DispatchAction {
    /// Nothing is queued: wait for a submission, then wake the dispatcher.
    Wait,
    /// Persist this message and report with [`DispatchEvent::Stored`].
    Store(ChatMessage),
    /// Fetch the members of this group and report with
    /// [`DispatchEvent::Roster`].
    Fetch(u64),
    /// The message in work is done: `envelope` was offered to the connections
    /// listed in `report`.
    Delivered { envelope: String, report: Vec<Delivery> },
    /// The message in work was not persisted and is dropped.
    Dropped,
    /// The message in work could not be encoded and is dropped.
    Unencodable,
    /// The event does not fit the phase; nothing changed.
    Ignored,
}

/// The recipient and connection of each delivery.
pub open spec fn targets(report: Seq<Delivery>) -> Seq<(u64, u64)> {
    Seq::new(report.len(), |i: int| (report[i].user, report[i].connection))
}

/// The deliveries owed for a list of recipients: each recipient that has a
/// live connection, with that connection's number, in the list's order. A
/// recipient without a connection is passed over.
pub open spec fn planned(connections: Map<u64, Connection>, recipients: Seq<u64>) -> Seq<(u64, u64)>
    decreases recipients.len(),
{
    if recipients.len() == 0 {
        Seq::empty()
    } else {
        let earlier = planned(connections, recipients.drop_last());
        let user = recipients.last();
        if connections.contains_key(user) {
            earlier.push((user, connections[user].id))
        } else {
            earlier
        }
    }
}

/// What is decided for a persisted message.
pub enum Routing {
    /// The envelope could not be encoded.
    Unencodable,
    /// Offer this envelope to these recipients' connections.
    Deliver(Seq<char>, Seq<(u64, u64)>),
    /// Ask the directory for this group's members first.
    Fetch(u64),
}

/// The decision for a persisted message, given its encoded envelope (`None`
/// where encoding failed), the cached members of its group and the live
/// connections. A private message goes to its receiver alone; a group message
/// to every member of the group, its sender included where the sender is one.
pub open spec fn routing(
    message: ChatMessage,
    encoded: Option<Seq<char>>,
    roster: Option<Seq<u64>>,
    connections: Map<u64, Connection>,
) -> Routing {
    match encoded {
        None => Routing::Unencodable,
        Some(envelope) => match message.message_type {
            MessageType::Private => Routing::Deliver(
                envelope,
                planned(connections, seq![message.receiver_id]),
            ),
            MessageType::Group => match roster {
                Some(members) => Routing::Deliver(envelope, planned(connections, members)),
                None => Routing::Fetch(message.receiver_id),
            },
        },
    }
}

/// Whether an action carries out a decision.
pub open spec fn carries_out(action: DispatchAction, decision: Routing) -> bool {
    match decision {
        Routing::Unencodable => action is Unencodable,
        Routing::Deliver(text, to) => action matches DispatchAction::Delivered { envelope, report }
            && envelope@ == text && targets(report@) == to,
        Routing::Fetch(group) => action matches DispatchAction::Fetch(asked) && asked == group,
    }
}

/// Offers `envelope` to the live connection of each recipient, in order, and
/// reports each attempt. A recipient without a connection is passed over; a
/// channel that is full or closed is reported and does not stop the rest.
pub fn fan_out(
    connections: &ConnectionRegistry,
    recipients: &Vec<u64>,
    envelope: &String,
) -> (report: Vec<Delivery>)
    ensures
        targets(report@) == planned(connections.connections(), recipients@),
{
    let mut report: Vec<Delivery> = Vec::new();
    let mut i: usize = 0;
    assert(targets(report@) =~= planned(connections.connections(), recipients@.take(0)));
    while i < recipients.len()
        invariant
            i <= recipients.len(),
            targets(report@) == planned(connections.connections(), recipients@.take(i as int)),
        decreases recipients.len() - i,
    {
        let user = recipients[i];
        let ghost before = report@;
        match connections.lookup(user) {
            Some(connection) => {
                let outcome = try_offer(&connection.outbound, envelope.clone());
                report.push(Delivery { user, connection: connection.id, outcome });
                assert(targets(report@) =~= targets(before).push((user, connection.id)));
            },
            None => {},
        }
        i += 1;
        proof {
            assert(recipients@.take(i as int).drop_last() =~= recipients@.take(i - 1));
            assert(recipients@.take(i as int).last() == user);
        }
    }
    assert(recipients@.take(i as int) =~= recipients@);
    report
}

/// The bounded queue of submissions and the state of the one consumer.
pub struct Dispatcher {
    queue: VecDeque<ChatMessage>,
    limit: usize,
    phase: DispatchPhase,
}

impl Dispatcher {
    /// The submitted messages not yet taken into work, oldest first.
    pub closed spec fn pending(&self) -> Seq<ChatMessage> {
        self.queue@
    }

    /// The number of messages the queue holds at most.
    pub closed spec fn limit(&self) -> usize {
        self.limit
    }

    /// Where the dispatcher stands with the message in work.
    pub closed spec fn phase(&self) -> DispatchPhase {
        self.phase
    }

    /// The queue respects its limit.
    pub open spec fn wf(&self) -> bool {
        self.pending().len() <= self.limit()
    }

    /// An idle dispatcher with an empty queue for at most `limit` messages.
    pub fn new(limit: usize) -> (dispatcher: Dispatcher)
        ensures
            dispatcher.wf(),
            dispatcher.limit() == limit,
            dispatcher.pending() == Seq::<ChatMessage>::empty(),
            dispatcher.phase() is Idle,
    {
        Dispatcher { queue: VecDeque::new(), limit, phase: DispatchPhase::Idle }
    }

    /// Queues a message behind all earlier ones, or refuses it at once where
    /// the queue is full.
    pub fn submit(&mut self, message: ChatMessage) -> (accepted: Result<(), SubmitError>)
        requires
            old(self).wf(),
        ensures
            final(self).wf(),
            final(self).limit() == old(self).limit(),
            final(self).phase() == old(self).phase(),
            accepted.is_ok() <==> old(self).pending().len() < old(self).limit(),
            accepted.is_ok() ==> final(self).pending() == old(self).pending().push(message),
            accepted == Err::<(), SubmitError>(SubmitError::Busy) ==> final(self).pending() == old(
                self,
            ).pending(),
            accepted.is_err() ==> accepted == Err::<(), SubmitError>(SubmitError::Busy),
    {
        if self.queue.len() < self.limit {
            self.queue.push_back(message);
            Ok(())
        } else {
            Err(SubmitError::Busy)
        }
    }

    /// What waking an idle dispatcher leads to: the oldest pending message is
    /// taken into work and handed out to be persisted, or there is none.
    pub open spec fn woke(before: Dispatcher, after: Dispatcher, action: DispatchAction) -> bool {
        &&& after.limit() == before.limit()
        &&& if before.pending().len() == 0 {
            &&& action is Wait
            &&& after.pending() == before.pending()
            &&& after.phase() is Idle
        } else {
            &&& action == DispatchAction::Store(before.pending()[0])
            &&& after.pending() == before.pending().subrange(1, before.pending().len() as int)
            &&& after.phase() == DispatchPhase::Storing(before.pending()[0])
        }
    }

    /// What routing the message in work leads to, given its encoded envelope.
    pub open spec fn routed(
        before: Dispatcher,
        groups_before: GroupCache,
        encoded: Option<Seq<char>>,
        connections: Map<u64, Connection>,
        after: Dispatcher,
        groups_after: GroupCache,
        action: DispatchAction,
    ) -> bool {
        let message = before.phase()->Storing_0;
        let decision = routing(
            message,
            encoded,
            groups_before.members_of(message.receiver_id),
            connections,
        );
        &&& after.limit() == before.limit()
        &&& after.pending() == before.pending()
        &&& carries_out(action, decision)
        &&& match decision {
            Routing::Fetch(_) => after.phase() matches DispatchPhase::Fetching {
                message: kept,
                envelope,
            } && kept == message && Some(envelope@) == encoded,
            _ => after.phase() is Idle,
        }
        &&& groups_after.capacity() == groups_before.capacity()
        &&& groups_after.entries() == if encoded.is_some() && message.message_type
            == MessageType::Group {
            after_read(groups_before.entries(), message.receiver_id)
        } else {
            groups_before.entries()
        }
    }

    /// What the directory's answer leads to: a fetched list is cached and the
    /// envelope goes to its members; after a failed fetch it goes to nobody.
    pub open spec fn resumed(
        before: Dispatcher,
        groups_before: GroupCache,
        fetched: Option<Seq<u64>>,
        connections: Map<u64, Connection>,
        after: Dispatcher,
        groups_after: GroupCache,
        action: DispatchAction,
    ) -> bool {
        let message = before.phase()->Fetching_message;
        let text = before.phase()->Fetching_envelope;
        let members = match fetched {
            Some(list) => list,
            None => Seq::<u64>::empty(),
        };
        &&& after.limit() == before.limit()
        &&& after.pending() == before.pending()
        &&& after.phase() is Idle
        &&& carries_out(action, Routing::Deliver(text@, planned(connections, members)))
        &&& groups_after.capacity() == groups_before.capacity()
        &&& groups_after.entries() == match fetched {
            Some(list) => after_write(
                groups_before.entries(),
                groups_before.capacity(),
                message.receiver_id,
                list,
            ),
            None => groups_before.entries(),
        }
    }

    /// What changes when nothing is to change.
    pub open spec fn untouched(
        before: Dispatcher,
        groups_before: GroupCache,
        after: Dispatcher,
        groups_after: GroupCache,
    ) -> bool {
        &&& after.limit() == before.limit()
        &&& after.pending() == before.pending()
        &&& after.phase() == before.phase()
        &&& groups_after.capacity() == groups_before.capacity()
        &&& groups_after.entries() == groups_before.entries()
    }

    /// Takes the oldest pending message into work.
    fn wake(&mut self) -> (action: DispatchAction)
        requires
            old(self).wf(),
            old(self).phase() is Idle,
        ensures
            final(self).wf(),
            Self::woke(*old(self), *final(self), action),
    {
        match self.queue.pop_front() {
            Some(message) => {
                let copy = message.duplicate();
                self.phase = DispatchPhase::Storing(message);
                DispatchAction::Store(copy)
            },
            None => DispatchAction::Wait,
        }
    }

    /// Routes the persisted message in work, given its envelope as encoded
    /// (`None` where encoding failed). An unencodable message is dropped. A
    /// private message is offered to its receiver; a group message to the
    /// cached members of its group, or, where the cache does not hold the
    /// group, the members are asked for and the message stays in work.
    pub fn route(
        &mut self,
        encoded: Option<String>,
        groups: &mut GroupCache,
        connections: &ConnectionRegistry,
    ) -> (action: DispatchAction)
        requires
            old(self).wf(),
            old(self).phase() is Storing,
            old(groups).wf(),
        ensures
            final(self).wf(),
            final(groups).wf(),
            Self::routed(
                *old(self),
                *old(groups),
                match encoded {
                    Some(text) => Some(text@),
                    None => None,
                },
                connections.connections(),
                *final(self),
                *final(groups),
                action,
            ),
    {
        let mut phase = DispatchPhase::Idle;
        std::mem::swap(&mut self.phase, &mut phase);
        match phase {
            DispatchPhase::Storing(message) => {
                match encoded {
                    None => DispatchAction::Unencodable,
                    Some(envelope) => match message.message_type {
                        MessageType::Private => {
                            let mut recipients: Vec<u64> = Vec::new();
                            recipients.push(message.receiver_id);
                            assert(recipients@ =~= seq![message.receiver_id]);
                            let report = fan_out(connections, &recipients, &envelope);
                            DispatchAction::Delivered { envelope, report }
                        },
                        MessageType::Group => {
                            let group = message.receiver_id;
                            match groups.get_members(group) {
                                Membership::Cached(members) => {
                                    let report = fan_out(connections, &members, &envelope);
                                    DispatchAction::Delivered { envelope, report }
                                },
                                Membership::Fetch => {
                                    self.phase = DispatchPhase::Fetching { message, envelope };
                                    DispatchAction::Fetch(group)
                                },
                            }
                        },
                    },
                }
            },
            _ => DispatchAction::Ignored,
        }
    }

    /// Takes the directory's answer for the group of the message in work.
    fn resume(
        &mut self,
        fetched: Option<Vec<u64>>,
        groups: &mut GroupCache,
        connections: &ConnectionRegistry,
    ) -> (action: DispatchAction)
        requires
            old(self).wf(),
            old(self).phase() is Fetching,
            old(groups).wf(),
        ensures
            final(self).wf(),
            final(groups).wf(),
            Self::resumed(
                *old(self),
                *old(groups),
                match fetched {
                    Some(list) => Some(list@),
                    None => None,
                },
                connections.connections(),
                *final(self),
                *final(groups),
                action,
            ),
    {
        let mut phase = DispatchPhase::Idle;
        std::mem::swap(&mut self.phase, &mut phase);
        match phase {
            DispatchPhase::Fetching { message, envelope } => {
                let members = groups.complete_fetch(message.receiver_id, fetched);
                let report = fan_out(connections, &members, &envelope);
                DispatchAction::Delivered { envelope, report }
            },
            _ => DispatchAction::Ignored,
        }
    }

    /// Whether no message is in work.
    pub fn is_idle(&self) -> (idle: bool)
        ensures
            idle == (self.phase() is Idle),
    {
        match &self.phase {
            DispatchPhase::Idle => true,
            _ => false,
        }
    }

    /// Whether the message in work is being persisted.
    pub fn is_storing(&self) -> (storing: bool)
        ensures
            storing == (self.phase() is Storing),
    {
        match &self.phase {
            DispatchPhase::Storing(_) => true,
            _ => false,
        }
    }

    /// Whether the message in work waits for its group's members.
    pub fn is_fetching(&self) -> (fetching: bool)
        ensures
            fetching == (self.phase() is Fetching),
    {
        match &self.phase {
            DispatchPhase::Fetching { .. } => true,
            _ => false,
        }
    }

    /// The number of pending messages.
    pub fn backlog(&self) -> (count: usize)
        ensures
            count == self.pending().len(),
    {
        self.queue.len()
    }
}

/// Advances the dispatcher by one event.
///
/// * Idle and woken: the oldest pending message is taken into work and
///   handed out to be persisted; with nothing pending the driver waits.
/// * Persisting failed: the message is dropped.
/// * Persisting succeeded: the envelope is encoded and the message routed
///   as [`Dispatcher::route`] says for that encoding, a failed one included.
/// * The directory answered: the envelope is offered to the members.
/// * Any other event: nothing changes.
///
/// A failure with one message never keeps the dispatcher from the next.
pub fn message_processing(
    dispatcher: &mut Dispatcher,
    event: DispatchEvent,
    groups: &mut GroupCache,
    connections: &ConnectionRegistry,
) -> (action: DispatchAction)
    requires
        old(dispatcher).wf(),
        old(groups).wf(),
    ensures
        final(dispatcher).wf(),
        final(groups).wf(),
        match (old(dispatcher).phase(), event) {
            (DispatchPhase::Idle, DispatchEvent::Wake) => Dispatcher::woke(
                *old(dispatcher),
                *final(dispatcher),
                action,
            ) && final(groups).entries() == old(groups).entries() && final(groups).capacity()
                == old(groups).capacity(),
            (DispatchPhase::Storing(_), DispatchEvent::Stored(false)) => {
                &&& action is Dropped
                &&& final(dispatcher).phase() is Idle
                &&& final(dispatcher).pending() == old(dispatcher).pending()
                &&& final(dispatcher).limit() == old(dispatcher).limit()
                &&& final(groups).entries() == old(groups).entries()
                &&& final(groups).capacity() == old(groups).capacity()
            },
            (DispatchPhase::Storing(message), DispatchEvent::Stored(true)) => Dispatcher::routed(
                *old(dispatcher),
                *old(groups),
                envelope_of(message).wire(),
                connections.connections(),
                *final(dispatcher),
                *final(groups),
                action,
            ),
            (DispatchPhase::Fetching { .. }, DispatchEvent::Roster(fetched)) => Dispatcher::resumed(
                *old(dispatcher),
                *old(groups),
                match fetched {
                    Some(list) => Some(list@),
                    None => None,
                },
                connections.connections(),
                *final(dispatcher),
                *final(groups),
                action,
            ),
            _ => action is Ignored && Dispatcher::untouched(
                *old(dispatcher),
                *old(groups),
                *final(dispatcher),
                *final(groups),
            ),
        },
{
    match event {
        DispatchEvent::Wake => {
            if dispatcher.is_idle() {
                dispatcher.wake()
            } else {
                DispatchAction::Ignored
            }
        },
        DispatchEvent::Stored(persisted) => {
            match &dispatcher.phase {
                DispatchPhase::Storing(message) => {
                    if persisted {
                        let encoded = MessagePlain::for_message(message).to_json();
                        dispatcher.route(encoded, groups, connections)
                    } else {
                        dispatcher.phase = DispatchPhase::Idle;
                        DispatchAction::Dropped
                    }
                },
                _ => DispatchAction::Ignored,
            }
        },
        DispatchEvent::Roster(fetched) => {
            if dispatcher.is_fetching() {
                dispatcher.resume(fetched, groups, connections)
            } else {
                DispatchAction::Ignored
            }
        },
    }
}

/// A request to send a message.
#[derive(Debug)]
pub struct ChatMessageRequest {
    pub message_type: MessageType,
    pub content: String,
    pub receiver_id: u64,
    pub session: Session,
}

/// How a request to send a message ended.
#[derive(Clone, Copy, Debug, PartialEq, Eq, Structural)]
pub enum ChatMessageInfoState {
    /// The message is queued for dispatch.
    Accepted,
    /// The session is unknown.
    WrongToken,
    /// The submission queue is full: the server is busy.
    Busy,
}

/// The answer to a request to send a message.
#[derive(Clone, Copy, Debug, PartialEq, Eq, Structural)]
pub struct ChatMessageInfo {
    pub state: ChatMessageInfoState,
}

/// The message that a request of `sender` at the time `now` stands for.
pub open spec fn requested(request: ChatMessageRequest, sender: u64, now: i128) -> ChatMessage {
    ChatMessage {
        message_type: request.message_type,
        content: request.content,
        sender_id: sender,
        receiver_id: request.receiver_id,
        time: now,
    }
}

/// Takes a request to send a message. The session is looked up, which counts
/// as a use of it. A request with an unknown session is refused; one from a
/// known user is queued behind all earlier messages, or refused at once where
/// the queue is full.
pub fn message_from_client(
    sessions: &mut SessionRegistry,
    dispatcher: &mut Dispatcher,
    request: ChatMessageRequest,
    now: i128,
) -> (answer: ChatMessageInfo)
    requires
        old(sessions).wf(),
        old(dispatcher).wf(),
    ensures
        final(sessions).wf(),
        final(dispatcher).wf(),
        final(sessions).capacity() == old(sessions).capacity(),
        final(sessions).entries() == after_read(
            old(sessions).entries(),
            request.session.session_id,
        ),
        final(dispatcher).limit() == old(dispatcher).limit(),
        final(dispatcher).phase() == old(dispatcher).phase(),
        match old(sessions).user_of(request.session.session_id) {
            None => answer.state == ChatMessageInfoState::WrongToken && final(dispatcher).pending()
                == old(dispatcher).pending(),
            Some(sender) => if old(dispatcher).pending().len() < old(dispatcher).limit() {
                answer.state == ChatMessageInfoState::Accepted && final(dispatcher).pending()
                    == old(dispatcher).pending().push(requested(request, sender, now))
            } else {
                answer.state == ChatMessageInfoState::Busy && final(dispatcher).pending() == old(
                    dispatcher,
                ).pending()
            },
        },
{
    match sessions.authenticate(request.session.session_id) {
        None => ChatMessageInfo { state: ChatMessageInfoState::WrongToken },
        Some(sender) => {
            let message = ChatMessage {
                message_type: request.message_type,
                content: request.content,
                sender_id: sender,
                receiver_id: request.receiver_id,
                time: now,
            };
            match dispatcher.submit(message) {
                Ok(()) => ChatMessageInfo { state: ChatMessageInfoState::Accepted },
                Err(_) => ChatMessageInfo { state: ChatMessageInfoState::Busy },
            }
        },
    }
}

/// The queue after each of `messages` was accepted in turn.
pub open spec fn submitted_in_turn(
    pending: Seq<ChatMessage>,
    messages: Seq<ChatMessage>,
) -> Seq<ChatMessage>
    decreases messages.len(),
{
    if messages.len() == 0 {
        pending
    } else {
        submitted_in_turn(pending, messages.drop_last()).push(messages.last())
    }
}

/// The messages handed out to be persisted by the first `count` wakes of an
/// idle dispatcher, one message being finished before the next wake.
pub open spec fn taken_in_turn(pending: Seq<ChatMessage>, count: nat) -> Seq<ChatMessage>
    decreases count,
{
    if count == 0 || pending.len() == 0 {
        Seq::empty()
    } else {
        seq![pending[0]] + taken_in_turn(
            pending.subrange(1, pending.len() as int),
            (count - 1) as nat,
        )
    }
}

/// Accepting messages in turn appends them to the queue in that order.
pub proof fn lemma_submitted_in_turn(pending: Seq<ChatMessage>, messages: Seq<ChatMessage>)
    ensures
        submitted_in_turn(pending, messages) == pending + messages,
    decreases messages.len(),
{
    if messages.len() > 0 {
        lemma_submitted_in_turn(pending, messages.drop_last());
        assert((pending + messages.drop_last()).push(messages.last()) =~= pending + messages);
    } else {
        assert(pending + messages =~= pending);
    }
}

/// Taking as many messages as are pending hands out the whole queue in order.
pub proof fn lemma_taken_in_turn(pending: Seq<ChatMessage>)
    ensures
        taken_in_turn(pending, pending.len()) == pending,
    decreases pending.len(),
{
    if pending.len() > 0 {
        let rest = pending.subrange(1, pending.len() as int);
        lemma_taken_in_turn(rest);
        assert(seq![pending[0]] + rest =~= pending);
    } else {
        assert(taken_in_turn(pending, 0) =~= pending);
    }
}

/// Ordering: whoever sent them, the messages accepted by an empty queue are
/// handed out to be persisted, and so reach fan-out, in exactly the order in
/// which they were submitted.
pub proof fn law_dispatch_order(messages: Seq<ChatMessage>)
    ensures
        taken_in_turn(submitted_in_turn(Seq::empty(), messages), messages.len()) == messages,
{
    lemma_submitted_in_turn(Seq::empty(), messages);
    assert(Seq::<ChatMessage>::empty() + messages =~= messages);
    lemma_taken_in_turn(messages);
}

/// The same for a queue that already holds messages: they come first, then the
/// new ones, each group in its own order.
pub proof fn law_dispatch_order_behind_backlog(
    pending: Seq<ChatMessage>,
    messages: Seq<ChatMessage>,
)
    ensures
        taken_in_turn(submitted_in_turn(pending, messages), pending.len() + messages.len())
            == pending + messages,
{
    lemma_submitted_in_turn(pending, messages);
    lemma_taken_in_turn(pending + messages);
}

/// A delivery is planned for exactly the recipients that are connected, each
/// to the recipient's live connection.
pub proof fn lemma_planned(connections: Map<u64, Connection>, recipients: Seq<u64>)
    ensures
        forall|user: u64|
            recipients.contains(user) && connections.contains_key(user) ==> #[trigger] planned(
                connections,
                recipients,
            ).contains((user, connections[user].id)),
        forall|i: int|
            0 <= i < planned(connections, recipients).len() ==> {
                let target = #[trigger] planned(connections, recipients)[i];
                &&& recipients.contains(target.0)
                &&& connections.contains_key(target.0)
                &&& connections[target.0].id == target.1
            },
    decreases recipients.len(),
{
    if recipients.len() > 0 {
        let earlier = recipients.drop_last();
        let last = recipients.last();
        lemma_planned(connections, earlier);
        let before = planned(connections, earlier);
        let all = planned(connections, recipients);
        assert forall|user: u64|
            recipients.contains(user) && connections.contains_key(user) implies #[trigger] all
            .contains((user, connections[user].id)) by {
            let i = choose|i: int| 0 <= i < recipients.len() && recipients[i] == user;
            if i < recipients.len() - 1 {
                assert(earlier[i] == user);
                assert(earlier.contains(user));
                assert(before.contains((user, connections[user].id)));
                let j = choose|j: int|
                    0 <= j < before.len() && before[j] == (user, connections[user].id);
                assert(all[j] == (user, connections[user].id));
            } else {
                assert(all[all.len() - 1] == (user, connections[user].id));
            }
        }
        assert forall|i: int| 0 <= i < all.len() implies {
            let target = #[trigger] all[i];
            &&& recipients.contains(target.0)
            &&& connections.contains_key(target.0)
            &&& connections[target.0].id == target.1
        } by {
            if i < before.len() {
                assert(all[i] == before[i]);
                let j = choose|j: int| 0 <= j < earlier.len() && earlier[j] == before[i].0;
                assert(recipients[j] == before[i].0);
            } else {
                assert(recipients[recipients.len() - 1] == last);
            }
        }
    }
}

/// Nothing is delivered to a connection the registry no longer holds: a
/// number that is held for nobody is the target of no planned delivery,
/// whoever the recipients are.
pub proof fn law_no_delivery_to_superseded(
    connections: Map<u64, Connection>,
    recipients: Seq<u64>,
    stale: u64,
)
    requires
        !holds_in(connections, stale),
    ensures
        forall|i: int|
            0 <= i < planned(connections, recipients).len() ==> (#[trigger] planned(
                connections,
                recipients,
            )[i]).1 != stale,
{
    lemma_planned(connections, recipients);
    assert forall|i: int| 0 <= i < planned(connections, recipients).len() implies (
    #[trigger] planned(connections, recipients)[i]).1 != stale by {
        let target = planned(connections, recipients)[i];
        if target.1 == stale {
            assert(is_live_in(connections, target.0, stale));
        }
    }
}

/// Self-delivery: a group message whose sender is a member of the group and is
/// connected is offered to the sender's own connection, and the envelope that
/// carries it names the sender, the group and the content of that very
/// message.
pub proof fn law_self_delivery(
    message: ChatMessage,
    envelope: Seq<char>,
    members: Seq<u64>,
    connections: Map<u64, Connection>,
)
    requires
        message.message_type == MessageType::Group,
        members.contains(message.sender_id),
        connections.contains_key(message.sender_id),
    ensures
        routing(message, Some(envelope), Some(members), connections) == Routing::Deliver(
            envelope,
            planned(connections, members),
        ),
        planned(connections, members).contains(
            (message.sender_id, connections[message.sender_id].id),
        ),
        envelope_of(message).user_id == message.sender_id,
        envelope_of(message).group_id == Some(message.receiver_id),
        envelope_of(message).content == message.content,
{
    lemma_planned(connections, members);
}

/// Offline silence: a persisted private message to a user without a live
/// connection ends in a delivery to nobody, not in an error.
pub proof fn law_offline_silence(
    message: ChatMessage,
    envelope: Seq<char>,
    roster: Option<Seq<u64>>,
    connections: Map<u64, Connection>,
)
    requires
        message.message_type == MessageType::Private,
        !connections.contains_key(message.receiver_id),
    ensures
        routing(message, Some(envelope), roster, connections) == Routing::Deliver(
            envelope,
            Seq::empty(),
        ),
{
    let only = seq![message.receiver_id];
    assert(only.drop_last() =~= Seq::<u64>::empty());
    assert(planned(connections, only.drop_last()) =~= Seq::<(u64, u64)>::empty());
    assert(planned(connections, only) =~= Seq::<(u64, u64)>::empty());
}

/// A private message to a connected user is offered to that user's live
/// connection and to no other.
pub proof fn law_private_goes_to_receiver_alone(
    message: ChatMessage,
    envelope: Seq<char>,
    roster: Option<Seq<u64>>,
    connections: Map<u64, Connection>,
)
    requires
        message.message_type == MessageType::Private,
        connections.contains_key(message.receiver_id),
    ensures
        routing(message, Some(envelope), roster, connections) == Routing::Deliver(
            envelope,
            seq![(message.receiver_id, connections[message.receiver_id].id)],
        ),
{
    let only = seq![message.receiver_id];
    assert(only.drop_last() =~= Seq::<u64>::empty());
    assert(planned(connections, only.drop_last()) =~= Seq::<(u64, u64)>::empty());
    assert(planned(connections, only) =~= seq![
        (message.receiver_id, connections[message.receiver_id].id),
    ]);
}

} // verus!
