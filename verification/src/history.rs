//! A user's message history: the stored private and group messages, put back
//! into one list in order of time.

use vstd::prelude::*;
use crate::directory::OperationState;
use crate::message::{ChatMessage, MessageType};
use crate::session::Session;

verus! {

/// A message as the store keeps it.
#[derive(Debug)]
pub struct ChatMessageStored {
    pub content: String,
    pub sender_id: i64,
    pub receiver_id: i64,
    pub time: i128,
}

/// A request for the asking user's history.
#[derive(Clone, Copy, Debug, PartialEq, Eq, Structural)]
pub struct SyncMessagesRequest {
    pub session: Session,
    pub days: u64,
}

/// The answer to a request for a history.
#[derive(Debug)]
pub struct SyncMessagesResult {
    pub state: OperationState,
    pub messages: Option<Vec<ChatMessage>>,
}

/// The message that a stored row of the given kind stands for.
pub open spec fn restored(row: ChatMessageStored, kind: MessageType) -> ChatMessage {
    ChatMessage {
        message_type: kind,
        content: row.content,
        sender_id: row.sender_id as u64,
        receiver_id: row.receiver_id as u64,
        time: row.time,
    }
}

/// The messages that stored rows of one kind stand for, in the rows' order.
pub open spec fn restored_all(rows: Seq<ChatMessageStored>, kind: MessageType) -> Seq<ChatMessage> {
    Seq::new(rows.len(), |i: int| restored(rows[i], kind))
}

/// No message stands before an earlier one.
pub open spec fn in_time_order(messages: Seq<ChatMessage>) -> bool {
    forall|i: int, j: int|
        0 <= i <= j < messages.len() ==> (#[trigger] messages[i]).time <= (
        #[trigger] messages[j]).time
}

/// The messages of one moment, in the order in which they stand.
pub open spec fn at_time(messages: Seq<ChatMessage>, time: i128) -> Seq<ChatMessage> {
    messages.filter(|message: ChatMessage| message.time == time)
}

/// `sort_by_key` of slices, by the messages' time: the same messages, none
/// before an earlier one, and those of one moment in the order they had (the
/// sort is stable).
#[verifier::external_body]
pub(crate) fn sort_by_time(messages: &mut Vec<ChatMessage>)
    ensures
        final(messages)@.to_multiset() == old(messages)@.to_multiset(),
        in_time_order(final(messages)@),
        forall|time: i128| at_time(final(messages)@, time) == at_time(old(messages)@, time),
{
    messages.sort_by_key(|message| message.time);
}

/// Appends to `out` the messages that `rows` stand for.
fn restore_into(out: &mut Vec<ChatMessage>, rows: &Vec<ChatMessageStored>, kind: MessageType)
    ensures
        final(out)@ == old(out)@ + restored_all(rows@, kind),
{
    let mut i: usize = 0;
    assert(out@ =~= old(out)@ + restored_all(rows@.take(0), kind));
    while i < rows.len()
        invariant
            i <= rows.len(),
            out@ == old(out)@ + restored_all(rows@.take(i as int), kind),
        decreases rows.len() - i,
    {
        let row = &rows[i];
        let ghost before = out@;
        out.push(
            ChatMessage {
                message_type: kind,
                content: row.content.clone(),
                sender_id: row.sender_id as u64,
                receiver_id: row.receiver_id as u64,
                time: row.time,
            },
        );
        i += 1;
        assert(out@ =~= old(out)@ + restored_all(rows@.take(i as int), kind));
    }
    assert(rows@.take(i as int) =~= rows@);
}

/// The messages of a history before they are ordered: the group messages,
/// then the private ones.
pub open spec fn collected(
    private: Seq<ChatMessageStored>,
    group: Seq<ChatMessageStored>,
) -> Seq<ChatMessage> {
    restored_all(group, MessageType::Group) + restored_all(private, MessageType::Private)
}

/// The history made of a user's stored private messages and the stored
/// messages of the user's groups: every one of them, once each, ordered by
/// time. Messages of one moment keep their order, group messages first.
pub fn read_messages(private: &Vec<ChatMessageStored>, group: &Vec<ChatMessageStored>) -> (history:
    Vec<ChatMessage>)
    ensures
        history@.to_multiset() == collected(private@, group@).to_multiset(),
        in_time_order(history@),
        forall|time: i128| at_time(history@, time) == at_time(collected(private@, group@), time),
{
    let mut history: Vec<ChatMessage> = Vec::new();
    restore_into(&mut history, group, MessageType::Group);
    restore_into(&mut history, private, MessageType::Private);
    assert(history@ =~= collected(private@, group@));
    sort_by_time(&mut history);
    history
}

/// Answers a request for a history: an error without a valid session, else
/// the history read.
pub fn sync_message_client(user: Option<u64>, history: Vec<ChatMessage>) -> (answer:
    SyncMessagesResult)
    ensures
        match user {
            Some(_) => answer.state == OperationState::Done && answer.messages == Some(history),
            None => answer.state == OperationState::Failed && answer.messages.is_none(),
        },
{
    match user {
        Some(_) => SyncMessagesResult { state: OperationState::Done, messages: Some(history) },
        None => SyncMessagesResult { state: OperationState::Failed, messages: None },
    }
}

} // verus!
