//! Chat messages and the envelope a recipient receives.

use vstd::prelude::*;
use vstd::string::StringExecFns;
use crate::json::{decimal, json_string, push_decimal, quote};

verus! {

/// Whether a message goes to one user or to a group.
#[derive(Clone, Copy, Debug, PartialEq, Eq, Structural)]
pub enum MessageType {
    Private,
    Group,
}

/// A submitted message. `receiver_id` is a user for a private message and a
/// group for a group message; `time` counts nanoseconds since the Unix epoch.
#[derive(Debug)]
pub struct ChatMessage {
    pub message_type: MessageType,
    pub content: String,
    pub sender_id: u64,
    pub receiver_id: u64,
    pub time: i128,
}

impl ChatMessage {
    /// A copy of the message, equal to it in every field.
    pub fn duplicate(&self) -> (copy: ChatMessage)
        ensures
            copy == *self,
    {
        ChatMessage {
            message_type: self.message_type,
            content: self.content.clone(),
            sender_id: self.sender_id,
            receiver_id: self.receiver_id,
            time: self.time,
        }
    }
}

/// The envelope pushed to a recipient: who sent the message, the group it was
/// sent to (for a group message only) and its content.
#[derive(Debug)]
pub struct MessagePlain {
    pub message_type: MessageType,
    pub user_id: u64,
    pub group_id: Option<u64>,
    pub content: String,
}

/// The name of a message kind on the wire.
pub open spec fn kind_name(kind: MessageType) -> Seq<char> {
    match kind {
        MessageType::Private => "Private"@,
        MessageType::Group => "Group"@,
    }
}

/// The group field of an envelope on the wire.
pub open spec fn group_text(group_id: Option<u64>) -> Seq<char> {
    match group_id {
        Some(group) => decimal(group as nat),
        None => "null"@,
    }
}

/// The wire form of an envelope, given the JSON literal of its content.
pub open spec fn envelope_text(
    kind: MessageType,
    user_id: u64,
    group_id: Option<u64>,
    quoted_content: Seq<char>,
) -> Seq<char> {
    "{\"message_type\":\""@ + kind_name(kind) + "\",\"user_id\":"@ + decimal(user_id as nat)
        + ",\"group_id\":"@ + group_text(group_id) + ",\"content\":"@ + quoted_content + "}"@
}

/// The envelope that carries `message`.
pub open spec fn envelope_of(message: ChatMessage) -> MessagePlain {
    MessagePlain {
        message_type: message.message_type,
        user_id: message.sender_id,
        group_id: match message.message_type {
            MessageType::Private => None,
            MessageType::Group => Some(message.receiver_id),
        },
        content: message.content,
    }
}

impl MessagePlain {
    /// The envelope names a group exactly when it carries a group message.
    pub open spec fn wf(&self) -> bool {
        self.group_id.is_some() <==> self.message_type == MessageType::Group
    }

    /// The wire form of this envelope: the frame around the JSON literal of
    /// its content, or `None` where the content has no such literal.
    pub open spec fn wire(&self) -> Option<Seq<char>> {
        match json_string(self.content@) {
            Some(quoted) => Some(
                envelope_text(self.message_type, self.user_id, self.group_id, quoted),
            ),
            None => None,
        }
    }

    /// The envelope that carries `message`: from its sender, with the group
    /// for a group message and without one for a private message.
    pub fn for_message(message: &ChatMessage) -> (envelope: MessagePlain)
        ensures
            envelope == envelope_of(*message),
            envelope.wf(),
    {
        let group_id = match message.message_type {
            MessageType::Private => None,
            MessageType::Group => Some(message.receiver_id),
        };
        MessagePlain {
            message_type: message.message_type,
            user_id: message.sender_id,
            group_id,
            content: message.content.clone(),
        }
    }

    /// Writes the envelope around the JSON literal of its content.
    pub fn render(&self, quoted_content: &str) -> (text: String)
        ensures
            text@ == envelope_text(
                self.message_type,
                self.user_id,
                self.group_id,
                quoted_content@,
            ),
    {
        let mut text = String::from_str("{\"message_type\":\"");
        match self.message_type {
            MessageType::Private => text.append("Private"),
            MessageType::Group => text.append("Group"),
        }
        text.append("\",\"user_id\":");
        push_decimal(&mut text, self.user_id);
        text.append(",\"group_id\":");
        match self.group_id {
            Some(group) => push_decimal(&mut text, group),
            None => text.append("null"),
        }
        text.append(",\"content\":");
        text.append(quoted_content);
        text.append("}");
        text
    }

    /// The wire form of the envelope. The content is handed to the
    /// serializer: where that gives its JSON literal, the result is the frame
    /// around that literal; where it reports an error, the result is `None`.
    pub fn to_json(&self) -> (text: Option<String>)
        ensures
            match text {
                Some(wire) => self.wire() == Some(wire@),
                None => self.wire().is_none(),
            },
    {
        match quote(self.content.as_str()) {
            Ok(literal) => Some(self.render(literal.as_str())),
            Err(_) => None,
        }
    }
}

} // verus!
