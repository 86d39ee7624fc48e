//! Chats and messages as the model holds them.

use vstd::prelude::*;
use crate::clock::{self, Timestamp};
use crate::rpc::{self, Jid};
use crate::rpc::types::preview_of;
use crate::text::{concat, decimal_string, decimal_text, string_from};

verus! {

/// Message delivery/read status.
#[derive(Debug, Clone, Copy, PartialEq, Eq, Structural)]
pub enum MessageStatus {
    Pending,
    Sent,
    Delivered,
    Read,
    Failed,
}

impl Default for MessageStatus {
    fn default() -> (r: Self)
        ensures
            r == MessageStatus::Pending,
    {
        MessageStatus::Pending
    }
}

/// The model status that corresponds to a service status.
pub open spec fn status_from_rpc(s: rpc::MessageStatus) -> MessageStatus {
    match s {
        rpc::MessageStatus::Pending => MessageStatus::Pending,
        rpc::MessageStatus::Sent => MessageStatus::Sent,
        rpc::MessageStatus::Delivered => MessageStatus::Delivered,
        rpc::MessageStatus::Read => MessageStatus::Read,
        rpc::MessageStatus::Failed => MessageStatus::Failed,
    }
}

impl From<rpc::MessageStatus> for MessageStatus {
    fn from(status: rpc::MessageStatus) -> (r: Self) {
        match status {
            rpc::MessageStatus::Pending => MessageStatus::Pending,
            rpc::MessageStatus::Sent => MessageStatus::Sent,
            rpc::MessageStatus::Delivered => MessageStatus::Delivered,
            rpc::MessageStatus::Read => MessageStatus::Read,
            rpc::MessageStatus::Failed => MessageStatus::Failed,
        }
    }
}

impl vstd::std_specs::convert::FromSpecImpl<rpc::MessageStatus> for MessageStatus {
    open spec fn obeys_from_spec() -> bool {
        true
    }

    open spec fn from_spec(v: rpc::MessageStatus) -> MessageStatus {
        status_from_rpc(v)
    }
}

/// A chat conversation in the model.
#[derive(Debug)]
pub struct Chat {
    pub jid: Jid,
    pub name: String,
    pub last_message: String,
    pub last_activity: Option<Timestamp>,
    pub unread_count: u32,
    pub is_pinned: bool,
}

impl Clone for Chat {
    fn clone(&self) -> (r: Self)
        ensures
            r == *self,
    {
        Chat {
            jid: self.jid.clone(),
            name: self.name.clone(),
            last_message: self.last_message.clone(),
            last_activity: self.last_activity,
            unread_count: self.unread_count,
            is_pinned: self.is_pinned,
        }
    }
}

/// The text of an optional string, empty when there is none.
pub open spec fn text_or_empty(o: Option<String>) -> Seq<char> {
    match o {
        Some(s) => s@,
        None => Seq::empty(),
    }
}

impl Chat {
    /// The model chat for a chat reported by the service; a missing last
    /// message becomes the empty text.
    pub fn from_rpc(chat: rpc::Chat) -> (r: Chat)
        ensures
            r.jid == chat.jid,
            r.name == chat.name,
            r.last_message@ == text_or_empty(chat.last_message),
            r.last_activity == chat.last_activity,
            r.unread_count == chat.unread_count,
            r.is_pinned == chat.is_pinned,
    {
        let last_message = match chat.last_message {
            Some(s) => s,
            None => String::new(),
        };
        Chat {
            jid: chat.jid,
            name: chat.name,
            last_message,
            last_activity: chat.last_activity,
            unread_count: chat.unread_count,
            is_pinned: chat.is_pinned,
        }
    }
}

/// A message in a chat.
#[derive(Debug)]
pub struct ChatMessage {
    pub id: String,
    pub is_from_me: bool,
    pub content: String,
    pub timestamp: Timestamp,
    pub status: MessageStatus,
}

impl Clone for ChatMessage {
    fn clone(&self) -> (r: Self)
        ensures
            r == *self,
    {
        ChatMessage {
            id: self.id.clone(),
            is_from_me: self.is_from_me,
            content: self.content.clone(),
            timestamp: self.timestamp,
            status: self.status,
        }
    }
}

/// `pending_`, the prefix of the local ids of messages not yet acknowledged.
pub open spec fn pending_prefix() -> Seq<char> {
    seq!['p', 'e', 'n', 'd', 'i', 'n', 'g', '_']
}

/// The local id of a message created at `t`: `pending_` and the milliseconds since the epoch.
pub open spec fn pending_id(t: int) -> Seq<char> {
    pending_prefix() + decimal_text(clock::millis_of(t))
}

/// The local id for a message created at `now`.
pub fn pending_id_at(now: Timestamp) -> (r: String)
    ensures
        r@ == pending_id(now as int),
{
    let prefix = string_from(vec!['p', 'e', 'n', 'd', 'i', 'n', 'g', '_']);
    let digits = decimal_string(clock::millis(now));
    concat(prefix.as_str(), digits.as_str())
}

impl ChatMessage {
    /// An outgoing message created at `now` under the given id.
    pub fn new_outgoing_with_id_at(id: String, content: String, now: Timestamp) -> (r: Self)
        ensures
            r.id == id,
            r.is_from_me,
            r.content == content,
            r.timestamp == now,
            r.status == MessageStatus::Pending,
    {
        ChatMessage { id, is_from_me: true, content, timestamp: now, status: MessageStatus::Pending }
    }

    /// An outgoing message created now under the given id.
    pub fn new_outgoing_with_id(id: String, content: String) -> (r: Self)
        ensures
            r.id == id,
            r.is_from_me,
            r.content == content,
            r.status == MessageStatus::Pending,
    {
        Self::new_outgoing_with_id_at(id, content, clock::now())
    }

    /// An outgoing message created now, under a local `pending_` id.
    pub fn new_outgoing(content: String) -> (r: Self)
        ensures
            exists|t: Timestamp| r.id@ == #[trigger] pending_id(t as int),
            r.is_from_me,
            r.content == content,
            r.status == MessageStatus::Pending,
    {
        let id = pending_id_at(clock::now());
        Self::new_outgoing_with_id(id, content)
    }

    /// The model message for a message reported by the service: its content
    /// becomes its preview.
    pub fn from_rpc(msg: rpc::ChatMessage) -> (r: Self)
        ensures
            r.id == msg.id,
            r.is_from_me == msg.is_from_me,
            r.content@ == preview_of(msg.content),
            r.timestamp == msg.timestamp,
            r.status == status_from_rpc(msg.status),
    {
        let content = msg.content.preview();
        ChatMessage {
            id: msg.id,
            is_from_me: msg.is_from_me,
            content,
            timestamp: msg.timestamp,
            status: MessageStatus::from(msg.status),
        }
    }
}

} // verus!
