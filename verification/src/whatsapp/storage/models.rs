//! Records of the local store and the handle of its background writer.

use vstd::prelude::*;
use std::sync::mpsc::Sender;
use crate::text::str_eq;
use crate::whatsapp::types::{Chat, MessageStatus};

verus! {

/// A stored message with all metadata.
#[derive(Debug, Clone)]
pub struct StoredMessage {
    pub message_id: String,
    pub sender_jid: String,
    pub chat_jid: String,
    pub is_from_me: bool,
    pub timestamp_ms: i64,
    pub status: MessageStatus,
    pub raw_message: Vec<u8>,
}

/// Commands for the background writer.
#[derive(Debug)]
pub enum StorageCommand {
    UpsertChat { chat: Chat, raw_conversation: Option<Vec<u8>> },
    UpsertMessage(StoredMessage),
    UpsertContactName { jid: String, name: String },
}

/// The sending half of a standard library channel.
#[verifier::external_type_specification]
#[verifier::external_body]
#[verifier::reject_recursive_types(T)]
pub struct ExStdSender<T>(Sender<T>);

/// `Sender::clone` of the standard library: another sender on the same
/// channel; nothing is stated of the result beyond its type.
pub assume_specification<T>[ <Sender<T> as Clone>::clone ](sender: &Sender<T>) -> Sender<T>;

/// Hands a command to the writer thread with `Sender::send`; a command sent
/// after the writer stopped is dropped.
#[verifier::external_body]
fn send_to_writer(tx: &Sender<StorageCommand>, command: StorageCommand) {
    let _ = tx.send(command);
}

/// Writer handle for storage operations that run in the background.
#[derive(Debug, Clone)]
pub struct StorageWriter {
    tx: Sender<StorageCommand>,
}

impl StorageWriter {
    /// The channel to the writer thread that the handle sends on.
    pub closed spec fn channel(&self) -> Sender<StorageCommand> {
        self.tx
    }

    /// A handle over the channel to the writer thread.
    pub fn new(tx: Sender<StorageCommand>) -> (r: Self)
        ensures
            r.channel() == tx,
    {
        StorageWriter { tx }
    }

    /// Hands any store command to the writer.
    pub fn persist(&self, command: StorageCommand) {
        send_to_writer(&self.tx, command);
    }

    /// Persists a chat.
    pub fn persist_chat(&self, chat: Chat, raw_conversation: Option<Vec<u8>>) {
        send_to_writer(&self.tx, StorageCommand::UpsertChat { chat, raw_conversation });
    }

    /// Persists a message.
    pub fn persist_message(&self, message: StoredMessage) {
        send_to_writer(&self.tx, StorageCommand::UpsertMessage(message));
    }

    /// Persists a contact name mapping.
    pub fn persist_contact_name(&self, jid: String, name: String) {
        send_to_writer(&self.tx, StorageCommand::UpsertContactName { jid, name });
    }
}

pub open spec fn pending_text() -> Seq<char> {
    seq!['p', 'e', 'n', 'd', 'i', 'n', 'g']
}

pub open spec fn sent_text() -> Seq<char> {
    seq!['s', 'e', 'n', 't']
}

pub open spec fn delivered_text() -> Seq<char> {
    seq!['d', 'e', 'l', 'i', 'v', 'e', 'r', 'e', 'd']
}

pub open spec fn read_text() -> Seq<char> {
    seq!['r', 'e', 'a', 'd']
}

pub open spec fn failed_text() -> Seq<char> {
    seq!['f', 'a', 'i', 'l', 'e', 'd']
}

/// How a status is written in the database.
pub open spec fn status_text(status: MessageStatus) -> Seq<char> {
    match status {
        MessageStatus::Pending => pending_text(),
        MessageStatus::Sent => sent_text(),
        MessageStatus::Delivered => delivered_text(),
        MessageStatus::Read => read_text(),
        MessageStatus::Failed => failed_text(),
    }
}

/// The status that a database text stands for; unknown texts read as delivered.
pub open spec fn status_of_text(value: Seq<char>) -> MessageStatus {
    if value == pending_text() {
        MessageStatus::Pending
    } else if value == sent_text() {
        MessageStatus::Sent
    } else if value == delivered_text() {
        MessageStatus::Delivered
    } else if value == read_text() {
        MessageStatus::Read
    } else if value == failed_text() {
        MessageStatus::Failed
    } else {
        MessageStatus::Delivered
    }
}

/// Converts a status to its database text.
pub fn status_to_str(status: MessageStatus) -> (r: &'static str)
    ensures
        r@ == status_text(status),
{
    match status {
        MessageStatus::Pending => {
            proof {
                reveal_strlit("pending");
            }
            "pending"
        },
        MessageStatus::Sent => {
            proof {
                reveal_strlit("sent");
            }
            "sent"
        },
        MessageStatus::Delivered => {
            proof {
                reveal_strlit("delivered");
            }
            "delivered"
        },
        MessageStatus::Read => {
            proof {
                reveal_strlit("read");
            }
            "read"
        },
        MessageStatus::Failed => {
            proof {
                reveal_strlit("failed");
            }
            "failed"
        },
    }
}

/// Parses a status from its database text; unknown texts read as delivered.
pub fn status_from_str(value: &str) -> (r: MessageStatus)
    ensures
        r == status_of_text(value@),
{
    proof {
        reveal_strlit("pending");
        reveal_strlit("sent");
        reveal_strlit("delivered");
        reveal_strlit("read");
        reveal_strlit("failed");
        assert("pending"@ =~= pending_text());
        assert("sent"@ =~= sent_text());
        assert("delivered"@ =~= delivered_text());
        assert("read"@ =~= read_text());
        assert("failed"@ =~= failed_text());
    }
    if str_eq(value, "pending") {
        MessageStatus::Pending
    } else if str_eq(value, "sent") {
        MessageStatus::Sent
    } else if str_eq(value, "delivered") {
        MessageStatus::Delivered
    } else if str_eq(value, "read") {
        MessageStatus::Read
    } else if str_eq(value, "failed") {
        MessageStatus::Failed
    } else {
        MessageStatus::Delivered
    }
}

/// Reading back the text written for a status gives the status.
pub proof fn lemma_status_text_round_trip(status: MessageStatus)
    ensures
        status_of_text(status_text(status)) == status,
{
    assert(pending_text() != sent_text()) by {
        assert(pending_text().len() != sent_text().len());
    }
    assert(pending_text() != delivered_text()) by {
        assert(pending_text().len() != delivered_text().len());
    }
    assert(pending_text() != read_text()) by {
        assert(pending_text().len() != read_text().len());
    }
    assert(pending_text() != failed_text()) by {
        assert(pending_text().len() != failed_text().len());
    }
    assert(sent_text() != delivered_text()) by {
        assert(sent_text().len() != delivered_text().len());
    }
    assert(sent_text() != read_text()) by {
        assert(sent_text()[0] != read_text()[0]);
    }
    assert(sent_text() != failed_text()) by {
        assert(sent_text().len() != failed_text().len());
    }
    assert(delivered_text() != read_text()) by {
        assert(delivered_text().len() != read_text().len());
    }
    assert(delivered_text() != failed_text()) by {
        assert(delivered_text().len() != failed_text().len());
    }
    assert(read_text() != failed_text()) by {
        assert(read_text().len() != failed_text().len());
    }
}

/// Each status is written in the database as its name in lower case, and
/// a text that is none of these names reads as delivered.
pub proof fn lemma_status_texts(status: MessageStatus, other: Seq<char>)
    ensures
        status is Pending ==> status_text(status) == seq!['p', 'e', 'n', 'd', 'i', 'n', 'g'],
        status is Sent ==> status_text(status) == seq!['s', 'e', 'n', 't'],
        status is Delivered ==> status_text(status) == seq!['d', 'e', 'l', 'i', 'v', 'e', 'r', 'e', 'd'],
        status is Read ==> status_text(status) == seq!['r', 'e', 'a', 'd'],
        status is Failed ==> status_text(status) == seq!['f', 'a', 'i', 'l', 'e', 'd'],
        other != seq!['p', 'e', 'n', 'd', 'i', 'n', 'g'] && other != seq!['s', 'e', 'n', 't'] && other != seq![
            'r',
            'e',
            'a',
            'd',
        ] && other != seq!['f', 'a', 'i', 'l', 'e', 'd'] ==> status_of_text(other) == MessageStatus::Delivered,
{
}

} // verus!
