//! Requests and notifications exchanged between the user interface and the
//! WhatsApp service.

pub mod types;
pub mod client;
pub mod service;

pub use types::{Chat, ChatMessage, ConnectionState, Jid, MessageContent, MessageStatus, Presence, TypingState};
pub use client::{RpcClient, RpcClientHandle};

use vstd::prelude::*;

verus! {

/// Commands from the user interface to the service.
#[derive(Debug, Clone)]
pub enum RpcRequest {
    SendMessage { local_id: String, chat_jid: Jid, text: String },
    SendTyping { chat_jid: Jid, typing: bool },
    MarkAsRead { chat_jid: Jid },
    FetchHistory {
        chat_jid: Jid,
        oldest_msg_id: String,
        oldest_msg_from_me: bool,
        oldest_msg_timestamp_ms: i64,
        count: i32,
    },
    Disconnect,
}

/// Events from the service to the user interface.
#[derive(Debug, Clone)]
pub enum RpcNotification {
    /// The service is running and accepts requests.
    ServiceReady,
    ConnectionStateChanged(ConnectionState),
    QrCodeReceived { qr_code: String },
    PairCodeReceived { code: String },
    Connected,
    Disconnected,
    LoggedOut,
    MessageReceived(ChatMessage),
    MessageSent { local_id: String, message_id: String, chat_jid: Jid },
    MessageSendFailed { local_id: String, chat_jid: Jid, error: String },
    MessageStatusUpdated { message_id: String, chat_jid: Jid, status: MessageStatus },
    ChatsUpdated(Vec<Chat>),
    ChatUpdated(Chat),
    ContactNameUpdated { jid: Jid, name: String },
    TypingIndicator { chat_jid: Jid, sender_jid: Jid, state: TypingState },
    PresenceUpdated(Presence),
    HistorySyncProgress { current: u32, total: u32 },
    HistorySyncCompleted,
    Error(String),
}

} // verus!
