//! Events that the WhatsApp client emits for the user interface.

use vstd::prelude::*;
use crate::whatsapp::client::Connection;
use crate::whatsapp::types::{Chat, ChatMessage, ConnectionState, Jid, MessageStatus, Presence, TypingState};

verus! {

/// Events emitted by the WhatsApp client.
pub enum WhatsAppEvent {
    /// Connection state changed.
    ConnectionStateChanged(ConnectionState),
    /// QR code received for pairing.
    QrCodeReceived { qr_code: String },
    /// Pair code received (alternative to QR).
    PairCodeReceived { code: String },
    /// Paired and connected, with the handle for sending commands.
    Connected(Connection),
    /// Disconnected from WhatsApp.
    Disconnected,
    /// Logged out; pairing is needed again.
    LoggedOut,
    /// New message received.
    MessageReceived(ChatMessage),
    /// Message sent successfully.
    MessageSent { local_id: String, message_id: String, chat_jid: Jid },
    /// Message failed to send.
    MessageSendFailed { local_id: String, chat_jid: Jid, error: String },
    /// Message status updated (delivered, read, ...).
    MessageStatusUpdated { message_id: String, chat_jid: Jid, status: MessageStatus },
    /// All chats replaced.
    ChatsUpdated(Vec<Chat>),
    /// Single chat updated.
    ChatUpdated(Chat),
    /// Contact name metadata updated.
    ContactNameUpdated { jid: Jid, name: String },
    /// Typing indicator received.
    TypingIndicator { chat_jid: Jid, sender_jid: Jid, state: TypingState },
    /// Presence update (online/offline).
    PresenceUpdated(Presence),
    /// History sync progress.
    HistorySyncProgress { current: u32, total: u32 },
    /// History sync completed.
    HistorySyncCompleted,
    /// Error occurred.
    Error(String),
}

} // verus!
