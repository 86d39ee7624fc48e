//! The WhatsApp side of the client: its types, the commands it accepts, the
//! events it emits and the local store it keeps.

pub mod types;
pub mod client;
pub mod events;
pub mod storage;

pub use types::{
    Chat, ChatMessage, ConnectionState, Jid, MessageContent, MessageStatus, Presence, TypingState,
};
pub use client::{Connection, WhatsAppCommand};
pub use events::WhatsAppEvent;
