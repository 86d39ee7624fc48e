//! Application model: the single source of truth for the data that the
//! views render and the controller updates.

pub mod cache;
pub mod chat;
pub mod connection;
pub mod state;

pub use chat::{Chat, ChatMessage, MessageStatus};
pub use connection::{ConnectionState, ViewState};
pub use state::{AppState, TypingState};
