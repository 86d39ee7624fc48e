//! The local store: what is kept of chats, messages and contact names, and
//! how the rows read back are turned into chats and messages.

pub mod models;
pub mod queries;
pub mod writer;

pub use models::{status_from_str, status_to_str, StorageCommand, StorageWriter, StoredMessage};
pub use queries::normalize_user_from_jid;
