//! Types shared by the chat screen: its messages, and the simplified chats
//! and messages it shows.

pub mod types;
