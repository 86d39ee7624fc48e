//! The simplified chats and messages that the chat screen shows, the
//! messages that update it, and its view states.

use vstd::prelude::*;
use crate::clock::Timestamp;
use crate::model::chat::text_or_empty;
use crate::whatsapp::{self, Jid, WhatsAppEvent};
use crate::whatsapp::types::{content_preview, content_previewable};

verus! {

/// Messages that update the chat screen.
pub enum Message {
    SelectChat(Jid),
    InputChanged(String),
    SendMessage,
    WhatsApp(WhatsAppEvent),
    ShowSettings,
    ShowPairing,
    BackToChats,
}

/// A chat as the chat screen shows it.
#[derive(Debug)]
pub struct Chat {
    pub jid: Jid,
    pub name: String,
    pub last_message: String,
    pub unread_count: u32,
    pub is_pinned: bool,
}

impl Clone for Chat {
    fn clone(&self) -> (r: Self)
        ensures
            r == *self,
    {
        Chat {
            jid: self.jid.clone(),
            name: self.name.clone(),
            last_message: self.last_message.clone(),
            unread_count: self.unread_count,
            is_pinned: self.is_pinned,
        }
    }
}

impl Chat {
    /// The chat screen's form of a client chat; a missing last message shows as empty.
    pub fn from_whatsapp(chat: whatsapp::Chat) -> (r: Self)
        ensures
            r.jid == chat.jid,
            r.name == chat.name,
            r.last_message@ == text_or_empty(chat.last_message),
            r.unread_count == chat.unread_count,
            r.is_pinned == chat.is_pinned,
    {
        let last_message = match chat.last_message {
            Some(m) => m,
            None => String::new(),
        };
        Chat {
            jid: chat.jid,
            name: chat.name,
            last_message,
            unread_count: chat.unread_count,
            is_pinned: chat.is_pinned,
        }
    }
}

/// A message as the chat screen shows it: its one-line preview.
#[derive(Debug)]
pub struct ChatMessage {
    pub id: String,
    pub is_me: bool,
    pub content: String,
    pub timestamp: Timestamp,
    pub status: whatsapp::MessageStatus,
}

impl Clone for ChatMessage {
    fn clone(&self) -> (r: Self)
        ensures
            r == *self,
    {
        ChatMessage {
            id: self.id.clone(),
            is_me: self.is_me,
            content: self.content.clone(),
            timestamp: self.timestamp,
            status: self.status,
        }
    }
}

impl ChatMessage {
    /// The chat screen's form of a client message.
    pub fn from_whatsapp(msg: whatsapp::ChatMessage) -> (r: Self)
        requires
            content_previewable(msg.content),
        ensures
            r.id == msg.id,
            r.is_me == msg.is_from_me,
            r.content@ == content_preview(msg.content),
            r.timestamp == msg.timestamp,
            r.status == msg.status,
    {
        let content = msg.content.preview();
        ChatMessage {
            id: msg.id,
            is_me: msg.is_from_me,
            content,
            timestamp: msg.timestamp,
            status: msg.status,
        }
    }
}

/// View state of the application.
#[derive(Debug, Clone, PartialEq, Eq, Structural)]
pub enum ViewState {
    /// Loading or initializing.
    Loading,
    /// Pairing with a QR code is needed.
    Pairing,
    /// The chats.
    Chats,
    /// The settings.
    Settings,
}

impl Default for ViewState {
    fn default() -> (r: Self)
        ensures
            r == ViewState::Loading,
    {
        ViewState::Loading
    }
}

} // verus!
